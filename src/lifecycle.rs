//! What level transitions and collision routing guarantee across calls.
use vstd::prelude::*;
use crate::animation::{frame_after_whole_periods, run_animation, total_time, SpriteAnimation};
use crate::arrows::{is_out_of_map, kept_in_map};
use crate::collisions::{route_post, routed_in_turn, CollisionStart, Reaction};
use crate::environment::{environment_len, is_stone};
use crate::level::{is_level_content, new_level_post, rebuilt, transition, Game, Screen, WAKE_UP_LEVEL};
use crate::systems::out_of_map_post;
use crate::wall_block::unblocked;
use crate::world::{
    animated_slot, census, entity_at, layout_len, sole_player, swept, swept_slot, without, Entity, EntityId, Kind,
};

verus! {

/// The kinds of the live entities, in slot order.
pub open spec fn live_kinds(c: Seq<Option<Kind>>) -> Seq<Kind>
    decreases c.len(),
{
    if c.len() == 0 {
        Seq::empty()
    } else {
        live_kinds(c.drop_last()) + match c.last() {
            Some(k) => seq![k],
            None => Seq::<Kind>::empty(),
        }
    }
}

/// Every live entity carries the transition tag.
pub open spec fn all_tagged(s: Seq<Option<Entity>>) -> bool {
    forall|i: int| 0 <= i < s.len() ==> (#[trigger] s[i] matches Some(e) ==> e.destroy_on_new_level)
}

/// A transition to any level leaves alive no entity that carried the
/// transition tag before it.
pub proof fn no_tagged_entity_survives(old: Game, n: usize, new: Game)
    requires
        new_level_post(old, n, new),
    ensures
        forall|id: EntityId|
            (#[trigger] entity_at(old.world@, id) matches Some(e) && e.destroy_on_new_level) ==> entity_at(
                new.world@,
                id,
            ) is None,
{
    let s = old.world@;
    assert forall|id: EntityId|
        (#[trigger] entity_at(s, id) matches Some(e) && e.destroy_on_new_level) implies entity_at(
        new.world@,
        id,
    ) is None by {
        let i = id.0 as int;
        assert(swept(s)[i] == swept_slot(s[i]));
        if n != WAKE_UP_LEVEL {
            assert(new.world@[i] == new.world@.subrange(0, s.len() as int)[i]);
        }
    }
}

proof fn lemma_live_kinds_append(a: Seq<Option<Kind>>, b: Seq<Option<Kind>>)
    ensures
        live_kinds(a + b) == live_kinds(a) + live_kinds(b),
    decreases b.len(),
{
    if b.len() == 0 {
        assert(a + b =~= a);
        assert(live_kinds(a) + live_kinds(b) =~= live_kinds(a));
    } else {
        lemma_live_kinds_append(a, b.drop_last());
        assert((a + b).drop_last() =~= a + b.drop_last());
        assert((a + b).last() == b.last());
        let tail = match b.last() {
            Some(k) => seq![k],
            None => Seq::<Kind>::empty(),
        };
        assert(live_kinds(a) + live_kinds(b.drop_last()) + tail =~= live_kinds(a) + (live_kinds(b.drop_last())
            + tail));
    }
}

proof fn lemma_swept_tagged_is_empty(s: Seq<Option<Entity>>)
    requires
        all_tagged(s),
    ensures
        live_kinds(census(swept(s))) == Seq::<Kind>::empty(),
    decreases s.len(),
{
    if s.len() > 0 {
        let p = s.drop_last();
        assert(all_tagged(p)) by {
            assert forall|i: int| 0 <= i < p.len() implies (#[trigger] p[i] matches Some(e)
                ==> e.destroy_on_new_level) by {
                assert(p[i] == s[i]);
            }
        }
        lemma_swept_tagged_is_empty(p);
        assert(census(swept(s)).drop_last() =~= census(swept(p)));
        assert(s[s.len() - 1] matches Some(e) ==> e.destroy_on_new_level);
        assert(census(swept(s)).last() is None);
    } else {
        assert(census(swept(s)).len() == 0);
    }
}

proof fn lemma_level_census(n: usize, c1: Seq<Option<Entity>>, c2: Seq<Option<Entity>>)
    requires
        is_level_content(n, c1),
        is_level_content(n, c2),
    ensures
        census(c1) == census(c2),
{
    let env = environment_len();
    assert forall|i: int| 0 <= i < c1.len() implies census(c1)[i] == census(c2)[i] by {
        if i < env {
            let e1 = c1.subrange(0, env);
            let e2 = c2.subrange(0, env);
            assert(c1[i] == e1[i] && c2[i] == e2[i]);
            if 2 <= i < 202 {
                assert(is_stone(e1[i]) && is_stone(e2[i]));
            } else if i >= 202 {
                assert(e1[i] == e1.subrange(202, env)[i - 202]);
                assert(e2[i] == e2.subrange(202, env)[i - 202]);
            }
        } else {
            assert(c1[i] == c1.subrange(env, c1.len() as int)[i - env]);
            assert(c2[i] == c2.subrange(env, c2.len() as int)[i - env]);
        }
    }
    assert(census(c1) =~= census(c2));
}

proof fn lemma_rebuilt_kinds(before: Seq<Option<Entity>>, n: usize, after: Seq<Option<Entity>>)
    requires
        rebuilt(before, n, after),
        all_tagged(before),
        n != WAKE_UP_LEVEL,
    ensures
        live_kinds(census(after)) == live_kinds(census(after.subrange(before.len() as int, after.len() as int))),
{
    let k = before.len() as int;
    let a = after.subrange(0, k);
    let b = after.subrange(k, after.len() as int);
    assert(after =~= a + b);
    assert(census(after) =~= census(a) + census(b));
    lemma_live_kinds_append(census(a), census(b));
    lemma_swept_tagged_is_empty(before);
    assert(live_kinds(census(a)) + live_kinds(census(b)) =~= live_kinds(census(b)));
}

/// Restarting at level `n` leaves the counter at `n` and yields the same
/// live entity kinds, in the same order, as entering level `n` afresh from
/// any world whose entities all belong to a level.
pub proof fn restart_replays_level(before_restart: Game, restarted: Game, before_entry: Game, entered: Game)
    requires
        new_level_post(before_restart, before_restart.level.0, restarted),
        new_level_post(before_entry, before_restart.level.0, entered),
        all_tagged(before_restart.world@),
        all_tagged(before_entry.world@),
    ensures
        restarted.level == before_restart.level,
        restarted.guide == entered.guide,
        live_kinds(census(restarted.world@)) == live_kinds(census(entered.world@)),
{
    let n = before_restart.level.0;
    if n == WAKE_UP_LEVEL {
        lemma_swept_tagged_is_empty(before_restart.world@);
        lemma_swept_tagged_is_empty(before_entry.world@);
    } else {
        lemma_rebuilt_kinds(before_restart.world@, n, restarted.world@);
        lemma_rebuilt_kinds(before_entry.world@, n, entered.world@);
        lemma_level_census(
            n,
            restarted.world@.subrange(before_restart.world@.len() as int, restarted.world@.len() as int),
            entered.world@.subrange(before_entry.world@.len() as int, entered.world@.len() as int),
        );
    }
}

/// Routing a collision never shrinks the arena.
proof fn lemma_route_keeps_slots(old: Game, ev: CollisionStart, new: Game, r: Option<Reaction>)
    requires
        route_post(old, ev, new, r),
    ensures
        new.world@.len() >= old.world@.len(),
{
}

/// Once removed during a batch, an entity stays removed for the rest of it.
proof fn lemma_stays_removed_in_batch(
    states: Seq<Game>,
    events: Seq<CollisionStart>,
    reactions: Seq<Option<Reaction>>,
    first: Game,
    last: Game,
    id: EntityId,
    from: int,
    to: int,
)
    requires
        routed_in_turn(states, events, reactions, first, last),
        0 <= from <= to <= events.len(),
        id.0 < states[from].world@.len(),
        entity_at(states[from].world@, id) is None,
    ensures
        id.0 < states[to].world@.len(),
        entity_at(states[to].world@, id) is None,
    decreases to - from,
{
    if from < to {
        assert(route_post(states[from], events[from], states[from + 1], reactions[from]));
        lemma_route_keeps_slots(states[from], events[from], states[from + 1], reactions[from]);
        removed_entity_stays_removed(states[from], events[from], states[from + 1], reactions[from], id);
        lemma_stays_removed_in_batch(states, events, reactions, first, last, id, from + 1, to);
    }
}

/// Within a batch routed in turn, a trigger that removes itself when it
/// fires reaches its handler at most once, however many notifications are
/// delivered to it.
pub proof fn one_shot_trigger_fires_once_per_batch(
    states: Seq<Game>,
    events: Seq<CollisionStart>,
    reactions: Seq<Option<Reaction>>,
    first: Game,
    last: Game,
    j: int,
    k: int,
)
    requires
        routed_in_turn(states, events, reactions, first, last),
        0 <= j < k < events.len(),
        events[k].collider1 == events[j].collider1,
        reactions[j] == Some(Reaction::ArrowAreaEntered) || reactions[j] == Some(Reaction::DoorTriggered)
            || reactions[j] == Some(Reaction::KeyCollected),
    ensures
        reactions[k] is None,
{
    let id = events[j].collider1;
    let g0 = states[j];
    let g1 = states[j + 1];
    assert(route_post(g0, events[j], g1, reactions[j]));
    lemma_route_keeps_slots(g0, events[j], g1, reactions[j]);
    assert(entity_at(g1.world@, id) is None) by {
        if reactions[j] == Some(Reaction::KeyCollected) {
            let w = without(g0.world@, id);
            assert(g1.world@[id.0 as int] == unblocked(w[id.0 as int]));
        }
    }
    lemma_stays_removed_in_batch(states, events, reactions, first, last, id, j + 1, k);
    assert(route_post(states[k], events[k], states[k + 1], reactions[k]));
}

/// A collision never brings back an entity that was removed: identifiers
/// are not reused.
pub proof fn removed_entity_stays_removed(old: Game, ev: CollisionStart, new: Game, r: Option<Reaction>, id: EntityId)
    requires
        route_post(old, ev, new, r),
        id.0 < old.world@.len(),
        entity_at(old.world@, id) is None,
    ensures
        entity_at(new.world@, id) is None,
{
    let s = old.world@;
    let i = id.0 as int;
    if i < s.len() {
        assert(swept(s)[i] == swept_slot(s[i]));
        match r {
            Some(Reaction::PlayerHit) => {
                if s.len() > 0 && old.level.0 != WAKE_UP_LEVEL {
                    assert(new.world@[i] == new.world@.subrange(0, s.len() as int)[i]);
                }
            },
            Some(Reaction::GoalReached) => {
                if (old.level.0 + 1) as usize != WAKE_UP_LEVEL {
                    assert(new.world@[i] == new.world@.subrange(0, s.len() as int)[i]);
                }
            },
            Some(Reaction::DoorTriggered) => {
                let w = without(s, ev.collider1);
                assert(new.world@[i] == w[i]);
            },
            Some(Reaction::KeyCollected) => {
                let w = without(s, ev.collider1);
                assert(new.world@[i] == unblocked(w[i]));
            },
            _ => {},
        }
    }
}

/// A trigger that removes itself when it fires does not fire again: a
/// second notification delivered to it reaches nothing and changes nothing.
pub proof fn one_shot_trigger_fires_once(
    g0: Game,
    first: CollisionStart,
    g1: Game,
    r1: Option<Reaction>,
    second: CollisionStart,
    g2: Game,
    r2: Option<Reaction>,
)
    requires
        route_post(g0, first, g1, r1),
        route_post(g1, second, g2, r2),
        second.collider1 == first.collider1,
        r1 == Some(Reaction::ArrowAreaEntered) || r1 == Some(Reaction::DoorTriggered) || r1 == Some(
            Reaction::KeyCollected,
        ),
    ensures
        r2 is None,
        g2.world@ == g1.world@,
        g2.guide == g1.guide,
        g2.level == g1.level,
{
    let i = first.collider1.0 as int;
    assert(entity_at(g1.world@, first.collider1) is None) by {
        if r1 == Some(Reaction::KeyCollected) {
            let w = without(g0.world@, first.collider1);
            assert(g1.world@[i] == unblocked(w[i]));
        }
    }
}

/// When the player enters the goal, the counter goes up by one and the next
/// level is entered; entering the winning level switches to the victory
/// mode and spawns no level content.
pub proof fn reaching_goal_enters_next_level(g0: Game, ev: CollisionStart, g1: Game, r: Option<Reaction>)
    requires
        route_post(g0, ev, g1, r),
        entity_at(g0.world@, ev.collider1) matches Some(t) && t.kind == Kind::Goal,
        sole_player(g0.world@) == Some(ev.collider2),
        g0.level.0 < usize::MAX,
    ensures
        r == Some(Reaction::GoalReached),
        g1.level.0 == g0.level.0 + 1,
        transition(g0, g1.level.0, g1),
        g1.level.0 == WAKE_UP_LEVEL ==> g1.screen == Screen::Victory && g1.world@ == swept(g0.world@),
        g1.level.0 != WAKE_UP_LEVEL ==> is_level_content(
            g1.level.0,
            g1.world@.subrange(g0.world@.len() as int, g1.world@.len() as int),
        ),
{
}

/// When a hazard hits the player the current level restarts: the counter
/// stays where it was.
pub proof fn hazard_hit_restarts_level(g0: Game, ev: CollisionStart, g1: Game, r: Option<Reaction>)
    requires
        route_post(g0, ev, g1, r),
        entity_at(g0.world@, ev.collider1) matches Some(t) && t.kind == Kind::Arrow,
        sole_player(g0.world@) == Some(ev.collider2),
    ensures
        r == Some(Reaction::PlayerHit),
        g1.level == g0.level,
        new_level_post(g0, g0.level.0, g1),
{
}

/// The kinds a level's spawners add, in order: the road, the move hint, the
/// stones and the four walls; the player and the goal; from level 1 the
/// hazard spawner and its warning zone; from level 2 the wall, its door and
/// the door trigger.
pub open spec fn level_kinds(n: usize) -> Seq<Kind> {
    seq![Kind::Road, Kind::MoveHint] + Seq::new(200, |i: int| Kind::Stone) + seq![
        Kind::Wall,
        Kind::Wall,
        Kind::Wall,
        Kind::Wall,
        Kind::Player,
        Kind::Goal,
    ] + (if n >= 1 {
        seq![Kind::ArrowSpawner, Kind::ArrowArea]
    } else {
        Seq::empty()
    }) + (if n >= 2 {
        seq![Kind::WallBlock, Kind::Door, Kind::DoorTrigger]
    } else {
        Seq::empty()
    })
}

proof fn lemma_live_kinds_all_live(ks: Seq<Kind>)
    ensures
        live_kinds(ks.map_values(|k: Kind| Some(k))) == ks,
    decreases ks.len(),
{
    if ks.len() > 0 {
        let p = ks.drop_last();
        lemma_live_kinds_all_live(p);
        assert(ks.map_values(|k: Kind| Some(k)).drop_last() =~= p.map_values(|k: Kind| Some(k)));
        assert(p + seq![ks.last()] =~= ks);
    } else {
        assert(ks.map_values(|k: Kind| Some(k)).len() == 0);
        assert(ks =~= Seq::<Kind>::empty());
    }
}

proof fn lemma_level_content_kinds(n: usize, c: Seq<Option<Entity>>)
    requires
        is_level_content(n, c),
    ensures
        live_kinds(census(c)) == level_kinds(n),
{
    let env = environment_len();
    let ks = level_kinds(n);
    let f = c.subrange(env, c.len() as int);
    assert(ks.len() == c.len());
    assert forall|i: int| 0 <= i < c.len() implies census(c)[i] == Some(ks[i]) by {
        if i < env {
            let e = c.subrange(0, env);
            assert(c[i] == e[i]);
            if 2 <= i < 202 {
                assert(is_stone(e[i]));
            } else if i >= 202 {
                assert(e[i] == e.subrange(202, env)[i - 202]);
            }
        } else {
            assert(c[i] == f[i - env]);
        }
    }
    assert(census(c) =~= ks.map_values(|k: Kind| Some(k)));
    lemma_live_kinds_all_live(ks);
}

/// After a transition to any level but the winning one, the live entities
/// are the untagged survivors, in order, followed by exactly the kinds the
/// level's spawners add; after the winning level only the survivors remain.
pub proof fn transition_spawns_level_kinds(old: Game, n: usize, new: Game)
    requires
        transition(old, n, new),
    ensures
        n != WAKE_UP_LEVEL ==> live_kinds(census(new.world@)) == live_kinds(census(swept(old.world@))) + level_kinds(
            n,
        ),
        n == WAKE_UP_LEVEL ==> live_kinds(census(new.world@)) == live_kinds(census(swept(old.world@))),
{
    if n != WAKE_UP_LEVEL {
        let k = old.world@.len() as int;
        let a = new.world@.subrange(0, k);
        let b = new.world@.subrange(k, new.world@.len() as int);
        assert(new.world@ =~= a + b);
        assert(census(new.world@) =~= census(a) + census(b));
        lemma_live_kinds_append(census(a), census(b));
        lemma_level_content_kinds(n, b);
    }
}

/// Restarting at level `n` and entering level `n` from the same game give
/// the same counter and the same kind in every slot.
pub proof fn restart_matches_new_level(before: Game, restarted: Game, entered: Game)
    requires
        new_level_post(before, before.level.0, restarted),
        new_level_post(before, before.level.0, entered),
    ensures
        restarted.level == before.level,
        entered.level == before.level,
        census(restarted.world@) == census(entered.world@),
        restarted.guide == entered.guide,
        restarted.effect == entered.effect,
        restarted.screen == entered.screen,
        restarted.player == entered.player,
{
    let n = before.level.0;
    if n != WAKE_UP_LEVEL {
        let k = before.world@.len() as int;
        let r = restarted.world@;
        let e = entered.world@;
        lemma_level_census(n, r.subrange(k, r.len() as int), e.subrange(k, e.len() as int));
        assert forall|i: int| 0 <= i < r.len() implies census(r)[i] == census(e)[i] by {
            if i < k {
                assert(r[i] == r.subrange(0, k)[i] && e[i] == e.subrange(0, k)[i]);
            } else {
                assert(r[i] == r.subrange(k, r.len() as int)[i - k]);
                assert(e[i] == e.subrange(k, e.len() as int)[i - k]);
                assert(census(r.subrange(k, r.len() as int))[i - k] == census(e.subrange(k, e.len() as int))[i
                    - k]);
            }
        }
        assert(census(r) =~= census(e));
    }
}

/// After the out-of-map sweep of a tick no hazard lies beyond the margin;
/// the sweep removes nothing else.
pub proof fn sweep_leaves_no_hazard_out_of_map(before: Game, after: Game)
    requires
        out_of_map_post(before, after),
    ensures
        after.world@.len() == before.world@.len(),
        forall|i: int| 0 <= i < after.world@.len() ==> !is_out_of_map(#[trigger] after.world@[i]),
        forall|i: int|
            0 <= i < before.world@.len() && !is_out_of_map(before.world@[i]) ==> #[trigger] after.world@[i]
                == before.world@[i],
{
    assert forall|i: int| 0 <= i < after.world@.len() implies !is_out_of_map(#[trigger] after.world@[i]) by {
        assert(after.world@[i] == kept_in_map(before.world@[i]));
    }
}

/// A batch of notifications all delivered to one live warning zone, door
/// trigger or key, the first with the sole player as the side that met it,
/// reaches the handler exactly once: at the first notification.
pub proof fn one_shot_trigger_fires_exactly_once(
    states: Seq<Game>,
    events: Seq<CollisionStart>,
    reactions: Seq<Option<Reaction>>,
    first: Game,
    last: Game,
)
    requires
        routed_in_turn(states, events, reactions, first, last),
        events.len() >= 1,
        forall|i: int| 0 <= i < events.len() ==> (#[trigger] events[i]).collider1 == events[0].collider1,
        entity_at(first.world@, events[0].collider1) matches Some(t) && (t.kind == Kind::ArrowArea || t.kind
            == Kind::DoorTrigger || t.kind == Kind::Key),
        sole_player(first.world@) == Some(events[0].collider2),
    ensures
        reactions[0] is Some,
        forall|k: int| 1 <= k < events.len() ==> (#[trigger] reactions[k]) is None,
{
    assert(route_post(states[0], events[0], states[1], reactions[0]));
    assert forall|k: int| 1 <= k < events.len() implies (#[trigger] reactions[k]) is None by {
        assert(events[k].collider1 == events[0].collider1);
        one_shot_trigger_fires_once_per_batch(states, events, reactions, first, last, 0, k);
    }
}

/// A slot after a run of world-wide animation updates, one per duration.
pub open spec fn run_slot(o: Option<Entity>, dts: Seq<u64>, atlas_lens: Seq<usize>) -> Option<Entity>
    decreases dts.len(),
{
    if dts.len() == 0 {
        o
    } else {
        animated_slot(run_slot(o, dts.drop_last(), atlas_lens), dts.last(), atlas_lens)
    }
}

proof fn lemma_run_slot(e: Entity, a: SpriteAnimation, dts: Seq<u64>, atlas_lens: Seq<usize>)
    requires
        e.animation == Some(a),
    ensures
        run_slot(Some(e), dts, atlas_lens) == Some(
            Entity { animation: Some(run_animation(a, dts, layout_len(a, atlas_lens))), ..e },
        ),
        run_animation(a, dts, layout_len(a, atlas_lens)).frames == a.frames,
    decreases dts.len(),
{
    if dts.len() > 0 {
        lemma_run_slot(e, a, dts.drop_last(), atlas_lens);
    }
}

/// A running sprite that starts at its first frame with a fresh timer shows,
/// after world-wide animation updates whose durations add up to `k` whole
/// periods, frame `k` modulo its frame count.
pub proof fn sprite_frame_after_whole_periods(
    e: Entity,
    a: SpriteAnimation,
    dts: Seq<u64>,
    atlas_lens: Seq<usize>,
    k: nat,
)
    requires
        e.animation == Some(a),
        a.wf(),
        !a.paused,
        a.index == 0,
        a.timer.elapsed_us == 0,
        a.frame_count(layout_len(a, atlas_lens)) >= 1,
        total_time(dts) == k * a.timer.period_us,
    ensures
        run_slot(Some(e), dts, atlas_lens) matches Some(f) && (f.animation matches Some(b) && b.index as int == (
        k as int) % (a.frame_count(layout_len(a, atlas_lens)) as int)),
{
    lemma_run_slot(e, a, dts, atlas_lens);
    frame_after_whole_periods(a, dts, layout_len(a, atlas_lens), k);
}

} // verus!
