//! Routing of collision-start notifications to the handlers of the entity
//! they were delivered to.
use vstd::prelude::*;
use crate::goal::TIER_LEVEL;
use crate::guide::{ChangeGuideText, GuideMessage};
use crate::level::{new_level_post, transition, Game, LevelRestart, NewLevel};
use crate::wall_block::{despawn_wall_blocks, key_entity, spawn_key, unblocked};
use crate::world::{animations_wf, entity_at, slot_wf, sole_player, without, Entity, EntityId, Kind};

verus! {

/// A collision began: `collider1` is the entity the notification is
/// delivered to, `collider2` the one it met.
#[derive(Clone, Copy, PartialEq, Eq, Structural, Debug)]
pub struct CollisionStart {
    pub collider1: EntityId,
    pub collider2: EntityId,
}

/// The handler that a collision reached.
#[derive(Clone, Copy, PartialEq, Eq, Structural, Debug)]
pub enum Reaction {
    /// A hazard hit the player; the level restarts.
    PlayerHit,
    /// The player entered the hazard warning zone.
    ArrowAreaEntered,
    /// The player reached the goal; the next level begins.
    GoalReached,
    /// The player reached the door; the key appears.
    DoorTriggered,
    /// The player took the key; the door opens.
    KeyCollected,
}

/// The handler, if any, that `ev` reaches: the entity it is delivered to
/// must be alive and exactly one player must live. Hazards, the warning zone
/// and the goal react only when the player is the side that entered; the
/// door trigger and the key react to the player on either side.
pub open spec fn reaction_for(g: Game, ev: CollisionStart) -> Option<Reaction> {
    match (entity_at(g.world@, ev.collider1), sole_player(g.world@)) {
        (Some(t), Some(p)) => {
            let entered = ev.collider2 == p;
            let either = ev.collider1 == p || ev.collider2 == p;
            match t.kind {
                Kind::Arrow => if entered {
                    Some(Reaction::PlayerHit)
                } else {
                    None
                },
                Kind::ArrowArea => if entered {
                    Some(Reaction::ArrowAreaEntered)
                } else {
                    None
                },
                Kind::Goal => if entered && g.level.0 < usize::MAX {
                    Some(Reaction::GoalReached)
                } else {
                    None
                },
                Kind::DoorTrigger => if either {
                    Some(Reaction::DoorTriggered)
                } else {
                    None
                },
                Kind::Key => if either {
                    Some(Reaction::KeyCollected)
                } else {
                    None
                },
                _ => None,
            }
        },
        _ => None,
    }
}

/// Everything but the world and the guide line is as it was.
pub open spec fn keeps_state(old: Game, new: Game) -> bool {
    &&& new.level == old.level
    &&& new.random == old.random
    &&& new.effect == old.effect
    &&& new.screen == old.screen
    &&& new.player == old.player
}

/// The warning matching the hazards of the current level.
pub open spec fn warning(level: usize) -> GuideMessage {
    if level >= TIER_LEVEL {
        GuideMessage::AvoidToasts
    } else {
        GuideMessage::AvoidArrows
    }
}

/// The outcome of routing `ev`, which reached `r`.
pub open spec fn route_post(old: Game, ev: CollisionStart, new: Game, r: Option<Reaction>) -> bool {
    &&& r == reaction_for(old, ev)
    &&& match r {
        None => new.world@ == old.world@ && new.guide == old.guide && keeps_state(old, new),
        Some(Reaction::PlayerHit) => new_level_post(old, old.level.0, new),
        Some(Reaction::ArrowAreaEntered) => {
            &&& new.world@ == without(old.world@, ev.collider1)
            &&& new.guide == warning(old.level.0)
            &&& keeps_state(old, new)
        },
        Some(Reaction::GoalReached) => {
            &&& new.level.0 == old.level.0 + 1
            &&& transition(old, (old.level.0 + 1) as usize, new)
        },
        Some(Reaction::DoorTriggered) => {
            &&& new.world@ == without(old.world@, ev.collider1).push(Some(key_entity()))
            &&& new.guide == GuideMessage::DoorNeedsKey
            &&& keeps_state(old, new)
        },
        Some(Reaction::KeyCollected) => {
            &&& new.world@ == without(old.world@, ev.collider1).map_values(|o| unblocked(o))
            &&& new.guide == GuideMessage::UpAgain
            &&& keeps_state(old, new)
        },
    }
}

impl Game {
    /// Hands one collision to the handler of the entity it was delivered
    /// to. One-shot triggers remove themselves before anything else, so a
    /// later notification for them reaches nothing.
    pub fn route_collision(&mut self, ev: CollisionStart) -> (r: Option<Reaction>)
        requires
            old(self).wf(),
        ensures
            final(self).wf(),
            route_post(*old(self), ev, *final(self), r),
    {
        let target = self.world.get(ev.collider1);
        let player = self.world.sole_player();
        let (t, p) = match (target, player) {
            (Some(t), Some(p)) => (t, p),
            _ => {
                return None;
            },
        };
        let entered = ev.collider2 == p;
        let either = ev.collider1 == p || ev.collider2 == p;
        match t.kind {
            Kind::Arrow => {
                if !entered {
                    return None;
                }
                self.on_restart(LevelRestart);
                Some(Reaction::PlayerHit)
            },
            Kind::ArrowArea => {
                if !entered {
                    return None;
                }
                self.world.despawn(ev.collider1);
                let text = if self.level.0 >= TIER_LEVEL {
                    GuideMessage::AvoidToasts
                } else {
                    GuideMessage::AvoidArrows
                };
                self.change_text(ChangeGuideText(text));
                proof {
                    lemma_without_wf(old(self).world@, ev.collider1);
                }
                Some(Reaction::ArrowAreaEntered)
            },
            Kind::Goal => {
                if !entered || self.level.0 == usize::MAX {
                    return None;
                }
                self.level.0 = self.level.0 + 1;
                let n = self.level.0;
                self.on_new_level(NewLevel(n));
                Some(Reaction::GoalReached)
            },
            Kind::DoorTrigger => {
                if !either {
                    return None;
                }
                self.world.despawn(ev.collider1);
                self.change_text(ChangeGuideText(GuideMessage::DoorNeedsKey));
                spawn_key(&mut self.world);
                proof {
                    lemma_without_wf(old(self).world@, ev.collider1);
                    let w = without(old(self).world@, ev.collider1);
                    assert forall|i: int| 0 <= i < self.world@.len() implies slot_wf(
                        #[trigger] self.world@[i],
                    ) by {
                        if i < w.len() {
                            assert(self.world@[i] == w[i]);
                        }
                    }
                }
                Some(Reaction::DoorTriggered)
            },
            Kind::Key => {
                if !either {
                    return None;
                }
                self.world.despawn(ev.collider1);
                self.change_text(ChangeGuideText(GuideMessage::UpAgain));
                despawn_wall_blocks(&mut self.world);
                proof {
                    lemma_without_wf(old(self).world@, ev.collider1);
                    let w = without(old(self).world@, ev.collider1);
                    assert forall|i: int| 0 <= i < self.world@.len() implies slot_wf(
                        #[trigger] self.world@[i],
                    ) by {
                        assert(slot_wf(w[i]));
                    }
                }
                Some(Reaction::KeyCollected)
            },
            _ => None,
        }
    }

    /// Routes a batch of collisions in order, one after another, and returns
    /// the handler that each reached.
    pub fn handle_collisions(&mut self, events: &Vec<CollisionStart>) -> (r: Vec<Option<Reaction>>)
        requires
            old(self).wf(),
        ensures
            final(self).wf(),
            r@.len() == events@.len(),
            exists|states: Seq<Game>| routed_in_turn(states, events@, r@, *old(self), *final(self)),
    {
        let mut r: Vec<Option<Reaction>> = Vec::new();
        let ghost mut states: Seq<Game> = seq![*self];
        let mut i: usize = 0;
        while i < events.len()
            invariant
                self.wf(),
                0 <= i <= events@.len(),
                r@.len() == i,
                routed_in_turn(states, events@.subrange(0, i as int), r@, *old(self), *self),
            decreases events@.len() - i,
        {
            let ghost before = *self;
            let reaction = self.route_collision(events[i]);
            r.push(reaction);
            proof {
                let prev = states;
                states = states.push(*self);
                let done = events@.subrange(0, i + 1);
                assert forall|j: int| 0 <= j < done.len() implies route_post(
                    #[trigger] states[j],
                    done[j],
                    states[j + 1],
                    r@[j],
                ) by {
                    if j < i {
                        assert(done[j] == events@.subrange(0, i as int)[j]);
                        assert(states[j] == prev[j] && states[j + 1] == prev[j + 1]);
                    }
                }
            }
            i = i + 1;
        }
        assert(events@.subrange(0, i as int) =~= events@);
        r
    }
}

/// `states` runs from `first` to `last`, each step routing the next event
/// to the handler recorded for it.
pub open spec fn routed_in_turn(
    states: Seq<Game>,
    events: Seq<CollisionStart>,
    reactions: Seq<Option<Reaction>>,
    first: Game,
    last: Game,
) -> bool {
    &&& states.len() == events.len() + 1
    &&& reactions.len() == events.len()
    &&& states[0] == first
    &&& states[events.len() as int] == last
    &&& forall|j: int|
        0 <= j < events.len() ==> route_post(#[trigger] states[j], events[j], states[j + 1], reactions[j])
}

/// Removing an entity keeps every remaining animation well formed.
proof fn lemma_without_wf(s: Seq<Option<Entity>>, id: EntityId)
    requires
        animations_wf(s),
    ensures
        animations_wf(without(s, id)),
{
    let w = without(s, id);
    assert forall|i: int| 0 <= i < w.len() implies slot_wf(#[trigger] w[i]) by {
        assert(slot_wf(s[i]));
    }
}

} // verus!
