//! The simulation context and the level transition controller.
use vstd::prelude::*;
use crate::arrows::{arrow_content, spawn_arrow_spawner};
use crate::environment::{environment_len, is_environment, spawn_environment};
use crate::glitch_effect::{GlitchEffect, SpawnGlitchEffect};
use crate::goal::{goal_entity, spawn_goal};
use crate::guide::{ChangeGuideText, GuideMessage};
use crate::player::{fresh_player, player_entity, spawn_player, Player};
use crate::random::RandomSource;
use crate::wall_block::{door_content, spawn};
use crate::world::{animations_wf, slot_wf, swept, Entity, World};

verus! {

/// Reaching this level wakes the cat: the game is won.
pub const WAKE_UP_LEVEL: usize = 2;

/// The current level.
#[derive(Clone, Copy, PartialEq, Eq, Structural, Debug)]
pub struct LevelNumber(pub usize);

/// Enter level `n`.
#[derive(Clone, Copy, PartialEq, Eq, Structural, Debug)]
pub struct NewLevel(pub usize);

/// Replay the current level.
#[derive(Clone, Copy, PartialEq, Eq, Structural, Debug)]
pub struct LevelRestart;

/// The application mode.
#[derive(Clone, Copy, PartialEq, Eq, Structural, Debug)]
pub enum Screen {
    Gameplay,
    Victory,
}

/// Everything a system reads or changes: the entities, the level counter,
/// the random source, the transition effect slot, the guide line, the mode
/// and the player's control state.
pub struct Game {
    pub world: World,
    pub level: LevelNumber,
    pub random: RandomSource,
    pub effect: Option<GlitchEffect>,
    pub guide: GuideMessage,
    pub screen: Screen,
    pub player: Player,
}

/// What the per-level spawners add besides the environment: the player,
/// the goal, the hazards and the locked door.
pub open spec fn fixed_content(n: usize) -> Seq<Option<Entity>> {
    seq![Some(player_entity()), Some(goal_entity(n))] + arrow_content(n) + door_content(n)
}

pub open spec fn level_len(n: usize) -> int {
    environment_len() + fixed_content(n).len()
}

/// `c` is what the spawners add for level `n`.
pub open spec fn is_level_content(n: usize, c: Seq<Option<Entity>>) -> bool {
    &&& c.len() == level_len(n)
    &&& is_environment(c.subrange(0, environment_len()))
    &&& c.subrange(environment_len(), c.len() as int) == fixed_content(n)
}

/// `after` is `before` with its tagged entities swept and then, unless `n`
/// is the winning level, the content of level `n` spawned after them.
pub open spec fn rebuilt(before: Seq<Option<Entity>>, n: usize, after: Seq<Option<Entity>>) -> bool {
    if n == WAKE_UP_LEVEL {
        after == swept(before)
    } else {
        &&& after.len() == before.len() + level_len(n)
        &&& after.subrange(0, before.len() as int) == swept(before)
        &&& is_level_content(n, after.subrange(before.len() as int, after.len() as int))
    }
}

/// What a transition to level `n` does, the level counter aside.
pub open spec fn transition(old: Game, n: usize, new: Game) -> bool {
    &&& new.guide == GuideMessage::Intro
    &&& rebuilt(old.world@, n, new.world@)
    &&& new.effect == (if n > 0 {
        Some(GlitchEffect { elapsed_us: 0 })
    } else {
        old.effect
    })
    &&& if n == WAKE_UP_LEVEL {
        &&& new.screen == Screen::Victory
        &&& new.player == old.player
    } else {
        &&& new.screen == old.screen
        &&& new.player == fresh_player()
    }
}

/// The outcome of `NewLevel(n)`: a transition, with the counter untouched.
pub open spec fn new_level_post(old: Game, n: usize, new: Game) -> bool {
    transition(old, n, new) && new.level == old.level
}

impl Game {
    pub open spec fn wf(&self) -> bool {
        animations_wf(self.world@) && self.player.wf()
    }

    /// A game at level 0 with an empty world, in gameplay mode.
    pub fn new(seed: u64) -> (r: Game)
        ensures
            r.wf(),
            r.world@ == Seq::<Option<Entity>>::empty(),
            r.level == LevelNumber(0),
            r.effect is None,
            r.guide == GuideMessage::Intro,
            r.screen == Screen::Gameplay,
            r.player == fresh_player(),
    {
        Game {
            world: World::new(),
            level: LevelNumber(0),
            random: RandomSource::new(seed),
            effect: None,
            guide: GuideMessage::Intro,
            screen: Screen::Gameplay,
            player: Player::new(),
        }
    }

    /// Shows another guide line.
    pub fn change_text(&mut self, event: ChangeGuideText)
        ensures
            final(self).guide == event.0,
            final(self).world == old(self).world,
            final(self).level == old(self).level,
            final(self).random == old(self).random,
            final(self).effect == old(self).effect,
            final(self).screen == old(self).screen,
            final(self).player == old(self).player,
    {
        self.guide = event.0;
    }

    /// Starts the transition effect from its beginning.
    pub fn spawn_glitch_effect(&mut self, _event: SpawnGlitchEffect)
        ensures
            final(self).effect == Some(GlitchEffect { elapsed_us: 0 }),
            final(self).world == old(self).world,
            final(self).level == old(self).level,
            final(self).random == old(self).random,
            final(self).guide == old(self).guide,
            final(self).screen == old(self).screen,
            final(self).player == old(self).player,
    {
        self.effect = Some(GlitchEffect { elapsed_us: 0 });
    }

    /// Runs the transition to level `n`: the winning level switches to the
    /// victory mode; every level but the first starts the transition effect; the guide
    /// line is reset; every tagged entity is destroyed; then, unless the game
    /// is won, the environment, player, goal, hazard and door spawners run in
    /// that order.
    pub fn on_new_level(&mut self, event: NewLevel)
        requires
            old(self).wf(),
        ensures
            final(self).wf(),
            new_level_post(*old(self), event.0, *final(self)),
    {
        let n = event.0;
        if n == WAKE_UP_LEVEL {
            self.screen = Screen::Victory;
        }
        if n > 0 {
            self.spawn_glitch_effect(SpawnGlitchEffect);
        }
        self.change_text(ChangeGuideText(GuideMessage::Intro));
        self.world.despawn_tagged();
        if n == WAKE_UP_LEVEL {
            return;
        }
        let ghost cleared = self.world@;
        spawn_environment(&mut self.world, &mut self.random);
        let ghost with_env = self.world@;
        spawn_player(&mut self.world);
        self.player = Player::new();
        spawn_goal(&mut self.world, n);
        spawn_arrow_spawner(&mut self.world, n);
        spawn(&mut self.world, n);
        proof {
            let len0 = cleared.len() as int;
            let env = environment_len();
            assert(self.world@ =~= with_env + fixed_content(n));
            let c = self.world@.subrange(len0, self.world@.len() as int);
            assert(c.subrange(0, env) =~= with_env.subrange(len0, with_env.len() as int));
            assert(c.subrange(env, c.len() as int) =~= fixed_content(n));
            assert(self.world@.subrange(0, len0) =~= with_env.subrange(0, len0));
            lemma_level_content_wf(n, c);
            assert forall|i: int| 0 <= i < self.world@.len() implies slot_wf(#[trigger] self.world@[i]) by {
                if i < len0 {
                    assert(self.world@[i] == with_env.subrange(0, len0)[i]);
                    assert(cleared[i] == swept(old(self).world@)[i]);
                    assert(slot_wf(old(self).world@[i]));
                } else {
                    assert(self.world@[i] == c[i - len0]);
                }
            }
        }
    }

    /// Replays the current level: `NewLevel` with the current level number.
    pub fn on_restart(&mut self, _event: LevelRestart)
        requires
            old(self).wf(),
        ensures
            final(self).wf(),
            new_level_post(*old(self), old(self).level.0, *final(self)),
    {
        let n = self.level.0;
        self.on_new_level(NewLevel(n));
    }

    /// Leaves the victory mode and starts a new game: the counter goes back
    /// to the first level, which is then entered.
    pub fn on_restart_click(&mut self)
        requires
            old(self).wf(),
        ensures
            final(self).wf(),
            final(self).screen == Screen::Gameplay,
            final(self).level == LevelNumber(0),
            final(self).guide == GuideMessage::Intro,
            final(self).effect == old(self).effect,
            final(self).player == fresh_player(),
            rebuilt(old(self).world@, 0, final(self).world@),
    {
        self.screen = Screen::Gameplay;
        self.level = LevelNumber(0);
        self.trigger_first_level();
    }

    /// Starts play: `NewLevel(0)`.
    pub fn trigger_first_level(&mut self)
        requires
            old(self).wf(),
        ensures
            final(self).wf(),
            new_level_post(*old(self), 0, *final(self)),
    {
        self.on_new_level(NewLevel(0));
    }
}

/// Level content carries only well-formed animations.
proof fn lemma_level_content_wf(n: usize, c: Seq<Option<Entity>>)
    requires
        is_level_content(n, c),
    ensures
        forall|i: int| 0 <= i < c.len() ==> slot_wf(#[trigger] c[i]),
{
    let env = environment_len();
    assert forall|i: int| 0 <= i < c.len() implies slot_wf(#[trigger] c[i]) by {
        if i < env {
            let e = c.subrange(0, env);
            assert(c[i] == e[i]);
            if 2 <= i < 202 {
                assert(crate::environment::is_stone(e[i]));
            } else if i >= 202 {
                assert(e[i] == e.subrange(202, env)[i - 202]);
            }
        } else {
            assert(c[i] == c.subrange(env, c.len() as int)[i - env]);
            assert(c[i] == fixed_content(n)[i - env]);
        }
    }
}

} // verus!
