//! The per-tick gameplay systems, and the order in which a tick runs them.
use vstd::prelude::*;
use crate::animation::SpriteAnimation;
use crate::arrows::{arrow_entity, destroy_out_of_map, handle_arrow_spawning, kept_in_map, SPAWN_Y_END, SPAWN_Y_START};
use crate::level::Game;
use crate::glitch_effect::effect_post;
use crate::player::{
    keys_direction, Direction, Player, StepSound, STEP_SPEED_MAX, STEP_SPEED_MIN, STEP_VOLUME_MAX, STEP_VOLUME_MIN,
};
use crate::world::{animated_slot, entity_at, slot_wf, sole_of, sole_player, Entity, EntityId, Kind};

verus! {

/// The held movement keys.
#[derive(Clone, Copy, PartialEq, Eq, Structural, Debug)]
pub struct Keys {
    pub up: bool,
    pub left: bool,
    pub down: bool,
    pub right: bool,
}

/// What a tick asks of the collaborators outside the core.
#[derive(Clone, Copy, PartialEq, Eq, Structural, Debug)]
pub struct TickOutput {
    /// A hazard that entered this tick.
    pub spawned: Option<EntityId>,
    /// A footstep to play.
    pub step: Option<StepSound>,
}

/// The world with the player's animation paused exactly while it stands.
pub open spec fn with_player_paused(s: Seq<Option<Entity>>, paused: bool) -> Seq<Option<Entity>> {
    match sole_player(s) {
        Some(id) => match entity_at(s, id) {
            Some(e) => match e.animation {
                Some(a) => s.update(
                    id.0 as int,
                    Some(Entity { animation: Some(SpriteAnimation { paused, ..a }), ..e }),
                ),
                None => s,
            },
            None => s,
        },
        None => s,
    }
}

/// Everything but the world, the random source and the player is as it was.
pub open spec fn keeps_context(old: Game, new: Game) -> bool {
    &&& new.level == old.level
    &&& new.effect == old.effect
    &&& new.guide == old.guide
    &&& new.screen == old.screen
}

/// The outcome of reading the movement keys.
pub open spec fn input_post(old: Game, keys: Keys, new: Game) -> bool {
    &&& new.player.movement_direction == (if old.player.disable_movement {
        Direction { x: 0, y: 0 }
    } else {
        keys_direction(keys.up, keys.left, keys.down, keys.right)
    })
    &&& new.player.walking_sound_timer == old.player.walking_sound_timer
    &&& new.player.disable_movement == old.player.disable_movement
    &&& new.world == old.world
    &&& new.random == old.random
    &&& keeps_context(old, new)
}

/// The outcome of pausing or running the player's animation.
pub open spec fn player_animation_post(old: Game, new: Game) -> bool {
    &&& new.world@ == with_player_paused(old.world@, old.player.movement_direction.is_zero())
    &&& new.random == old.random
    &&& new.player == old.player
    &&& keeps_context(old, new)
}

/// The outcome of one tick of the hazard spawner, which reported `r`.
pub open spec fn arrow_spawning_post(old: Game, new: Game, r: Option<EntityId>) -> bool {
    &&& sole_of(old.world@, Kind::ArrowSpawner) is None ==> r is None && new.world@ == old.world@ && new.random
        == old.random
    &&& r is None ==> new.world@ == old.world@
    &&& r matches Some(id) ==> {
        &&& sole_of(old.world@, Kind::ArrowSpawner) is Some
        &&& id.0 == old.world@.len()
        &&& exists|y: i64|
            SPAWN_Y_START <= y <= SPAWN_Y_END && new.world@ == old.world@.push(Some(arrow_entity(old.level.0, y)))
    }
    &&& new.player == old.player
    &&& keeps_context(old, new)
}

/// The outcome of the out-of-map sweep.
pub open spec fn out_of_map_post(old: Game, new: Game) -> bool {
    &&& new.world@ == old.world@.map_values(|o: Option<Entity>| kept_in_map(o))
    &&& new.random == old.random
    &&& new.player == old.player
    &&& keeps_context(old, new)
}

/// The outcome of advancing every sprite animation.
pub open spec fn animations_post(old: Game, dt_us: u64, atlas_lens: Seq<usize>, new: Game) -> bool {
    &&& new.world@ == old.world@.map_values(|o: Option<Entity>| animated_slot(o, dt_us, atlas_lens))
    &&& new.random == old.random
    &&& new.player == old.player
    &&& keeps_context(old, new)
}

/// The outcome of advancing the footsteps, which produced `r`.
pub open spec fn footsteps_post(old: Game, dt_us: u64, new: Game, r: Option<StepSound>) -> bool {
    &&& old.player.movement_direction.is_zero() ==> new.player == old.player && r is None
    &&& !old.player.movement_direction.is_zero() ==> {
        &&& new.player == (Player {
            walking_sound_timer: old.player.walking_sound_timer.after(dt_us),
            ..old.player
        })
        &&& (r is Some <==> old.player.walking_sound_timer.completions(dt_us) > 0)
    }
    &&& r matches Some(s) ==> STEP_VOLUME_MIN <= s.volume <= STEP_VOLUME_MAX && STEP_SPEED_MIN <= s.speed
        <= STEP_SPEED_MAX
    &&& r is None ==> new.random == old.random
    &&& new.world == old.world
    &&& keeps_context(old, new)
}

impl Game {
    /// Takes the movement keys for this tick.
    pub fn read_keyboard_input(&mut self, keys: Keys)
        requires
            old(self).wf(),
        ensures
            final(self).wf(),
            input_post(*old(self), keys, *final(self)),
    {
        self.player.read_keyboard_input(keys.up, keys.left, keys.down, keys.right);
    }

    /// Pauses the player's animation while it stands and runs it while it
    /// moves.
    pub fn update_animation(&mut self)
        requires
            old(self).wf(),
        ensures
            final(self).wf(),
            player_animation_post(*old(self), *final(self)),
    {
        let paused = self.player.movement_direction.x == 0 && self.player.movement_direction.y == 0;
        let id = match self.world.sole_player() {
            Some(id) => id,
            None => {
                return;
            },
        };
        let e = match self.world.get(id) {
            Some(e) => e,
            None => {
                return;
            },
        };
        let a = match e.animation {
            Some(a) => a,
            None => {
                return;
            },
        };
        self.world.replace(id.0, Entity { animation: Some(SpriteAnimation { paused, ..a }), ..e });
        proof {
            let s = old(self).world@;
            assert(slot_wf(s[id.0 as int]));
            assert forall|i: int| 0 <= i < self.world@.len() implies slot_wf(#[trigger] self.world@[i]) by {
                if i != id.0 {
                    assert(slot_wf(s[i]));
                }
            }
        }
    }

    /// One tick of the hazard spawner, at the current level's tier.
    pub fn handle_arrow_spawning(&mut self) -> (r: Option<EntityId>)
        requires
            old(self).wf(),
        ensures
            final(self).wf(),
            arrow_spawning_post(*old(self), *final(self), r),
    {
        let r = handle_arrow_spawning(&mut self.world, self.level.0, &mut self.random);
        proof {
            let s = old(self).world@;
            assert forall|i: int| 0 <= i < self.world@.len() implies slot_wf(#[trigger] self.world@[i]) by {
                if i < s.len() {
                    assert(slot_wf(s[i]));
                    assert(self.world@[i] == s[i]);
                }
            }
        }
        r
    }

    /// Removes the hazards that have left the map.
    pub fn destroy_out_of_map(&mut self)
        requires
            old(self).wf(),
        ensures
            final(self).wf(),
            out_of_map_post(*old(self), *final(self)),
    {
        destroy_out_of_map(&mut self.world);
        proof {
            let s = old(self).world@;
            assert forall|i: int| 0 <= i < self.world@.len() implies slot_wf(#[trigger] self.world@[i]) by {
                assert(slot_wf(s[i]));
            }
        }
    }

    /// Advances every sprite animation.
    pub fn update_animations(&mut self, dt_us: u64, atlas_lens: &Vec<usize>)
        requires
            old(self).wf(),
        ensures
            final(self).wf(),
            animations_post(*old(self), dt_us, atlas_lens@, *final(self)),
    {
        self.world.update_animations(dt_us, atlas_lens);
    }

    /// Advances the player's footsteps.
    pub fn play_walking_sound(&mut self, dt_us: u64) -> (r: Option<StepSound>)
        requires
            old(self).wf(),
        ensures
            final(self).wf(),
            footsteps_post(*old(self), dt_us, *final(self), r),
    {
        self.player.play_walking_sound(dt_us, &mut self.random)
    }

    /// One simulation tick, in a fixed order: input, hazard spawning, the
    /// out-of-map sweep, sprite animations, the player's animation, its
    /// footsteps, and the transition effect. Collisions are routed after the
    /// physics step, through `handle_collisions`.
    pub fn tick(&mut self, dt_us: u64, keys: Keys, atlas_lens: &Vec<usize>) -> (r: TickOutput)
        requires
            old(self).wf(),
        ensures
            final(self).wf(),
            exists|g1: Game, g2: Game, g3: Game, g4: Game, g5: Game, g6: Game|
                {
                    &&& input_post(*old(self), keys, g1)
                    &&& arrow_spawning_post(g1, g2, r.spawned)
                    &&& out_of_map_post(g2, g3)
                    &&& animations_post(g3, dt_us, atlas_lens@, g4)
                    &&& player_animation_post(g4, g5)
                    &&& footsteps_post(g5, dt_us, g6, r.step)
                    &&& effect_post(g6, dt_us, *final(self))
                },
    {
        self.read_keyboard_input(keys);
        let ghost g1 = *self;
        let spawned = self.handle_arrow_spawning();
        let ghost g2 = *self;
        self.destroy_out_of_map();
        let ghost g3 = *self;
        self.update_animations(dt_us, atlas_lens);
        let ghost g4 = *self;
        self.update_animation();
        let ghost g5 = *self;
        let step = self.play_walking_sound(dt_us);
        let ghost g6 = *self;
        self.update_glitch_effect(dt_us);
        let r = TickOutput { spawned, step };
        assert(input_post(*old(self), keys, g1) && arrow_spawning_post(g1, g2, r.spawned) && out_of_map_post(g2, g3)
            && animations_post(g3, dt_us, atlas_lens@, g4) && player_animation_post(g4, g5) && footsteps_post(
            g5,
            dt_us,
            g6,
            r.step,
        ) && effect_post(g6, dt_us, *self));
        r
    }
}

} // verus!
