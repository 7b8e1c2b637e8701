//! The transition effect: a timed overlay that holds the player still.
use vstd::prelude::*;
use crate::level::Game;
use crate::player::Player;
use crate::world::sole_player;

verus! {

/// How long the transition effect runs.
pub const EFFECT_DURATION_US: u64 = 1_500_000;

/// Start the transition effect.
#[derive(Clone, Copy, PartialEq, Eq, Structural, Debug)]
pub struct SpawnGlitchEffect;

/// The running transition effect; its progress is `elapsed_us` over the
/// effect's duration.
#[derive(Clone, Copy, PartialEq, Eq, Structural, Debug)]
pub struct GlitchEffect {
    pub elapsed_us: u64,
}

/// Time run by the effect after `dt_us` more, saturating.
pub open spec fn effect_elapsed(g: GlitchEffect, dt_us: u64) -> u64 {
    if g.elapsed_us + dt_us > u64::MAX {
        u64::MAX
    } else {
        (g.elapsed_us + dt_us) as u64
    }
}

/// The outcome of advancing the transition effect by `dt_us`.
pub open spec fn effect_post(old: Game, dt_us: u64, new: Game) -> bool {
    &&& new.world == old.world
    &&& new.level == old.level
    &&& new.random == old.random
    &&& new.guide == old.guide
    &&& new.screen == old.screen
    &&& match (old.effect, sole_player(old.world@)) {
        (Some(g), Some(_)) => if effect_elapsed(g, dt_us) > EFFECT_DURATION_US {
            &&& new.effect is None
            &&& new.player == (Player { disable_movement: false, ..old.player })
        } else {
            &&& new.effect == Some(GlitchEffect { elapsed_us: effect_elapsed(g, dt_us) })
            &&& new.player == (Player { disable_movement: true, ..old.player })
        },
        _ => new.effect == old.effect && new.player == old.player,
    }
}

impl Game {
    /// Advances the running effect while the player lives: the player cannot
    /// move until the effect has run past its duration, at which point the
    /// effect ends and movement is allowed again.
    pub fn update_glitch_effect(&mut self, dt_us: u64)
        requires
            old(self).wf(),
        ensures
            final(self).wf(),
            effect_post(*old(self), dt_us, *final(self)),
    {
        let g = match self.effect {
            Some(g) => g,
            None => {
                return;
            },
        };
        if self.world.sole_player().is_none() {
            return;
        }
        let elapsed = g.elapsed_us.saturating_add(dt_us);
        self.player.disable_movement = true;
        if elapsed > EFFECT_DURATION_US {
            self.effect = None;
            self.player.disable_movement = false;
        } else {
            self.effect = Some(GlitchEffect { elapsed_us: elapsed });
        }
    }
}

} // verus!
