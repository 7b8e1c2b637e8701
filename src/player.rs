//! The player: its entity, its movement input and its footsteps.
use vstd::prelude::*;
use crate::animation::{FrameCount, SpriteAnimation, Timer, MICROS_PER_SECOND};
use crate::environment::{plain, plain_entity};
use crate::random::RandomSource;
use crate::world::{Entity, Kind, World};

verus! {

pub const PLAYER_SCALE: u64 = 2000;
pub const PLAYER_START_Y: i64 = 300;
pub const PLAYER_FPS: u64 = 6;
/// The atlas layout of the player's frames.
pub const PLAYER_ATLAS: usize = 0;
pub const PLAYER_WALK_SOUND_PERIOD_US: u64 = 250_000;
/// Footstep volume and playback speed bounds, in permille.
pub const STEP_VOLUME_MIN: u64 = 120;
pub const STEP_VOLUME_MAX: u64 = 300;
pub const STEP_SPEED_MIN: u64 = 250;
pub const STEP_SPEED_MAX: u64 = 2000;

/// A movement direction on the eight-way grid; the caller scales it to unit
/// length.
#[derive(Clone, Copy, PartialEq, Eq, Structural, Debug)]
pub struct Direction {
    pub x: i8,
    pub y: i8,
}

impl Direction {
    pub open spec fn is_zero(&self) -> bool {
        self.x == 0 && self.y == 0
    }

    pub open spec fn wf(&self) -> bool {
        -1 <= self.x <= 1 && -1 <= self.y <= 1
    }
}

/// The direction asked for by the four movement keys.
pub open spec fn keys_direction(up: bool, left: bool, down: bool, right: bool) -> Direction {
    Direction {
        x: ((if right { 1int } else { 0int }) - (if left { 1int } else { 0int })) as i8,
        y: ((if up { 1int } else { 0int }) - (if down { 1int } else { 0int })) as i8,
    }
}

pub fn direction_from_keys(up: bool, left: bool, down: bool, right: bool) -> (r: Direction)
    ensures
        r == keys_direction(up, left, down, right),
        r.wf(),
{
    let mut x: i8 = 0;
    let mut y: i8 = 0;
    if up {
        y = y + 1;
    }
    if left {
        x = x - 1;
    }
    if down {
        y = y - 1;
    }
    if right {
        x = x + 1;
    }
    Direction { x, y }
}

/// A footstep to play, volume and speed in permille.
#[derive(Clone, Copy, PartialEq, Eq, Structural, Debug)]
pub struct StepSound {
    pub volume: u64,
    pub speed: u64,
}

/// The control state of the one player.
#[derive(Clone, Copy, PartialEq, Eq, Structural, Debug)]
pub struct Player {
    pub movement_direction: Direction,
    pub walking_sound_timer: Timer,
    pub disable_movement: bool,
}

pub open spec fn fresh_player() -> Player {
    Player {
        movement_direction: Direction { x: 0, y: 0 },
        walking_sound_timer: Timer { period_us: PLAYER_WALK_SOUND_PERIOD_US, elapsed_us: 0 },
        disable_movement: false,
    }
}

/// The player's sprite animation when it appears: paused on its first frame.
pub open spec fn player_animation() -> SpriteAnimation {
    SpriteAnimation {
        timer: Timer { period_us: (MICROS_PER_SECOND / PLAYER_FPS) as u64, elapsed_us: 0 },
        paused: true,
        index: 0,
        frames: FrameCount::FromAtlas(PLAYER_ATLAS),
    }
}

pub open spec fn player_entity() -> Entity {
    Entity {
        scale: PLAYER_SCALE,
        animation: Some(player_animation()),
        ..plain_entity(Kind::Player, 0, PLAYER_START_Y as int)
    }
}

/// Spawns the player at the start of the road.
pub fn spawn_player(world: &mut World)
    ensures
        final(world)@ == old(world)@.push(Some(player_entity())),
{
    let animation = SpriteAnimation::new(PLAYER_FPS, true).with_layout(PLAYER_ATLAS);
    world.spawn(Entity { scale: PLAYER_SCALE, animation: Some(animation), ..plain(Kind::Player, 0, PLAYER_START_Y) });
}

impl Player {
    pub open spec fn wf(&self) -> bool {
        self.walking_sound_timer.wf() && self.movement_direction.wf()
    }

    /// A player standing still, free to move.
    pub fn new() -> (r: Player)
        ensures
            r == fresh_player(),
            r.wf(),
    {
        Player {
            movement_direction: Direction { x: 0, y: 0 },
            walking_sound_timer: Timer::repeating(PLAYER_WALK_SOUND_PERIOD_US),
            disable_movement: false,
        }
    }

    /// Takes the movement keys; while movement is disabled the player stands
    /// still whatever is pressed.
    pub fn read_keyboard_input(&mut self, up: bool, left: bool, down: bool, right: bool)
        ensures
            final(self).movement_direction == (if old(self).disable_movement {
                Direction { x: 0, y: 0 }
            } else {
                keys_direction(up, left, down, right)
            }),
            final(self).walking_sound_timer == old(self).walking_sound_timer,
            final(self).disable_movement == old(self).disable_movement,
    {
        if self.disable_movement {
            self.movement_direction = Direction { x: 0, y: 0 };
        } else {
            self.movement_direction = direction_from_keys(up, left, down, right);
        }
    }

    /// Advances the footstep timer while the player moves; at each tick in
    /// which a period completes, draws a footstep's volume and speed.
    pub fn play_walking_sound(&mut self, dt_us: u64, random: &mut RandomSource) -> (r: Option<StepSound>)
        requires
            old(self).wf(),
        ensures
            final(self).wf(),
            old(self).movement_direction.is_zero() ==> *final(self) == *old(self) && r is None,
            r is None ==> *final(random) == *old(random),
            !old(self).movement_direction.is_zero() ==> {
                &&& final(self).walking_sound_timer == old(self).walking_sound_timer.after(dt_us)
                &&& final(self).movement_direction == old(self).movement_direction
                &&& final(self).disable_movement == old(self).disable_movement
                &&& (r is Some <==> old(self).walking_sound_timer.completions(dt_us) > 0)
            },
            r matches Some(s) ==> STEP_VOLUME_MIN <= s.volume <= STEP_VOLUME_MAX && STEP_SPEED_MIN <= s.speed
                <= STEP_SPEED_MAX,
    {
        if self.movement_direction.x == 0 && self.movement_direction.y == 0 {
            return None;
        }
        let finished = self.walking_sound_timer.tick(dt_us);
        if finished == 0 {
            return None;
        }
        let volume = random.between(STEP_VOLUME_MIN, STEP_VOLUME_MAX);
        let speed = random.between(STEP_SPEED_MIN, STEP_SPEED_MAX);
        Some(StepSound { volume, speed })
    }
}

impl Default for Player {
    fn default() -> (r: Player)
        ensures
            r == fresh_player(),
    {
        Player::new()
    }
}

} // verus!
