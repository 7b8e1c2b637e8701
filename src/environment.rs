//! The road, its walls and the randomly strewn stones.
use vstd::prelude::*;
use crate::random::RandomSource;
use crate::world::{Entity, Kind, World};

verus! {

/// Width of the road, centred on x = 0.
pub const ROAD_WIDTH: i64 = 1200;
/// Length of the road, from y = 0 upwards.
pub const ROAD_LENGTH: i64 = 8192;
pub const WALL_THICKNESS: i64 = 4096;
pub const STONE_COUNT: usize = 200;
/// Nominal stone scale, in permille.
pub const STONE_SCALE: u64 = 2000;
/// Bounds of the stone scale jitter, in permille of the nominal scale.
pub const STONE_JITTER_MIN: u64 = 700;
pub const STONE_JITTER_MAX: u64 = 1300;
/// A full turn, in millidegrees.
pub const FULL_TURN: u64 = 360_000;
pub const STONE_IMAGES: u64 = 3;
/// Scale 1, in permille.
pub const UNIT_SCALE: u64 = 1000;

/// An entity with no rotation, unit scale, no animation, the first art
/// variant and the transition tag.
pub open spec fn plain_entity(kind: Kind, x: int, y: int) -> Entity {
    Entity {
        kind,
        x: x as i64,
        y: y as i64,
        rotation: 0,
        scale: UNIT_SCALE,
        variant: 0,
        destroy_on_new_level: true,
        animation: None,
    }
}

pub fn plain(kind: Kind, x: i64, y: i64) -> (r: Entity)
    ensures
        r == plain_entity(kind, x as int, y as int),
{
    Entity { kind, x, y, rotation: 0, scale: UNIT_SCALE, variant: 0, destroy_on_new_level: true, animation: None }
}

pub open spec fn road_entity() -> Entity {
    plain_entity(Kind::Road, 0, ROAD_LENGTH / 2)
}

pub open spec fn move_hint_entity() -> Entity {
    plain_entity(Kind::MoveHint, 0, 500)
}

/// The four walls round the road; variant 0 runs along the road, variant 1
/// across its ends.
pub open spec fn walls() -> Seq<Option<Entity>> {
    seq![
        Some(plain_entity(Kind::Wall, -ROAD_WIDTH / 2 - WALL_THICKNESS / 2, ROAD_LENGTH / 2)),
        Some(plain_entity(Kind::Wall, ROAD_WIDTH / 2 + WALL_THICKNESS / 2, ROAD_LENGTH / 2)),
        Some(Entity { variant: 1, ..plain_entity(Kind::Wall, 0, -WALL_THICKNESS / 2) }),
        Some(Entity { variant: 1, ..plain_entity(Kind::Wall, 0, ROAD_LENGTH + WALL_THICKNESS / 2) }),
    ]
}

/// A stone lies on the road, is turned less than a full turn, is scaled
/// within the jitter round the nominal scale, and wears one of the images.
pub open spec fn is_stone(o: Option<Entity>) -> bool {
    o matches Some(e) && {
        &&& e.kind == Kind::Stone
        &&& -ROAD_WIDTH / 2 <= e.x <= ROAD_WIDTH / 2
        &&& 0 <= e.y <= ROAD_LENGTH
        &&& e.rotation < FULL_TURN
        &&& STONE_SCALE * STONE_JITTER_MIN / (UNIT_SCALE as int) <= e.scale <= STONE_SCALE * STONE_JITTER_MAX / (UNIT_SCALE as int)
        &&& 1 <= e.variant <= STONE_IMAGES
        &&& e.destroy_on_new_level
        &&& e.animation is None
    }
}

pub open spec fn environment_len() -> int {
    2 + STONE_COUNT + 4
}

/// The environment of one level: the road, the move hint, the stones, and
/// the walls.
pub open spec fn is_environment(c: Seq<Option<Entity>>) -> bool {
    &&& c.len() == environment_len()
    &&& c[0] == Some(road_entity())
    &&& c[1] == Some(move_hint_entity())
    &&& forall|i: int| 2 <= i < 2 + STONE_COUNT ==> is_stone(#[trigger] c[i])
    &&& c.subrange(2 + STONE_COUNT, environment_len()) == walls()
}

/// The stone built from its draws: an image, an offset across the road, a
/// height, a rotation and a scale jitter.
pub open spec fn stone_of(variant: u64, dx: u64, y: u64, rotation: u64, jitter: u64) -> Entity {
    Entity {
        kind: Kind::Stone,
        x: (dx - ROAD_WIDTH / 2) as i64,
        y: y as i64,
        rotation,
        scale: (STONE_SCALE * jitter / (UNIT_SCALE as int)) as u64,
        variant,
        destroy_on_new_level: true,
        animation: None,
    }
}

/// Builds a stone from its draws.
pub fn stone_from_draws(variant: u64, dx: u64, y: u64, rotation: u64, jitter: u64) -> (r: Entity)
    requires
        1 <= variant <= STONE_IMAGES,
        dx <= ROAD_WIDTH,
        y <= ROAD_LENGTH,
        rotation < FULL_TURN,
        STONE_JITTER_MIN <= jitter <= STONE_JITTER_MAX,
    ensures
        r == stone_of(variant, dx, y, rotation, jitter),
        is_stone(Some(r)),
{
    Entity {
        kind: Kind::Stone,
        x: dx as i64 - ROAD_WIDTH / 2,
        y: y as i64,
        rotation,
        scale: STONE_SCALE * jitter / UNIT_SCALE,
        variant,
        destroy_on_new_level: true,
        animation: None,
    }
}

/// Draws one stone: its image, then its position, rotation and scale.
pub fn sample_stone(random: &mut RandomSource) -> (r: Entity)
    ensures
        is_stone(Some(r)),
        exists|variant: u64, dx: u64, y: u64, rotation: u64, jitter: u64|
            r == stone_of(variant, dx, y, rotation, jitter),
{
    let variant = random.between(1, STONE_IMAGES);
    let dx = random.between(0, ROAD_WIDTH as u64);
    let y = random.between(0, ROAD_LENGTH as u64);
    let rotation = random.between(0, FULL_TURN - 1);
    let jitter = random.between(STONE_JITTER_MIN, STONE_JITTER_MAX);
    stone_from_draws(variant, dx, y, rotation, jitter)
}

/// Spawns the road, the move hint, the stones and the walls, in that order.
pub fn spawn_environment(world: &mut World, random: &mut RandomSource)
    ensures
        final(world)@.len() == old(world)@.len() + environment_len(),
        final(world)@.subrange(0, old(world)@.len() as int) == old(world)@,
        is_environment(final(world)@.subrange(old(world)@.len() as int, final(world)@.len() as int)),
{
    let ghost start: int = world@.len() as int;
    world.spawn(plain(Kind::Road, 0, ROAD_LENGTH / 2));
    world.spawn(plain(Kind::MoveHint, 0, 500));
    let mut i: usize = 0;
    while i < STONE_COUNT
        invariant
            0 <= i <= STONE_COUNT,
            start == old(world)@.len(),
            world@.len() == start + 2 + i,
            world@.subrange(0, start) == old(world)@,
            world@[start] == Some(road_entity()),
            world@[start + 1] == Some(move_hint_entity()),
            forall|j: int| start + 2 <= j < start + 2 + i ==> is_stone(#[trigger] world@[j]),
        decreases STONE_COUNT - i,
    {
        let stone = sample_stone(random);
        let ghost before = world@;
        world.spawn(stone);
        assert(world@.subrange(0, start) =~= before.subrange(0, start));
        i = i + 1;
    }
    spawn_walls(world);
    assert(world@.subrange(0, start) =~= old(world)@);
    let ghost c = world@.subrange(start, world@.len() as int);
    assert(c.subrange(2 + STONE_COUNT, environment_len()) =~= walls());
    assert forall|i: int| 2 <= i < 2 + STONE_COUNT implies is_stone(#[trigger] c[i]) by {
        assert(c[i] == world@[start + i]);
    }
}

/// Spawns the four walls.
pub fn spawn_walls(world: &mut World)
    ensures
        final(world)@ == old(world)@ + walls(),
{
    world.spawn(plain(Kind::Wall, -ROAD_WIDTH / 2 - WALL_THICKNESS / 2, ROAD_LENGTH / 2));
    world.spawn(plain(Kind::Wall, ROAD_WIDTH / 2 + WALL_THICKNESS / 2, ROAD_LENGTH / 2));
    world.spawn(Entity { variant: 1, ..plain(Kind::Wall, 0, -WALL_THICKNESS / 2) });
    world.spawn(Entity { variant: 1, ..plain(Kind::Wall, 0, ROAD_LENGTH + WALL_THICKNESS / 2) });
    assert(world@ =~= old(world)@ + walls());
}

} // verus!
