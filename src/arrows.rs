//! Hazards: the spawner that launches them along the road, the guide zone
//! that warns of them, and the sweep that removes those past the map.
use vstd::prelude::*;
use crate::environment::{plain, plain_entity, ROAD_LENGTH, ROAD_WIDTH};
use crate::goal::{tier, tier_of};
use crate::random::RandomSource;
use crate::world::{sole_of, Entity, EntityId, Kind, World};

verus! {

/// Hazards enter at a height drawn from this band.
pub const SPAWN_Y_START: i64 = 2730;
pub const SPAWN_Y_END: i64 = 7792;
/// Hazards enter this far past the road's right side.
pub const ARROW_ENTRY_X: i64 = 1250;
/// Speed along the road's long axis, in world units per second, towards -x.
pub const ARROW_SPEED: i64 = 400;
pub const ARROW_SCALE: u64 = 4000;
/// How far past the left edge a hazard goes before it is removed.
pub const MAP_MARGIN: i64 = 50;
/// Chance per tick that a hazard appears: one in this many.
pub const ARROW_CHANCE_DENOMINATOR: u32 = 20;

pub open spec fn arrow_spawner_entity() -> Entity {
    plain_entity(Kind::ArrowSpawner, 0, 0)
}

pub open spec fn arrow_area_entity() -> Entity {
    plain_entity(Kind::ArrowArea, 0, ROAD_LENGTH / 2)
}

/// What the hazard spawner adds at level `n`: nothing on the first level.
pub open spec fn arrow_content(n: usize) -> Seq<Option<Entity>> {
    if n >= 1 {
        seq![Some(arrow_spawner_entity()), Some(arrow_area_entity())]
    } else {
        Seq::empty()
    }
}

/// Sets up hazards for level `n`.
pub fn spawn_arrow_spawner(world: &mut World, n: usize)
    ensures
        final(world)@ == old(world)@ + arrow_content(n),
{
    if n < 1 {
        assert(world@ =~= old(world)@ + arrow_content(n));
        return;
    }
    world.spawn(plain(Kind::ArrowSpawner, 0, 0));
    world.spawn(plain(Kind::ArrowArea, 0, ROAD_LENGTH / 2));
    assert(world@ =~= old(world)@ + arrow_content(n));
}

/// The hazard launched at level `n` at height `y`.
pub open spec fn arrow_entity(n: usize, y: i64) -> Entity {
    Entity { scale: ARROW_SCALE, variant: tier(n), ..plain_entity(Kind::Arrow, ARROW_ENTRY_X as int, y as int) }
}

/// Adds the hazard for one tick's draw: none when the chance draw failed,
/// else one entering at the drawn height with the level's art.
pub fn spawn_arrow_for_draw(world: &mut World, level: usize, draw: Option<u64>) -> (r: Option<EntityId>)
    requires
        draw matches Some(y) ==> SPAWN_Y_START <= y <= SPAWN_Y_END,
    ensures
        r is Some <==> draw is Some,
        draw is None ==> final(world)@ == old(world)@,
        draw matches Some(y) ==> (r matches Some(id) && id.0 == old(world)@.len()) && final(world)@ == old(
            world,
        )@.push(Some(arrow_entity(level, y as i64))),
{
    match draw {
        None => None,
        Some(y) => {
            let y = y as i64;
            let id = world.spawn(
                Entity { scale: ARROW_SCALE, variant: tier_of(level), ..plain(Kind::Arrow, ARROW_ENTRY_X, y) },
            );
            Some(id)
        },
    }
}

/// One tick of the hazard spawner. It runs only while exactly one spawner
/// lives; then, with chance one in twenty, a hazard enters at a height drawn
/// from the band.
pub fn handle_arrow_spawning(world: &mut World, level: usize, random: &mut RandomSource) -> (r: Option<EntityId>)
    ensures
        sole_of(old(world)@, Kind::ArrowSpawner) is None ==> r is None && final(world)@ == old(world)@
            && *final(random) == *old(random),
        r is None ==> final(world)@ == old(world)@,
        r matches Some(id) ==> {
            &&& sole_of(old(world)@, Kind::ArrowSpawner) is Some
            &&& id.0 == old(world)@.len()
            &&& exists|y: i64|
                SPAWN_Y_START <= y <= SPAWN_Y_END && final(world)@ == old(world)@.push(Some(arrow_entity(level, y)))
        },
{
    if world.sole_of_kind(Kind::ArrowSpawner).is_none() {
        return None;
    }
    if !random.ratio(1, ARROW_CHANCE_DENOMINATOR) {
        return spawn_arrow_for_draw(world, level, None);
    }
    let y = random.between(SPAWN_Y_START as u64, SPAWN_Y_END as u64);
    let r = spawn_arrow_for_draw(world, level, Some(y));
    assert(SPAWN_Y_START <= (y as i64) <= SPAWN_Y_END && world@ == old(world)@.push(Some(arrow_entity(level, y as i64))));
    r
}

/// A hazard that has passed the margin beyond the left edge of the map.
pub open spec fn is_out_of_map(o: Option<Entity>) -> bool {
    o matches Some(e) && e.kind == Kind::Arrow && e.x < -ROAD_WIDTH / 2 - MAP_MARGIN
}

pub open spec fn kept_in_map(o: Option<Entity>) -> Option<Entity> {
    if is_out_of_map(o) {
        None
    } else {
        o
    }
}

/// Removes every hazard past the margin beyond the left edge; everything
/// else stays as it is.
pub fn destroy_out_of_map(world: &mut World)
    ensures
        final(world)@ == old(world)@.map_values(|o: Option<Entity>| kept_in_map(o)),
{
    let n = world.len();
    let mut i: usize = 0;
    while i < n
        invariant
            n == old(world)@.len(),
            world@.len() == n,
            0 <= i <= n,
            forall|j: int| 0 <= j < i ==> world@[j] == kept_in_map(old(world)@[j]),
            forall|j: int| i <= j < n ==> world@[j] == old(world)@[j],
        decreases n - i,
    {
        let id = EntityId(i);
        match world.get(id) {
            Some(e) => {
                if e.kind == Kind::Arrow && e.x < -ROAD_WIDTH / 2 - MAP_MARGIN {
                    world.despawn(id);
                }
            },
            None => {},
        }
        i = i + 1;
    }
    assert(world@ =~= old(world)@.map_values(|o: Option<Entity>| kept_in_map(o)));
}

} // verus!
