//! The locked door: a wall across the road, a trigger before it, and the
//! key that the trigger puts back at the start.
use vstd::prelude::*;
use crate::environment::{plain, plain_entity, ROAD_LENGTH};
use crate::world::{Entity, EntityId, Kind, World};

verus! {

/// The door appears from this level on.
pub const DOOR_LEVEL: usize = 2;
pub const DOOR_SCALE: u64 = 2000;
pub const KEY_SCALE: u64 = 2000;
pub const KEY_Y: i64 = 300;

pub open spec fn door_content(n: usize) -> Seq<Option<Entity>> {
    if n >= DOOR_LEVEL {
        seq![
            Some(plain_entity(Kind::WallBlock, 0, ROAD_LENGTH - 300)),
            Some(Entity { scale: DOOR_SCALE, ..plain_entity(Kind::Door, 0, ROAD_LENGTH - 300) }),
            Some(plain_entity(Kind::DoorTrigger, 0, ROAD_LENGTH - 500)),
        ]
    } else {
        Seq::empty()
    }
}

/// Sets up the locked door for level `n`.
pub fn spawn(world: &mut World, n: usize)
    ensures
        final(world)@ == old(world)@ + door_content(n),
{
    if n < DOOR_LEVEL {
        assert(world@ =~= old(world)@ + door_content(n));
        return;
    }
    world.spawn(plain(Kind::WallBlock, 0, ROAD_LENGTH - 300));
    world.spawn(Entity { scale: DOOR_SCALE, ..plain(Kind::Door, 0, ROAD_LENGTH - 300) });
    world.spawn(plain(Kind::DoorTrigger, 0, ROAD_LENGTH - 500));
    assert(world@ =~= old(world)@ + door_content(n));
}

pub open spec fn key_entity() -> Entity {
    Entity { scale: KEY_SCALE, ..plain_entity(Kind::Key, 0, KEY_Y as int) }
}

pub fn spawn_key(world: &mut World) -> (id: EntityId)
    ensures
        final(world)@ == old(world)@.push(Some(key_entity())),
        id.0 == old(world)@.len(),
{
    world.spawn(Entity { scale: KEY_SCALE, ..plain(Kind::Key, 0, KEY_Y) })
}

/// The wall and its door block the road until the key is taken.
pub open spec fn is_blocking(o: Option<Entity>) -> bool {
    o matches Some(e) && (e.kind == Kind::WallBlock || e.kind == Kind::Door)
}

pub open spec fn unblocked(o: Option<Entity>) -> Option<Entity> {
    if is_blocking(o) {
        None
    } else {
        o
    }
}

/// Removes the wall and its door.
pub fn despawn_wall_blocks(world: &mut World)
    ensures
        final(world)@ == old(world)@.map_values(|o: Option<Entity>| unblocked(o)),
{
    let n = world.len();
    let mut i: usize = 0;
    while i < n
        invariant
            n == old(world)@.len(),
            world@.len() == n,
            0 <= i <= n,
            forall|j: int| 0 <= j < i ==> world@[j] == unblocked(old(world)@[j]),
            forall|j: int| i <= j < n ==> world@[j] == old(world)@[j],
        decreases n - i,
    {
        let id = EntityId(i);
        match world.get(id) {
            Some(e) => {
                if e.kind == Kind::WallBlock || e.kind == Kind::Door {
                    world.despawn(id);
                }
            },
            None => {},
        }
        i = i + 1;
    }
    assert(world@ =~= old(world)@.map_values(|o: Option<Entity>| unblocked(o)));
}

} // verus!
