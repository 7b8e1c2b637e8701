//! The goal at the far end of the road.
use vstd::prelude::*;
use crate::environment::{plain, plain_entity, ROAD_LENGTH};
use crate::world::{Entity, Kind, World};

verus! {

/// From this level on, hazards and the goal wear their second art.
pub const TIER_LEVEL: usize = 2;
pub const GOAL_SCALE: u64 = 4000;

/// The art variant used at level `n`.
pub open spec fn tier(n: usize) -> u64 {
    if n >= TIER_LEVEL {
        1
    } else {
        0
    }
}

pub fn tier_of(n: usize) -> (r: u64)
    ensures
        r == tier(n),
{
    if n >= TIER_LEVEL {
        1
    } else {
        0
    }
}

pub open spec fn goal_entity(n: usize) -> Entity {
    Entity { scale: GOAL_SCALE, variant: tier(n), ..plain_entity(Kind::Goal, 0, ROAD_LENGTH - 160) }
}

/// Spawns the goal of level `n`.
pub fn spawn_goal(world: &mut World, n: usize)
    ensures
        final(world)@ == old(world)@.push(Some(goal_entity(n))),
{
    world.spawn(Entity { scale: GOAL_SCALE, variant: tier_of(n), ..plain(Kind::Goal, 0, ROAD_LENGTH - 160) });
}

} // verus!
