//! Level lifecycle and entity orchestration for a small top-down road game.
//!
//! The world is an arena of entities with stable identifiers; a level
//! transition sweeps every entity tagged for destruction before the per-level
//! spawners repopulate it. Collision notifications are routed to handlers
//! keyed by the entity they were delivered to, and every procedural choice is
//! drawn from one seeded random source. Distances are whole world units,
//! durations are microseconds, angles are millidegrees and scales permille.
pub mod random;
pub mod animation;
pub mod world;
pub mod environment;
pub mod goal;
pub mod guide;
pub mod player;
pub mod arrows;
pub mod wall_block;
pub mod level;
pub mod collisions;
pub mod glitch_effect;
pub mod systems;
pub mod lifecycle;
