//! Per-frame animation, hair-trail, dust and life-cycle logic for the single
//! controllable character of a 2D side-scroller.
//!
//! Time is measured in nanoseconds (`u64`); positions and velocities are
//! fixed-point integers in thousandths of a world unit.

mod actor;
mod cycle;
mod dust;
mod geometry;
mod hair;
mod lifecycle;
mod timer;

pub use actor::{
    animate_jump, animate_run, animate_stand, player_dash, player_jump, player_run, spawn_player,
    Actor, DashThrottle, InputState,
};
pub use cycle::AnimationCycle;
pub use dust::{animate_dust, spawn_dust, Dust};
pub use hair::{animate_hair, despawn_hair, spawn_hair, Hair, HairHistory};
pub use lifecycle::{is_player_identifier, player_die, player_revive, CollisionEvent, SpawnPoint};
pub use geometry::{Facing, Position, Sprite, Velocity};
pub use timer::FrameTimer;
