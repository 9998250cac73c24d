//! Per-frame gameplay core of a small space shooter, on fixed-point values.
//!
//! Units used throughout:
//! - length: nano-units (`i64`), one world unit is `1_000_000_000`;
//! - velocity: micro-units per second (`i64`);
//! - acceleration: milli-units per second squared (`i64`);
//! - frame time: milliseconds (`u32`);
//! - angle: micro-radians (`i64`);
//! - direction: each component scaled by `1_000_000`.
//!
//! With these units every product that the simulation forms lands exactly
//! on the unit of its result, so no rounding takes place anywhere.
//!
//! A frame runs, in this order: `World::steer_ship`, then
//! `World::control_phase` with the forward direction of the orientation that
//! steering returned, then `World::motion_phase`, then `World::despawn_phase`.
pub mod controls;
pub mod fixed;
pub mod motion;
pub mod world;

pub use controls::{
    missle_bundle, spaceship_bundle, steering, throttle, turn, Bundle, Keys, SpaceshipMissle,
    SteerDelta,
};
pub use fixed::{saturate, Vec3i};
pub use motion::{MovingObject, Orientation};
pub use world::{Entity, Spaceship, SpaceshipShield, World};
