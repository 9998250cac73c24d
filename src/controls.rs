use vstd::prelude::*;

use crate::fixed::{clamp, saturate, Vec3i};
use crate::motion::{MovingObject, Orientation};

verus! {

/// Turn rate, micro-radians per millisecond (2.5 rad/s).
pub const SPACESHIP_ROTATION_SPEED: i64 = 2500;

/// Roll rate, micro-radians per millisecond (2.5 rad/s).
pub const SPACESHIP_ROLL_SPEED: i64 = 2500;

/// Cruise speed, world units per second.
pub const SPACESHIP_SPEED: i64 = 25;

/// Projectile speed, world units per second.
pub const MISSLE_SPEED: i64 = 50;

/// Nano-units of spawn offset per scaled direction step: 7.5 world units
/// ahead of the ship for a unit direction.
pub const MISSLE_FORWARD_SPAWN_SCALAR: i64 = 7500;

/// One world unit in nano-units.
pub const UNIT: i64 = 1_000_000_000;

/// A unit direction component, scaled.
pub const DIRECTION_SCALE: i64 = 1_000_000;

pub const STARTING_Z: i64 = -20_000_000_000;

pub const SPACESHIP_RADIUS: u64 = 5_000_000_000;

pub const SPACESHIP_HEALTH: u32 = 100;

pub const SPACESHIP_COLLISION_DAMAGE: u32 = 100;

pub const MISSLE_RADIUS: u64 = 1_000_000_000;

pub const MISSLE_HEALTH: u32 = 1;

pub const MISSLE_COLLISION_DAMAGE: u32 = 5;

/// The keys held during one frame.
#[derive(Clone, Copy, Debug, PartialEq, Eq, Structural)]
pub struct Keys {
    pub steer_left: bool,
    pub steer_right: bool,
    pub roll_left: bool,
    pub roll_right: bool,
    pub throttle_forward: bool,
    pub throttle_backward: bool,
    pub fire: bool,
    pub shield: bool,
}

/// What the steering keys ask for in one frame.
#[derive(Clone, Copy, Debug, PartialEq, Eq, Structural)]
pub struct SteerDelta {
    /// Turn about the world up axis, micro-radians.
    pub rotation: i64,
    /// Turn about the ship's forward axis, micro-radians.
    pub roll: i64,
    /// Signed speed along the facing, world units per second.
    pub throttle: i64,
}

pub open spec fn rotation_of(keys: Keys, dt: u32) -> int {
    if keys.steer_right {
        -(SPACESHIP_ROTATION_SPEED * dt)
    } else if keys.steer_left {
        SPACESHIP_ROTATION_SPEED * dt
    } else {
        0
    }
}

pub open spec fn roll_of(keys: Keys, dt: u32) -> int {
    if keys.roll_left {
        -(SPACESHIP_ROLL_SPEED * dt)
    } else if keys.roll_right {
        SPACESHIP_ROLL_SPEED * dt
    } else {
        0
    }
}

pub open spec fn throttle_of(keys: Keys) -> int {
    if keys.throttle_backward {
        -SPACESHIP_SPEED
    } else if keys.throttle_forward {
        SPACESHIP_SPEED as int
    } else {
        0
    }
}

/// What `steering` returns.
pub open spec fn steering_spec(keys: Keys, dt: u32) -> SteerDelta {
    SteerDelta {
        rotation: rotation_of(keys, dt) as i64,
        roll: roll_of(keys, dt) as i64,
        throttle: throttle_of(keys) as i64,
    }
}

/// The signed cruise speed that the throttle keys ask for; backward wins
/// over forward.
pub fn throttle(keys: &Keys) -> (r: i64)
    ensures
        r == throttle_of(*keys),
{
    if keys.throttle_backward {
        -SPACESHIP_SPEED
    } else if keys.throttle_forward {
        SPACESHIP_SPEED
    } else {
        0
    }
}

/// Reads the steering keys for a frame of `dt` milliseconds. Of two opposite
/// keys held together, steer-right, roll-left and throttle-backward win.
pub fn steering(keys: &Keys, dt: u32) -> (r: SteerDelta)
    ensures
        r.rotation == rotation_of(*keys, dt),
        r.roll == roll_of(*keys, dt),
        r.throttle == throttle_of(*keys),
        r == steering_spec(*keys, dt),
        keys.steer_right ==> r.rotation == -(SPACESHIP_ROTATION_SPEED * dt),
{
    let scaled_turn = SPACESHIP_ROTATION_SPEED * dt as i64;
    let scaled_roll = SPACESHIP_ROLL_SPEED * dt as i64;
    let rotation: i64 = if keys.steer_right {
        -scaled_turn
    } else if keys.steer_left {
        scaled_turn
    } else {
        0
    };
    let roll: i64 = if keys.roll_left {
        -scaled_roll
    } else if keys.roll_right {
        scaled_roll
    } else {
        0
    };
    SteerDelta { rotation, roll, throttle: throttle(keys) }
}

/// `o` turned by `d`: yaw on the world side, roll on the body side.
pub open spec fn turned(o: Orientation, d: SteerDelta) -> Orientation {
    Orientation {
        yaw: clamp(o.yaw + d.rotation) as i64,
        roll: clamp(o.roll + d.roll) as i64,
    }
}

pub fn turn(o: Orientation, d: SteerDelta) -> (r: Orientation)
    ensures
        r == turned(o, d),
{
    Orientation {
        yaw: saturate(o.yaw as i128 + d.rotation as i128),
        roll: saturate(o.roll as i128 + d.roll as i128),
    }
}

/// A direction: each component within one scaled unit.
pub open spec fn is_direction(f: Vec3i) -> bool {
    -DIRECTION_SCALE <= f.x <= DIRECTION_SCALE && -DIRECTION_SCALE <= f.y <= DIRECTION_SCALE
        && -DIRECTION_SCALE <= f.z <= DIRECTION_SCALE
}

/// `-facing * speed`, in micro-units per second for `speed` in world units
/// per second.
pub open spec fn backward_times(facing: Vec3i, speed: int) -> Vec3i {
    Vec3i {
        x: (-facing.x * speed) as i64,
        y: (-facing.y * speed) as i64,
        z: (-facing.z * speed) as i64,
    }
}

/// `-facing * speed` for a direction and a speed of at most 7500.
pub fn backward_scaled(facing: Vec3i, speed: i64) -> (r: Vec3i)
    requires
        is_direction(facing),
        -7500 <= speed <= 7500,
    ensures
        r == backward_times(facing, speed as int),
{
    assert(-7_500_000_000 <= (-facing.x) * speed <= 7_500_000_000) by (nonlinear_arith)
        requires
            -1_000_000 <= facing.x <= 1_000_000,
            -7500 <= speed <= 7500,
    ;
    assert(-7_500_000_000 <= (-facing.y) * speed <= 7_500_000_000) by (nonlinear_arith)
        requires
            -1_000_000 <= facing.y <= 1_000_000,
            -7500 <= speed <= 7500,
    ;
    assert(-7_500_000_000 <= (-facing.z) * speed <= 7_500_000_000) by (nonlinear_arith)
        requires
            -1_000_000 <= facing.z <= 1_000_000,
            -7500 <= speed <= 7500,
    ;
    Vec3i { x: -facing.x * speed, y: -facing.y * speed, z: -facing.z * speed }
}

/// What a newly spawned entity carries.
#[derive(Clone, Copy, Debug, PartialEq, Eq, Structural)]
pub struct Bundle {
    pub body: MovingObject,
    pub health: u32,
    pub damage: u32,
    pub missle: Option<SpaceshipMissle>,
}

/// Marks a projectile fired by the ship.
#[derive(Clone, Copy, Debug, PartialEq, Eq, Structural)]
pub struct SpaceshipMissle;

pub open spec fn spaceship_bundle_spec() -> Bundle {
    Bundle {
        body: MovingObject {
            position: Vec3i { x: 0, y: 0, z: STARTING_Z },
            orientation: Orientation { yaw: 0, roll: 0 },
            velocity: Vec3i { x: 0, y: 0, z: 0 },
            acceleration: Vec3i { x: 0, y: 0, z: 0 },
            radius: SPACESHIP_RADIUS,
        },
        health: SPACESHIP_HEALTH,
        damage: SPACESHIP_COLLISION_DAMAGE,
        missle: None,
    }
}

/// The ship as it starts: at `(0, 0, -20)`, at rest, facing the default way.
pub fn spaceship_bundle() -> (r: Bundle)
    ensures
        r == spaceship_bundle_spec(),
        r.body.wf(),
{
    Bundle {
        body: MovingObject {
            position: Vec3i::new(0, 0, STARTING_Z),
            orientation: Orientation { yaw: 0, roll: 0 },
            velocity: Vec3i::zero(),
            acceleration: Vec3i::zero(),
            radius: SPACESHIP_RADIUS,
        },
        health: SPACESHIP_HEALTH,
        damage: SPACESHIP_COLLISION_DAMAGE,
        missle: None,
    }
}

/// The projectile fired from a ship at `ship_position` facing `facing`:
/// 7.5 units ahead, flying ahead at `MISSLE_SPEED`.
pub open spec fn missle_bundle_spec(ship_position: Vec3i, facing: Vec3i) -> Bundle {
    let offset = backward_times(facing, MISSLE_FORWARD_SPAWN_SCALAR as int);
    Bundle {
        body: MovingObject {
            position: Vec3i {
                x: clamp(ship_position.x + offset.x) as i64,
                y: clamp(ship_position.y + offset.y) as i64,
                z: clamp(ship_position.z + offset.z) as i64,
            },
            orientation: Orientation { yaw: 0, roll: 0 },
            velocity: backward_times(facing, MISSLE_SPEED as int),
            acceleration: Vec3i { x: 0, y: 0, z: 0 },
            radius: MISSLE_RADIUS,
        },
        health: MISSLE_HEALTH,
        damage: MISSLE_COLLISION_DAMAGE,
        missle: Some(SpaceshipMissle),
    }
}

pub fn missle_bundle(ship_position: Vec3i, facing: Vec3i) -> (r: Bundle)
    requires
        is_direction(facing),
    ensures
        r == missle_bundle_spec(ship_position, facing),
        r.body.wf(),
{
    let offset = backward_scaled(facing, MISSLE_FORWARD_SPAWN_SCALAR);
    let position = Vec3i {
        x: saturate(ship_position.x as i128 + offset.x as i128),
        y: saturate(ship_position.y as i128 + offset.y as i128),
        z: saturate(ship_position.z as i128 + offset.z as i128),
    };
    Bundle {
        body: MovingObject {
            position,
            orientation: Orientation { yaw: 0, roll: 0 },
            velocity: backward_scaled(facing, MISSLE_SPEED),
            acceleration: Vec3i::zero(),
            radius: MISSLE_RADIUS,
        },
        health: MISSLE_HEALTH,
        damage: MISSLE_COLLISION_DAMAGE,
        missle: Some(SpaceshipMissle),
    }
}

} // verus!
