use spacegame::controls::{
    DIRECTION_SCALE, MISSLE_COLLISION_DAMAGE, MISSLE_HEALTH, MISSLE_RADIUS, SPACESHIP_RADIUS,
    STARTING_Z, UNIT,
};
use spacegame::{
    missle_bundle, saturate, spaceship_bundle, steering, throttle, turn, Bundle, Keys, MovingObject, Orientation,
    SpaceshipMissle, SpaceshipShield, SteerDelta, Vec3i, World,
};

fn no_keys() -> Keys {
    Keys {
        steer_left: false,
        steer_right: false,
        roll_left: false,
        roll_right: false,
        throttle_forward: false,
        throttle_backward: false,
        fire: false,
        shield: false,
    }
}

fn default_facing() -> Vec3i {
    Vec3i::new(0, 0, -DIRECTION_SCALE)
}

fn body_at(x: i64, y: i64, z: i64) -> Bundle {
    Bundle {
        body: MovingObject {
            position: Vec3i::new(x, y, z),
            orientation: Orientation { yaw: 0, roll: 0 },
            velocity: Vec3i::zero(),
            acceleration: Vec3i::zero(),
            radius: UNIT as u64,
        },
        health: 10,
        damage: 10,
        missle: None,
    }
}

fn world_with_ship() -> World {
    let mut w = World::new();
    w.spawn_spaceship();
    w
}

#[test]
fn integration_matches_closed_form() {
    // 1 u/s initial speed, 2 u/s^2, 100 frames of 10 ms: one second.
    let mut m = MovingObject {
        position: Vec3i::zero(),
        orientation: Orientation { yaw: 0, roll: 0 },
        velocity: Vec3i::new(1_000_000, 0, -1_000_000),
        acceleration: Vec3i::new(2_000, 0, -2_000),
        radius: 1,
    };
    for _ in 0..100 {
        m.integrate(10);
    }
    assert_eq!(m.velocity, Vec3i::new(3_000_000, 0, -3_000_000));
    assert_eq!(m.position, Vec3i::new(2_010_000_000, 0, -2_010_000_000));
    // The continuous integral is 2 units; the step-wise one is within a*dt*t/2.
    let continuous = 2.0_f64;
    let got = m.position.x as f64 / UNIT as f64;
    assert!((got - continuous).abs() <= 0.0100001);
}

#[test]
fn integration_converges_with_more_steps() {
    let start = MovingObject {
        position: Vec3i::new(5 * UNIT, 0, 0),
        orientation: Orientation { yaw: 0, roll: 0 },
        velocity: Vec3i::new(-4_000_000, 0, 0),
        acceleration: Vec3i::new(6_000, 0, 0),
        radius: 1,
    };
    for (n, dt) in [(1u32, 1000u32), (10, 100), (1000, 1)] {
        let mut m = start;
        for _ in 0..n {
            m.integrate(dt);
        }
        assert_eq!(m.velocity.x, -4_000_000 + 6_000 * 1000);
        // p0 + v0 t + a t^2 / 2 = 5 - 4 + 3 = 4 units, plus a dt t / 2.
        let expected = 4 * UNIT + 3_000_000 * dt as i64;
        assert_eq!(m.position.x, expected);
    }
}

#[test]
fn integration_saturates() {
    let mut m = MovingObject {
        position: Vec3i::new(i64::MAX - 5, 0, 0),
        orientation: Orientation { yaw: 0, roll: 0 },
        velocity: Vec3i::new(1_000, 0, 0),
        acceleration: Vec3i::zero(),
        radius: 1,
    };
    m.integrate(1000);
    assert_eq!(m.position.x, i64::MAX);
}

#[test]
fn despawn_threshold() {
    let mut w = world_with_ship();
    let far = w.spawn(body_at(100_001_000_000, 0, 0)).unwrap();
    let near = w.spawn(body_at(0, 99_999_000_000, 0)).unwrap();
    if let Some(s) = w.spaceship.as_mut() {
        s.parts.body.position = Vec3i::new(0, 0, 1000 * UNIT);
    }
    w.despawn_phase();
    let ids: Vec<u64> = w.objects.iter().map(|e| e.id).collect();
    assert_eq!(ids, vec![near]);
    assert!(!ids.contains(&far));
    assert_eq!(w.spaceship.unwrap().parts.body.position.z, 1000 * UNIT);
    w.despawn_phase();
    assert_eq!(w.objects.len(), 1);
    assert!(w.spaceship.is_some());
}

#[test]
fn despawn_exactly_at_threshold_keeps() {
    let mut w = World::new();
    w.spawn(body_at(60 * UNIT, 80 * UNIT, 0));
    w.spawn(body_at(60 * UNIT, 80 * UNIT, 1));
    w.despawn_phase();
    assert_eq!(w.objects.len(), 1);
    assert_eq!(w.objects[0].id, 0);
}

#[test]
fn steering_right_wins() {
    let mut keys = no_keys();
    keys.steer_left = true;
    keys.steer_right = true;
    let d = steering(&keys, 16);
    assert_eq!(d.rotation, -40_000);
    let mut w = world_with_ship();
    let o = w.steer_ship(&keys, 16).unwrap();
    assert_eq!(o.yaw, -40_000);
    keys.steer_right = false;
    assert_eq!(steering(&keys, 16).rotation, 40_000);
}

#[test]
fn steering_roll_and_throttle_priority() {
    let mut keys = no_keys();
    assert_eq!(steering(&keys, 10), SteerDelta { rotation: 0, roll: 0, throttle: 0 });
    keys.roll_left = true;
    keys.roll_right = true;
    keys.throttle_forward = true;
    keys.throttle_backward = true;
    let d = steering(&keys, 10);
    assert_eq!(d.roll, -25_000);
    assert_eq!(d.throttle, -25);
    keys.roll_left = false;
    keys.throttle_backward = false;
    let d = steering(&keys, 10);
    assert_eq!(d.roll, 25_000);
    assert_eq!(d.throttle, 25);
}

#[test]
fn turn_accumulates_and_saturates() {
    let o = turn(Orientation { yaw: 10, roll: -10 }, SteerDelta { rotation: 5, roll: -5, throttle: 0 });
    assert_eq!(o, Orientation { yaw: 15, roll: -15 });
    let o = turn(Orientation { yaw: i64::MAX, roll: 0 }, SteerDelta { rotation: 1, roll: 0, throttle: 0 });
    assert_eq!(o.yaw, i64::MAX);
}

#[test]
fn fire_spawns_projectile_ahead() {
    let mut w = world_with_ship();
    let mut keys = no_keys();
    keys.fire = true;
    w.control_phase(&keys, default_facing());
    assert_eq!(w.objects.len(), 1);
    let m = w.objects[0];
    assert_eq!(m.parts.missle, Some(SpaceshipMissle));
    assert_eq!(m.parts.body.position, Vec3i::new(0, 0, -12_500_000_000));
    assert_eq!(m.parts.body.velocity, Vec3i::new(0, 0, 50_000_000));
    assert_eq!(m.parts.body.velocity.length_squared(), 50_000_000u128 * 50_000_000u128);
    assert_eq!(m.parts.body.radius, MISSLE_RADIUS);
    assert_eq!(m.parts.health, MISSLE_HEALTH);
    assert_eq!(m.parts.damage, MISSLE_COLLISION_DAMAGE);
    // Level-triggered: a second frame with fire held fires again.
    w.control_phase(&keys, default_facing());
    assert_eq!(w.objects.len(), 2);
    assert_ne!(w.objects[0].id, w.objects[1].id);
}

#[test]
fn missle_bundle_follows_facing() {
    let b = missle_bundle(Vec3i::new(UNIT, 2 * UNIT, 3 * UNIT), Vec3i::new(-DIRECTION_SCALE, 0, 0));
    assert_eq!(b.body.position, Vec3i::new(8_500_000_000, 2 * UNIT, 3 * UNIT));
    assert_eq!(b.body.velocity, Vec3i::new(50_000_000, 0, 0));
}

#[test]
fn throttle_sets_velocity_along_facing() {
    let mut w = world_with_ship();
    let mut keys = no_keys();
    keys.throttle_forward = true;
    w.control_phase(&keys, default_facing());
    assert_eq!(w.spaceship.unwrap().parts.body.velocity, Vec3i::new(0, 0, 25_000_000));
    keys.throttle_forward = false;
    keys.throttle_backward = true;
    w.control_phase(&keys, default_facing());
    assert_eq!(w.spaceship.unwrap().parts.body.velocity, Vec3i::new(0, 0, -25_000_000));
    w.control_phase(&no_keys(), default_facing());
    assert_eq!(w.spaceship.unwrap().parts.body.velocity, Vec3i::zero());
}

#[test]
fn shield_held_five_frames_gives_one_shield() {
    let mut w = world_with_ship();
    let mut keys = no_keys();
    keys.shield = true;
    for _ in 0..5 {
        w.control_phase(&keys, default_facing());
    }
    assert_eq!(w.spaceship.unwrap().shield, Some(SpaceshipShield));
    assert!(w.objects.is_empty());
    w.control_phase(&no_keys(), default_facing());
    assert_eq!(w.spaceship.unwrap().shield, Some(SpaceshipShield));
}

#[test]
fn no_ship_is_safe() {
    let mut w = World::new();
    let mut keys = no_keys();
    keys.fire = true;
    keys.shield = true;
    keys.steer_left = true;
    keys.throttle_forward = true;
    assert_eq!(w.steer_ship(&keys, 16), None);
    w.control_phase(&keys, default_facing());
    w.motion_phase(16);
    w.despawn_phase();
    assert!(w.spaceship.is_none());
    assert!(w.objects.is_empty());
    assert_eq!(w.next_id, 0);
}

#[test]
fn spaceship_spawns_once() {
    let mut w = World::new();
    w.spawn_spaceship();
    w.spawn_spaceship();
    let s = w.spaceship.unwrap();
    assert_eq!(s.id, 0);
    assert_eq!(w.next_id, 1);
    assert_eq!(s.parts, spaceship_bundle());
    assert_eq!(s.parts.body.position, Vec3i::new(0, 0, STARTING_Z));
    assert_eq!(s.parts.body.radius, SPACESHIP_RADIUS);
    assert_eq!(s.parts.health, 100);
    assert_eq!(s.parts.damage, 100);
    assert_eq!(s.shield, None);
}

#[test]
fn spawn_stops_when_identifiers_run_out() {
    let mut w = World::new();
    w.next_id = u64::MAX;
    assert_eq!(w.spawn(body_at(0, 0, 0)), None);
    assert!(w.objects.is_empty());
    w.spawn_spaceship();
    assert!(w.spaceship.is_none());
}

#[test]
fn motion_phase_moves_ship_and_objects() {
    let mut w = world_with_ship();
    let mut keys = no_keys();
    keys.fire = true;
    keys.throttle_forward = true;
    w.control_phase(&keys, default_facing());
    w.motion_phase(1000);
    assert_eq!(w.spaceship.unwrap().parts.body.position, Vec3i::new(0, 0, 5 * UNIT));
    assert_eq!(w.objects[0].parts.body.position, Vec3i::new(0, 0, 37_500_000_000));
}

#[test]
fn full_frame_sequence_despawns_projectile() {
    let mut w = world_with_ship();
    let mut keys = no_keys();
    keys.fire = true;
    w.control_phase(&keys, default_facing());
    // 37.5 units after one second, 87.5 after two, 137.5 after three.
    w.motion_phase(1000);
    w.despawn_phase();
    assert_eq!(w.objects.len(), 1);
    w.motion_phase(1000);
    w.despawn_phase();
    assert_eq!(w.objects.len(), 1);
    w.motion_phase(1000);
    w.despawn_phase();
    assert!(w.objects.is_empty());
    assert!(w.spaceship.is_some());
}

#[test]
fn saturate_clamps_to_i64() {
    assert_eq!(saturate(i64::MAX as i128 + 1), i64::MAX);
    assert_eq!(saturate(i64::MIN as i128 - 1), i64::MIN);
    assert_eq!(saturate(-42), -42);
}

#[test]
fn length_squared_at_extremes() {
    let v = Vec3i::new(i64::MIN, i64::MIN, i64::MIN);
    let m = (i64::MIN as i128).unsigned_abs();
    assert_eq!(v.length_squared(), 3 * m * m);
    assert_eq!(Vec3i::new(3, -4, 12).length_squared(), 169);
}

#[test]
fn throttle_backward_wins() {
    let mut keys = no_keys();
    assert_eq!(throttle(&keys), 0);
    keys.throttle_forward = true;
    assert_eq!(throttle(&keys), 25);
    keys.throttle_backward = true;
    assert_eq!(throttle(&keys), -25);
}
