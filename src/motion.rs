use vstd::prelude::*;

use crate::fixed::{clamp, saturate, Vec3i};

verus! {

/// Orientation as accumulated yaw about the world up axis, then roll about
/// the body's own forward axis, both in micro-radians.
///
/// Yaw is always applied on the world side and roll on the body side, so
/// successive turns compose by adding the angles: the pair is the whole
/// rotation.
#[derive(Clone, Copy, Debug, PartialEq, Eq, Structural)]
pub struct Orientation {
    pub yaw: i64,
    pub roll: i64,
}

/// Any simulated physical body.
#[derive(Clone, Copy, Debug, PartialEq, Eq, Structural)]
pub struct MovingObject {
    /// Nano-units.
    pub position: Vec3i,
    pub orientation: Orientation,
    /// Micro-units per second.
    pub velocity: Vec3i,
    /// Milli-units per second squared.
    pub acceleration: Vec3i,
    /// Collision radius in nano-units.
    pub radius: u64,
}

impl MovingObject {
    pub open spec fn wf(self) -> bool {
        self.radius > 0
    }
}

/// One semi-implicit Euler step along one axis: the velocity first takes the
/// acceleration over `dt`, then the position takes the new velocity.
/// Returns `(position, velocity)`.
pub open spec fn axis_step(p: int, v: int, a: int, dt: int) -> (int, int) {
    let nv = clamp(v + a * dt);
    (clamp(p + nv * dt), nv)
}

/// `m` after one frame of `dt` milliseconds.
pub open spec fn integrated(m: MovingObject, dt: u32) -> MovingObject {
    let sx = axis_step(m.position.x as int, m.velocity.x as int, m.acceleration.x as int, dt as int);
    let sy = axis_step(m.position.y as int, m.velocity.y as int, m.acceleration.y as int, dt as int);
    let sz = axis_step(m.position.z as int, m.velocity.z as int, m.acceleration.z as int, dt as int);
    MovingObject {
        position: Vec3i { x: sx.0 as i64, y: sy.0 as i64, z: sz.0 as i64 },
        velocity: Vec3i { x: sx.1 as i64, y: sy.1 as i64, z: sz.1 as i64 },
        ..m
    }
}

fn step_axis(p: i64, v: i64, a: i64, dt: u32) -> (r: (i64, i64))
    ensures
        r.0 as int == axis_step(p as int, v as int, a as int, dt as int).0,
        r.1 as int == axis_step(p as int, v as int, a as int, dt as int).1,
{
    let w = dt as i128;
    let av = a as i128;
    assert(-0x8000_0000_0000_0000_0000_0000 <= av * w <= 0x8000_0000_0000_0000_0000_0000)
        by (nonlinear_arith)
        requires
            -0x8000_0000_0000_0000 <= av <= 0x8000_0000_0000_0000,
            0 <= w <= 0xffff_ffff,
    ;
    let nv = saturate(v as i128 + av * w);
    let nvw = nv as i128;
    assert(-0x8000_0000_0000_0000_0000_0000 <= nvw * w <= 0x8000_0000_0000_0000_0000_0000)
        by (nonlinear_arith)
        requires
            -0x8000_0000_0000_0000 <= nvw <= 0x8000_0000_0000_0000,
            0 <= w <= 0xffff_ffff,
    ;
    let np = saturate(p as i128 + nvw * w);
    (np, nv)
}

impl MovingObject {
    /// Advances the body by one frame of `dt` milliseconds:
    /// `velocity += acceleration * dt`, then `position += velocity * dt`,
    /// each component saturating at the bounds of `i64`.
    pub fn integrate(&mut self, dt: u32)
        ensures
            *final(self) == integrated(*old(self), dt),
    {
        let sx = step_axis(self.position.x, self.velocity.x, self.acceleration.x, dt);
        let sy = step_axis(self.position.y, self.velocity.y, self.acceleration.y, dt);
        let sz = step_axis(self.position.z, self.velocity.z, self.acceleration.z, dt);
        self.position = Vec3i { x: sx.0, y: sy.0, z: sz.0 };
        self.velocity = Vec3i { x: sx.1, y: sy.1, z: sz.1 };
    }
}

/// `m` after `n` frames of `dt` milliseconds each.
pub open spec fn integrated_n(m: MovingObject, dt: u32, n: nat) -> MovingObject
    decreases n,
{
    if n == 0 {
        m
    } else {
        integrated(integrated_n(m, dt, (n - 1) as nat), dt)
    }
}

/// `0 + 1 + ... + n`.
pub open spec fn tri(n: nat) -> nat
    decreases n,
{
    if n == 0 {
        0
    } else {
        tri((n - 1) as nat) + n
    }
}

/// `tri(n)` is `n * (n + 1) / 2`.
pub proof fn lemma_tri(n: nat)
    ensures
        2 * tri(n) == n * (n + 1),
    decreases n,
{
    if n > 0 {
        lemma_tri((n - 1) as nat);
        assert(2 * tri(n) == n * (n + 1)) by (nonlinear_arith)
            requires
                2 * tri((n - 1) as nat) == (n - 1) * n,
                tri(n) == tri((n - 1) as nat) + n,
        ;
    } else {
        assert(n * (n + 1) == 0) by (nonlinear_arith)
            requires
                n == 0,
        ;
    }
}

/// Velocity after `k` steps of `dt` under constant acceleration `a`.
pub open spec fn exact_velocity(v0: int, a: int, dt: int, k: nat) -> int {
    v0 + a * dt * k
}

/// Position after `k` steps of `dt` under constant acceleration `a`: the sum
/// of the velocities `exact_velocity(.., j) * dt` for `j` in `1..=k`.
pub open spec fn exact_position(p0: int, v0: int, a: int, dt: int, k: nat) -> int {
    p0 + v0 * dt * k + a * dt * dt * tri(k)
}

pub open spec fn in_i64(x: int) -> bool {
    i64::MIN <= x <= i64::MAX
}

/// Along one axis no value on the way to step `n` leaves `i64`.
pub open spec fn axis_fits(p0: int, v0: int, a: int, dt: int, n: nat) -> bool {
    forall|k: nat|
        k <= n ==> #[trigger] in_i64(exact_velocity(v0, a, dt, k)) && in_i64(
            exact_position(p0, v0, a, dt, k),
        )
}

/// The value of one axis after `n` steps.
pub open spec fn run_axis(p0: int, v0: int, a: int, dt: int, n: nat) -> (int, int)
    decreases n,
{
    if n == 0 {
        (p0, v0)
    } else {
        let prev = run_axis(p0, v0, a, dt, (n - 1) as nat);
        axis_step(prev.0, prev.1, a, dt)
    }
}

proof fn lemma_run_axis(p0: int, v0: int, a: int, dt: int, n: nat)
    requires
        axis_fits(p0, v0, a, dt, n),
    ensures
        run_axis(p0, v0, a, dt, n) == (exact_position(p0, v0, a, dt, n), exact_velocity(v0, a, dt, n)),
    decreases n,
{
    if n > 0 {
        let m = (n - 1) as nat;
        assert(axis_fits(p0, v0, a, dt, m)) by {
            assert forall|k: nat| k <= m implies #[trigger] in_i64(exact_velocity(v0, a, dt, k))
                && in_i64(exact_position(p0, v0, a, dt, k)) by {
                assert(k <= n);
            }
        }
        lemma_run_axis(p0, v0, a, dt, m);
        assert(in_i64(exact_velocity(v0, a, dt, n)));
        assert(in_i64(exact_position(p0, v0, a, dt, n)));
        let vm = exact_velocity(v0, a, dt, m);
        let pm = exact_position(p0, v0, a, dt, m);
        assert(vm + a * dt == exact_velocity(v0, a, dt, n)) by (nonlinear_arith)
            requires
                vm == v0 + a * dt * m,
                n == m + 1,
        ;
        let vn = exact_velocity(v0, a, dt, n);
        assert(pm + vn * dt == exact_position(p0, v0, a, dt, n)) by (nonlinear_arith)
            requires
                pm == p0 + v0 * dt * m + a * dt * dt * tri(m),
                vn == v0 + a * dt * n,
                tri(n) == tri(m) + n,
                n == m + 1,
                exact_position(p0, v0, a, dt, n) == p0 + v0 * dt * n + a * dt * dt * tri(n),
        ;
    } else {
        assert(v0 * dt * n + a * dt * dt * tri(n) == 0 && a * dt * n == 0) by (nonlinear_arith)
            requires
                n == 0,
                tri(n) == 0,
        ;
    }
}

proof fn lemma_integrated_n_axes(m: MovingObject, dt: u32, n: nat)
    ensures
        integrated_n(m, dt, n).acceleration == m.acceleration,
        integrated_n(m, dt, n).radius == m.radius,
        integrated_n(m, dt, n).orientation == m.orientation,
        (integrated_n(m, dt, n).position.x as int, integrated_n(m, dt, n).velocity.x as int)
            == run_axis(m.position.x as int, m.velocity.x as int, m.acceleration.x as int, dt as int, n),
        (integrated_n(m, dt, n).position.y as int, integrated_n(m, dt, n).velocity.y as int)
            == run_axis(m.position.y as int, m.velocity.y as int, m.acceleration.y as int, dt as int, n),
        (integrated_n(m, dt, n).position.z as int, integrated_n(m, dt, n).velocity.z as int)
            == run_axis(m.position.z as int, m.velocity.z as int, m.acceleration.z as int, dt as int, n),
    decreases n,
{
    if n > 0 {
        lemma_integrated_n_axes(m, dt, (n - 1) as nat);
    }
}

/// Under constant acceleration, `n` frames of `dt` give exactly
/// `v0 + a * n * dt` as velocity and `p0 + v0 * n * dt + a * dt^2 * n (n + 1) / 2`
/// as position on each axis (the step-wise integral of the velocity),
/// whenever no value on the way saturates.
pub proof fn lemma_constant_acceleration(m: MovingObject, dt: u32, n: nat)
    requires
        axis_fits(m.position.x as int, m.velocity.x as int, m.acceleration.x as int, dt as int, n),
        axis_fits(m.position.y as int, m.velocity.y as int, m.acceleration.y as int, dt as int, n),
        axis_fits(m.position.z as int, m.velocity.z as int, m.acceleration.z as int, dt as int, n),
    ensures
        integrated_n(m, dt, n).acceleration == m.acceleration,
        integrated_n(m, dt, n).velocity.x == exact_velocity(m.velocity.x as int, m.acceleration.x as int, dt as int, n),
        integrated_n(m, dt, n).velocity.y == exact_velocity(m.velocity.y as int, m.acceleration.y as int, dt as int, n),
        integrated_n(m, dt, n).velocity.z == exact_velocity(m.velocity.z as int, m.acceleration.z as int, dt as int, n),
        integrated_n(m, dt, n).position.x == exact_position(m.position.x as int, m.velocity.x as int, m.acceleration.x as int, dt as int, n),
        integrated_n(m, dt, n).position.y == exact_position(m.position.y as int, m.velocity.y as int, m.acceleration.y as int, dt as int, n),
        integrated_n(m, dt, n).position.z == exact_position(m.position.z as int, m.velocity.z as int, m.acceleration.z as int, dt as int, n),
        2 * tri(n) == n * (n + 1),
{
    lemma_integrated_n_axes(m, dt, n);
    lemma_run_axis(m.position.x as int, m.velocity.x as int, m.acceleration.x as int, dt as int, n);
    lemma_run_axis(m.position.y as int, m.velocity.y as int, m.acceleration.y as int, dt as int, n);
    lemma_run_axis(m.position.z as int, m.velocity.z as int, m.acceleration.z as int, dt as int, n);
    lemma_tri(n);
}

} // verus!
