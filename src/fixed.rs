use vstd::prelude::*;

verus! {

/// The value that a saturating `i64` operation yields for the exact result `x`.
pub open spec fn clamp(x: int) -> int {
    if x < i64::MIN {
        i64::MIN as int
    } else if x > i64::MAX {
        i64::MAX as int
    } else {
        x
    }
}

/// Narrows `x` to `i64`, saturating at the bounds.
pub fn saturate(x: i128) -> (r: i64)
    ensures
        r == clamp(x as int),
{
    if x < i64::MIN as i128 {
        i64::MIN
    } else if x > i64::MAX as i128 {
        i64::MAX
    } else {
        x as i64
    }
}

/// The square of `x`, which fits in `u128` with room for three of them.
fn square(x: i64) -> (r: u128)
    ensures
        r as int == x * x,
        r <= 0x4000_0000_0000_0000_0000_0000_0000_0000,
{
    let w = x as i128;
    assert(0 <= w * w <= 0x4000_0000_0000_0000_0000_0000_0000_0000) by (nonlinear_arith)
        requires -0x8000_0000_0000_0000 <= w <= 0x7fff_ffff_ffff_ffff;
    (w * w) as u128
}

/// A vector of three fixed-point integers.
#[derive(Clone, Copy, Debug, PartialEq, Eq, Structural)]
pub struct Vec3i {
    pub x: i64,
    pub y: i64,
    pub z: i64,
}

impl Vec3i {
    pub fn new(x: i64, y: i64, z: i64) -> (r: Vec3i)
        ensures
            r == (Vec3i { x, y, z }),
    {
        Vec3i { x, y, z }
    }

    pub fn zero() -> (r: Vec3i)
        ensures
            r == (Vec3i { x: 0, y: 0, z: 0 }),
    {
        Vec3i { x: 0, y: 0, z: 0 }
    }

    /// Squared Euclidean length, exactly.
    pub open spec fn norm_sq(self) -> int {
        self.x * self.x + self.y * self.y + self.z * self.z
    }

    /// Squared distance from the origin; it always fits in `u128`.
    pub fn length_squared(&self) -> (r: u128)
        ensures
            r as int == self.norm_sq(),
    {
        let sx = square(self.x);
        let sy = square(self.y);
        let sz = square(self.z);
        sx + sy + sz
    }
}

} // verus!
