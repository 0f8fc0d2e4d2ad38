//! Fixed-point scalars and 2D vectors.
//!
//! Every physical quantity is an `i64` counted in thousandths of a unit
//! (`1.0 == UNIT`). Products are truncated toward zero, and every sum or
//! product saturates at the bounds of `i64` instead of wrapping.
use vstd::prelude::*;

verus! {

/// The fixed-point representation of `1.0`.
pub const UNIT: i64 = 1000;

/// Clamps an integer into the range of `i64`.
pub open spec fn clamp_i64(x: int) -> int {
    if x > i64::MAX {
        i64::MAX as int
    } else if x < i64::MIN {
        i64::MIN as int
    } else {
        x
    }
}

/// Division rounding toward zero, as machine division does.
pub open spec fn div_trunc(x: int, d: int) -> int {
    if x >= 0 {
        x / d
    } else {
        -((-x) / d)
    }
}

/// The fixed-point product of two scalars.
pub open spec fn scaled(a: int, b: int) -> int {
    clamp_i64(div_trunc(a * b, UNIT as int))
}

/// Saturating addition of two scalars.
pub fn sat_add(a: i64, b: i64) -> (r: i64)
    ensures
        r == clamp_i64(a + b),
{
    let s: i128 = a as i128 + b as i128;
    if s > i64::MAX as i128 {
        i64::MAX
    } else if s < i64::MIN as i128 {
        i64::MIN
    } else {
        s as i64
    }
}

/// The product of two `i64` values stays well inside the range of `i128`.
proof fn lemma_product_bound(a: int, b: int)
    requires
        i64::MIN <= a <= i64::MAX,
        i64::MIN <= b <= i64::MAX,
    ensures
        -0x4000_0000_0000_0000_0000_0000_0000_0000 <= a * b <= 0x4000_0000_0000_0000_0000_0000_0000_0000,
{
    let m: int = 0x8000_0000_0000_0000;
    let aa: int = if a >= 0 { a } else { -a };
    let bb: int = if b >= 0 { b } else { -b };
    assert(aa * bb <= m * m) by (nonlinear_arith)
        requires
            0 <= aa <= m,
            0 <= bb <= m,
    ;
    assert(a * b == aa * bb || a * b == -(aa * bb)) by (nonlinear_arith)
        requires
            aa == a || aa == -a,
            bb == b || bb == -b,
    ;
}

/// Fixed-point multiplication: `a * b / UNIT`, truncated toward zero and
/// saturated.
pub fn mul_fixed(a: i64, b: i64) -> (r: i64)
    ensures
        r == scaled(a as int, b as int),
{
    proof {
        lemma_product_bound(a as int, b as int);
    }
    let p: i128 = (a as i128) * (b as i128);
    let q: i128 = if p >= 0 {
        p / 1000
    } else {
        let n: i128 = -p;
        -(n / 1000)
    };
    if q > i64::MAX as i128 {
        i64::MAX
    } else if q < i64::MIN as i128 {
        i64::MIN
    } else {
        q as i64
    }
}

/// A 2D vector of fixed-point scalars.
#[derive(Clone, Copy, Debug, PartialEq, Eq, Structural)]
pub struct Vector {
    pub x: i64,
    pub y: i64,
}

impl Vector {
    /// Builds a vector from its two components.
    pub fn new(x: i64, y: i64) -> (r: Vector)
        ensures
            r.x == x,
            r.y == y,
    {
        Vector { x, y }
    }

    /// The zero vector.
    pub fn zero() -> (r: Vector)
        ensures
            r.x == 0,
            r.y == 0,
    {
        Vector { x: 0, y: 0 }
    }
}

} // verus!
