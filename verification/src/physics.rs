//! Unit-safe physics scalars.
//!
//! Every quantity wraps a single integer magnitude in a fixed milli-unit
//! (millimeters, millimeters per second, milliseconds), so cross-type
//! arithmetic is exact: acceleration x time gives a velocity, velocity x
//! time gives a length, each scaled back by [`MILLIS_ON_SECOND`] with
//! truncation toward zero.

pub mod acceleration;
pub mod duration;
pub mod length;
pub mod velocity;

pub use self::acceleration::Acceleration;
pub use self::duration::Duration;
pub use self::length::Length;
pub use self::velocity::Velocity;

use vstd::prelude::*;

use vstd::arithmetic::div_mod::lemma_div_nonincreasing;
use vstd::arithmetic::div_mod::lemma_div_pos_is_pos;
use vstd::arithmetic::mul::lemma_mul_nonnegative;

verus! {

/// Milliseconds per second: the factor that scales a product of a
/// milli-unit quantity and a duration in milliseconds back to milli-units.
pub const MILLIS_ON_SECOND: i64 = 1000;

/// Standard gravity, in millimeters per second per second.
pub const EARTH_G_MMPS2: i64 = 9800;

/// Integer division truncating toward zero: the semantics of `/` on `i64`
/// for a positive divisor.
pub open spec fn div_trunc(a: int, b: int) -> int {
    if a >= 0 {
        a / b
    } else {
        -((-a) / b)
    }
}

/// A product of a milli-unit magnitude and a duration in milliseconds,
/// scaled back to milli-units with truncation toward zero.
pub open spec fn scaled_by_millis(raw: int, millis: int) -> int {
    div_trunc(raw * millis, MILLIS_ON_SECOND as int)
}

/// The mathematical minimum of two integers.
pub open spec fn spec_min(a: int, b: int) -> int {
    if a <= b {
        a
    } else {
        b
    }
}

/// The mathematical maximum of two integers.
pub open spec fn spec_max(a: int, b: int) -> int {
    if a >= b {
        a
    } else {
        b
    }
}

/// A scaled product keeps the sign of its magnitude factor and is never
/// larger in magnitude than the unscaled product.
pub proof fn lemma_scaled_by_millis_bounds(raw: int, millis: int)
    requires
        millis >= 0,
    ensures
        raw >= 0 ==> 0 <= scaled_by_millis(raw, millis) <= raw * millis,
        raw <= 0 ==> raw * millis <= scaled_by_millis(raw, millis) <= 0,
{
    if raw >= 0 {
        lemma_mul_nonnegative(raw, millis);
        lemma_div_pos_is_pos(raw * millis, MILLIS_ON_SECOND as int);
        lemma_div_nonincreasing(raw * millis, MILLIS_ON_SECOND as int);
    } else {
        lemma_mul_nonnegative(-raw, millis);
        assert((-raw) * millis == -(raw * millis)) by (nonlinear_arith);
        lemma_div_pos_is_pos(-(raw * millis), MILLIS_ON_SECOND as int);
        lemma_div_nonincreasing(-(raw * millis), MILLIS_ON_SECOND as int);
    }
}

/// A product of a bounded magnitude and a bounded non-negative factor is
/// bounded by the product of the bounds.
pub proof fn lemma_mul_magnitude_bounded(a: int, b: int, bound_a: int, bound_b: int)
    requires
        -bound_a <= a <= bound_a,
        0 <= b <= bound_b,
        0 <= bound_a,
    ensures
        -(bound_a * bound_b) <= a * b <= bound_a * bound_b,
{
    assert(-(bound_a * bound_b) <= a * b <= bound_a * bound_b) by (nonlinear_arith)
        requires
            -bound_a <= a <= bound_a,
            0 <= b <= bound_b,
            0 <= bound_a,
    ;
}

/// Floor of the square root: the unique `r` with `r * r <= n < (r + 1) * (r + 1)`.
pub fn isqrt64(n: u64) -> (r: u64)
    ensures
        r * r <= n,
        n < (r + 1) * (r + 1),
{
    let mut lo: u64 = 0;
    let mut hi: u64 = 0x1_0000_0000;
    while lo + 1 < hi
        invariant
            lo < hi <= 0x1_0000_0000,
            lo * lo <= n,
            n < hi * hi,
        decreases hi - lo,
    {
        let mid: u64 = lo + (hi - lo) / 2;
        assert(mid * mid <= 0xffff_ffff_ffff_ffff) by (nonlinear_arith)
            requires
                mid <= 0xffff_ffff,
        ;
        if mid * mid <= n {
            lo = mid;
        } else {
            hi = mid;
        }
    }
    lo
}

/// The floor of the square root is unique: two values that both bracket
/// `n` between their square and the next square are equal.
pub proof fn lemma_isqrt_unique(n: int, r1: int, r2: int)
    requires
        0 <= r1,
        0 <= r2,
        r1 * r1 <= n < (r1 + 1) * (r1 + 1),
        r2 * r2 <= n < (r2 + 1) * (r2 + 1),
    ensures
        r1 == r2,
{
    if r1 < r2 {
        assert((r1 + 1) * (r1 + 1) <= r2 * r2) by (nonlinear_arith)
            requires
                0 <= r1,
                r1 < r2,
        ;
    }
    if r2 < r1 {
        assert((r2 + 1) * (r2 + 1) <= r1 * r1) by (nonlinear_arith)
            requires
                0 <= r2,
                r2 < r1,
        ;
    }
}

} // verus!
