//! Fixed-point scalar arithmetic.
//!
//! Coordinates and matrix entries are stored as `i64` multiples of
//! `1 / FX_SCALE`.  Every stored value is kept within `[-FX_LIMIT, FX_LIMIT]`;
//! results that would leave that range are clamped, so chains of transform
//! compositions stay well defined.

use vstd::prelude::*;

verus! {

/// Number of fixed-point units that represent the real value `1.0`.
pub const FX_SCALE: i64 = 65536;

/// Magnitude bound kept by every stored coordinate and matrix entry (2^40).
pub const FX_LIMIT: i64 = 1099511627776;

/// Truncating division (rounding toward zero), the behaviour of `/` on
/// machine integers, expressed over mathematical integers.
pub open spec fn div_trunc(v: int, d: int) -> int {
    if v >= 0 {
        v / d
    } else {
        -((-v) / d)
    }
}

/// Clamp an unbounded intermediate result back into the stored range.
pub open spec fn fx_clamp(v: int) -> i64 {
    if v < -FX_LIMIT {
        (-FX_LIMIT) as i64
    } else if v > FX_LIMIT {
        FX_LIMIT
    } else {
        v as i64
    }
}

/// Smaller of two values.
pub open spec fn min64(a: i64, b: i64) -> i64 {
    if a <= b {
        a
    } else {
        b
    }
}

/// Larger of two values.
pub open spec fn max64(a: i64, b: i64) -> i64 {
    if a <= b {
        b
    } else {
        a
    }
}

/// Divide a wide intermediate value by `FX_SCALE`, rounding toward zero.
pub fn fx_scale_down(v: i128) -> (r: i128)
    ensures
        r as int == div_trunc(v as int, FX_SCALE as int),
{
    let q = v.checked_div(65536);
    assert(q is Some);
    q.unwrap()
}

/// Divide a stored value by a positive divisor, rounding toward zero.
pub fn div_trunc_by(v: i64, d: i64) -> (r: i64)
    requires
        d > 0,
    ensures
        r as int == div_trunc(v as int, d as int),
{
    let q = v.checked_div(d);
    assert(q is Some);
    q.unwrap()
}

/// Clamp a wide intermediate value into the stored fixed-point range.
pub fn fx_clamp_exec(v: i128) -> (r: i64)
    ensures
        r == fx_clamp(v as int),
{
    if v < -1099511627776i128 {
        -1099511627776i64
    } else if v > 1099511627776i128 {
        1099511627776i64
    } else {
        v as i64
    }
}

/// Smaller of two stored values.
pub fn min64_exec(a: i64, b: i64) -> (r: i64)
    ensures
        r == min64(a, b),
{
    if a <= b {
        a
    } else {
        b
    }
}

/// Larger of two stored values.
pub fn max64_exec(a: i64, b: i64) -> (r: i64)
    ensures
        r == max64(a, b),
{
    if a <= b {
        b
    } else {
        a
    }
}

} // verus!
