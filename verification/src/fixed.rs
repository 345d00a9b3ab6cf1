//! Fixed-point coordinates and factors.
//!
//! Positions and parallax factors are stored as `i64` values in sub-units:
//! `SCALE` sub-units stand for one world unit, and a parallax factor of
//! `SCALE` stands for a multiplier of one.  All arithmetic of the parallax
//! routine is exact integer arithmetic at this resolution.

use vstd::prelude::*;

verus! {

/// Sub-units per world unit; a parallax factor of `SCALE` means a
/// multiplier of one.
pub const SCALE: i64 = 1000;

/// Largest magnitude a coordinate (camera or base position) may have,
/// in sub-units.
pub const MAX_COORD: i64 = 1_000_000_000_000;

/// Largest magnitude a parallax factor may have, in `SCALE` units.
pub const MAX_FACTOR: i64 = 1_000_000;

/// A coordinate small enough that the parallax arithmetic stays inside
/// `i64`.
pub open spec fn coord_valid(n: int) -> bool {
    -MAX_COORD <= n <= MAX_COORD
}

/// A parallax factor small enough that the parallax arithmetic stays
/// inside `i64`.
pub open spec fn factor_valid(p: int) -> bool {
    -MAX_FACTOR <= p <= MAX_FACTOR
}

/// Division by `SCALE`, rounding toward zero.
pub open spec fn div_scale(n: int) -> int {
    if n >= 0 {
        n / (SCALE as int)
    } else {
        -((-n) / (SCALE as int))
    }
}

/// Dividing an exact multiple of `SCALE` by `SCALE` recovers the factor.
pub proof fn lemma_div_scale_multiple(k: int)
    ensures
        div_scale(SCALE * k) == k,
{
    if k >= 0 {
        vstd::arithmetic::div_mod::lemma_div_multiples_vanish(k, SCALE as int);
    } else {
        assert(-(SCALE * k) == (SCALE as int) * (-k));
        vstd::arithmetic::div_mod::lemma_div_multiples_vanish(-k, SCALE as int);
    }
}

/// Division by `SCALE` never grows the magnitude.
pub proof fn lemma_div_scale_bound(n: int)
    ensures
        n >= 0 ==> 0 <= div_scale(n) <= n,
        n < 0 ==> n <= div_scale(n) <= 0,
{
    if n >= 0 {
        vstd::arithmetic::div_mod::lemma_fundamental_div_mod(n, SCALE as int);
    } else {
        vstd::arithmetic::div_mod::lemma_fundamental_div_mod(-n, SCALE as int);
    }
}

/// Divide a sub-unit quantity by `SCALE`, rounding toward zero.
pub fn scale_down(n: i64) -> (q: i64)
    requires
        -0x7fff_ffff_ffff_ffff <= n,
    ensures
        q as int == div_scale(n as int),
{
    proof {
        lemma_div_scale_bound(n as int);
    }
    if n >= 0 {
        n / SCALE
    } else {
        -((-n) / SCALE)
    }
}

} // verus!
