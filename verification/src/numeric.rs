//! Fixed-point arithmetic shared by the stat and damage rules.
//!
//! A fractional quantity is stored as an `i64` count of millionths of a unit
//! (one unit equals `MICRO` millionths).  Rules that scale such quantities
//! round to the nearest millionth, halves away from zero — the same
//! convention the calculator's tables were written against.

use vstd::prelude::*;

verus! {

/// Millionths in one unit of a fixed-point quantity.
pub const MICRO: i64 = 1_000_000;

/// Nearest-integer division with halves rounded away from zero,
/// for a positive divisor.
pub open spec fn spec_round_div(num: int, den: int) -> int
    recommends
        den >= 1,
{
    if num >= 0 {
        (2 * num + den) / (2 * den)
    } else {
        -((2 * -num + den) / (2 * den))
    }
}

/// The division rounds an exact quotient to itself.
pub proof fn lemma_round_div_exact(num: int, den: int)
    requires
        den >= 1,
        num % den == 0,
    ensures
        spec_round_div(num, den) == num / den,
{
    let q = num / den;
    assert(num == den * q) by {
        vstd::arithmetic::div_mod::lemma_fundamental_div_mod(num, den);
    }
    if num >= 0 {
        assert((2 * (den * q) + den) / (2 * den) == q) by (nonlinear_arith)
            requires
                den >= 1,
                q >= 0,
        ;
    } else {
        assert(q < 0) by (nonlinear_arith)
            requires
                den >= 1,
                den * q < 0,
        ;
        assert((2 * -(den * q) + den) / (2 * den) == -q) by (nonlinear_arith)
            requires
                den >= 1,
                q < 0,
        ;
    }
}

/// The rounded quotient never strays farther from zero than `|num| / den + 1`.
pub proof fn lemma_round_div_bound(num: int, den: int)
    requires
        den >= 1,
    ensures
        num >= 0 ==> 0 <= spec_round_div(num, den) <= num / den + 1,
        num < 0 ==> 0 >= spec_round_div(num, den) >= -((-num) / den + 1),
{
    if num >= 0 {
        assert(0 <= (2 * num + den) / (2 * den) <= num / den + 1) by (nonlinear_arith)
            requires
                den >= 1,
                num >= 0,
        ;
    } else {
        assert(0 <= (2 * -num + den) / (2 * den) <= (-num) / den + 1) by (nonlinear_arith)
            requires
                den >= 1,
                num < 0,
        ;
    }
}

/// Product of two fixed-point quantities, in millionths.
pub open spec fn spec_scale(a: int, b: int) -> int {
    spec_round_div(a * b, MICRO as int)
}

/// Multiply two fixed-point quantities, rounding to the nearest millionth.
pub fn scale(a: i64, b: i64) -> (r: i64)
    requires
        -(i64::MAX - 1) * (MICRO as int) <= a * b <= (i64::MAX - 1) * (MICRO as int),
    ensures
        r == spec_scale(a as int, b as int),
{
    let v: i128 = round_div(a as i128 * b as i128, MICRO as i128);
    proof {
        lemma_round_div_bound(a as int * b as int, MICRO as int);
        vstd::arithmetic::div_mod::lemma_div_is_ordered(
            a as int * b as int,
            (i64::MAX - 1) * (MICRO as int),
            MICRO as int,
        );
        vstd::arithmetic::div_mod::lemma_div_is_ordered(
            -(a as int * b as int),
            (i64::MAX - 1) * (MICRO as int),
            MICRO as int,
        );
        vstd::arithmetic::div_mod::lemma_div_by_multiple(i64::MAX - 1, MICRO as int);
    }
    v as i64
}

/// Divide, rounding to the nearest integer with halves away from zero.
pub fn round_div(num: i128, den: i128) -> (r: i128)
    requires
        1 <= den <= 0x2000_0000_0000_0000_0000_0000_0000_0000,
        -0x2000_0000_0000_0000_0000_0000_0000_0000 < num
            < 0x2000_0000_0000_0000_0000_0000_0000_0000,
    ensures
        r == spec_round_div(num as int, den as int),
{
    let d: u128 = den as u128;
    if num >= 0 {
        let n: u128 = num as u128;
        ((2 * n + d) / (2 * d)) as i128
    } else {
        let n: u128 = (-num) as u128;
        let q: u128 = (2 * n + d) / (2 * d);
        assert(q <= n) by (nonlinear_arith)
            requires
                d >= 1,
                q == (2 * n + d) / (2 * d),
        ;
        -(q as i128)
    }
}

} // verus!
