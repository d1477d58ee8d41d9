//! Rounding an exact value to the nearest binary32 value, ties to even.
//!
//! The exact value is a fraction `num / den` of the unit 2^-149. Only values
//! from zero up to the largest finite binary32 value are rounded here, so the
//! result is always a finite pattern without the sign bit.

use crate::binary32::{
    lemma_magnitude_order, lemma_magnitude_strictly_increases, magnitude, INFINITY_BITS,
};
use vstd::arithmetic::mul::*;
use vstd::prelude::*;

verus! {

/// How far the value of `bits` lies from `num / den`, in units of
/// 2^-149 / `den`.
pub open spec fn distance(bits: u32, num: nat, den: nat) -> nat {
    let at = magnitude(bits) * den;
    if at >= num {
        (at - num) as nat
    } else {
        (num - at) as nat
    }
}

/// `r` is the rounding of `num / den` to nearest, ties to even: no finite
/// value lies nearer, and where another lies as near, `r` is the one whose
/// last significand bit is 0.
pub open spec fn is_nearest_even(r: u32, num: nat, den: nat) -> bool {
    &&& r < INFINITY_BITS
    &&& forall|y: u32|
        y < INFINITY_BITS ==> distance(r, num, den) <= #[trigger] distance(y, num, den)
    &&& forall|y: u32|
        y < INFINITY_BITS && y != r && #[trigger] distance(y, num, den) == distance(r, num, den)
            ==> r % 2 == 0
}

/// The rounding of `num / den` to nearest, ties to even.
pub open spec fn round_nearest_even(num: nat, den: nat) -> u32 {
    choose|r: u32| is_nearest_even(r, num, den)
}

/// Distances from an exact value at or above a pattern's value grow as the
/// pattern gets smaller, and likewise on the other side.
proof fn lemma_distance_outside(y: u32, b: u32, num: nat, den: nat)
    requires
        den > 0,
        y <= INFINITY_BITS,
        b <= INFINITY_BITS,
    ensures
        y < b && magnitude(b) * den <= num ==> distance(y, num, den) > distance(b, num, den),
        y > b && magnitude(b) * den >= num ==> distance(y, num, den) > distance(b, num, den),
{
    lemma_magnitude_order(y, b);
    if y < b {
        lemma_mul_strict_inequality(magnitude(y) as int, magnitude(b) as int, den as int);
    } else if y > b {
        lemma_mul_strict_inequality(magnitude(b) as int, magnitude(y) as int, den as int);
    }
}

/// Of a pattern and the next one, the nearer to `num / den`, and the even
/// one where both are as near.
pub open spec fn nearer_neighbour(lo: u32, num: nat, den: nat) -> u32 {
    let hi = (lo + 1) as u32;
    let d_lo = distance(lo, num, den);
    let d_hi = distance(hi, num, den);
    if d_lo < d_hi || (d_lo == d_hi && lo % 2 == 0) {
        lo
    } else {
        hi
    }
}

/// An exact value between two neighbouring patterns rounds to the nearer of
/// the two, and from the midpoint to the even one.
pub proof fn lemma_nearest_between(lo: u32, num: nat, den: nat)
    requires
        den > 0,
        lo + 1 < INFINITY_BITS,
        magnitude(lo) * den <= num <= magnitude((lo + 1) as u32) * den,
    ensures
        is_nearest_even(nearer_neighbour(lo, num, den), num, den),
{
    let hi = (lo + 1) as u32;
    let d_lo = distance(lo, num, den);
    let d_hi = distance(hi, num, den);
    assert forall|y: u32| y < INFINITY_BITS && y != lo && y != hi implies #[trigger] distance(
        y,
        num,
        den,
    ) > d_lo || distance(y, num, den) > d_hi by {
        lemma_distance_outside(y, lo, num, den);
        lemma_distance_outside(y, hi, num, den);
    }
    lemma_distance_outside(lo, hi, num, den);
    lemma_distance_outside(hi, lo, num, den);
}

/// Rounding never passes a representable value: the result lies on the same
/// side of every finite pattern as the exact value does.
pub proof fn lemma_nearest_even_bounded(r: u32, y: u32, num: nat, den: nat)
    requires
        den > 0,
        is_nearest_even(r, num, den),
        y < INFINITY_BITS,
    ensures
        num <= magnitude(y) * den ==> r <= y,
        num >= magnitude(y) * den ==> r >= y,
{
    assert(distance(r, num, den) <= distance(y, num, den));
    lemma_distance_outside(r, y, num, den);
}

/// Two patterns that both lie nearest to an exact value are neighbours.
proof fn lemma_nearest_are_neighbours(a: u32, b: u32, num: nat, den: nat)
    requires
        den > 0,
        a < b < INFINITY_BITS,
        distance(a, num, den) == distance(b, num, den),
        forall|y: u32|
            y < INFINITY_BITS ==> distance(a, num, den) <= #[trigger] distance(y, num, den),
    ensures
        b == a + 1,
{
    let mid = (a + 1) as u32;
    if mid < b {
        assert(distance(a, num, den) <= distance(mid, num, den));
        lemma_magnitude_strictly_increases(a, mid);
        lemma_magnitude_strictly_increases(mid, b);
        lemma_mul_strict_inequality(magnitude(a) as int, magnitude(mid) as int, den as int);
        lemma_mul_strict_inequality(magnitude(mid) as int, magnitude(b) as int, den as int);
    }
}

/// At most one pattern is the rounding of a given exact value.
pub proof fn lemma_nearest_even_unique(r1: u32, r2: u32, num: nat, den: nat)
    requires
        den > 0,
        is_nearest_even(r1, num, den),
        is_nearest_even(r2, num, den),
    ensures
        r1 == r2,
{
    assert(distance(r1, num, den) <= distance(r2, num, den));
    assert(distance(r2, num, den) <= distance(r1, num, den));
    if r1 < r2 {
        lemma_nearest_are_neighbours(r1, r2, num, den);
    } else if r2 < r1 {
        lemma_nearest_are_neighbours(r2, r1, num, den);
    }
}

/// A pattern that is the rounding of an exact value is what
/// `round_nearest_even` gives for it.
pub proof fn lemma_round_nearest_even(r: u32, num: nat, den: nat)
    requires
        den > 0,
        is_nearest_even(r, num, den),
    ensures
        round_nearest_even(num, den) == r,
{
    lemma_nearest_even_unique(r, round_nearest_even(num, den), num, den);
}

/// The rounding depends on the exact value only, not on the fraction it is
/// written as.
pub proof fn lemma_nearest_even_expand(r: u32, num: nat, den: nat, k: nat)
    requires
        is_nearest_even(r, num, den),
        k > 0,
    ensures
        is_nearest_even(r, num * k, den * k),
{
    let d_r = distance(r, num * k, den * k);
    assert forall|y: u32| #[trigger]
        distance(y, num * k, den * k) == distance(y, num, den) * k by {
        lemma_distance_expand(magnitude(y), num, den, k);
    }
    assert forall|y: u32| y < INFINITY_BITS implies d_r <= #[trigger] distance(
        y,
        num * k,
        den * k,
    ) by {
        assert(distance(r, num, den) <= distance(y, num, den));
        lemma_mul_inequality(distance(r, num, den) as int, distance(y, num, den) as int, k as int);
    }
    assert forall|y: u32|
        y < INFINITY_BITS && y != r && #[trigger] distance(y, num * k, den * k) == d_r implies r
            % 2 == 0 by {
        assert(d_r == distance(r, num, den) * k);
        lemma_mul_is_commutative(k as int, distance(y, num, den) as int);
        lemma_mul_is_commutative(k as int, distance(r, num, den) as int);
        lemma_mul_equality_converse(
            k as int,
            distance(y, num, den) as int,
            distance(r, num, den) as int,
        );
    }
}

/// Writing both the exact value and the grid over `k` times the
/// denominator multiplies every distance by `k`.
proof fn lemma_distance_expand(m: nat, num: nat, den: nat, k: nat)
    by (nonlinear_arith)
    ensures
        m * (den * k) == (m * den) * k,
        m * den >= num ==> (m * den) * k >= num * k && (m * den) * k - num * k == (m * den - num)
            * k,
        m * den < num ==> k > 0 ==> (m * den) * k < num * k,
        m * den < num ==> num * k - (m * den) * k == (num - m * den) * k,
{
}

} // verus!
