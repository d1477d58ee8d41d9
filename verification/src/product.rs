//! The binary32 product of a value and a factor between one half and one.

use crate::binary32::{
    exponent_field, fraction_field, lemma_magnitude_of_parts, magnitude, scale, significand,
    HIDDEN_BIT, INFINITY_BITS,
};
use crate::rounding::{
    distance, is_nearest_even, lemma_nearest_between, lemma_nearest_even_bounded,
    lemma_nearest_even_expand, lemma_round_nearest_even, round_nearest_even,
};
use vstd::arithmetic::power2::*;
use vstd::prelude::*;

verus! {

/// The pattern of 0.5.
pub const HALF_BITS: u32 = 0x3F00_0000;

/// The pattern of 1.0.
pub const ONE_BITS: u32 = 0x3F80_0000;

/// A factor of at least one half and less than one.
pub open spec fn is_fraction(factor: u32) -> bool {
    HALF_BITS <= factor < ONE_BITS
}

/// The product of two finite values that are not negative, as binary32
/// multiplication gives it: the exact product, rounded to nearest, ties to
/// even. The magnitudes count units of 2^-149, so their product counts units
/// of 2^-298, and 2^149 of those make one unit of the result.
///
/// Meant for products that do not exceed the largest finite value, as those
/// with a factor of at most one are.
pub open spec fn product(a: u32, b: u32) -> u32
    recommends
        a < INFINITY_BITS,
        b <= ONE_BITS,
{
    round_nearest_even(magnitude(a) * magnitude(b), pow2(149))
}

/// A factor in [0.5, 1) is its 24-bit significand over 2^24.
proof fn lemma_fraction_magnitude(factor: u32)
    requires
        is_fraction(factor),
    ensures
        HIDDEN_BIT <= significand(factor) < 2 * HIDDEN_BIT,
        magnitude(factor) == significand(factor) * pow2(125),
        pow2(149) == 2 * HIDDEN_BIT * pow2(125),
        pow2(125) > 0,
{
    assert(exponent_field(factor) == 126);
    assert(scale(factor) == 125);
    lemma_pow2_adds(24, 125);
    lemma2_to64();
    lemma_pow2_pos(125);
}

/// The exact product with a fraction, written over the grid of the result:
/// `q` whole steps of 2^`scale_r` and `rem` parts in 2^24 of one more.
proof fn lemma_split_product(sig: nat, m: nat, p_x: nat, p_r: nat, k: nat, q: nat, rem: nat)
    by (nonlinear_arith)
    requires
        p_x == k * p_r,
        (sig * m) * k == q * (2 * HIDDEN_BIT) + rem,
    ensures
        (sig * p_x) * m == (q * p_r) * (2 * HIDDEN_BIT) + rem * p_r,
        ((q + 1) * p_r) * (2 * HIDDEN_BIT) == (q * p_r) * (2 * HIDDEN_BIT) + (2 * HIDDEN_BIT)
            * p_r,
{
}

/// Which of the two neighbours is nearer shows in `rem` alone: it is the
/// lower one up to half a step, 2^23 parts in 2^24.
proof fn lemma_compare_parts(rem: nat, p_r: nat)
    by (nonlinear_arith)
    requires
        rem < 2 * HIDDEN_BIT,
        p_r > 0,
    ensures
        rem * p_r < (2 * HIDDEN_BIT) * p_r,
        rem < HIDDEN_BIT ==> rem * p_r < (2 * HIDDEN_BIT) * p_r - rem * p_r,
        rem == HIDDEN_BIT ==> rem * p_r == (2 * HIDDEN_BIT) * p_r - rem * p_r,
        rem > HIDDEN_BIT ==> rem * p_r > (2 * HIDDEN_BIT) * p_r - rem * p_r,
{
}

/// The exact product of the significands fits in 48 bits, and has at least
/// 47 when the value is normal.
proof fn lemma_significand_product_bounds(sig: nat, m: nat)
    by (nonlinear_arith)
    requires
        sig < 2 * HIDDEN_BIT,
        HIDDEN_BIT <= m < 2 * HIDDEN_BIT,
    ensures
        sig * m < 0x1_0000_0000_0000,
        sig * m < (2 * HIDDEN_BIT) * m,
        sig >= HIDDEN_BIT ==> sig * m >= 0x4000_0000_0000,
{
}

/// The same product, spelled out on the two significands.
///
/// The exact product of the significands has at most 48 bits. Cut after its
/// 24 leading bits it gives the significand of the result: a normal value
/// whose product stays under 2^47 moves into the binade below its own, where
/// the steps are half as wide. What is cut off decides the rounding.
pub open spec fn fraction_product(x: u32, factor: u32) -> u32 {
    let exact = significand(x) * significand(factor);
    let lower_binade = exponent_field(x) >= 2 && exact < 0x8000_0000_0000;
    let step: nat = if lower_binade {
        0x80_0000
    } else {
        0x100_0000
    };
    let scale_r = if lower_binade {
        scale(x) - 1
    } else {
        scale(x) as int
    };
    let q = exact / step;
    let rest = exact % step;
    let up: int = if 2 * rest > step || (2 * rest == step && q % 2 == 1) {
        1
    } else {
        0
    };
    (scale_r * HIDDEN_BIT + q + up) as u32
}

/// On a finite value that is not negative and a factor in [0.5, 1),
/// `fraction_product` is the binary32 product, and never above the value.
pub proof fn lemma_fraction_product(x: u32, factor: u32)
    requires
        x < INFINITY_BITS,
        is_fraction(factor),
    ensures
        product(x, factor) == fraction_product(x, factor),
        is_nearest_even(product(x, factor), magnitude(x) * magnitude(factor), pow2(149)),
        product(x, factor) <= x,
{
    let sig = significand(x);
    let m = significand(factor);
    lemma_fraction_magnitude(factor);
    lemma_significand_product_bounds(sig, m);
    let exact = sig * m;
    let lower_binade = exponent_field(x) >= 2 && exact < 0x8000_0000_0000;
    let k: nat = if lower_binade {
        2
    } else {
        1
    };
    let step: nat = if lower_binade {
        0x80_0000
    } else {
        0x100_0000
    };
    let scale_r: nat = if lower_binade {
        (scale(x) - 1) as nat
    } else {
        scale(x)
    };
    let q = exact / step;
    let rem = (exact % step) * k;
    let lo = (scale_r * HIDDEN_BIT + q) as u32;
    let r = fraction_product(x, factor);
    let p_x = pow2(scale(x));
    let p_r = pow2(scale_r);
    let num = magnitude(x) * m;
    let den: nat = 2 * HIDDEN_BIT as nat;
    if lower_binade {
        lemma_pow2_unfold(scale(x));
    }
    lemma_pow2_pos(scale_r);
    lemma_split_product(sig, m, p_x, p_r, k, q, rem);
    lemma_compare_parts(rem, p_r);
    lemma_magnitude_of_parts(scale_r, q);
    lemma_magnitude_of_parts(scale_r, q + 1);
    assert(distance(lo, num, den) == rem * p_r);
    assert(distance((lo + 1) as u32, num, den) == den * p_r - rem * p_r);
    lemma_nearest_between(lo, num, den);
    lemma_nearest_even_expand(r, num, den, pow2(125));
    assert(num * pow2(125) == magnitude(x) * magnitude(factor)) by (nonlinear_arith)
        requires
            num == magnitude(x) * m,
            magnitude(factor) == m * pow2(125),
    ;
    lemma_round_nearest_even(r, magnitude(x) * magnitude(factor), pow2(149));
    assert(magnitude(x) * magnitude(factor) <= magnitude(x) * pow2(149)) by (nonlinear_arith)
        requires
            magnitude(factor) == m * pow2(125),
            pow2(149) == 2 * HIDDEN_BIT * pow2(125),
            m < 2 * HIDDEN_BIT,
    ;
    lemma_nearest_even_bounded(r, x, magnitude(x) * magnitude(factor), pow2(149));
}

/// With a normal value and a factor of at most 1 - 2^-23, the exact product
/// of the significands stays a whole step under the value's own.
proof fn lemma_product_below_significand(sig: nat, m: nat)
    by (nonlinear_arith)
    requires
        HIDDEN_BIT <= sig < 2 * HIDDEN_BIT,
        HIDDEN_BIT <= m <= 2 * HIDDEN_BIT - 2,
    ensures
        sig * m <= (sig - 1) * (2 * HIDDEN_BIT),
        sig == HIDDEN_BIT ==> sig * m == m * HIDDEN_BIT,
{
}

/// A normal value times a factor of at most 1 - 2^-23 gives a strictly
/// smaller value: rounding cannot bring the product back up to the value.
///
/// Among subnormal values this fails, as of the smallest one times 0.7, and
/// so it does of the smallest normal value times the one factor left out.
pub proof fn lemma_fraction_product_lowers(x: u32, factor: u32)
    requires
        HIDDEN_BIT <= x < INFINITY_BITS,
        HALF_BITS <= factor < ONE_BITS - 1,
    ensures
        product(x, factor) < x,
{
    let sig = significand(x);
    let m = significand(factor);
    lemma_fraction_product(x, factor);
    lemma_fraction_magnitude(factor);
    lemma_significand_product_bounds(sig, m);
    lemma_product_below_significand(sig, m);
    assert(x == scale(x) * HIDDEN_BIT + sig);
}

/// Multiplies a finite value that is not negative by a factor in [0.5, 1).
///
/// The result is the exact product rounded to nearest, ties to even, and so
/// never above `x`.
pub fn scale_down(x: u32, factor: u32) -> (r: u32)
    requires
        x < INFINITY_BITS,
        is_fraction(factor),
    ensures
        r == product(x, factor),
        r <= x,
{
    let e: u32 = x / HIDDEN_BIT;
    let sig: u64 = if e == 0 {
        (x % HIDDEN_BIT) as u64
    } else {
        (x % HIDDEN_BIT + HIDDEN_BIT) as u64
    };
    let m: u64 = (factor % HIDDEN_BIT + HIDDEN_BIT) as u64;
    proof {
        lemma_fraction_product(x, factor);
        lemma_fraction_magnitude(factor);
        lemma_significand_product_bounds(sig as nat, m as nat);
    }
    let exact: u64 = sig * m;
    let lower_binade: bool = e >= 2 && exact < 0x8000_0000_0000;
    let step: u64 = if lower_binade {
        0x80_0000
    } else {
        0x100_0000
    };
    let scale_r: u32 = if lower_binade {
        e - 2
    } else if e == 0 {
        0
    } else {
        e - 1
    };
    let q: u64 = exact / step;
    let rest: u64 = exact % step;
    let lo: u32 = scale_r * HIDDEN_BIT + q as u32;
    if 2 * rest > step || (2 * rest == step && q % 2 == 1) {
        lo + 1
    } else {
        lo
    }
}

} // verus!
