//! IEEE 754 binary32 values as bit patterns, with their exact meaning.
//!
//! A pattern has a sign bit, an 8-bit exponent field and a 23-bit fraction
//! field. Every finite value is a whole multiple of 2^-149, so its magnitude
//! is modelled exactly as a natural number of such units.

use vstd::arithmetic::mul::*;
use vstd::arithmetic::power2::*;
use vstd::prelude::*;

verus! {

/// The sign bit. Alone it is the pattern of -0.
pub const SIGN_BIT: u32 = 0x8000_0000;

/// The pattern of +infinity; every smaller pattern is a finite value that is
/// not negative.
pub const INFINITY_BITS: u32 = 0x7F80_0000;

/// The weight of the implicit leading bit of a normal significand, 2^23.
pub const HIDDEN_BIT: u32 = 0x80_0000;

/// Whether the sign bit is set.
pub open spec fn is_negative(bits: u32) -> bool {
    bits >= SIGN_BIT
}

/// The pattern with its sign bit cleared.
pub open spec fn abs_bits(bits: u32) -> u32 {
    if bits >= SIGN_BIT {
        (bits - SIGN_BIT) as u32
    } else {
        bits
    }
}

/// The exponent field, bits 23 to 30.
pub open spec fn exponent_field(bits: u32) -> nat {
    (abs_bits(bits) / HIDDEN_BIT) as nat
}

/// The fraction field, bits 0 to 22.
pub open spec fn fraction_field(bits: u32) -> nat {
    (bits % HIDDEN_BIT) as nat
}

/// Not a number: the exponent field is all ones and the fraction is not 0.
pub open spec fn is_nan(bits: u32) -> bool {
    abs_bits(bits) > INFINITY_BITS
}

/// The integer significand: the fraction field, with the hidden bit added
/// for a normal value.
pub open spec fn significand(bits: u32) -> nat {
    if exponent_field(bits) == 0 {
        fraction_field(bits)
    } else {
        HIDDEN_BIT as nat + fraction_field(bits)
    }
}

/// The power of two, counted from 2^-149, that the significand is scaled by.
pub open spec fn scale(bits: u32) -> nat {
    if exponent_field(bits) == 0 {
        0
    } else {
        (exponent_field(bits) - 1) as nat
    }
}

/// The absolute value in units of 2^-149.
///
/// Exact for every finite pattern. For an infinity the same formula gives
/// 2^277, which lies above every finite magnitude, so that the magnitudes of
/// all patterns but NaNs are ordered as the values are.
pub open spec fn magnitude(bits: u32) -> nat {
    significand(bits) * pow2(scale(bits))
}

/// The value in units of 2^-149, with its sign. Both zeros give 0.
pub open spec fn value(bits: u32) -> int {
    if is_negative(bits) {
        -(magnitude(bits) as int)
    } else {
        magnitude(bits) as int
    }
}

/// The magnitude of the pattern put together from a scale and a significand.
/// A significand of 2^24, as left by a carry out of rounding, runs over into
/// the exponent field and still gives the right pattern.
pub proof fn lemma_magnitude_of_parts(scale_r: nat, sig: nat)
    requires
        sig <= 2 * HIDDEN_BIT,
        scale_r == 0 || sig >= HIDDEN_BIT,
        scale_r * HIDDEN_BIT + sig <= INFINITY_BITS,
    ensures
        magnitude((scale_r * HIDDEN_BIT + sig) as u32) == sig * pow2(scale_r),
{
    let bits = (scale_r * HIDDEN_BIT + sig) as u32;
    lemma2_to64();
    if sig < HIDDEN_BIT {
        assert(exponent_field(bits) == 0);
        assert(fraction_field(bits) == sig);
    } else if sig < 2 * HIDDEN_BIT {
        assert(exponent_field(bits) == scale_r + 1);
        assert(fraction_field(bits) == sig - HIDDEN_BIT);
    } else {
        assert(exponent_field(bits) == scale_r + 2);
        assert(fraction_field(bits) == 0);
        lemma_pow2_unfold(scale_r + 1);
        assert(HIDDEN_BIT * (2 * pow2(scale_r)) == (2 * HIDDEN_BIT) * pow2(scale_r))
            by (nonlinear_arith);
    }
}

/// Within its binade a magnitude lies between the hidden bit's weight and
/// twice that.
proof fn lemma_magnitude_bounds(bits: u32)
    requires
        bits <= INFINITY_BITS,
    ensures
        magnitude(bits) < HIDDEN_BIT * pow2(exponent_field(bits)),
        exponent_field(bits) >= 1 ==> magnitude(bits) >= HIDDEN_BIT * pow2(scale(bits)),
{
    let e = exponent_field(bits);
    let sig = significand(bits);
    if e == 0 {
        lemma2_to64();
    } else {
        let p = pow2(scale(bits));
        lemma_pow2_unfold(e);
        lemma_pow2_pos(scale(bits));
        assert(sig * p < HIDDEN_BIT * (2 * p) && sig * p >= HIDDEN_BIT * p) by (nonlinear_arith)
            requires
                HIDDEN_BIT <= sig < 2 * HIDDEN_BIT,
                p > 0,
        ;
    }
}

/// Powers of two grow with the exponent.
proof fn lemma_pow2_increases(e1: nat, e2: nat)
    requires
        e1 <= e2,
    ensures
        pow2(e1) <= pow2(e2),
{
    if e1 < e2 {
        lemma_pow2_strictly_increases(e1, e2);
    }
}

/// Among the patterns up to +infinity, a larger pattern has a larger
/// magnitude: the encoding is ordered as the values are.
pub proof fn lemma_magnitude_strictly_increases(a: u32, b: u32)
    requires
        a < b <= INFINITY_BITS,
    ensures
        magnitude(a) < magnitude(b),
{
    let ea = exponent_field(a);
    let eb = exponent_field(b);
    if ea == eb {
        let p = pow2(scale(a));
        lemma_pow2_pos(scale(a));
        lemma_mul_strict_inequality(significand(a) as int, significand(b) as int, p as int);
    } else {
        lemma_magnitude_bounds(a);
        lemma_magnitude_bounds(b);
        lemma_pow2_increases(ea, scale(b));
        lemma_mul_inequality(pow2(ea) as int, pow2(scale(b)) as int, HIDDEN_BIT as int);
        lemma_mul_is_commutative(pow2(ea) as int, HIDDEN_BIT as int);
        lemma_mul_is_commutative(pow2(scale(b)) as int, HIDDEN_BIT as int);
    }
}

/// The same, read both ways: patterns up to +infinity are ordered exactly as
/// their magnitudes, and two of them with one magnitude are one pattern.
pub proof fn lemma_magnitude_order(a: u32, b: u32)
    requires
        a <= INFINITY_BITS,
        b <= INFINITY_BITS,
    ensures
        a < b <==> magnitude(a) < magnitude(b),
        a == b <==> magnitude(a) == magnitude(b),
{
    if a < b {
        lemma_magnitude_strictly_increases(a, b);
    } else if b < a {
        lemma_magnitude_strictly_increases(b, a);
    }
}

/// The sign bit does not enter the magnitude.
pub proof fn lemma_magnitude_ignores_sign(bits: u32)
    ensures
        magnitude(bits) == magnitude(abs_bits(bits)),
        magnitude(bits) == 0 <==> abs_bits(bits) == 0,
{
    let m = abs_bits(bits);
    assert(fraction_field(bits) == fraction_field(m));
    if m != 0 {
        assert(significand(m) > 0);
        lemma_pow2_pos(scale(m));
        lemma_mul_strictly_positive(significand(m) as int, pow2(scale(m)) as int);
    } else {
        assert(significand(m) == 0);
        lemma_mul_basics(pow2(scale(m)) as int);
    }
}

/// What `>` means on two binary32 values: neither is a NaN, and the first
/// value is the greater. The two zeros are equal; +infinity is above and
/// -infinity below every finite value.
pub open spec fn spec_gt(a: u32, b: u32) -> bool {
    !is_nan(a) && !is_nan(b) && value(a) > value(b)
}

/// The pattern with its sign bit cleared.
pub fn clear_sign(bits: u32) -> (r: u32)
    ensures
        r == abs_bits(bits),
        r < SIGN_BIT,
{
    if bits >= SIGN_BIT {
        bits - SIGN_BIT
    } else {
        bits
    }
}

/// The same comparison, read off the patterns: among values that are not
/// negative the greater pattern is the greater value, among negative ones
/// the smaller, and a value that is not negative is above a negative one
/// unless both are zero.
pub open spec fn gt_on_patterns(a: u32, b: u32) -> bool {
    &&& !is_nan(a)
    &&& !is_nan(b)
    &&& if is_negative(a) {
        is_negative(b) && abs_bits(a) < abs_bits(b)
    } else if is_negative(b) {
        abs_bits(a) != 0 || abs_bits(b) != 0
    } else {
        a > b
    }
}

/// Comparing the patterns in this way compares the values.
pub proof fn lemma_gt_on_patterns(a: u32, b: u32)
    ensures
        spec_gt(a, b) == gt_on_patterns(a, b),
{
    if !is_nan(a) && !is_nan(b) {
        lemma_magnitude_ignores_sign(a);
        lemma_magnitude_ignores_sign(b);
        lemma_magnitude_order(abs_bits(a), abs_bits(b));
    }
}

/// Compares two binary32 values given by their patterns, as `>` on the
/// values does: `false` whenever one of them is a NaN.
pub fn gt(a: u32, b: u32) -> (r: bool)
    ensures
        r == spec_gt(a, b),
{
    proof {
        lemma_gt_on_patterns(a, b);
    }
    let a_abs = clear_sign(a);
    let b_abs = clear_sign(b);
    if a_abs > INFINITY_BITS || b_abs > INFINITY_BITS {
        false
    } else if a >= SIGN_BIT {
        b >= SIGN_BIT && a_abs < b_abs
    } else if b >= SIGN_BIT {
        a_abs != 0 || b_abs != 0
    } else {
        a > b
    }
}

} // verus!
