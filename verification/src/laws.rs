//! What holds of a system's reactions to price signals, whatever its state
//! and whatever the signals.

use crate::binary32::{
    is_nan, lemma_gt_on_patterns, magnitude, scale, significand, value, HIDDEN_BIT,
    INFINITY_BITS,
};
use crate::mode::OperationalMode;
use crate::product::{
    fraction_product, lemma_fraction_product, lemma_fraction_product_lowers, product,
};
use crate::rounding::is_nearest_even;
use crate::signal::CPPSignal;
use crate::system::{
    adjusted, energy_saving, initial_state, is_operating_state, price_is_high, SystemState,
    DEFAULT_HVAC_POWER, DEFAULT_LIGHTING_POWER, HVAC_SAVING_FACTOR, LIGHTING_SAVING_FACTOR,
    PRICE_THRESHOLD,
};
use vstd::arithmetic::power2::{lemma2_to64, lemma_pow2_adds, pow2};
use vstd::prelude::*;

verus! {

/// What the constants are worth. The defaults are exactly 5 and 2; the other
/// three are the binary32 values nearest to 0.7, 0.8 and 0.15, which are
/// 11744051 / 2^24, 13421773 / 2^24 and 10066330 / 2^26.
pub proof fn lemma_constant_values()
    ensures
        magnitude(DEFAULT_HVAC_POWER) == 5 * pow2(149),
        magnitude(DEFAULT_LIGHTING_POWER) == 2 * pow2(149),
        magnitude(HVAC_SAVING_FACTOR) * 0x100_0000 == 11_744_051 * pow2(149),
        magnitude(LIGHTING_SAVING_FACTOR) * 0x100_0000 == 13_421_773 * pow2(149),
        magnitude(PRICE_THRESHOLD) * 0x400_0000 == 10_066_330 * pow2(149),
{
    lemma2_to64();
    assert(significand(DEFAULT_HVAC_POWER) == 5 * 0x20_0000);
    assert(scale(DEFAULT_HVAC_POWER) == 128);
    assert(significand(DEFAULT_LIGHTING_POWER) == 0x80_0000);
    assert(scale(DEFAULT_LIGHTING_POWER) == 127);
    assert(significand(HVAC_SAVING_FACTOR) == 11_744_051);
    assert(scale(HVAC_SAVING_FACTOR) == 125);
    assert(significand(LIGHTING_SAVING_FACTOR) == 13_421_773);
    assert(scale(LIGHTING_SAVING_FACTOR) == 125);
    assert(significand(PRICE_THRESHOLD) == 10_066_330);
    assert(scale(PRICE_THRESHOLD) == 123);
    lemma_pow2_adds(21, 128);
    lemma_pow2_adds(22, 127);
    lemma_pow2_adds(24, 125);
    lemma_pow2_adds(26, 123);
    assert((5 * 0x20_0000) * pow2(128) == 5 * (0x20_0000 * pow2(128))) by (nonlinear_arith);
    assert(0x80_0000 * pow2(127) == 2 * (0x40_0000 * pow2(127))) by (nonlinear_arith);
    assert((11_744_051 * pow2(125)) * 0x100_0000 == 11_744_051 * (0x100_0000 * pow2(125)))
        by (nonlinear_arith);
    assert((13_421_773 * pow2(125)) * 0x100_0000 == 13_421_773 * (0x100_0000 * pow2(125)))
        by (nonlinear_arith);
    assert((10_066_330 * pow2(123)) * 0x400_0000 == 10_066_330 * (0x400_0000 * pow2(123)))
        by (nonlinear_arith);
}

/// A price above the threshold puts the system in energy-saving mode, with
/// the HVAC power at 0.7 times and the lighting power at 0.8 times what it
/// was: the exact products, rounded to the nearest binary32 value.
pub proof fn lemma_high_price_saves(s: SystemState, signal: CPPSignal)
    requires
        is_operating_state(s),
        !is_nan(signal.price),
        value(signal.price) > value(PRICE_THRESHOLD),
    ensures
        adjusted(s, signal).mode == OperationalMode::EnergySaving,
        is_nearest_even(
            adjusted(s, signal).hvac_power,
            magnitude(s.hvac_power) * magnitude(HVAC_SAVING_FACTOR),
            pow2(149),
        ),
        is_nearest_even(
            adjusted(s, signal).lighting_power,
            magnitude(s.lighting_power) * magnitude(LIGHTING_SAVING_FACTOR),
            pow2(149),
        ),
{
    lemma_fraction_product(s.hvac_power, HVAC_SAVING_FACTOR);
    lemma_fraction_product(s.lighting_power, LIGHTING_SAVING_FACTOR);
}

/// A price at or below the threshold, or one that is no number, puts the
/// system in normal mode at exactly the default powers, whatever its state
/// was.
pub proof fn lemma_other_price_resets(s: SystemState, signal: CPPSignal)
    requires
        is_nan(signal.price) || value(signal.price) <= value(PRICE_THRESHOLD),
    ensures
        adjusted(s, signal) == initial_state(),
        adjusted(s, signal).hvac_power == DEFAULT_HVAC_POWER,
        adjusted(s, signal).lighting_power == DEFAULT_LIGHTING_POWER,
        adjusted(s, signal).mode == OperationalMode::Normal,
{
}

/// The high prices are the patterns from just above the threshold's up to
/// that of +infinity.
pub proof fn lemma_high_prices(price: u32)
    ensures
        price_is_high(price) <==> PRICE_THRESHOLD < price <= INFINITY_BITS,
{
    lemma_gt_on_patterns(price, PRICE_THRESHOLD);
}

/// A price of exactly the threshold is not high: the comparison is strict.
pub proof fn lemma_threshold_price_resets(s: SystemState, signal: CPPSignal)
    requires
        signal.price == PRICE_THRESHOLD,
    ensures
        !price_is_high(signal.price),
        adjusted(s, signal) == initial_state(),
{
}

/// The mode after a signal tells which way the price compared, and is never
/// `MaximumSaving`.
pub proof fn lemma_mode_follows_price(s: SystemState, signal: CPPSignal)
    ensures
        adjusted(s, signal).mode == if price_is_high(signal.price) {
            OperationalMode::EnergySaving
        } else {
            OperationalMode::Normal
        },
        adjusted(s, signal).mode != OperationalMode::MaximumSaving,
{
}

/// Saving steps compound: a second high price multiplies the powers that
/// the first one left, not the defaults.
pub proof fn lemma_saving_compounds(s: SystemState, first: CPPSignal, second: CPPSignal)
    requires
        price_is_high(first.price),
        price_is_high(second.price),
    ensures
        adjusted(adjusted(s, first), second).hvac_power == product(
            product(s.hvac_power, HVAC_SAVING_FACTOR),
            HVAC_SAVING_FACTOR,
        ),
        adjusted(adjusted(s, first), second).lighting_power == product(
            product(s.lighting_power, LIGHTING_SAVING_FACTOR),
            LIGHTING_SAVING_FACTOR,
        ),
{
}

/// While a power is a normal number, a high price strictly lowers it: a
/// high price repeated never leaves such a system as it found it.
pub proof fn lemma_high_price_lowers_normal_powers(s: SystemState, signal: CPPSignal)
    requires
        is_operating_state(s),
        price_is_high(signal.price),
    ensures
        s.hvac_power >= HIDDEN_BIT ==> adjusted(s, signal).hvac_power < s.hvac_power,
        s.lighting_power >= HIDDEN_BIT ==> adjusted(s, signal).lighting_power
            < s.lighting_power,
        s.hvac_power >= HIDDEN_BIT || s.lighting_power >= HIDDEN_BIT ==> adjusted(s, signal)
            != s,
{
    if s.hvac_power >= HIDDEN_BIT {
        lemma_fraction_product_lowers(s.hvac_power, HVAC_SAVING_FACTOR);
    }
    if s.lighting_power >= HIDDEN_BIT {
        lemma_fraction_product_lowers(s.lighting_power, LIGHTING_SAVING_FACTOR);
    }
}

/// The exact product of the significands of two given patterns.
proof fn lemma_significand_product(x: u32, factor: u32, sig: nat, m: nat, exact: nat)
    by (nonlinear_arith)
    requires
        significand(x) == sig,
        significand(factor) == m,
        sig * m == exact,
    ensures
        significand(x) * significand(factor) == exact,
{
}

/// From the defaults, one saving step gives 3.5 kW and 1.6 kW.
pub proof fn lemma_first_saving_step()
    ensures
        energy_saving(initial_state()) == (SystemState {
            hvac_power: 0x4060_0000,
            lighting_power: 0x3FCC_CCCD,
            mode: OperationalMode::EnergySaving,
        }),
{
    lemma_fraction_product(DEFAULT_HVAC_POWER, HVAC_SAVING_FACTOR);
    lemma_fraction_product(DEFAULT_LIGHTING_POWER, LIGHTING_SAVING_FACTOR);
    lemma_significand_product(
        DEFAULT_HVAC_POWER,
        HVAC_SAVING_FACTOR,
        0xA0_0000,
        0xB3_3333,
        0x6FFF_FFE0_0000,
    );
    lemma_significand_product(
        DEFAULT_LIGHTING_POWER,
        LIGHTING_SAVING_FACTOR,
        0x80_0000,
        0xCC_CCCD,
        0x6666_6680_0000,
    );
    assert(fraction_product(DEFAULT_HVAC_POWER, HVAC_SAVING_FACTOR) == 0x4060_0000);
    assert(fraction_product(DEFAULT_LIGHTING_POWER, LIGHTING_SAVING_FACTOR) == 0x3FCC_CCCD);
}

/// From the defaults, a second saving step gives 2.45 kW of HVAC power, not
/// 3.5 kW again: repeating a high price is not idempotent.
pub proof fn lemma_second_saving_step()
    ensures
        energy_saving(energy_saving(initial_state())) == (SystemState {
            hvac_power: 0x401C_CCCD,
            lighting_power: 0x3FA3_D70B,
            mode: OperationalMode::EnergySaving,
        }),
        energy_saving(energy_saving(initial_state())) != energy_saving(initial_state()),
{
    lemma_first_saving_step();
    lemma_fraction_product(0x4060_0000, HVAC_SAVING_FACTOR);
    lemma_fraction_product(0x3FCC_CCCD, LIGHTING_SAVING_FACTOR);
    lemma_significand_product(
        0x4060_0000,
        HVAC_SAVING_FACTOR,
        0xE0_0000,
        0xB3_3333,
        0x9CCC_CCA0_0000,
    );
    lemma_significand_product(
        0x3FCC_CCCD,
        LIGHTING_SAVING_FACTOR,
        0xCC_CCCD,
        0xCC_CCCD,
        0xA3D7_0A8F_5C29,
    );
    assert(fraction_product(0x4060_0000, HVAC_SAVING_FACTOR) == 0x401C_CCCD);
    assert(fraction_product(0x3FCC_CCCD, LIGHTING_SAVING_FACTOR) == 0x3FA3_D70B);
}

/// The duration of a signal has no effect: two signals with one price leave
/// a system in one state.
pub proof fn lemma_duration_is_ignored(s: SystemState, a: CPPSignal, b: CPPSignal)
    requires
        a.price == b.price,
    ensures
        adjusted(s, a) == adjusted(s, b),
{
}

/// No signal raises a power above what it was or above its default, and
/// every signal leaves an operating state.
pub proof fn lemma_adjusted_stays_operating(s: SystemState, signal: CPPSignal)
    requires
        is_operating_state(s),
    ensures
        is_operating_state(adjusted(s, signal)),
        price_is_high(signal.price) ==> adjusted(s, signal).hvac_power <= s.hvac_power,
        price_is_high(signal.price) ==> adjusted(s, signal).lighting_power <= s.lighting_power,
{
    lemma_fraction_product(s.hvac_power, HVAC_SAVING_FACTOR);
    lemma_fraction_product(s.lighting_power, LIGHTING_SAVING_FACTOR);
}

} // verus!
