//! The price signal that drives a building's mode.

use vstd::prelude::*;

verus! {

/// A price signal from outside.
#[derive(Clone, Copy, Debug)]
pub struct CPPSignal {
    /// The price per unit of energy, a binary32 value given by its bit
    /// pattern. Any pattern is taken: negative, infinite or NaN.
    pub price: u32,
    /// How long the price holds, in minutes. Informational: no decision
    /// reads it.
    pub duration: u32,
}

} // verus!
