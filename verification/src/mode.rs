//! The power-saving posture of a building.

use vstd::prelude::*;

verus! {

/// The posture a building's loads are run in.
///
/// A price signal moves a system between `Normal` and `EnergySaving`.
/// `MaximumSaving` can be named and carried, but no transition leads to it.
#[derive(Clone, Copy, Debug, PartialEq, Eq, Structural)]
pub enum OperationalMode {
    Normal,
    EnergySaving,
    MaximumSaving,
}

impl OperationalMode {
    /// The number that stands for the mode at a foreign interface.
    pub open spec fn spec_tag(self) -> u32 {
        match self {
            OperationalMode::Normal => 0,
            OperationalMode::EnergySaving => 1,
            OperationalMode::MaximumSaving => 2,
        }
    }

    /// The number that stands for the mode at a foreign interface: 0 for
    /// `Normal`, 1 for `EnergySaving`, 2 for `MaximumSaving`.
    #[verifier::when_used_as_spec(spec_tag)]
    pub fn tag(self) -> (t: u32)
        ensures
            t == self.spec_tag(),
    {
        match self {
            OperationalMode::Normal => 0,
            OperationalMode::EnergySaving => 1,
            OperationalMode::MaximumSaving => 2,
        }
    }
}

} // verus!
