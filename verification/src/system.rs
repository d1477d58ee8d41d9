//! The energy controller of one building: its HVAC and lighting power and
//! the mode it runs in, moved by price signals.

use crate::binary32::{gt, spec_gt};
use crate::mode::OperationalMode;
use crate::product::{product, scale_down};
use crate::signal::CPPSignal;
use vstd::prelude::*;

verus! {

/// The price above which a system saves energy: 0.15, as a binary32 pattern.
pub const PRICE_THRESHOLD: u32 = 0x3E19_999A;

/// HVAC power in normal mode: 5.0 kW, as a binary32 pattern.
pub const DEFAULT_HVAC_POWER: u32 = 0x40A0_0000;

/// Lighting power in normal mode: 2.0 kW, as a binary32 pattern.
pub const DEFAULT_LIGHTING_POWER: u32 = 0x4000_0000;

/// What one energy-saving step multiplies the HVAC power by: 0.7, as a
/// binary32 pattern.
pub const HVAC_SAVING_FACTOR: u32 = 0x3F33_3333;

/// What one energy-saving step multiplies the lighting power by: 0.8, as a
/// binary32 pattern.
pub const LIGHTING_SAVING_FACTOR: u32 = 0x3F4C_CCCD;

/// The state of a system, its powers given by their binary32 patterns.
pub struct SystemState {
    pub hvac_power: u32,
    pub lighting_power: u32,
    pub mode: OperationalMode,
}

/// The state a new system starts in, and that a normal price brings back.
pub open spec fn initial_state() -> SystemState {
    SystemState {
        hvac_power: DEFAULT_HVAC_POWER,
        lighting_power: DEFAULT_LIGHTING_POWER,
        mode: OperationalMode::Normal,
    }
}

/// Whether a price calls for saving: it is a number, and above the
/// threshold. A price at the threshold, or one that is no number, does not.
pub open spec fn price_is_high(price: u32) -> bool {
    spec_gt(price, PRICE_THRESHOLD)
}

/// The state after one energy-saving step: both powers multiplied, as
/// binary32 values, by their factors.
pub open spec fn energy_saving(s: SystemState) -> SystemState {
    SystemState {
        hvac_power: product(s.hvac_power, HVAC_SAVING_FACTOR),
        lighting_power: product(s.lighting_power, LIGHTING_SAVING_FACTOR),
        mode: OperationalMode::EnergySaving,
    }
}

/// The state that a signal leaves a system in. Only the price is read, and
/// the mode before the signal plays no part.
pub open spec fn adjusted(s: SystemState, signal: CPPSignal) -> SystemState {
    if price_is_high(signal.price) {
        energy_saving(s)
    } else {
        initial_state()
    }
}

/// What holds of every system at all times: no power is above its default,
/// a system in normal mode runs at the defaults, and none is in
/// `MaximumSaving`.
pub open spec fn is_operating_state(s: SystemState) -> bool {
    &&& s.hvac_power <= DEFAULT_HVAC_POWER
    &&& s.lighting_power <= DEFAULT_LIGHTING_POWER
    &&& s.mode != OperationalMode::MaximumSaving
    &&& s.mode == OperationalMode::Normal ==> s == initial_state()
}

/// The energy controller of one building.
pub struct BuildingSystem {
    hvac_power: u32,
    lighting_power: u32,
    operational_mode: OperationalMode,
}

impl View for BuildingSystem {
    type V = SystemState;

    closed spec fn view(&self) -> SystemState {
        SystemState {
            hvac_power: self.hvac_power,
            lighting_power: self.lighting_power,
            mode: self.operational_mode,
        }
    }
}

impl BuildingSystem {
    #[verifier::type_invariant]
    closed spec fn inv(self) -> bool {
        is_operating_state(self@)
    }

    /// A system in normal mode at the default powers.
    pub fn new() -> (s: Self)
        ensures
            s@ == initial_state(),
            is_operating_state(s@),
    {
        BuildingSystem {
            hvac_power: DEFAULT_HVAC_POWER,
            lighting_power: DEFAULT_LIGHTING_POWER,
            operational_mode: OperationalMode::Normal,
        }
    }

    /// Reacts to a price signal: a price above the threshold takes one
    /// energy-saving step from the present powers, any other price brings
    /// the system back to normal.
    pub fn adjust_systems(&mut self, cpp_signal: &CPPSignal)
        ensures
            final(self)@ == adjusted(old(self)@, *cpp_signal),
            is_operating_state(old(self)@),
            is_operating_state(final(self)@),
    {
        proof {
            use_type_invariant(&*self);
        }
        if gt(cpp_signal.price, PRICE_THRESHOLD) {
            self.enter_energy_saving_mode();
        } else {
            self.enter_normal_mode();
        }
    }

    /// One energy-saving step from the present powers.
    fn enter_energy_saving_mode(&mut self)
        ensures
            final(self)@ == energy_saving(old(self)@),
            is_operating_state(final(self)@),
    {
        proof {
            use_type_invariant(&*self);
        }
        let hvac_power = scale_down(self.hvac_power, HVAC_SAVING_FACTOR);
        let lighting_power = scale_down(self.lighting_power, LIGHTING_SAVING_FACTOR);
        self.operational_mode = OperationalMode::EnergySaving;
        self.hvac_power = hvac_power;
        self.lighting_power = lighting_power;
    }

    /// Back to normal mode at the default powers, whatever the powers were.
    fn enter_normal_mode(&mut self)
        ensures
            final(self)@ == initial_state(),
            is_operating_state(final(self)@),
    {
        proof {
            use_type_invariant(&*self);
        }
        self.hvac_power = DEFAULT_HVAC_POWER;
        self.lighting_power = DEFAULT_LIGHTING_POWER;
        self.operational_mode = OperationalMode::Normal;
    }

    /// The mode that the last signal left the system in.
    pub fn get_operational_mode(&self) -> (mode: OperationalMode)
        ensures
            mode == self@.mode,
            is_operating_state(self@),
    {
        proof {
            use_type_invariant(self);
        }
        self.operational_mode
    }
}

/// Makes a system in normal mode at the default powers and hands it to the
/// caller, who alone owns it from then on.
pub fn create_building_system() -> (building_system: Box<BuildingSystem>)
    ensures
        building_system@ == initial_state(),
        is_operating_state(building_system@),
{
    Box::new(BuildingSystem::new())
}

/// Lets the system react to a price signal, as `BuildingSystem::adjust_systems`
/// does.
pub fn adjust_systems(building_system: &mut BuildingSystem, cpp_signal: CPPSignal)
    ensures
        final(building_system)@ == adjusted(old(building_system)@, cpp_signal),
        is_operating_state(old(building_system)@),
        is_operating_state(final(building_system)@),
{
    building_system.adjust_systems(&cpp_signal);
}

/// The present HVAC power in kW, as a binary32 pattern.
pub fn get_hvac_power(building_system: &BuildingSystem) -> (power: u32)
    ensures
        power == building_system@.hvac_power,
        is_operating_state(building_system@),
{
    proof {
        use_type_invariant(building_system);
    }
    building_system.hvac_power
}

/// The present lighting power in kW, as a binary32 pattern.
pub fn get_lighting_power(building_system: &BuildingSystem) -> (power: u32)
    ensures
        power == building_system@.lighting_power,
        is_operating_state(building_system@),
{
    proof {
        use_type_invariant(building_system);
    }
    building_system.lighting_power
}

/// The mode that the last signal left the system in.
pub fn get_operational_mode(building_system: &BuildingSystem) -> (mode: OperationalMode)
    ensures
        mode == building_system@.mode,
        is_operating_state(building_system@),
{
    building_system.get_operational_mode()
}

} // verus!
