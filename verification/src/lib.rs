//! Price-driven energy control for a building: an HVAC load and a lighting
//! load that a price signal switches between a normal and an energy-saving
//! power profile.
//!
//! Powers and prices are IEEE 754 binary32 values, carried as their bit
//! patterns. `binary32` gives the patterns their exact meaning and compares
//! them, `rounding` says what it is to round to nearest, ties to even, and
//! `product` multiplies a value by a factor between one half and one.
//! `system` holds the controller itself, and `laws` what holds of its
//! reactions whatever the state and the signal.

pub mod binary32;
pub mod laws;
pub mod mode;
pub mod product;
pub mod rounding;
pub mod signal;
pub mod system;

pub use mode::OperationalMode;
pub use signal::CPPSignal;
pub use system::{
    adjust_systems, create_building_system, get_hvac_power, get_lighting_power,
    get_operational_mode, BuildingSystem,
};
