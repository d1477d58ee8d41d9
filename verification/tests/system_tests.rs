use building_energy::system::{
    DEFAULT_HVAC_POWER, DEFAULT_LIGHTING_POWER, HVAC_SAVING_FACTOR, LIGHTING_SAVING_FACTOR,
    PRICE_THRESHOLD,
};
use building_energy::{
    adjust_systems, create_building_system, get_hvac_power, get_lighting_power,
    get_operational_mode, BuildingSystem, CPPSignal, OperationalMode,
};

fn signal(price: f32, duration: u32) -> CPPSignal {
    CPPSignal { price: price.to_bits(), duration }
}

fn hvac(system: &BuildingSystem) -> f32 {
    f32::from_bits(get_hvac_power(system))
}

fn lighting(system: &BuildingSystem) -> f32 {
    f32::from_bits(get_lighting_power(system))
}

#[test]
fn constants_are_the_values_they_name() {
    assert_eq!(PRICE_THRESHOLD, 0.15f32.to_bits());
    assert_eq!(DEFAULT_HVAC_POWER, 5.0f32.to_bits());
    assert_eq!(DEFAULT_LIGHTING_POWER, 2.0f32.to_bits());
    assert_eq!(HVAC_SAVING_FACTOR, 0.7f32.to_bits());
    assert_eq!(LIGHTING_SAVING_FACTOR, 0.8f32.to_bits());
}

#[test]
fn new_system_runs_at_the_defaults() {
    let system = BuildingSystem::new();
    assert_eq!(hvac(&system), 5.0);
    assert_eq!(lighting(&system), 2.0);
    assert_eq!(system.get_operational_mode(), OperationalMode::Normal);
}

#[test]
fn created_system_runs_at_the_defaults() {
    let system = create_building_system();
    assert_eq!(get_hvac_power(&system), 0x40A0_0000);
    assert_eq!(get_lighting_power(&system), 0x4000_0000);
    assert_eq!(get_operational_mode(&system), OperationalMode::Normal);
}

#[test]
fn high_price_takes_one_saving_step() {
    for price in [0.16f32, 0.2, 1.0, 1.0e30, f32::MAX, f32::INFINITY] {
        let mut system = BuildingSystem::new();
        system.adjust_systems(&signal(price, 15));
        assert_eq!(system.get_operational_mode(), OperationalMode::EnergySaving);
        assert_eq!(hvac(&system), 5.0f32 * 0.7);
        assert_eq!(lighting(&system), 2.0f32 * 0.8);
        assert_eq!(hvac(&system), 3.5);
        assert_eq!(lighting(&system), 1.6);
    }
}

#[test]
fn high_price_scales_whatever_the_powers_are() {
    let mut system = BuildingSystem::new();
    let mut expected_hvac = 5.0f32;
    let mut expected_lighting = 2.0f32;
    for step in 0..40 {
        system.adjust_systems(&signal(0.3, step));
        expected_hvac *= 0.7;
        expected_lighting *= 0.8;
        assert_eq!(get_hvac_power(&system), expected_hvac.to_bits());
        assert_eq!(get_lighting_power(&system), expected_lighting.to_bits());
        assert_eq!(system.get_operational_mode(), OperationalMode::EnergySaving);
    }
}

#[test]
fn other_prices_reset_to_the_defaults() {
    let prices = [
        0.15f32,
        0.1,
        0.0,
        -0.0,
        -0.2,
        -1.0e30,
        f32::MIN_POSITIVE,
        f32::NEG_INFINITY,
        f32::NAN,
        -f32::NAN,
    ];
    for price in prices {
        for steps_before in 0..4 {
            let mut system = BuildingSystem::new();
            for _ in 0..steps_before {
                system.adjust_systems(&signal(0.5, 60));
            }
            system.adjust_systems(&signal(price, 60));
            assert_eq!(system.get_operational_mode(), OperationalMode::Normal);
            assert_eq!(get_hvac_power(&system), 5.0f32.to_bits());
            assert_eq!(get_lighting_power(&system), 2.0f32.to_bits());
        }
    }
}

#[test]
fn repeating_a_high_price_compounds() {
    let mut system = BuildingSystem::new();
    system.adjust_systems(&signal(0.2, 30));
    system.adjust_systems(&signal(0.2, 30));
    assert_eq!(hvac(&system), 2.45);
    assert_ne!(hvac(&system), 3.5);
    assert_eq!(hvac(&system), 5.0f32 * 0.7 * 0.7);
    assert_eq!(lighting(&system), 2.0f32 * 0.8 * 0.8);
    assert_eq!(get_hvac_power(&system), 0x401C_CCCD);
    assert_eq!(get_lighting_power(&system), 0x3FA3_D70B);
    assert_eq!(system.get_operational_mode(), OperationalMode::EnergySaving);
}

#[test]
fn price_at_the_threshold_is_normal() {
    let mut system = BuildingSystem::new();
    system.adjust_systems(&signal(0.5, 5));
    system.adjust_systems(&signal(0.15, 5));
    assert_eq!(system.get_operational_mode(), OperationalMode::Normal);
    assert_eq!(hvac(&system), 5.0);
    assert_eq!(lighting(&system), 2.0);
}

#[test]
fn price_just_above_the_threshold_saves() {
    let mut system = BuildingSystem::new();
    system.adjust_systems(&CPPSignal { price: PRICE_THRESHOLD + 1, duration: 5 });
    assert_eq!(system.get_operational_mode(), OperationalMode::EnergySaving);
    assert_eq!(hvac(&system), 3.5);
    let mut below = BuildingSystem::new();
    below.adjust_systems(&CPPSignal { price: PRICE_THRESHOLD - 1, duration: 5 });
    assert_eq!(below.get_operational_mode(), OperationalMode::Normal);
    assert_eq!(hvac(&below), 5.0);
}

#[test]
fn end_to_end_scenario() {
    let mut system = create_building_system();
    adjust_systems(&mut system, signal(0.20, 30));
    assert_eq!(hvac(&system), 3.5);
    assert_eq!(lighting(&system), 1.6);
    assert_eq!(get_operational_mode(&system), OperationalMode::EnergySaving);
    adjust_systems(&mut system, signal(0.10, 30));
    assert_eq!(hvac(&system), 5.0);
    assert_eq!(lighting(&system), 2.0);
    assert_eq!(get_operational_mode(&system), OperationalMode::Normal);
}

#[test]
fn duration_has_no_effect() {
    let durations = [0u32, 1, 59, 60, 1440, 0x7FFF_FFFF, u32::MAX];
    for price in [0.05f32, 0.15, 0.2, f32::NAN] {
        for steps_before in 0..3 {
            let mut reference = BuildingSystem::new();
            for _ in 0..steps_before {
                reference.adjust_systems(&signal(0.9, 0));
            }
            reference.adjust_systems(&signal(price, 0));
            for duration in durations {
                let mut system = BuildingSystem::new();
                for _ in 0..steps_before {
                    system.adjust_systems(&signal(0.9, duration));
                }
                system.adjust_systems(&signal(price, duration));
                assert_eq!(get_hvac_power(&system), get_hvac_power(&reference));
                assert_eq!(get_lighting_power(&system), get_lighting_power(&reference));
                assert_eq!(system.get_operational_mode(), reference.get_operational_mode());
            }
        }
    }
}

#[test]
fn mode_follows_the_last_price_only() {
    let mut system = BuildingSystem::new();
    let prices = [0.2f32, 0.1, 0.1, 0.3, 0.4, 0.15, 0.16, f32::NAN, 9.0];
    for price in prices {
        system.adjust_systems(&signal(price, 1));
        let expected = if price > 0.15 {
            OperationalMode::EnergySaving
        } else {
            OperationalMode::Normal
        };
        assert_eq!(system.get_operational_mode(), expected);
        assert_ne!(system.get_operational_mode(), OperationalMode::MaximumSaving);
    }
}

#[test]
fn powers_drift_down_as_the_hardware_computes_them() {
    let mut system = BuildingSystem::new();
    let mut expected_hvac = 5.0f32;
    let mut expected_lighting = 2.0f32;
    for _ in 0..600 {
        let before_hvac = get_hvac_power(&system);
        let before_lighting = get_lighting_power(&system);
        system.adjust_systems(&signal(1.0, 1));
        expected_hvac *= 0.7;
        expected_lighting *= 0.8;
        assert_eq!(get_hvac_power(&system), expected_hvac.to_bits());
        assert_eq!(get_lighting_power(&system), expected_lighting.to_bits());
        assert!(get_hvac_power(&system) <= before_hvac);
        assert!(get_lighting_power(&system) <= before_lighting);
    }
    // The drift ends at the smallest values that rounding gives back.
    assert_eq!(get_hvac_power(&system), 1);
    assert_eq!(get_lighting_power(&system), 2);
    system.adjust_systems(&signal(0.0, 1));
    assert_eq!(hvac(&system), 5.0);
    assert_eq!(lighting(&system), 2.0);
}

#[test]
fn high_price_strictly_lowers_normal_powers() {
    let smallest_normal = f32::MIN_POSITIVE.to_bits();
    let mut system = BuildingSystem::new();
    let mut steps = 0;
    while get_hvac_power(&system) >= smallest_normal {
        let before = get_hvac_power(&system);
        system.adjust_systems(&signal(0.16, 0));
        assert!(get_hvac_power(&system) < before);
        steps += 1;
    }
    // 5.0 * 0.7^n falls under 2^-126 after 250 steps.
    assert_eq!(steps, 250);
    let mut system = BuildingSystem::new();
    let mut steps = 0;
    while get_lighting_power(&system) >= smallest_normal {
        let before = get_lighting_power(&system);
        system.adjust_systems(&signal(0.16, 0));
        assert!(get_lighting_power(&system) < before);
        steps += 1;
    }
    assert_eq!(steps, 395);
}

#[test]
fn systems_are_independent() {
    let mut first = create_building_system();
    let second = create_building_system();
    adjust_systems(&mut first, signal(0.9, 10));
    assert_eq!(get_operational_mode(&first), OperationalMode::EnergySaving);
    assert_eq!(get_operational_mode(&second), OperationalMode::Normal);
    assert_eq!(hvac(&second), 5.0);
    assert_eq!(lighting(&second), 2.0);
}

#[test]
fn mode_tags() {
    assert_eq!(OperationalMode::Normal.tag(), 0);
    assert_eq!(OperationalMode::EnergySaving.tag(), 1);
    assert_eq!(OperationalMode::MaximumSaving.tag(), 2);
}

#[test]
fn mode_is_copied_and_compared() {
    let mode = OperationalMode::EnergySaving;
    let copy = mode;
    assert_eq!(mode, copy);
    assert_ne!(mode, OperationalMode::MaximumSaving);
    assert_ne!(OperationalMode::Normal, OperationalMode::MaximumSaving);
}
