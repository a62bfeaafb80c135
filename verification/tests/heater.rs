use ebus_thermostat::heater::{change_heating, HeaterMode, HeaterSettings, TemperaturePreferences};
use ebus_thermostat::temperature::Temperature;
use ebus_thermostat::text;

fn t(v: f32) -> Temperature {
    Temperature { bits: v.to_bits() }
}

const MODES: [HeaterMode; 3] = [HeaterMode::AUTO, HeaterMode::HEAT, HeaterMode::OFF];

#[test]
fn modes_have_names() {
    assert_eq!(HeaterMode::AUTO.to_string(), "auto");
    assert_eq!(HeaterMode::HEAT.to_string(), "heat");
    assert_eq!(HeaterMode::OFF.to_string(), "off");
}

#[test]
fn modes_are_read_back_from_their_names() {
    for mode in MODES {
        assert_eq!(HeaterMode::from_str(&mode.to_string()), Ok(mode));
    }
}

#[test]
fn other_names_are_no_modes() {
    for name in ["", "Auto", "AUTO", "auto ", "cool", "of", "offf"] {
        assert_eq!(HeaterMode::from_str(name), Err(()));
    }
}

#[test]
fn modes_have_command_values() {
    assert_eq!(HeaterMode::AUTO.to_command_value(), "0");
    assert_eq!(HeaterMode::HEAT.to_command_value(), "0");
    assert_eq!(HeaterMode::OFF.to_command_value(), "off");
}

#[test]
fn default_settings_make_a_command() {
    assert_eq!(HeaterSettings::default().into_cmd_arg(), "0;0;0;-;-;0;0;0;-;0;0;0");
}

#[test]
fn settings_make_a_command() {
    let settings = HeaterSettings {
        hc_mode: HeaterMode::OFF,
        flow_temp_desired: 60,
        hwc_temp_desired: 255,
        hwc_flow_temp_desired: Some(7),
        disable_hc: true,
        disable_hwc_load: false,
    };
    assert_eq!(settings.into_cmd_arg(), "off;60;255;7;-;1;0;0;-;0;0;0");
    let settings = HeaterSettings { disable_hc: false, disable_hwc_load: true, ..settings };
    assert_eq!(settings.into_cmd_arg(), "off;60;255;7;-;0;0;1;-;0;0;0");
}

#[test]
fn a_command_splits_into_its_twelve_values() {
    let settings = HeaterSettings {
        hc_mode: HeaterMode::HEAT,
        flow_temp_desired: 60,
        hwc_temp_desired: 55,
        hwc_flow_temp_desired: None,
        disable_hc: false,
        disable_hwc_load: true,
    };
    let fields: Vec<String> = text::split(&settings.into_cmd_arg(), ';')
        .into_iter()
        .map(|p| p.into_iter().collect())
        .collect();
    assert_eq!(
        fields,
        vec!["0", "60", "55", "-", "-", "0", "0", "1", "-", "0", "0", "0"]
    );
}

#[test]
fn default_preferences() {
    let prefs = TemperaturePreferences::default();
    assert_eq!(prefs.temperature_band, t(1.0));
    assert_eq!(prefs.lower_bound, t(19.0));
    assert_eq!(prefs.higher_bound, t(23.0));
    assert_eq!(prefs.set_point, t(22.0));
    assert_eq!(prefs.maintain_state_for, 60_000_000_000);
    assert_eq!(prefs.tap_water_set_point, t(45.0));
}

#[test]
fn heating_begins_at_the_lower_bound() {
    let prefs = TemperaturePreferences::default();
    let off = HeaterSettings::default();
    let on = HeaterSettings { flow_temp_desired: 60, ..off };
    assert_eq!(change_heating(off, &prefs, &t(19.0)), Some(on));
    assert_eq!(change_heating(off, &prefs, &t(-3.0)), Some(on));
    assert_eq!(change_heating(off, &prefs, &t(19.000002)), None);
    assert_eq!(change_heating(off, &prefs, &t(30.0)), None);
}

#[test]
fn heating_ends_at_the_higher_bound() {
    let prefs = TemperaturePreferences::default();
    let off = HeaterSettings::default();
    let on = HeaterSettings { flow_temp_desired: 60, ..off };
    assert_eq!(change_heating(on, &prefs, &t(23.0)), Some(off));
    assert_eq!(change_heating(on, &prefs, &t(22.999998)), None);
    assert_eq!(change_heating(on, &prefs, &t(10.0)), None);
}

#[test]
fn a_change_touches_the_flow_temperature_alone() {
    let prefs = TemperaturePreferences::default();
    let settings = HeaterSettings {
        hc_mode: HeaterMode::OFF,
        flow_temp_desired: 33,
        hwc_temp_desired: 44,
        hwc_flow_temp_desired: Some(5),
        disable_hc: true,
        disable_hwc_load: true,
    };
    assert_eq!(
        change_heating(settings, &prefs, &t(25.0)),
        Some(HeaterSettings { flow_temp_desired: 0, ..settings })
    );
}

#[test]
fn a_change_settles() {
    let prefs = TemperaturePreferences::default();
    let on = change_heating(HeaterSettings::default(), &prefs, &t(18.0)).unwrap();
    assert_eq!(change_heating(on, &prefs, &t(18.0)), None);
    let off = change_heating(on, &prefs, &t(24.0)).unwrap();
    assert_eq!(change_heating(off, &prefs, &t(24.0)), None);
}

#[test]
fn equal_bounds_do_not_settle() {
    let prefs = TemperaturePreferences {
        lower_bound: t(20.0),
        higher_bound: t(20.0),
        ..TemperaturePreferences::default()
    };
    let on = change_heating(HeaterSettings::default(), &prefs, &t(20.0)).unwrap();
    assert!(change_heating(on, &prefs, &t(20.0)).is_some());
}

#[test]
fn the_band_is_quiet() {
    let prefs = TemperaturePreferences::default();
    for flow_temp_desired in [0u8, 60] {
        let settings = HeaterSettings { flow_temp_desired, ..HeaterSettings::default() };
        assert_eq!(change_heating(settings, &prefs, &t(21.0)), None);
        assert_eq!(change_heating(settings, &prefs, &t(f32::NAN)), None);
    }
}

#[test]
fn equal_commands_ask_for_equal_settings() {
    let settings = HeaterSettings::default();
    let others = [
        HeaterSettings { hc_mode: HeaterMode::OFF, ..settings },
        HeaterSettings { flow_temp_desired: 60, ..settings },
        HeaterSettings { hwc_temp_desired: 10, ..settings },
        HeaterSettings { hwc_flow_temp_desired: Some(0), ..settings },
        HeaterSettings { disable_hc: true, ..settings },
        HeaterSettings { disable_hwc_load: true, ..settings },
    ];
    for other in others {
        assert_ne!(other.into_cmd_arg(), settings.into_cmd_arg());
    }
    let heat = HeaterSettings { hc_mode: HeaterMode::HEAT, ..settings };
    assert_eq!(heat.into_cmd_arg(), settings.into_cmd_arg());
}
