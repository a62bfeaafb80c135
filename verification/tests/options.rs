use ebus_thermostat::options::Options;
use ebus_thermostat::temperature::Temperature;

fn t(v: f32) -> Temperature {
    Temperature { bits: v.to_bits() }
}

fn options() -> Options {
    Options {
        ha_api_address: None,
        ha_ws_address: None,
        ha_api_token: None,
        ebusd_address: "ebusd:8888".to_string(),
        thermometer_entity: "sensor.t".to_string(),
        temperature_band: t(0.5),
        tap_water_temp: 55,
        mqtt_host: "mqtt".to_string(),
        mqtt_username: "u".to_string(),
        mqtt_password: "p".to_string(),
    }
}

#[test]
fn addresses_have_defaults() {
    let addresses = options().addresses();
    assert_eq!(addresses.api, "http://supervisor/core");
    assert_eq!(addresses.ws, "http://supervisor/core");
}

#[test]
fn the_stream_address_defaults_to_the_other() {
    let addresses = Options { ha_api_address: Some("a".to_string()), ..options() }.addresses();
    assert_eq!(addresses.api, "a");
    assert_eq!(addresses.ws, "a");
    let addresses = Options { ha_ws_address: Some("b".to_string()), ..options() }.addresses();
    assert_eq!(addresses.api, "http://supervisor/core");
    assert_eq!(addresses.ws, "b");
}

#[test]
fn the_given_token_goes_first() {
    let given = Options { ha_api_token: Some("own".to_string()), ..options() };
    assert_eq!(given.token(Some("env".to_string())), Some("own".to_string()));
    assert_eq!(given.token(None), Some("own".to_string()));
    assert_eq!(options().token(Some("env".to_string())), Some("env".to_string()));
    assert_eq!(options().token(None), None);
}

#[test]
fn preferences_follow_the_options() {
    let prefs = options().preferences();
    assert_eq!(prefs.temperature_band, t(0.5));
    assert_eq!(prefs.tap_water_set_point, t(55.0));
    assert_eq!(prefs.lower_bound, t(19.0));
    assert_eq!(prefs.higher_bound, t(23.0));
    assert_eq!(prefs.set_point, t(22.0));
    assert_eq!(prefs.maintain_state_for, 60_000_000_000);
}
