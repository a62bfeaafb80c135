use ebus_thermostat::ebusd::{Ebusd, SET_MODE_DEFINITION};
use ebus_thermostat::heater::{HeaterMode, HeaterSettings};

#[test]
fn endpoint_is_kept() {
    assert_eq!(Ebusd::new("localhost:8888".to_string()).endpoint, "localhost:8888");
}

#[test]
fn a_message_is_defined() {
    assert_eq!(Ebusd::define_message("wi,BAI"), "define -r wi,BAI\n\n");
}

#[test]
fn settings_are_written() {
    let settings = HeaterSettings {
        hc_mode: HeaterMode::AUTO,
        flow_temp_desired: 60,
        hwc_temp_desired: 45,
        hwc_flow_temp_desired: None,
        disable_hc: false,
        disable_hwc_load: false,
    };
    assert_eq!(
        Ebusd::set_mode(settings),
        "w -c bai SetModeOverride 0;60;45;-;-;0;0;0;-;0;0;0\n\n"
    );
}

#[test]
fn the_definition_names_twelve_values() {
    let parts: Vec<&str> = SET_MODE_DEFINITION.split(',').collect();
    assert_eq!(parts[2], "SetModeOverride");
    let names: Vec<&str> = parts[8..].iter().step_by(6).cloned().collect();
    assert_eq!(
        names,
        vec![
            "hcmode",
            "flowtempdesired",
            "hwctempdesired",
            "hwcflowtempdesired",
            "setmode1",
            "disablehc",
            "disablehwctapping",
            "disablehwcload",
            "setmode2",
            "remoteControlHcPump",
            "releaseBackup",
            "releaseCooling"
        ]
    );
}

#[test]
fn a_reply_with_done_is_a_success() {
    assert_eq!(Ebusd::read_reply(b"done\n\n".to_vec()), Ok(()));
    assert_eq!(Ebusd::read_reply(b"done broadcast\n".to_vec()), Ok(()));
    assert_eq!(Ebusd::read_text_reply("  done"), Ok(()));
}

#[test]
fn any_other_reply_is_an_error() {
    assert_eq!(
        Ebusd::read_reply(b"\nERR: element not found\n\n".to_vec()),
        Err("ERR: element not found".to_string())
    );
    assert_eq!(Ebusd::read_reply(Vec::new()), Err("".to_string()));
    assert_eq!(Ebusd::read_text_reply("DONE\n"), Err("DONE".to_string()));
}

#[test]
fn a_reply_that_is_no_text_is_an_error() {
    let bytes = vec![b'd', b'o', b'n', b'e', 0xff];
    let expected = String::from_utf8(bytes.clone()).unwrap_err().to_string();
    assert_eq!(Ebusd::read_reply(bytes), Err(expected));
}

#[test]
fn a_reply_may_hold_any_text() {
    assert_eq!(
        Ebusd::read_reply("\u{e9}\u{20ac}\n".as_bytes().to_vec()),
        Err("\u{e9}\u{20ac}".to_string())
    );
}
