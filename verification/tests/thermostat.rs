use ebus_thermostat::control::{
    Action, Message, MqttEvent, Payload, Phase, Publication, Purpose, Qos, ReadNumber, RunEvent,
    SendFailure, Step,
    Target, ThermostatError, TopicCommand, COOL_DOWN, KEEP_ALIVE, NO_HOLD,
};
use ebus_thermostat::ebusd::{Ebusd, SET_MODE_DEFINITION};
use ebus_thermostat::heater::{HeaterMode, HeaterSettings, TemperaturePreferences, SECOND};
use ebus_thermostat::homeassistant::{
    Device, Event, EventData, Reading, State, StateValue,
};
use ebus_thermostat::options::Options;
use ebus_thermostat::temperature::Temperature;
use ebus_thermostat::thermostat::{
    lost_connection, time_to_repeat, topic_command, MqttOutcome, Thermostat,
};

fn t(v: f32) -> Temperature {
    Temperature { bits: v.to_bits() }
}

fn devices() -> Vec<Device> {
    vec![Device {
        name: "room".to_string(),
        entities: vec![vec!["sensor.t".to_string()]],
    }]
}

fn thermostat() -> Thermostat {
    Thermostat::new(
        &devices(),
        "sensor.t".to_string(),
        "broker".to_string(),
        "user".to_string(),
        "pass".to_string(),
    )
    .unwrap()
}

fn run(th: &mut Thermostat, event: RunEvent, now: u64) -> Step {
    assert!(th.accepts(&event));
    th.run(event, now)
}

/// A thermostat that has started at time zero and waits.
fn waiting() -> Thermostat {
    let mut th = thermostat();
    run(&mut th, RunEvent::Start, 0);
    run(&mut th, RunEvent::Sent(Ok(())), 0);
    run(&mut th, RunEvent::Queued(Ok(())), 0);
    assert_eq!(th.control.phase, Phase::Waiting);
    th
}

fn publish(topic: &str, payload: &str) -> RunEvent {
    RunEvent::Mqtt(MqttEvent::Publish {
        topic: topic.to_string(),
        payload: payload.as_bytes().to_vec(),
    })
}

fn temperature(v: f32) -> RunEvent {
    RunEvent::Temperature(Some(t(v)))
}

fn io_failure(text: &str) -> RunEvent {
    RunEvent::Sent(Err(SendFailure::Io(text.to_string())))
}

fn refusal() -> RunEvent {
    RunEvent::Sent(Err(SendFailure::Other("ERR: element not found".to_string())))
}

fn finished_with(action: &Action) -> Option<&str> {
    match action {
        Action::Finish(ThermostatError::Other(m)) => Some(m),
        _ => None,
    }
}

fn status(mode: &str, low: f32, high: f32, set: f32) -> Vec<Message> {
    vec![
        Message { topic: "mode".to_string(), payload: Payload::Text(mode.to_string()) },
        Message { topic: "temp/low".to_string(), payload: Payload::Temperature(t(low)) },
        Message { topic: "temp/high".to_string(), payload: Payload::Temperature(t(high)) },
        Message { topic: "temp".to_string(), payload: Payload::Temperature(t(set)) },
    ]
}

#[test]
fn a_new_thermostat_is_at_its_defaults() {
    let th = thermostat();
    assert_eq!(th.thermometer_entity, "sensor.t");
    assert_eq!(th.mqtt_host, "broker");
    assert_eq!(th.mqtt_username, "user");
    assert_eq!(th.mqtt_password, "pass");
    assert_eq!(th.control.prefs, TemperaturePreferences::default());
    assert_eq!(th.control.settings, HeaterSettings::default());
    assert_eq!(th.control.current_temperature, t(0.0));
    assert_eq!(th.control.last_mode_set_time, None);
    assert_eq!(th.control.set_fails, 0);
    assert_eq!(th.control.phase, Phase::Idle);
    assert!(th.accepts(&RunEvent::Start));
}

#[test]
fn a_missing_thermometer_is_an_error() {
    let missing = Thermostat::new(
        &devices(),
        "sensor.x".to_string(),
        String::new(),
        String::new(),
        String::new(),
    );
    assert_eq!(
        missing,
        Err(ThermostatError::Other("Thermometer entity sensor.x not found".to_string()))
    );
}

#[test]
fn errors_are_made_from_text() {
    assert_eq!(
        ThermostatError::from("x".to_string()),
        ThermostatError::Other("x".to_string())
    );
}

#[test]
fn the_broker_is_reached_as_configured() {
    let parameters = thermostat().mqtt_reconnect();
    assert_eq!(parameters.client_id, "ebus-thermostat");
    assert_eq!(parameters.host, "broker");
    assert_eq!(parameters.port, 1883);
    assert_eq!(parameters.keep_alive, 30 * SECOND);
    assert_eq!(parameters.username, "user");
    assert_eq!(parameters.password, "pass");
    assert_eq!(parameters.capacity, 10);
    assert_eq!(parameters.subscription, "ebus-thermostat/#");
    assert_eq!(parameters.subscription_qos, Qos::AtLeastOnce);
}

#[test]
fn the_thermometer_is_listened_to() {
    let event = Event {
        event_type: "state_changed".to_string(),
        data: EventData {
            old_state: State { entity_id: "sensor.t".to_string(), state: StateValue::Null },
            new_state: State {
                entity_id: "sensor.t".to_string(),
                state: StateValue::Text("20.5".to_string()),
            },
        },
        origin: "LOCAL".to_string(),
    };
    assert_eq!(
        thermostat().temperature_changes(&event),
        Reading::Text("20.5".to_string())
    );
    let mut other = thermostat();
    other.thermometer_entity = "sensor.u".to_string();
    assert_eq!(other.temperature_changes(&event), Reading::Ignored);
}

#[test]
fn topics_are_understood() {
    assert_eq!(
        topic_command("ebus-thermostat/temp/set"),
        TopicCommand::SetTemperature(Target::SetPoint)
    );
    assert_eq!(
        topic_command("ebus-thermostat/temp/set/more"),
        TopicCommand::SetTemperature(Target::SetPoint)
    );
    assert_eq!(
        topic_command("ebus-thermostat/temp/high/set"),
        TopicCommand::SetTemperature(Target::HigherBound)
    );
    assert_eq!(
        topic_command("ebus-thermostat/temp/low/set"),
        TopicCommand::SetTemperature(Target::LowerBound)
    );
    assert_eq!(topic_command("ebus-thermostat/mode/set"), TopicCommand::SetMode);
    assert_eq!(topic_command("anything/mode/set"), TopicCommand::SetMode);
    for topic in [
        "ebus-thermostat",
        "ebus-thermostat/",
        "ebus-thermostat/temp",
        "ebus-thermostat/temp/high",
        "ebus-thermostat/temp/low",
        "ebus-thermostat/temp/low/get",
        "ebus-thermostat/temp/high/SET",
        "ebus-thermostat/temp/current",
        "ebus-thermostat/mode",
        "ebus-thermostat/mode/get",
        "ebus-thermostat/fan/set",
        "temp/set",
    ] {
        assert_eq!(topic_command(topic), TopicCommand::Ignore, "{topic}");
    }
}

#[test]
fn a_run_begins_with_the_settings() {
    let mut th = thermostat();
    let step = run(&mut th, RunEvent::Start, 7);
    assert_eq!(step.publish, None);
    assert_eq!(
        step.action,
        Action::Send("w -c bai SetModeOverride 0;0;45;-;-;0;0;0;-;0;0;0\n\n".to_string())
    );
    assert_eq!(th.control.hold_deadline, 60_000_000_007);
    let step = run(&mut th, RunEvent::Sent(Ok(())), 8);
    assert_eq!(step.action, Action::Queue(status("auto", 19.0, 23.0, 22.0)));
    assert_eq!(th.control.last_mode_set_time, Some(8));
    let step = run(&mut th, RunEvent::Queued(Ok(())), 10);
    assert_eq!(
        step.action,
        Action::Wait { repeat_in: KEEP_ALIVE - 2, hold_until: 60_000_000_007 }
    );
    assert!(!th.control.hold);
}

#[test]
fn tap_water_is_set_as_the_options_say() {
    let options = Options {
        ha_api_address: None,
        ha_ws_address: None,
        ha_api_token: None,
        ebusd_address: String::new(),
        thermometer_entity: String::new(),
        temperature_band: t(0.5),
        tap_water_temp: 55,
        mqtt_host: String::new(),
        mqtt_username: String::new(),
        mqtt_password: String::new(),
    };
    let mut th = thermostat();
    th.set_temp_preference(options.preferences());
    let step = run(&mut th, RunEvent::Start, 0);
    assert_eq!(th.control.settings.hwc_temp_desired, 55);
    assert_eq!(
        step.action,
        Action::Send("w -c bai SetModeOverride 0;0;55;-;-;0;0;0;-;0;0;0\n\n".to_string())
    );
}

#[test]
fn a_cold_room_is_heated_and_the_change_is_kept() {
    let mut th = waiting();
    let step = run(&mut th, temperature(18.5), 100);
    assert_eq!(
        step.publish,
        Some(Publication {
            message: Message {
                topic: "ebus-thermostat/temp/current".to_string(),
                payload: Payload::Temperature(t(18.5)),
            },
            qos: Qos::AtLeastOnce,
            retain: true,
        })
    );
    assert_eq!(
        step.action,
        Action::Send("w -c bai SetModeOverride 0;60;45;-;-;0;0;0;-;0;0;0\n\n".to_string())
    );
    assert_eq!(th.control.settings.flow_temp_desired, 0);
    let step = run(&mut th, RunEvent::Sent(Ok(())), 200);
    assert_eq!(step.action, Action::Queue(status("auto", 19.0, 23.0, 22.0)));
    let step = run(&mut th, RunEvent::Queued(Ok(())), 300);
    assert_eq!(
        step.action,
        Action::Wait { repeat_in: KEEP_ALIVE - 100, hold_until: 60_000_000_300 }
    );
    assert_eq!(th.control.settings.flow_temp_desired, 60);
    assert!(th.control.hold);
    assert_eq!(th.control.last_mode_set_time, Some(200));
}

#[test]
fn an_unchanged_temperature_is_published_and_no_more() {
    let mut th = waiting();
    run(&mut th, temperature(21.0), 1);
    let before = th.control;
    let step = run(&mut th, temperature(21.0), 2);
    assert!(step.publish.is_some());
    assert!(matches!(step.action, Action::Wait { .. }));
    assert_eq!(th.control, before);
}

#[test]
fn the_end_of_the_temperatures_changes_nothing() {
    let mut th = waiting();
    let before = th.control;
    let step = run(&mut th, RunEvent::Temperature(None), 2);
    assert_eq!(step.publish, None);
    assert_eq!(step.action, Action::Wait { repeat_in: KEEP_ALIVE - 2, hold_until: 60 * SECOND as u128 });
    assert_eq!(th.control, before);
}

#[test]
fn a_crossing_during_a_hold_waits_for_its_end() {
    let mut th = waiting();
    run(&mut th, temperature(18.0), 1);
    run(&mut th, RunEvent::Sent(Ok(())), 2);
    run(&mut th, RunEvent::Queued(Ok(())), 3);
    let step = run(&mut th, temperature(24.0), 4);
    assert!(matches!(step.action, Action::Wait { .. }));
    assert_eq!(th.control.settings.flow_temp_desired, 60);
    assert!(th.control.update_pending);
    let step = run(&mut th, RunEvent::HoldElapsed, 5);
    assert_eq!(step.action, Action::Send(Ebusd::set_mode(th.control.settings)));
    assert!(!th.control.hold);
    run(&mut th, RunEvent::Sent(Ok(())), 6);
    run(&mut th, RunEvent::Queued(Ok(())), 7);
    assert!(!th.control.update_pending);
    assert_eq!(th.control.hold_deadline, 7 + NO_HOLD as u128);
    assert_eq!(th.control.settings.flow_temp_desired, 60);
    let step = run(&mut th, temperature(24.5), 8);
    assert!(matches!(step.action, Action::Send(_)));
}

#[test]
fn the_end_of_a_hold_without_a_crossing_changes_nothing_else() {
    let mut th = waiting();
    run(&mut th, temperature(18.0), 1);
    run(&mut th, RunEvent::Sent(Ok(())), 2);
    run(&mut th, RunEvent::Queued(Ok(())), 3);
    let step = run(&mut th, RunEvent::HoldElapsed, 1000);
    assert_eq!(
        step.action,
        Action::Wait { repeat_in: KEEP_ALIVE - 998, hold_until: 1000 + NO_HOLD as u128 }
    );
    assert!(!th.control.hold);
}

#[test]
fn a_failure_at_the_end_of_a_hold_leaves_the_crossing_pending() {
    let mut th = waiting();
    th.control.update_pending = true;
    run(&mut th, RunEvent::HoldElapsed, 5);
    run(&mut th, RunEvent::Sent(Ok(())), 6);
    let step = run(&mut th, RunEvent::Queued(Err("closed".to_string())), 7);
    assert!(matches!(step.action, Action::Wait { .. }));
    assert!(th.control.update_pending);
    assert_eq!(th.control.hold_deadline, 7 + NO_HOLD as u128);
}

#[test]
fn the_settings_are_repeated() {
    let mut th = waiting();
    let before = th.control;
    let step = run(&mut th, RunEvent::KeepAliveDue, KEEP_ALIVE);
    assert_eq!(step.action, Action::Send(Ebusd::set_mode(before.settings)));
    assert_eq!(th.control.phase, Phase::Sending(Purpose::KeepAlive, before.settings));
    run(&mut th, RunEvent::Sent(Ok(())), KEEP_ALIVE + 1);
    let step = run(&mut th, RunEvent::Queued(Ok(())), KEEP_ALIVE + 2);
    assert!(matches!(step.action, Action::Wait { repeat_in, .. } if repeat_in == KEEP_ALIVE - 1));
    assert_eq!(th.control.settings, before.settings);
    assert!(!th.control.hold);
}

#[test]
fn the_time_to_repeat() {
    assert_eq!(time_to_repeat(None, 5), 300 * SECOND);
    assert_eq!(time_to_repeat(Some(5), 5), 300 * SECOND);
    assert_eq!(time_to_repeat(Some(9), 5), 300 * SECOND);
    assert_eq!(time_to_repeat(Some(0), 100 * SECOND), 200 * SECOND);
    assert_eq!(time_to_repeat(Some(0), 300 * SECOND), 0);
    assert_eq!(time_to_repeat(Some(0), u64::MAX), 0);
}

#[test]
fn queued_messages_are_published_under_the_prefix() {
    let mut th = waiting();
    let step = run(
        &mut th,
        RunEvent::Outbox(Some(("temp/low".to_string(), "19.5".to_string()))),
        1,
    );
    assert_eq!(
        step.publish,
        Some(Publication {
            message: Message {
                topic: "ebus-thermostat/temp/low".to_string(),
                payload: Payload::Text("19.5".to_string()),
            },
            qos: Qos::AtLeastOnce,
            retain: true,
        })
    );
    assert!(matches!(step.action, Action::Wait { .. }));
    let step = run(&mut th, RunEvent::Outbox(None), 1);
    assert_eq!(step.publish, None);
    assert!(matches!(step.action, Action::Wait { .. }));
}

#[test]
fn the_thermostat_is_deaf_to_itself() {
    let mut th = waiting();
    let before = th.control;
    for message in th.publish_settings() {
        let topic = format!("ebus-thermostat/{}", message.topic);
        for payload in ["auto", "19", "", "nonsense"] {
            let step = run(&mut th, publish(&topic, payload), 1);
            assert!(matches!(step.action, Action::Wait { .. }));
            assert_eq!(th.control, before);
        }
    }
    run(&mut th, publish("ebus-thermostat/temp/current", "18"), 1);
    assert_eq!(th.control, before);
}

#[test]
fn a_set_point_moves_both_bounds() {
    let mut th = waiting();
    let step = run(&mut th, publish("ebus-thermostat/temp/set", "20.5"), 1);
    assert_eq!(
        step.action,
        Action::ReadTemperature { text: "20.5".to_string(), band: t(1.0) }
    );
    let read = ReadNumber { value: t(20.5), below: t(19.5), above: t(21.5) };
    let step = run(&mut th, RunEvent::TemperatureRead(Ok(read)), 2);
    assert_eq!(step.action, Action::Queue(status("auto", 19.5, 21.5, 20.5)));
    let step = run(&mut th, RunEvent::Queued(Ok(())), 3);
    assert!(matches!(step.action, Action::Wait { .. }));
    assert_eq!(th.control.prefs.lower_bound, t(19.5));
    assert_eq!(th.control.prefs.higher_bound, t(21.5));
    assert_eq!(th.control.prefs.set_point, t(20.5));
    assert_eq!(th.control.prefs.temperature_band, t(1.0));
}

#[test]
fn a_bound_is_moved_alone() {
    let read = ReadNumber { value: t(25.0), below: t(24.0), above: t(26.0) };
    let mut th = waiting();
    run(&mut th, publish("ebus-thermostat/temp/high/set", "25"), 1);
    run(&mut th, RunEvent::TemperatureRead(Ok(read)), 2);
    assert_eq!(
        th.control.prefs,
        TemperaturePreferences { higher_bound: t(25.0), ..TemperaturePreferences::default() }
    );
    let mut th = waiting();
    run(&mut th, publish("ebus-thermostat/temp/low/set", "25"), 1);
    let step = run(&mut th, RunEvent::TemperatureRead(Ok(read)), 2);
    assert_eq!(
        th.control.prefs,
        TemperaturePreferences { lower_bound: t(25.0), ..TemperaturePreferences::default() }
    );
    assert_eq!(step.action, Action::Queue(status("auto", 25.0, 23.0, 22.0)));
}

#[test]
fn a_temperature_that_is_none_ends_the_run() {
    let mut th = waiting();
    run(&mut th, publish("ebus-thermostat/temp/set", "warm"), 1);
    let step = run(
        &mut th,
        RunEvent::TemperatureRead(Err("invalid float literal".to_string())),
        2,
    );
    assert_eq!(finished_with(&step.action), Some("invalid float literal"));
    assert_eq!(th.control.prefs, TemperaturePreferences::default());
    assert!(!th.accepts(&RunEvent::Start));
}

#[test]
fn a_mode_is_set_and_applied() {
    let mut th = waiting();
    let step = run(&mut th, publish("ebus-thermostat/mode/set", "off"), 1);
    assert_eq!(
        step.action,
        Action::Send("w -c bai SetModeOverride off;0;45;-;-;0;0;0;-;0;0;0\n\n".to_string())
    );
    assert_eq!(th.control.settings.hc_mode, HeaterMode::OFF);
    let step = run(&mut th, RunEvent::Sent(Ok(())), 2);
    assert_eq!(step.action, Action::Queue(status("off", 19.0, 23.0, 22.0)));
    let step = run(&mut th, RunEvent::Queued(Ok(())), 3);
    assert!(matches!(step.action, Action::Wait { .. }));
    assert!(!th.control.hold);
}

#[test]
fn a_mode_that_is_none_ends_the_run() {
    let mut th = waiting();
    let step = run(&mut th, publish("ebus-thermostat/mode/set", "cool"), 1);
    assert_eq!(finished_with(&step.action), Some("Invalid heater mode"));
    assert_eq!(th.control.settings.hc_mode, HeaterMode::AUTO);
}

#[test]
fn a_payload_that_is_no_text_ends_the_run() {
    let bytes = vec![0xff, 0xfe];
    let expected = String::from_utf8(bytes.clone()).unwrap_err().to_string();
    let mut th = waiting();
    let step = run(
        &mut th,
        RunEvent::Mqtt(MqttEvent::Publish {
            topic: "ebus-thermostat/temp/set".to_string(),
            payload: bytes.clone(),
        }),
        1,
    );
    assert_eq!(finished_with(&step.action), Some(expected.as_str()));
    let mut th = waiting();
    let step = run(
        &mut th,
        RunEvent::Mqtt(MqttEvent::Publish {
            topic: "ebus-thermostat/temp".to_string(),
            payload: bytes,
        }),
        1,
    );
    assert!(matches!(step.action, Action::Wait { .. }));
}

#[test]
fn messages_are_handled_one_by_one() {
    let mut th = waiting();
    assert_eq!(
        th.handle_mqtt_message(MqttEvent::Publish {
            topic: "x/temp/low/set".to_string(),
            payload: b"18".to_vec(),
        }),
        Ok(MqttOutcome::ReadTemperature(Target::LowerBound, "18".to_string()))
    );
    assert_eq!(
        th.handle_command(TopicCommand::SetMode, "heat".to_string()),
        Ok(MqttOutcome::Apply)
    );
    assert_eq!(th.control.settings.hc_mode, HeaterMode::HEAT);
    assert_eq!(
        th.handle_command(TopicCommand::Ignore, "heat".to_string()),
        Ok(MqttOutcome::Nothing)
    );
}

#[test]
fn a_disconnect_ends_the_run() {
    let mut th = waiting();
    let step = run(&mut th, RunEvent::Mqtt(MqttEvent::Disconnect), 1);
    assert_eq!(finished_with(&step.action), Some("MQTT disconnect"));
    assert_eq!(th.control.phase, Phase::Idle);
    assert!(!th.accepts(&RunEvent::Start));
}

#[test]
fn other_packets_are_ignored() {
    let mut th = waiting();
    let before = th.control;
    for event in [MqttEvent::Incoming, MqttEvent::Outgoing] {
        let step = run(&mut th, RunEvent::Mqtt(event), 1);
        assert!(matches!(step.action, Action::Wait { .. }));
        assert_eq!(th.control, before);
    }
}

#[test]
fn a_lost_broker_restarts_the_run() {
    let mut th = waiting();
    run(&mut th, temperature(18.0), 1);
    run(&mut th, RunEvent::Sent(Ok(())), 2);
    run(&mut th, RunEvent::Queued(Ok(())), 3);
    let step = run(&mut th, RunEvent::MqttError, 4);
    assert_eq!(step.action, Action::Finish(ThermostatError::Restart));
    assert_eq!(th.control.settings.flow_temp_desired, 60);
    let step = run(&mut th, RunEvent::Start, 5);
    assert_eq!(step.action, Action::Send(Ebusd::set_mode(th.control.settings)));
    assert!(!th.control.hold);
    assert!(!th.control.outbox_parked);
}

#[test]
fn a_refusal_is_counted_and_the_settings_still_count() {
    let mut th = waiting();
    run(&mut th, temperature(18.0), 1);
    let step = run(&mut th, refusal(), 2);
    assert!(matches!(step.action, Action::Queue(_)));
    assert_eq!(th.control.set_fails, 1);
    assert_eq!(th.control.settings.flow_temp_desired, 60);
    assert_eq!(th.control.last_mode_set_time, Some(2));
    run(&mut th, RunEvent::Queued(Ok(())), 3);
    assert!(th.control.hold);
}

#[test]
fn a_success_sets_the_count_back() {
    let mut th = waiting();
    th.control.set_fails = 4;
    run(&mut th, RunEvent::KeepAliveDue, 1);
    run(&mut th, RunEvent::Sent(Ok(())), 2);
    assert_eq!(th.control.set_fails, 0);
}

#[test]
fn too_many_failures_make_a_pause() {
    let mut th = waiting();
    for n in 1..=5u8 {
        run(&mut th, RunEvent::KeepAliveDue, 1);
        let step = run(&mut th, refusal(), 2);
        assert!(matches!(step.action, Action::Queue(_)));
        assert_eq!(th.control.set_fails, n);
        run(&mut th, RunEvent::Queued(Ok(())), 3);
    }
    run(&mut th, RunEvent::KeepAliveDue, 4);
    let step = run(&mut th, refusal(), 5);
    assert_eq!(step.action, Action::CoolDown(COOL_DOWN));
    assert_eq!(COOL_DOWN, 600 * SECOND);
    assert_eq!(th.control.set_fails, 6);
    assert_eq!(th.control.last_mode_set_time, Some(5));
    let step = run(&mut th, RunEvent::CooledDown, 5 + COOL_DOWN);
    assert!(matches!(step.action, Action::Queue(_)));
    assert_eq!(th.control.set_fails, 0);
    assert_eq!(th.control.last_mode_set_time, Some(5));
}

#[test]
fn the_settings_are_repeated_right_after_a_pause() {
    let mut th = waiting();
    th.control.set_fails = 5;
    run(&mut th, temperature(18.0), 100);
    run(&mut th, refusal(), 100);
    assert_eq!(th.control.settings.flow_temp_desired, 0);
    run(&mut th, RunEvent::CooledDown, 100 + COOL_DOWN);
    assert_eq!(th.control.settings.flow_temp_desired, 60);
    let step = run(&mut th, RunEvent::Queued(Ok(())), 100 + COOL_DOWN);
    assert!(matches!(step.action, Action::Wait { repeat_in: 0, .. }));
    let step = run(&mut th, RunEvent::KeepAliveDue, 100 + COOL_DOWN);
    assert_eq!(step.action, Action::Send(Ebusd::set_mode(th.control.settings)));
}

#[test]
fn a_pause_after_a_new_definition_begins_with_the_definition() {
    let mut th = waiting();
    th.control.set_fails = 5;
    run(&mut th, RunEvent::KeepAliveDue, 1);
    run(&mut th, io_failure("broken pipe"), 2);
    run(&mut th, RunEvent::Reconnected(Ok(())), 3);
    assert_eq!(th.control.last_mode_set_time, Some(0));
    let step = run(&mut th, RunEvent::Defined(Ok(())), 4);
    assert_eq!(step.action, Action::CoolDown(COOL_DOWN));
    assert_eq!(th.control.last_mode_set_time, Some(4));
}

#[test]
fn a_lost_daemon_is_connected_to_again() {
    let mut th = waiting();
    run(&mut th, temperature(18.0), 1);
    let step = run(&mut th, io_failure("Broken pipe (os error 32)"), 2);
    assert_eq!(step.action, Action::Reconnect);
    let step = run(&mut th, RunEvent::Reconnected(Ok(())), 3);
    assert_eq!(step.action, Action::Define(Ebusd::define_message(SET_MODE_DEFINITION)));
    let step = run(&mut th, RunEvent::Defined(Ok(())), 4);
    assert!(matches!(step.action, Action::Queue(_)));
    assert_eq!(th.control.settings.flow_temp_desired, 60);
    assert_eq!(th.control.set_fails, 1);
    run(&mut th, RunEvent::Queued(Ok(())), 5);
    assert_eq!(th.control.phase, Phase::Waiting);
}

#[test]
fn errors_that_tell_of_a_lost_connection() {
    for text in ["BROKEN PIPE", "Connection reset by peer (os error 104)", "no connection"] {
        let mut th = waiting();
        run(&mut th, RunEvent::KeepAliveDue, 1);
        assert_eq!(run(&mut th, io_failure(text), 2).action, Action::Reconnect, "{text}");
    }
    for text in ["timed out", "broken  pipe", "connect"] {
        let mut th = waiting();
        run(&mut th, RunEvent::KeepAliveDue, 1);
        assert!(matches!(run(&mut th, io_failure(text), 2).action, Action::Queue(_)), "{text}");
    }
    assert!(lost_connection("broken pipe"));
    assert!(!lost_connection("Broken pipe"));
}

#[test]
fn a_refusal_never_reconnects() {
    let mut th = waiting();
    run(&mut th, RunEvent::KeepAliveDue, 1);
    let event = RunEvent::Sent(Err(SendFailure::Other("connection".to_string())));
    assert!(matches!(run(&mut th, event, 2).action, Action::Queue(_)));
}

#[test]
fn a_daemon_out_of_reach_leaves_the_settings_as_they_were() {
    let mut th = waiting();
    run(&mut th, temperature(18.0), 1);
    run(&mut th, io_failure("connection refused"), 2);
    let step = run(&mut th, RunEvent::Reconnected(Err("refused".to_string())), 3);
    assert!(matches!(step.action, Action::Wait { .. }));
    assert_eq!(th.control.settings.flow_temp_desired, 0);
    assert_eq!(th.control.last_mode_set_time, Some(0));
    assert!(!th.control.hold);
    run(&mut th, RunEvent::KeepAliveDue, 4);
    run(&mut th, io_failure("connection refused"), 5);
    run(&mut th, RunEvent::Reconnected(Ok(())), 6);
    let step = run(&mut th, RunEvent::Defined(Err("ERR".to_string())), 7);
    assert!(matches!(step.action, Action::Wait { .. }));
    assert_eq!(th.control.set_fails, 2);
}

#[test]
fn failures_at_the_start_end_the_run() {
    let mut th = thermostat();
    run(&mut th, RunEvent::Start, 0);
    run(&mut th, io_failure("connection refused"), 1);
    let step = run(&mut th, RunEvent::Reconnected(Err("refused".to_string())), 2);
    assert_eq!(finished_with(&step.action), Some("refused"));
    let mut th = thermostat();
    run(&mut th, RunEvent::Start, 0);
    run(&mut th, io_failure("connection refused"), 1);
    run(&mut th, RunEvent::Reconnected(Ok(())), 2);
    let step = run(&mut th, RunEvent::Defined(Err("ERR".to_string())), 3);
    assert_eq!(finished_with(&step.action), Some("ERR"));
    let mut th = thermostat();
    run(&mut th, RunEvent::Start, 0);
    run(&mut th, RunEvent::Sent(Ok(())), 1);
    let step = run(&mut th, RunEvent::Queued(Err("channel closed".to_string())), 2);
    assert_eq!(finished_with(&step.action), Some("channel closed"));
}

#[test]
fn failures_after_a_message_end_the_run() {
    let mut th = waiting();
    run(&mut th, publish("ebus-thermostat/mode/set", "heat"), 1);
    run(&mut th, RunEvent::Sent(Ok(())), 2);
    let step = run(&mut th, RunEvent::Queued(Err("channel closed".to_string())), 3);
    assert_eq!(finished_with(&step.action), Some("channel closed"));
    let mut th = waiting();
    run(&mut th, publish("ebus-thermostat/temp/set", "20"), 1);
    let read = ReadNumber { value: t(20.0), below: t(19.0), above: t(21.0) };
    run(&mut th, RunEvent::TemperatureRead(Ok(read)), 2);
    let step = run(&mut th, RunEvent::Queued(Err("channel closed".to_string())), 3);
    assert_eq!(finished_with(&step.action), Some("channel closed"));
}

#[test]
fn events_come_only_in_their_phase() {
    let th = waiting();
    assert!(!th.accepts(&RunEvent::Start));
    assert!(!th.accepts(&RunEvent::CooledDown));
    assert!(!th.accepts(&RunEvent::Sent(Ok(()))));
    assert!(!th.accepts(&publish("no-slash", "x")));
    assert!(th.accepts(&publish("a/b", "x")));
    assert!(!thermostat().accepts(&RunEvent::KeepAliveDue));
}

#[test]
fn a_count_at_its_end_admits_no_further_failure() {
    let mut th = waiting();
    th.control.set_fails = 255;
    run(&mut th, RunEvent::KeepAliveDue, 1);
    assert!(!th.accepts(&refusal()));
    assert!(th.accepts(&RunEvent::Sent(Ok(()))));
    th.control.set_fails = 254;
    assert!(th.accepts(&refusal()));
}

#[test]
fn an_application_ends_after_five_answers() {
    let mut th = waiting();
    th.control.set_fails = 5;
    run(&mut th, RunEvent::KeepAliveDue, 1);
    run(&mut th, io_failure("broken pipe"), 2);
    run(&mut th, RunEvent::Reconnected(Ok(())), 3);
    run(&mut th, RunEvent::Defined(Ok(())), 4);
    run(&mut th, RunEvent::CooledDown, 5);
    run(&mut th, RunEvent::Queued(Ok(())), 6);
    assert_eq!(th.control.phase, Phase::Waiting);
}

#[test]
fn only_two_flow_temperatures_are_asked_for() {
    let mut th = waiting();
    let mut now: u64 = 0;
    for v in [10.0, 30.0, 15.5, f32::NAN, 40.0, -2.0, 22.0, 19.0, 23.0] {
        now += 120 * SECOND;
        if let Action::Send(_) = run(&mut th, temperature(v), now).action {
            run(&mut th, RunEvent::Sent(Ok(())), now);
            run(&mut th, RunEvent::Queued(Ok(())), now);
        }
        assert!([0u8, 60].contains(&th.control.settings.flow_temp_desired));
        if th.control.hold {
            run(&mut th, RunEvent::HoldElapsed, now + 60 * SECOND);
        }
    }
    assert_eq!(th.control.settings.flow_temp_desired, 0);
}

#[test]
fn update_proposes_without_changing() {
    let th = waiting();
    assert_eq!(
        th.update_heater_settings(t(18.0)),
        Some(HeaterSettings { flow_temp_desired: 60, ..th.control.settings })
    );
    assert_eq!(th.update_heater_settings(t(20.0)), None);
}

#[test]
fn applying_begins_with_the_command() {
    let mut th = waiting();
    let settings = HeaterSettings { flow_temp_desired: 60, ..th.control.settings };
    assert_eq!(
        th.apply_settings(settings, Purpose::KeepAlive),
        Action::Send(Ebusd::set_mode(settings))
    );
    assert_eq!(th.control.phase, Phase::Sending(Purpose::KeepAlive, settings));
}

#[test]
fn a_change_is_kept_whatever_else_happens() {
    let mut th = waiting();
    run(&mut th, temperature(18.0), 1);
    run(&mut th, RunEvent::Sent(Ok(())), 2);
    run(&mut th, RunEvent::Queued(Ok(())), 3);
    run(&mut th, temperature(30.0), 4);
    run(&mut th, publish("ebus-thermostat/mode/set", "heat"), 5);
    run(&mut th, io_failure("connection reset"), 6);
    run(&mut th, RunEvent::Reconnected(Ok(())), 7);
    run(&mut th, RunEvent::Defined(Ok(())), 8);
    run(&mut th, RunEvent::Queued(Ok(())), 9);
    run(&mut th, temperature(31.0), 10);
    run(&mut th, RunEvent::KeepAliveDue, 11);
    run(&mut th, RunEvent::Sent(Ok(())), 12);
    run(&mut th, RunEvent::Queued(Ok(())), 13);
    assert_eq!(th.control.settings.flow_temp_desired, 60);
    assert_eq!(th.control.settings.hc_mode, HeaterMode::HEAT);
    assert!(th.control.hold);
    assert_eq!(th.control.hold_deadline, 3 + 60 * SECOND as u128);
}
