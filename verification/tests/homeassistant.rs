use ebus_thermostat::homeassistant::{
    bare, complaint, find_entity, Api, Device, Devices, Event, EventData, HaMessage, Namespaces, Reading,
    Stage, State, StateValue, WsMessage, DEVICES_TEMPLATE,
};
use ebus_thermostat::temperature::Temperature;

fn t(v: f32) -> Temperature {
    Temperature { bits: v.to_bits() }
}

fn device(name: &str, groups: Vec<Vec<&str>>) -> Device {
    Device {
        name: name.to_string(),
        entities: groups
            .into_iter()
            .map(|g| g.into_iter().map(|e| e.to_string()).collect())
            .collect(),
    }
}

fn api() -> Api {
    Api::new("homeassistant:8123".to_string(), "secret".to_string())
}

fn event(event_type: &str, entity: &str, state: StateValue) -> Event {
    Event {
        event_type: event_type.to_string(),
        data: EventData {
            old_state: State { entity_id: entity.to_string(), state: StateValue::Null },
            new_state: State { entity_id: entity.to_string(), state },
        },
        origin: "LOCAL".to_string(),
    }
}

#[test]
fn a_later_device_takes_the_place_of_an_earlier_one() {
    let mut devices = Devices::new();
    devices.insert("a".to_string(), device("one", vec![]));
    devices.insert("b".to_string(), device("two", vec![]));
    devices.insert("a".to_string(), device("three", vec![]));
    let names: Vec<(&str, &str)> = devices
        .devices
        .iter()
        .map(|(id, d)| (id.as_str(), d.name.as_str()))
        .collect();
    assert_eq!(names, vec![("a", "three"), ("b", "two")]);
}

#[test]
fn devices_of_all_groups_are_listed() {
    let mut first = Devices::new();
    first.insert("a".to_string(), device("one", vec![]));
    first.insert("b".to_string(), device("two", vec![]));
    let second = Devices::new();
    let mut third = Devices::new();
    third.insert("a".to_string(), device("three", vec![]));
    let all = Namespaces { namespaces: vec![first, second, third] }.into_devices();
    let names: Vec<&str> = all.iter().map(|d| d.name.as_str()).collect();
    assert_eq!(names, vec!["one", "two", "three"]);
}

#[test]
fn an_entity_is_found_in_any_group_of_any_device() {
    let devices = vec![
        device("one", vec![]),
        device("two", vec![vec!["light.a"], vec![], vec!["sensor.b", "sensor.c"]]),
    ];
    assert!(find_entity(&devices, "light.a"));
    assert!(find_entity(&devices, "sensor.c"));
    assert!(!find_entity(&devices, "sensor"));
    assert!(!find_entity(&devices, ""));
    assert!(!find_entity(&Vec::new(), "sensor.c"));
}

#[test]
fn the_request_for_devices() {
    let request = api().get_devices().unwrap();
    assert_eq!(request.url, "http://homeassistant:8123/api/template");
    assert_eq!(request.bearer_token, "secret");
    assert_eq!(request.body, DEVICES_TEMPLATE);
    assert!(request.body.starts_with("{\"template\": \"{% set devices = states"));
    assert!(request.body.contains("{device: {\\\"name\\\": device_attr(device, \\\"name\\\")"));
    assert!(request.body.ends_with("{{ ns.devices }}\"}"));
}

#[test]
fn an_address_is_written_out_as_a_url() {
    let api = Api::new("HOMEASSISTANT:80".to_string(), String::new());
    assert_eq!(api.get_devices().unwrap().url, "http://homeassistant/api/template");
    assert_eq!(
        api.state_updates().unwrap(),
        reqwest::Url::parse("ws://HOMEASSISTANT:80/api/websocket").unwrap().to_string()
    );
}

#[test]
fn an_address_that_is_none_is_refused() {
    let api = Api::new("host:port".to_string(), String::new());
    let expected = reqwest::Url::parse("http://host:port/api/template").unwrap_err().to_string();
    assert_eq!(api.get_devices(), Err(expected.clone()));
    assert_eq!(expected, "invalid port number");
    let expected = reqwest::Url::parse("ws://host:port/api/websocket").unwrap_err().to_string();
    assert_eq!(api.state_updates(), Err(expected));
}

#[test]
fn the_address_of_the_stream() {
    assert_eq!(api().state_updates().unwrap(), "ws://homeassistant:8123/api/websocket");
}

#[test]
fn a_request_is_posted_to_the_given_url() {
    let request = api().template_request("http://x/".to_string());
    assert_eq!(request.url, "http://x/");
    assert_eq!(request.bearer_token, "secret");
    assert_eq!(request.body, DEVICES_TEMPLATE);
}

#[test]
fn the_answer_becomes_json() {
    assert_eq!(
        Api::read_devices(b"[{'abc': {'name': 'Lamp', 'entities': [['light.a']]}}]".to_vec()),
        Ok("[{\"abc\": {\"name\": \"Lamp\", \"entities\": [[\"light.a\"]]}}]".to_string())
    );
}

#[test]
fn an_answer_that_is_no_text_is_refused() {
    let bytes = vec![0xc3];
    let expected = String::from_utf8(bytes.clone()).unwrap_err().to_string();
    assert_eq!(Api::read_devices(bytes), Err(expected));
}

#[test]
fn the_stream_is_set_up_in_three_stages() {
    let api = api();
    let done = api
        .handshake(
            Stage::AuthRequired,
            &WsMessage::Text("{\"type\":\"auth_required\"}".to_string()),
        )
        .unwrap();
    assert_eq!(
        done.send,
        Some(
            r#"
{
  "type": "auth",
  "access_token": "blurg"
}
        "#
            .replace("blurg", "secret")
        )
    );
    assert_eq!(done.next, Some(Stage::AuthOk));
    let done = api
        .handshake(Stage::AuthOk, &WsMessage::Text("{\"type\":\"auth_ok\"}".to_string()))
        .unwrap();
    assert_eq!(
        done.send,
        Some(
            r#"
{
  "id": 18,
  "type": "subscribe_events",
  "event_type": "state_changed"
}
        "#
            .to_string()
        )
    );
    assert_eq!(done.next, Some(Stage::Subscribed));
    let done = api
        .handshake(Stage::Subscribed, &WsMessage::Text("{\"success\":true}".to_string()))
        .unwrap();
    assert_eq!(done.send, None);
    assert_eq!(done.next, None);
}

#[test]
fn the_token_is_sent_in_the_first_answer_only() {
    let api = Api::new("h".to_string(), "T0KEN".to_string());
    let other = Api::new("h".to_string(), "other".to_string());
    let ok = WsMessage::Text("auth_ok".to_string());
    assert_eq!(
        api.handshake(Stage::AuthOk, &ok).unwrap(),
        other.handshake(Stage::AuthOk, &ok).unwrap()
    );
    let ask = WsMessage::Text("auth_required".to_string());
    assert!(api.handshake(Stage::AuthRequired, &ask).unwrap().send.unwrap().contains("T0KEN"));
}

#[test]
fn messages_that_were_not_waited_for_are_refused() {
    let api = api();
    let other = WsMessage::Other("Ping([])".to_string());
    let text = WsMessage::Text("{\"type\":\"nope\"}".to_string());
    assert_eq!(
        api.handshake(Stage::AuthRequired, &text),
        Err("Invalid ws handshake".to_string())
    );
    assert_eq!(
        api.handshake(Stage::AuthRequired, &other),
        Err("Invalid ws handshake".to_string())
    );
    assert_eq!(
        api.handshake(Stage::AuthOk, &text),
        Err("Invalid ws auth credentials: \"{\\\"type\\\":\\\"nope\\\"}\"".to_string())
    );
    assert_eq!(api.handshake(Stage::AuthOk, &other), Err("Invalid ws handshake".to_string()));
    assert_eq!(
        api.handshake(Stage::Subscribed, &text),
        Err("Failed to subscribe: \"{\\\"type\\\":\\\"nope\\\"}\"".to_string())
    );
    assert_eq!(
        api.handshake(Stage::Subscribed, &other),
        Err("Unexpected ws message type: Ping([])".to_string())
    );
    assert_eq!(complaint("a: ", "b"), "a: b");
}

#[test]
fn readable_messages_are_handed_on() {
    let message = HaMessage {
        id: 18,
        msg_type: "event".to_string(),
        event: event("state_changed", "sensor.t", StateValue::Null),
    };
    assert_eq!(
        Api::stream_event(Ok(message)),
        Some(event("state_changed", "sensor.t", StateValue::Null))
    );
    assert_eq!(Api::stream_event(Err("no JSON".to_string())), None);
}

#[test]
fn numbers_and_texts_are_readings() {
    let e = event("state_changed", "sensor.t", StateValue::Number(t(21.5)));
    assert_eq!(e.reading("sensor.t"), Reading::Number(t(21.5)));
    let e = event("state_changed", "sensor.t", StateValue::Text("21.5".to_string()));
    assert_eq!(e.reading("sensor.t"), Reading::Text("21.5".to_string()));
}

#[test]
fn all_else_is_ignored() {
    for state in [
        StateValue::Null,
        StateValue::Bool(true),
        StateValue::Array,
        StateValue::Object,
    ] {
        let e = event("state_changed", "sensor.t", state);
        assert_eq!(e.reading("sensor.t"), Reading::Ignored);
    }
    let e = event("state_changed", "sensor.u", StateValue::Number(t(1.0)));
    assert_eq!(e.reading("sensor.t"), Reading::Ignored);
    let e = event("call_service", "sensor.t", StateValue::Number(t(1.0)));
    assert_eq!(e.reading("sensor.t"), Reading::Ignored);
}

#[test]
fn addresses_lose_their_scheme() {
    assert_eq!(bare("http://supervisor/core"), "supervisor/core");
    assert_eq!(bare("ws://supervisor/core"), "supervisor/core");
    assert_eq!(bare("homeassistant:8123"), "homeassistant:8123");
    assert_eq!(bare("http://ws://x"), "ws://x");
    assert_eq!(bare("ws://http://x"), "http://x");
    assert_eq!(bare("http:/"), "http:/");
    assert_eq!(bare("http://"), "");
    assert_eq!(bare(""), "");
}
