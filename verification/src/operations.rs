//! What callers of the operations get back, in terms of what they handed over.
use crate::control::{
    Action, Control, Message, MqttEvent, Payload, Phase, Purpose, Qos, RunEvent, Step, Target,
    ThermostatError, TopicCommand,
};
use crate::control;
use crate::ebusd::{self, Ebusd};
use crate::heater::{self, HeaterMode, HeaterSettings, TemperaturePreferences};
use crate::homeassistant::{
    self, Api, Device, Devices, Event, HaMessage, Namespaces, Reading, Stage, StageDone, StateValue,
    TemplateRequest, WsMessage,
};
use crate::options::{Addresses, Options};
use crate::temperature::{self, Temperature};
use crate::text;
use crate::thermostat::{self, MqttOutcome, MqttParameters, Thermostat};
use crate::transitions;
use vstd::arithmetic::power2;
use vstd::prelude::*;

verus! {

// ---------------------------------------------------------------------------
// Texts and temperatures
// ---------------------------------------------------------------------------

/// A text is found in another exactly if the other is that text with something
/// before and something behind it.
pub proof fn law_contains(hay: &str, needle: &str, found: bool)
    requires
        call_ensures(text::contains, (hay, needle), found),
    ensures
        found <==> exists|a: Seq<char>, b: Seq<char>| hay@ == #[trigger] (a + needle@ + b),
{
    text::law_occurs(needle@, hay@);
}

/// The parts of a text hold no separator, and joined again they are the text.
pub proof fn law_split_parts(s: &str, sep: char, parts: Vec<Vec<char>>)
    requires
        call_ensures(text::split, (s, sep), parts),
    ensures
        parts@.len() >= 1,
        forall|i: int| 0 <= i < parts@.len() ==> !(#[trigger] parts@[i])@.contains(sep),
        text::join_with(Seq::new(parts@.len(), |i: int| parts@[i]@), sep) == s@,
{
    text::law_split(s@, sep);
    assert(text::texts(parts@) == text::split_on(s@, sep));
    assert(Seq::new(parts@.len(), |i: int| parts@[i]@) =~= text::texts(parts@));
    assert forall|i: int| 0 <= i < parts@.len() implies !(#[trigger] parts@[i])@.contains(sep) by {
        assert(text::texts(parts@)[i] == parts@[i]@);
        assert(!text::split_on(s@, sep)[i].contains(sep));
    }
}

/// Trimming takes white space, and nothing else, off both ends.
pub proof fn law_trim(s: &str, inner: String) -> (ends: (Seq<char>, Seq<char>))
    requires
        call_ensures(text::trim, (s,), inner),
    ensures
        s@ == ends.0 + inner@ + ends.1,
        text::blank(ends.0) && text::blank(ends.1),
        inner@.len() > 0 ==> !text::white_space(inner@[0]) && !text::white_space(inner@.last()),
{
    text::law_trimmed_ends(s@);
    text::law_trimmed(s@)
}

/// Each single quote becomes a double quote, and all else stays in its place.
pub proof fn law_quotes(s: &str, quoted: String)
    requires
        call_ensures(text::to_double_quotes, (s,), quoted),
    ensures
        quoted@.len() == s@.len(),
        forall|i: int|
            0 <= i < s@.len() ==> #[trigger] quoted@[i] == (if s@[i] == '\'' {
                '"'
            } else {
                s@[i]
            }),
{
}

/// A text is cut where the prefix ends, if it begins with it.
pub proof fn law_after_prefix(s: &str, prefix: &str, rest: Option<String>)
    requires
        call_ensures(text::after_prefix, (s, prefix), rest),
    ensures
        rest matches Some(r) ==> s@ == prefix@ + r@,
        rest is None ==> forall|r: Seq<char>| s@ != #[trigger] (prefix@ + r),
{
    text::law_begins(prefix@, s@);
    if let Some(r) = rest {
        assert(text::occurs_at(prefix@, s@, 0));
        assert(s@.subrange(0, prefix@.len() as int) == prefix@);
        assert(s@ =~= s@.subrange(0, prefix@.len() as int) + s@.skip(prefix@.len() as int));
    }
}

/// The notation of a byte is its hundreds, its tens and its ones, without zeros
/// in front.
pub proof fn law_decimal_text(n: u8, shown: String)
    requires
        call_ensures(text::decimal_text, (n,), shown),
    ensures
        n < 10 ==> shown@ == seq![(48 + n) as char],
        10 <= n < 100 ==> shown@ == seq![(48 + n / 10) as char, (48 + n % 10) as char],
        n >= 100 ==> shown@ == seq![
            (48 + n / 100) as char,
            (48 + (n / 10) % 10) as char,
            (48 + n % 10) as char,
        ],
{
    let tens = (n / 10) as nat;
    text::law_decimal(tens, (n % 10) as nat);
    text::law_decimal(tens / 10, tens % 10);
    text::law_decimal(0, (n / 100) as nat);
    if n >= 100 {
        assert(shown@ =~= seq![
            (48 + n / 100) as char,
            (48 + (n / 10) % 10) as char,
            (48 + n % 10) as char,
        ]);
    } else if n >= 10 {
        text::law_decimal(0, tens);
        assert(shown@ =~= seq![(48 + n / 10) as char, (48 + n % 10) as char]);
    }
}

/// Temperatures compare as the numbers that their patterns stand for; what is no
/// number compares with nothing, not even with itself.
pub proof fn law_comparisons(a: Temperature, b: Temperature, at_most: bool, equals: bool)
    requires
        call_ensures(Temperature::at_most, (&a, &b), at_most),
        call_ensures(Temperature::equals, (&a, &b), equals),
    ensures
        at_most <==> !a.is_nan() && !b.is_nan() && a.steps() <= b.steps(),
        equals <==> !a.is_nan() && !b.is_nan() && a.steps() == b.steps(),
{
}

/// Degrees become a temperature, and come back unchanged from it.
pub proof fn law_degrees(degrees: u8, t: Temperature, back: u8)
    requires
        call_ensures(Temperature::from_degrees, (degrees,), t),
        call_ensures(Temperature::whole_degrees, (&t,), back),
    ensures
        !t.is_nan() && !t.negative() && t.steps() == degrees * power2::pow2(149),
        back == degrees,
{
    temperature::law_degrees_round_trip(degrees, t);
}

/// The whole degrees of a temperature within the range of a byte are at or below
/// it by less than one degree.
pub proof fn law_cut_off(t: Temperature, degrees: u8)
    requires
        call_ensures(Temperature::whole_degrees, (&t,), degrees),
    ensures
        t.is_nan() || t.steps() < 0 ==> degrees == 0,
        !t.is_nan() && 0 <= t.steps() < 256 * power2::pow2(149) ==> degrees * power2::pow2(149)
            <= t.steps() < (degrees + 1) * power2::pow2(149),
        !t.is_nan() && t.steps() >= 256 * power2::pow2(149) ==> degrees == 255,
{
    temperature::law_whole_degrees(t);
}

// ---------------------------------------------------------------------------
// The heater and its daemon
// ---------------------------------------------------------------------------

/// A mode is read back from its name, and from no other text.
pub proof fn law_mode_names_read(
    mode: HeaterMode,
    name: String,
    s: &str,
    read: Result<HeaterMode, ()>,
)
    requires
        call_ensures(HeaterMode::to_string, (&mode,), name),
        call_ensures(HeaterMode::from_str, (s,), read),
    ensures
        s@ == name@ <==> read == Ok::<HeaterMode, ()>(mode),
        read is Err <==> s@ != "auto"@ && s@ != "heat"@ && s@ != "off"@,
        name@ == (match mode {
            HeaterMode::AUTO => "auto"@,
            HeaterMode::HEAT => "heat"@,
            HeaterMode::OFF => "off"@,
        }),
{
    heater::law_mode_texts(s@);
    heater::law_mode_round_trip(mode);
    heater::law_mode_names(s@);
}

/// The command value of a mode is off or zero.
pub proof fn law_mode_value(mode: HeaterMode, value: String)
    requires
        call_ensures(HeaterMode::to_command_value, (&mode,), value),
    ensures
        mode is OFF ==> value@ == "off"@,
        mode !is OFF ==> value@ == "0"@,
{
}

/// An inactive heater starts exactly if the room is at the lower bound or below,
/// an active one stops exactly if the room is at the higher bound or above; the
/// mode and the other settings play no part, and are kept.
pub proof fn law_hysteresis(
    settings: HeaterSettings,
    prefs: TemperaturePreferences,
    t: Temperature,
    change: Option<HeaterSettings>,
)
    requires
        call_ensures(heater::change_heating, (settings, &prefs, &t), change),
    ensures
        settings.flow_temp_desired == 0 ==> {
            let cold = !t.is_nan() && !prefs.lower_bound.is_nan() && t.steps()
                <= prefs.lower_bound.steps();
            &&& cold ==> change == Some(HeaterSettings { flow_temp_desired: 60, ..settings })
            &&& !cold ==> change is None
        },
        settings.flow_temp_desired != 0 ==> {
            let warm = !t.is_nan() && !prefs.higher_bound.is_nan() && t.steps()
                >= prefs.higher_bound.steps();
            &&& warm ==> change == Some(HeaterSettings { flow_temp_desired: 0, ..settings })
            &&& !warm ==> change is None
        },
{
}

/// The thermostat proposes what its own settings and preferences ask for.
pub proof fn law_proposal(
    thermostat: Thermostat,
    t: Temperature,
    proposed: Option<HeaterSettings>,
    change: Option<HeaterSettings>,
)
    requires
        call_ensures(Thermostat::update_heater_settings, (&thermostat, t), proposed),
        call_ensures(
            heater::change_heating,
            (thermostat.control.settings, &thermostat.control.prefs, &t),
            change,
        ),
    ensures
        proposed == change,
{
}

/// The command for settings is the name of the message, twelve values between
/// semicolons with the temperatures and flags of these very settings, and an
/// empty line.
pub proof fn law_set_mode(settings: HeaterSettings, command: String, arg: String)
    requires
        call_ensures(Ebusd::set_mode, (settings,), command),
        call_ensures(HeaterSettings::into_cmd_arg, (settings,), arg),
    ensures
        command@ == "w -c bai SetModeOverride "@ + arg@ + "\n\n"@,
        ({
            let values = text::split_on(arg@, ';');
            &&& values.len() == 12
            &&& values[0] == (if settings.hc_mode is OFF {
                "off"@
            } else {
                "0"@
            })
            &&& values[1] == text::decimal(settings.flow_temp_desired as nat)
            &&& values[2] == text::decimal(settings.hwc_temp_desired as nat)
            &&& values[3] == (match settings.hwc_flow_temp_desired {
                Some(v) => text::decimal(v as nat),
                None => "-"@,
            })
            &&& values[5] == (if settings.disable_hc {
                "1"@
            } else {
                "0"@
            })
            &&& values[7] == (if settings.disable_hwc_load {
                "1"@
            } else {
                "0"@
            })
            &&& values[4] == "-"@ && values[8] == "-"@
            &&& values[6] == "0"@ && values[9] == "0"@ && values[10] == "0"@ && values[11] == "0"@
        }),
{
    heater::law_cmd_arg_values(settings);
}

/// Two commands are equal only if they ask for the same settings, but for the
/// modes AUTO and HEAT.
pub proof fn law_commands_differ(
    a: HeaterSettings,
    b: HeaterSettings,
    for_a: String,
    for_b: String,
)
    requires
        call_ensures(Ebusd::set_mode, (a,), for_a),
        call_ensures(Ebusd::set_mode, (b,), for_b),
    ensures
        for_a@ == for_b@ <==> {
            &&& a == (HeaterSettings { hc_mode: a.hc_mode, ..b })
            &&& a.hc_mode is OFF <==> b.hc_mode is OFF
        },
{
    if for_a@ == for_b@ {
        ebusd::law_set_mode_tells_settings(a, b);
    }
    if a == (HeaterSettings { hc_mode: a.hc_mode, ..b }) && (a.hc_mode is OFF
        <==> b.hc_mode is OFF) {
        assert(a.cmd_fields() =~= b.cmd_fields());
    }
}

/// A definition is sent as it stands.
pub proof fn law_define_message(definition: &str, command: String)
    requires
        call_ensures(Ebusd::define_message, (definition,), command),
    ensures
        command@ == "define -r "@ + definition@ + "\n\n"@,
{
}

/// A reply is a success exactly if it is text and holds the word done.
pub proof fn law_reply(reply: Vec<u8>, outcome: Result<(), String>)
    requires
        call_ensures(Ebusd::read_reply, (reply,), outcome),
    ensures
        outcome is Ok <==> vstd::utf8::valid_utf8(reply@) && exists|a: Seq<char>, b: Seq<char>|
            vstd::utf8::decode_utf8(reply@) == #[trigger] (a + "done"@ + b),
        outcome matches Err(e) ==> (!vstd::utf8::valid_utf8(reply@) ==> e@
            == text::utf8_error_text(reply@)),
        outcome matches Err(e) ==> (vstd::utf8::valid_utf8(reply@) ==> e@ == text::trimmed(
            vstd::utf8::decode_utf8(reply@),
        )),
{
    ebusd::law_done(vstd::utf8::decode_utf8(reply@));
}

/// A reply in text is a success exactly if it holds the word done.
pub proof fn law_text_reply(reply: &str, outcome: Result<(), String>)
    requires
        call_ensures(Ebusd::read_text_reply, (reply,), outcome),
    ensures
        outcome is Ok <==> exists|a: Seq<char>, b: Seq<char>|
            reply@ == #[trigger] (a + "done"@ + b),
        outcome matches Err(e) ==> e@ == text::trimmed(reply@),
{
    ebusd::law_done(reply@);
}

// ---------------------------------------------------------------------------
// Home Assistant
// ---------------------------------------------------------------------------

/// A device is listed exactly if some group holds it.
pub proof fn law_devices_listed(namespaces: Namespaces, devices: Vec<Device>, device: Device)
    requires
        call_ensures(Namespaces::into_devices, (namespaces,), devices),
    ensures
        devices@.contains(device) <==> exists|g: int, i: int|
            0 <= g < namespaces.namespaces@.len() && 0 <= i
                < namespaces.namespaces@[g].devices@.len() && (
            #[trigger] namespaces.namespaces@[g].devices@[i]).1 == device,
{
    homeassistant::law_all_devices(namespaces.namespaces@, device);
}

/// An entity is found exactly if some group of some device lists it.
pub proof fn law_entity_found(devices: Vec<Device>, entity: &str, found: bool)
    requires
        call_ensures(homeassistant::find_entity, (&devices, entity), found),
    ensures
        found <==> exists|d: int, g: int, e: int|
            0 <= d < devices@.len() && 0 <= g < devices@[d].entities@.len() && 0 <= e
                < devices@[d].entities@[g]@.len() && (#[trigger] devices@[d].entities@[g]@[e])@
                == entity@,
{
    homeassistant::law_has_entity(devices@, entity@);
}

/// A change of the state of the entity is read as its new state, whatever the
/// state was before; nothing is read from any other event.
pub proof fn law_reading(event: Event, entity: &str, reading: Reading)
    requires
        call_ensures(Event::reading, (&event, entity), reading),
    ensures
        event.event_type@ != "state_changed"@ || event.data.new_state.entity_id@ != entity@
            ==> reading is Ignored,
        event.event_type@ == "state_changed"@ && event.data.new_state.entity_id@ == entity@
            ==> match event.data.new_state.state {
            StateValue::Number(t) => reading == Reading::Number(t),
            StateValue::Text(shown) => reading matches Reading::Text(s) && s@ == shown@,
            StateValue::Null => reading is Ignored,
            StateValue::Bool(_) => reading is Ignored,
            StateValue::Array => reading is Ignored,
            StateValue::Object => reading is Ignored,
        },
{
}

/// The thermostat reads the events of its own thermometer.
pub proof fn law_thermometer(thermostat: Thermostat, event: Event, reading: Reading)
    requires
        call_ensures(Thermostat::temperature_changes, (&thermostat, &event), reading),
    ensures
        ({
            let concerned = event.event_type@ == "state_changed"@
                && event.data.new_state.entity_id@ == thermostat.thermometer_entity@;
            match event.data.new_state.state {
                StateValue::Number(t) => if concerned {
                    reading == Reading::Number(t)
                } else {
                    reading is Ignored
                },
                StateValue::Text(shown) => if concerned {
                    reading matches Reading::Text(s) && s@ == shown@
                } else {
                    reading is Ignored
                },
                _ => reading is Ignored,
            }
        }),
{
}

/// Two events that agree in type and new state are read alike.
pub proof fn law_readings_agree(
    a: Event,
    b: Event,
    entity: &str,
    from_a: Reading,
    from_b: Reading,
)
    requires
        call_ensures(Event::reading, (&a, entity), from_a),
        call_ensures(Event::reading, (&b, entity), from_b),
        a.event_type@ == b.event_type@,
        a.data.new_state == b.data.new_state,
    ensures
        match (from_a, from_b) {
            (Reading::Ignored, Reading::Ignored) => true,
            (Reading::Number(x), Reading::Number(y)) => x == y,
            (Reading::Text(x), Reading::Text(y)) => x@ == y@,
            (_, _) => false,
        },
{
}

/// The devices are asked for by the template, with the token, at the address of
/// the requests; an address that is no URL is refused with what the parser says.
pub proof fn law_device_request(api: Api, request: Result<TemplateRequest, String>)
    requires
        call_ensures(Api::get_devices, (&api,), request),
    ensures
        ({
            let parsed = homeassistant::url_parse("http://"@ + api.url@ + "/api/template"@);
            &&& request is Ok <==> parsed is Ok
            &&& request matches Ok(r) ==> r.url@ == parsed->Ok_0
            &&& request matches Ok(r) ==> r.bearer_token@ == api.bearer_token@
            &&& request matches Ok(r) ==> r.body@ == homeassistant::DEVICES_TEMPLATE@
            &&& request matches Err(e) ==> e@ == parsed->Err_0
        }),
{
}

/// The event stream comes from the address for it; one that is no URL is refused
/// with what the parser says.
pub proof fn law_stream_address(api: Api, url: Result<String, String>)
    requires
        call_ensures(Api::state_updates, (&api,), url),
    ensures
        ({
            let parsed = homeassistant::url_parse("ws://"@ + api.url@ + "/api/websocket"@);
            &&& url is Ok <==> parsed is Ok
            &&& url matches Ok(u) ==> u@ == parsed->Ok_0
            &&& url matches Err(e) ==> e@ == parsed->Err_0
        }),
{
}

/// The answer that lists the devices keeps every character but the single
/// quotes, which become double quotes; bytes that are no text are refused.
pub proof fn law_devices_answer(answer: Vec<u8>, json: Result<String, String>)
    requires
        call_ensures(Api::read_devices, (answer,), json),
    ensures
        json is Ok <==> vstd::utf8::valid_utf8(answer@),
        json matches Err(e) ==> e@ == text::utf8_error_text(answer@),
        json matches Ok(j) ==> ({
            let said = vstd::utf8::decode_utf8(answer@);
            &&& j@.len() == said.len()
            &&& forall|i: int|
                0 <= i < said.len() ==> #[trigger] j@[i] == (if said[i] == '\'' {
                    '"'
                } else {
                    said[i]
                })
        }),
{
}

/// In each stage a message is accepted exactly if it is a text that holds, at
/// any place, what is waited for, and is answered as the stage asks.
pub proof fn law_handshake(
    api: Api,
    stage: Stage,
    message: WsMessage,
    outcome: Result<StageDone, String>,
)
    requires
        call_ensures(Api::handshake, (&api, stage, &message), outcome),
    ensures
        message is Other ==> outcome is Err,
        message matches WsMessage::Text(s) ==> {
            &&& stage is AuthRequired ==> (outcome is Ok <==> exists|a: Seq<char>, b: Seq<char>|
                s@ == #[trigger] (a + "auth_required"@ + b))
            &&& stage is AuthOk ==> (outcome is Ok <==> exists|a: Seq<char>, b: Seq<char>|
                s@ == #[trigger] (a + "auth_ok"@ + b))
            &&& stage is Subscribed ==> (outcome is Ok <==> exists|a: Seq<char>, b: Seq<char>|
                s@ == #[trigger] (a + "success\":true"@ + b))
        },
        outcome matches Ok(done) ==> {
            &&& stage is AuthRequired ==> done.next == Some(Stage::AuthOk) && done.send is Some
                && done.send->0@ == "\n{\n  \"type\": \"auth\",\n  \"access_token\": \""@
                + api.bearer_token@ + "\"\n}\n        "@
            &&& stage is AuthOk ==> done.next == Some(Stage::Subscribed) && done.send is Some
                && done.send->0@
                == "\n{\n  \"id\": 18,\n  \"type\": \"subscribe_events\",\n  \"event_type\": \"state_changed\"\n}\n        "@
            &&& stage is Subscribed ==> done.next is None && done.send is None
        },
        outcome matches Err(e) ==> {
            &&& stage is AuthRequired ==> e@ == "Invalid ws handshake"@
            &&& stage is AuthOk && message is Other ==> e@ == "Invalid ws handshake"@
            &&& stage is AuthOk && message is Text ==> e@ == "Invalid ws auth credentials: "@
                + text::debug_form(message->Text_0@)
            &&& stage is Subscribed && message is Text ==> e@ == "Failed to subscribe: "@
                + text::debug_form(message->Text_0@)
            &&& stage is Subscribed && message is Other ==> e@ == "Unexpected ws message type: "@
                + message->Other_0@
        },
{
    match message {
        WsMessage::Text(s) => {
            homeassistant::law_handshake_marks(s, s);
        },
        WsMessage::Other(_) => {},
    }
}

/// The event of a message that could be read is handed on, and no other.
pub proof fn law_stream_event(message: Result<HaMessage, String>, event: Option<Event>)
    requires
        call_ensures(Api::stream_event, (message,), event),
    ensures
        event is Some <==> message is Ok,
        message matches Ok(m) ==> event == Some(m.event),
{
}

/// An address keeps what stands behind its scheme.
pub proof fn law_bare(address: &str, rest: Seq<char>, bare: String)
    requires
        call_ensures(homeassistant::bare, (address,), bare),
    ensures
        address@ == "http://"@ + rest || address@ == "ws://"@ + rest ==> bare@ == rest,
        ({
            &&& forall|r: Seq<char>| address@ != #[trigger] ("http://"@ + r)
            &&& forall|r: Seq<char>| address@ != #[trigger] ("ws://"@ + r)
        }) ==> bare@ == address@,
{
    homeassistant::law_without_scheme(rest);
    homeassistant::law_without_scheme(address@);
}

// ---------------------------------------------------------------------------
// The thermostat and its options
// ---------------------------------------------------------------------------

/// Requests go to the address given, or else to the supervisor; the event stream
/// comes from the address given for it, or else from where requests go.
pub proof fn law_option_addresses(options: Options, addresses: Addresses)
    requires
        call_ensures(Options::addresses, (&options,), addresses),
    ensures
        options.ha_api_address matches Some(a) ==> addresses.api@ == a@,
        options.ha_api_address is None ==> addresses.api@ == "http://supervisor/core"@,
        options.ha_ws_address matches Some(w) ==> addresses.ws@ == w@,
        options.ha_ws_address is None ==> addresses.ws@ == addresses.api@,
{
}

/// A token that was given is used, whatever the supervisor offers; else the
/// supervisor's is, and without either there is none.
pub proof fn law_option_token(options: Options, supervisor: Option<String>, token: Option<String>)
    requires
        call_ensures(Options::token, (&options, supervisor), token),
    ensures
        options.ha_api_token matches Some(own) ==> token is Some && token->0@ == own@,
        options.ha_api_token is None ==> (token is Some <==> supervisor is Some),
        options.ha_api_token is None && supervisor is Some ==> token->0@ == supervisor->0@,
{
}

/// The band and the tap water are those of the options, and all else is as by
/// default.
pub proof fn law_option_preferences(
    options: Options,
    prefs: TemperaturePreferences,
)
    requires
        call_ensures(Options::preferences, (&options,), prefs),
    ensures
        prefs.temperature_band == options.temperature_band,
        prefs.tap_water_set_point.whole_degrees_spec() == options.tap_water_temp,
        prefs.lower_bound.steps() == 19 * power2::pow2(149) && !prefs.lower_bound.is_nan(),
        prefs.higher_bound.steps() == 23 * power2::pow2(149) && !prefs.higher_bound.is_nan(),
        prefs.set_point.steps() == 22 * power2::pow2(149) && !prefs.set_point.is_nan(),
        prefs.maintain_state_for == 60_000_000_000,
{
    temperature::law_degrees_round_trip(options.tap_water_temp, prefs.tap_water_set_point);
}

/// There is a thermostat exactly for a thermometer that some device lists; it
/// keeps what it was given and begins with the defaults. A missing thermometer
/// is named.
pub proof fn law_new_thermostat(
    devices: Vec<Device>,
    entity: String,
    host: String,
    username: String,
    password: String,
    thermostat: Result<Thermostat, ThermostatError>,
)
    requires
        call_ensures(Thermostat::new, (&devices, entity, host, username, password), thermostat),
    ensures
        thermostat is Ok <==> exists|d: int, g: int, e: int|
            0 <= d < devices@.len() && 0 <= g < devices@[d].entities@.len() && 0 <= e
                < devices@[d].entities@[g]@.len() && (#[trigger] devices@[d].entities@[g]@[e])@
                == entity@,
        thermostat matches Ok(t) ==> {
            &&& t.thermometer_entity@ == entity@
            &&& t.mqtt_host@ == host@
            &&& t.mqtt_username@ == username@
            &&& t.mqtt_password@ == password@
            &&& t.control.fresh()
        },
        thermostat matches Err(e) ==> e matches ThermostatError::Other(reason) && reason@
            == "Thermometer entity "@ + entity@ + " not found"@,
{
    homeassistant::law_has_entity(devices@, entity@);
}

/// The broker is reached at its standard port with the credentials given, and
/// every topic of the thermostat is subscribed to.
pub proof fn law_broker(thermostat: Thermostat, parameters: MqttParameters)
    requires
        call_ensures(Thermostat::mqtt_reconnect, (&thermostat,), parameters),
    ensures
        parameters.client_id@ == "ebus-thermostat"@,
        parameters.host@ == thermostat.mqtt_host@,
        parameters.port == 1883,
        parameters.keep_alive == 30_000_000_000,
        parameters.username@ == thermostat.mqtt_username@,
        parameters.password@ == thermostat.mqtt_password@,
        parameters.capacity == 10,
        parameters.subscription@ == "ebus-thermostat/#"@,
        parameters.subscription_qos == Qos::AtLeastOnce,
{
}

/// What is announced are the mode, both bounds and the set point in force.
pub proof fn law_announcement(thermostat: Thermostat, messages: Vec<Message>)
    requires
        call_ensures(Thermostat::publish_settings, (&thermostat,), messages),
    ensures
        messages@.len() == 4,
        messages@[0].topic@ == "mode"@,
        messages@[0].payload matches Payload::Text(s) && s@
            == thermostat.control.settings.hc_mode.name(),
        messages@[1].topic@ == "temp/low"@,
        messages@[1].payload == Payload::Temperature(thermostat.control.prefs.lower_bound),
        messages@[2].topic@ == "temp/high"@,
        messages@[2].payload == Payload::Temperature(thermostat.control.prefs.higher_bound),
        messages@[3].topic@ == "temp"@,
        messages@[3].payload == Payload::Temperature(thermostat.control.prefs.set_point),
{
    let views = control::message_views(messages@);
    let prefs = thermostat.control.prefs;
    transitions::law_status(thermostat.control.settings.hc_mode, prefs);
    assert(views.len() == 4);
    assert(views[0] == messages@[0]@);
    assert(views[1] == messages@[1]@);
    assert(views[2] == messages@[2]@);
    assert(views[3] == messages@[3]@);
}

/// Which topics set something, and what.
pub proof fn law_topic_command(topic: &str, command: TopicCommand)
    requires
        call_ensures(thermostat::topic_command, (topic,), command),
    ensures
        ({
            let parts = text::split_on(topic@, '/');
            let temp = parts.len() >= 3 && parts[1] == "temp"@;
            let mode = parts.len() >= 3 && parts[1] == "mode"@;
            let fourth = parts.len() >= 4 && parts[3] == "set"@;
            &&& command == TopicCommand::SetTemperature(Target::SetPoint) <==> temp && parts[2]
                == "set"@
            &&& command == TopicCommand::SetTemperature(Target::HigherBound) <==> temp && parts[2]
                == "high"@ && fourth
            &&& command == TopicCommand::SetTemperature(Target::LowerBound) <==> temp && parts[2]
                == "low"@ && fourth
            &&& command == TopicCommand::SetMode <==> mode && parts[2] == "set"@
        }),
{
    transitions::law_topics(text::split_on(topic@, '/'));
}

/// An error tells of a lost connection exactly if it speaks of a broken pipe or
/// of a connection.
pub proof fn law_lost_connection(lower: &str, lost: bool)
    requires
        call_ensures(thermostat::lost_connection, (lower,), lost),
    ensures
        lost <==> {
            ||| exists|a: Seq<char>, b: Seq<char>|
                lower@ == #[trigger] (a + "broken pipe"@ + b)
            ||| exists|a: Seq<char>, b: Seq<char>|
                lower@ == #[trigger] (a + "connection"@ + b)
        },
{
    text::law_occurs("broken pipe"@, lower@);
    text::law_occurs("connection"@, lower@);
}

/// What is left of five minutes since the heater was last asked.
pub proof fn law_time_to_repeat(last: Option<u64>, now: u64, delay: u64)
    requires
        call_ensures(thermostat::time_to_repeat, (last, now), delay),
    ensures
        delay <= 300_000_000_000,
        last is None ==> delay == 300_000_000_000,
        last matches Some(l) ==> {
            &&& now <= l ==> delay == 300_000_000_000
            &&& l <= now <= l + 300_000_000_000 ==> now + delay == l + 300_000_000_000
            &&& now >= l + 300_000_000_000 ==> delay == 0
        },
{
}

/// A start is accepted when no run is on and the queue waits, and a wait is
/// ended by any event of the broker, the thermometer, the queue and the clocks,
/// but for a message whose topic has one part only.
pub proof fn law_accepted(thermostat: Thermostat, event: RunEvent, accepted: bool)
    requires
        call_ensures(Thermostat::accepts, (&thermostat, &event), accepted),
    ensures
        accepted == thermostat.control.accepts_spec(event),
        event is Start ==> (accepted <==> thermostat.control.phase is Idle
            && thermostat.control.outbox_parked),
        (event is MqttError || event is Temperature || event is Outbox || event is KeepAliveDue
            || event is HoldElapsed) ==> (accepted <==> thermostat.control.phase is Waiting),
{
    transitions::law_accepts(thermostat.control, event);
}

/// Entering a device changes what is found under its identifier, and nothing
/// else.
pub proof fn law_insert(devices: &mut Devices, id: String, device: Device, other: Seq<char>)
    requires
        call_ensures(Devices::insert, (devices, id, device), ()),
    ensures
        final(devices).by_id().dom().contains(id@),
        final(devices).by_id()[id@] == device,
        other != id@ ==> {
            &&& final(devices).by_id().dom().contains(other) <==> old(
                devices,
            ).by_id().dom().contains(other)
            &&& old(devices).by_id().dom().contains(other) ==> final(devices).by_id()[other]
                == old(devices).by_id()[other]
        },
        final(devices).wf(),
{
}

/// Preferences that are set replace those in force, and nothing else.
pub proof fn law_preferences_set(thermostat: &mut Thermostat, prefs: TemperaturePreferences)
    requires
        call_ensures(Thermostat::set_temp_preference, (thermostat, prefs), ()),
    ensures
        final(thermostat).control.prefs == prefs,
        final(thermostat).control == (Control { prefs, ..old(thermostat).control }),
        final(thermostat).thermometer_entity == old(thermostat).thermometer_entity,
        final(thermostat).mqtt_host == old(thermostat).mqtt_host,
        final(thermostat).mqtt_username == old(thermostat).mqtt_username,
        final(thermostat).mqtt_password == old(thermostat).mqtt_password,
{
}

/// Settings that begin to be applied are sent, and count as applied only later.
pub proof fn law_application(
    thermostat: &mut Thermostat,
    settings: HeaterSettings,
    purpose: Purpose,
    action: Action,
    command: String,
)
    requires
        call_ensures(Thermostat::apply_settings, (thermostat, settings, purpose), action),
        call_ensures(Ebusd::set_mode, (settings,), command),
    ensures
        action matches Action::Send(sent) && sent@ == command@,
        final(thermostat).control == (Control {
            phase: Phase::Sending(purpose, settings),
            ..old(thermostat).control
        }),
{
}

/// A message whose topic sets nothing asks for nothing; one that sets a
/// temperature hands its text on; one that sets the mode by its name changes the
/// mode alone. A text that is no mode, bytes that are no text, and the end of the
/// connection are errors that change nothing.
pub proof fn law_message_handled(
    thermostat: &mut Thermostat,
    event: MqttEvent,
    outcome: Result<MqttOutcome, String>,
)
    requires
        call_ensures(Thermostat::handle_mqtt_message, (thermostat, event), outcome),
    ensures
        event is Incoming || event is Outgoing ==> outcome == Ok::<MqttOutcome, String>(
            MqttOutcome::Nothing,
        ) && final(thermostat).control == old(thermostat).control,
        event is Disconnect ==> outcome is Err && outcome->Err_0@ == "MQTT disconnect"@,
        outcome is Err ==> final(thermostat).control == old(thermostat).control,
        event matches MqttEvent::Publish { topic, payload } ==> {
            let parts = text::split_on(topic@, '/');
            let value = vstd::utf8::decode_utf8(payload@);
            let valid = vstd::utf8::valid_utf8(payload@);
            let set_point = parts.len() >= 3 && parts[1] == "temp"@ && parts[2] == "set"@;
            let higher = parts.len() >= 4 && parts[1] == "temp"@ && parts[2] == "high"@ && parts[3]
                == "set"@;
            let lower = parts.len() >= 4 && parts[1] == "temp"@ && parts[2] == "low"@ && parts[3]
                == "set"@;
            let mode = parts.len() >= 3 && parts[1] == "mode"@ && parts[2] == "set"@;
            &&& !set_point && !higher && !lower && !mode ==> outcome == Ok::<
                MqttOutcome,
                String,
            >(MqttOutcome::Nothing) && final(thermostat).control == old(thermostat).control
            &&& (set_point || higher || lower || mode) && !valid ==> outcome is Err
                && outcome->Err_0@ == text::utf8_error_text(payload@)
            &&& (set_point || higher || lower) && valid ==> {
                &&& outcome matches Ok(MqttOutcome::ReadTemperature(target, s))
                &&& s@ == value
                &&& set_point ==> target is SetPoint
                &&& higher ==> target is HigherBound
                &&& lower ==> target is LowerBound
                &&& final(thermostat).control == old(thermostat).control
            }
            &&& mode && valid && value != "auto"@ && value != "heat"@ && value != "off"@
                ==> outcome is Err && outcome->Err_0@ == "Invalid heater mode"@
            &&& mode && valid ==> forall|m: HeaterMode|
                value == #[trigger] m.name() ==> {
                    &&& outcome == Ok::<MqttOutcome, String>(MqttOutcome::Apply)
                    &&& final(thermostat).control == (Control {
                        settings: HeaterSettings {
                            hc_mode: m,
                            ..old(thermostat).control.settings
                        },
                        ..old(thermostat).control
                    })
                }
        },
{
    let verdict = control::mqtt_verdict(event);
    thermostat::law_verdict_followed(
        outcome,
        verdict,
        old(thermostat).control,
        final(thermostat).control,
    );
    if let MqttEvent::Publish { topic, payload } = event {
        let value = vstd::utf8::decode_utf8(payload@);
        transitions::law_topics(text::split_on(topic@, '/'));
        heater::law_mode_texts(value);
        reveal_strlit("temp");
        reveal_strlit("mode");
        assert("temp"@[0] != "mode"@[0]);
        assert forall|m: HeaterMode| value == #[trigger] m.name() implies heater::mode_named(value)
            == Some(m) by {
            heater::law_mode_round_trip(m);
        }
    }
}

/// A step of the run leaves the connections alone and moves the state on; what
/// it asks for and publishes is fixed by the state, the event and the time.
pub proof fn law_run_is_determined(
    a: &mut Thermostat,
    b: &mut Thermostat,
    event: RunEvent,
    now: u64,
    from_a: Step,
    from_b: Step,
)
    requires
        call_ensures(Thermostat::run, (a, event, now), from_a),
        call_ensures(Thermostat::run, (b, event, now), from_b),
        old(a).control == old(b).control,
    ensures
        final(a).control == final(b).control,
        from_a@ == from_b@,
        final(a).thermometer_entity == old(a).thermometer_entity,
        final(a).mqtt_host == old(a).mqtt_host,
        final(a).mqtt_username == old(a).mqtt_username,
        final(a).mqtt_password == old(a).mqtt_password,
{
}

/// A message that sets a temperature has a waiting thermostat read its text, with
/// the band of the preferences in force.
pub proof fn law_run_reads_temperature(
    thermostat: &mut Thermostat,
    topic: String,
    payload: Vec<u8>,
    now: u64,
    step: Step,
)
    requires
        call_ensures(
            Thermostat::run,
            (thermostat, RunEvent::Mqtt(MqttEvent::Publish { topic, payload }), now),
            step,
        ),
        old(thermostat).control.phase is Waiting,
        vstd::utf8::valid_utf8(payload@),
        text::split_on(topic@, '/').len() >= 3,
        text::split_on(topic@, '/')[1] == "temp"@,
        text::split_on(topic@, '/')[2] == "set"@,
    ensures
        step.publish is None,
        step.action matches Action::ReadTemperature { text, band } && {
            &&& text@ == vstd::utf8::decode_utf8(payload@)
            &&& band == old(thermostat).control.prefs.temperature_band
        },
        final(thermostat).control == (Control {
            phase: Phase::Reading(Target::SetPoint),
            ..old(thermostat).control
        }),
{
    let before = old(thermostat).control;
    transitions::law_temperature_message(before, topic, payload, now);
    let event = RunEvent::Mqtt(MqttEvent::Publish { topic, payload });
    assert(before.published(event) is None);
    assert(step@.publish is None);
}

/// A new temperature at the lower bound or below has a waiting thermostat whose
/// heater is inactive, and which keeps no change, send the command for a flow of
/// 60 degrees.
pub proof fn law_run_heats(
    thermostat: &mut Thermostat,
    t: Temperature,
    now: u64,
    step: Step,
    command: String,
)
    requires
        call_ensures(Thermostat::run, (thermostat, RunEvent::Temperature(Some(t)), now), step),
        call_ensures(
            Ebusd::set_mode,
            (HeaterSettings { flow_temp_desired: 60, ..old(thermostat).control.settings },),
            command,
        ),
        old(thermostat).control.phase is Waiting,
        !old(thermostat).control.hold,
        old(thermostat).control.settings.flow_temp_desired == 0,
        !t.is_nan(),
        !old(thermostat).control.prefs.lower_bound.is_nan(),
        t.steps() <= old(thermostat).control.prefs.lower_bound.steps(),
        old(thermostat).control.current_temperature.is_nan() || t.steps() != old(
            thermostat,
        ).control.current_temperature.steps(),
    ensures
        step.action matches Action::Send(sent) && sent@ == command@,
        step.publish matches Some(p) && {
            &&& p.message.topic@ == "ebus-thermostat/temp/current"@
            &&& p.message.payload == Payload::Temperature(t)
            &&& p.qos == Qos::AtLeastOnce
            &&& p.retain
        },
{
    let before = old(thermostat).control;
    transitions::law_cold_room(before, t, now);
    transitions::law_published(before, RunEvent::Temperature(Some(t)));
    assert(step@.action == step.action@);
    assert(step@.publish is Some);
}

} // verus!
