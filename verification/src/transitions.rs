//! What each event leads to, in terms of what was known before it.
use crate::control::{
    Action, ActionView, Control, ErrorView, Message, MessageView, MqttEvent, MqttVerdict, Payload,
    PayloadView, Phase, Publication, PublicationView, Purpose, Qos, ReadNumber, RunEvent,
    SendFailure, Step, Target, ThermostatError, TopicCommand,
};
use crate::control;
use crate::ebusd;
use crate::heater::{self, HeaterMode, HeaterSettings, TemperaturePreferences};
use crate::temperature::Temperature;
use crate::text;
use vstd::prelude::*;

verus! {

// ---------------------------------------------------------------------------
// Waiting, numbers and views
// ---------------------------------------------------------------------------

/// The settings are repeated after five minutes, a pause lasts ten, more than
/// five failures in a row make one, and an active heater has a flow of 60
/// degrees.
pub proof fn law_numbers()
    ensures
        control::KEEP_ALIVE == 300_000_000_000,
        control::COOL_DOWN == 600_000_000_000,
        control::NO_HOLD == 999_999_999_000_000_000,
        control::MAX_FAILS == 5,
        heater::ACTIVE_FLOW_TEMP == 60,
        heater::SECOND == 1_000_000_000,
        control::TOPIC_PREFIX@ == "ebus-thermostat/"@,
        control::CURRENT_TOPIC@ == "ebus-thermostat/temp/current"@,
{
}

/// The time until the settings are repeated: five minutes where the heater was
/// never asked, or is yet to be; else what is left of five minutes since then.
pub proof fn law_repeat_delay(last: u64, now: u64)
    ensures
        control::repeat_delay(None, now) == 300_000_000_000,
        now <= last ==> control::repeat_delay(Some(last), now) == 300_000_000_000,
        last <= now <= last + 300_000_000_000 ==> now + control::repeat_delay(Some(last), now)
            == last + 300_000_000_000,
        now >= last + 300_000_000_000 ==> control::repeat_delay(Some(last), now) == 0,
{
}

/// The thermostat waits, in its new state, for the repetition and for the end of
/// the hold.
pub open spec fn waits(after: Control, action: ActionView, now: u64) -> bool {
    &&& after.phase is Waiting
    &&& action matches ActionView::Wait { repeat_in, hold_until }
    &&& repeat_in == control::repeat_delay(after.last_mode_set_time, now)
    &&& hold_until == after.hold_deadline
}

/// The run ends for the reason given.
pub open spec fn ends(after: Control, action: ActionView, reason: Seq<char>) -> bool {
    after.phase is Idle && action == ActionView::Finish(ErrorView::Other(reason))
}

/// To wait is to wait for both timers; to end is to give the reason.
pub proof fn law_waits_and_ends(after: Control, action: ActionView, now: u64, reason: Seq<char>)
    ensures
        waits(after, action, now) <==> {
            &&& after.phase is Waiting
            &&& action == (ActionView::Wait {
                repeat_in: control::repeat_delay(after.last_mode_set_time, now),
                hold_until: after.hold_deadline,
            })
        },
        ends(after, action, reason) <==> after.phase is Idle && action == ActionView::Finish(
            ErrorView::Other(reason),
        ),
{
}

/// A step, its action and its publication are what their parts are.
pub proof fn law_views(step: Step, action: Action, message: Message, publication: Publication)
    ensures
        step@.action == step.action@,
        step.publish is None ==> step@.publish is None,
        step.publish matches Some(p) ==> step@.publish == Some(p@),
        publication@.message == publication.message@,
        publication@.qos == publication.qos,
        publication@.retain == publication.retain,
        message@.topic == message.topic@,
        message.payload matches Payload::Text(s) ==> message@.payload == PayloadView::Text(s@),
        message.payload matches Payload::Temperature(t) ==> message@.payload
            == PayloadView::Temperature(t),
        match action {
            Action::Wait { repeat_in, hold_until } => action@ == (ActionView::Wait {
                repeat_in,
                hold_until,
            }),
            Action::ReadTemperature { text, band } => action@ == (ActionView::ReadTemperature {
                text: text@,
                band,
            }),
            Action::Send(command) => action@ == ActionView::Send(command@),
            Action::Reconnect => action@ is Reconnect,
            Action::Define(command) => action@ == ActionView::Define(command@),
            Action::CoolDown(pause) => action@ == ActionView::CoolDown(pause),
            Action::Queue(messages) => {
                &&& action@ is Queue
                &&& action@->Queue_0.len() == messages@.len()
                &&& forall|i: int|
                    0 <= i < messages@.len() ==> #[trigger] action@->Queue_0[i] == messages@[i]@
            },
            Action::Finish(ThermostatError::Restart) => action@ == ActionView::Finish(
                ErrorView::Restart,
            ),
            Action::Finish(ThermostatError::Other(reason)) => action@ == ActionView::Finish(
                ErrorView::Other(reason@),
            ),
        },
{
}

/// A new thermostat has the default preferences and settings, has measured
/// nothing, asked for nothing and failed at nothing, and can start.
pub proof fn law_fresh_state(c: Control)
    requires
        c.fresh(),
    ensures
        heater::default_preferences(c.prefs),
        c.settings == heater::default_settings(),
        c.current_temperature.steps() == 0 && !c.current_temperature.is_nan(),
        c.last_mode_set_time is None,
        c.set_fails == 0,
        c.phase is Idle,
        !c.hold && !c.update_pending && c.hold_deadline == 0,
        c.outbox_parked,
{
    assert(0 * crate::temperature::degree() == 0) by (nonlinear_arith);
}

/// Only a flow of 60 degrees or none is ever in force.
pub proof fn law_two_flows(c: Control)
    requires
        c.wf(),
    ensures
        c.settings.flow_temp_desired == 0 || c.settings.flow_temp_desired == 60,
        c.phase matches Phase::Sending(_, s) ==> s.flow_temp_desired == 0 || s.flow_temp_desired
            == 60,
{
}

/// Which events can come: a start when no run is on and the queue waits; each
/// answer when it is awaited, a failed command only while it can be counted; and
/// all else while the thermostat waits, a message only on a topic of two parts
/// or more.
pub proof fn law_accepts(c: Control, event: RunEvent)
    ensures
        event is Start ==> (c.accepts_spec(event) <==> c.phase is Idle && c.outbox_parked),
        event is TemperatureRead ==> (c.accepts_spec(event) <==> c.phase is Reading),
        event matches RunEvent::Sent(Ok(_)) ==> (c.accepts_spec(event) <==> c.phase is Sending),
        event matches RunEvent::Sent(Err(_)) ==> (c.accepts_spec(event) <==> c.phase is Sending
            && c.set_fails < 255),
        event is Reconnected ==> (c.accepts_spec(event) <==> c.phase is Reconnecting),
        event is Defined ==> (c.accepts_spec(event) <==> c.phase is Defining),
        event is CooledDown ==> (c.accepts_spec(event) <==> c.phase is CoolingDown),
        event is Queued ==> (c.accepts_spec(event) <==> c.phase is Queueing),
        event matches RunEvent::Mqtt(MqttEvent::Publish { topic, payload }) ==> (c.accepts_spec(
            event,
        ) <==> c.phase is Waiting && topic@.contains('/')),
        event matches RunEvent::Mqtt(e) ==> (e !is Publish ==> (c.accepts_spec(event)
            <==> c.phase is Waiting)),
        (event is MqttError || event is Temperature || event is Outbox || event is KeepAliveDue
            || event is HoldElapsed) ==> (c.accepts_spec(event) <==> c.phase is Waiting),
{
}

// ---------------------------------------------------------------------------
// Publications
// ---------------------------------------------------------------------------

/// Each measured temperature is published on its topic, and each queued message
/// under the name of the thermostat, with its own topic and text; both at least
/// once and retained. Nothing else is published.
pub proof fn law_published(c: Control, event: RunEvent)
    ensures
        event matches RunEvent::Temperature(Some(t)) ==> c.published(event) == Some(
            PublicationView {
                message: MessageView {
                    topic: "ebus-thermostat/temp/current"@,
                    payload: PayloadView::Temperature(t),
                },
                qos: Qos::AtLeastOnce,
                retain: true,
            },
        ),
        event matches RunEvent::Outbox(Some(m)) ==> c.published(event) == Some(
            PublicationView {
                message: MessageView {
                    topic: "ebus-thermostat/"@ + m.0@,
                    payload: PayloadView::Text(m.1@),
                },
                qos: Qos::AtLeastOnce,
                retain: true,
            },
        ),
        !(event matches RunEvent::Temperature(Some(_))) && !(event matches RunEvent::Outbox(
            Some(_),
        )) ==> c.published(event) is None,
{
}

/// The state is announced in four messages: the name of the mode, the lower
/// bound, the higher bound, and the set point.
pub proof fn law_status(mode: HeaterMode, prefs: TemperaturePreferences)
    ensures
        ({
            let messages = control::status_messages(mode, prefs);
            &&& messages.len() == 4
            &&& messages[0].topic == "mode"@
            &&& messages[0].payload == PayloadView::Text(mode.name())
            &&& messages[1].topic == "temp/low"@
            &&& messages[1].payload == PayloadView::Temperature(prefs.lower_bound)
            &&& messages[2].topic == "temp/high"@
            &&& messages[2].payload == PayloadView::Temperature(prefs.higher_bound)
            &&& messages[3].topic == "temp"@
            &&& messages[3].payload == PayloadView::Temperature(prefs.set_point)
        }),
{
}

// ---------------------------------------------------------------------------
// The beginning of a run, temperatures and timers
// ---------------------------------------------------------------------------

/// At the beginning of a run nothing is on hold, the first hold time begins, the
/// tap water is set to the whole degrees of its set point, and the settings are
/// sent; all else is as it was.
pub proof fn law_start(c: Control, now: u64)
    requires
        c.phase is Idle,
    ensures
        ({
            let (after, action) = c.moved(RunEvent::Start, now);
            let settings = HeaterSettings {
                hwc_temp_desired: c.prefs.tap_water_set_point.whole_degrees_spec(),
                ..c.settings
            };
            &&& after.settings == settings
            &&& after.phase == Phase::Sending(Purpose::Start, settings)
            &&& action == ActionView::Send(ebusd::set_mode_command(settings))
            &&& !after.hold && !after.update_pending && !after.outbox_parked
            &&& after.hold_deadline == now + c.prefs.maintain_state_for
            &&& after.prefs == c.prefs
            &&& after.current_temperature == c.current_temperature
            &&& after.last_mode_set_time == c.last_mode_set_time
            &&& after.set_fails == c.set_fails
        }),
{
}

/// A room at the lower bound or below has an inactive heater start, in any mode:
/// unless a change is on hold, it is asked at once for a flow of 60 degrees.
pub proof fn law_cold_room(c: Control, t: Temperature, now: u64)
    requires
        c.phase is Waiting,
        c.settings.flow_temp_desired == 0,
        !t.is_nan(),
        !c.prefs.lower_bound.is_nan(),
        t.steps() <= c.prefs.lower_bound.steps(),
        c.current_temperature.is_nan() || t.steps() != c.current_temperature.steps(),
    ensures
        ({
            let (after, action) = c.moved(RunEvent::Temperature(Some(t)), now);
            let change = HeaterSettings { flow_temp_desired: 60, ..c.settings };
            &&& !c.hold ==> {
                &&& action == ActionView::Send(ebusd::set_mode_command(change))
                &&& after == (Control {
                    current_temperature: t,
                    phase: Phase::Sending(Purpose::TemperatureChange, change),
                    ..c
                })
            }
            &&& c.hold ==> {
                &&& waits(after, action, now)
                &&& after == (Control { current_temperature: t, update_pending: true, ..c })
            }
        }),
{
}

/// A room at the higher bound or above has an active heater stop, in any mode:
/// unless a change is on hold, it is asked at once for no flow.
pub proof fn law_warm_room(c: Control, t: Temperature, now: u64)
    requires
        c.phase is Waiting,
        c.settings.flow_temp_desired != 0,
        !t.is_nan(),
        !c.prefs.higher_bound.is_nan(),
        t.steps() >= c.prefs.higher_bound.steps(),
        c.current_temperature.is_nan() || t.steps() != c.current_temperature.steps(),
    ensures
        ({
            let (after, action) = c.moved(RunEvent::Temperature(Some(t)), now);
            let change = HeaterSettings { flow_temp_desired: 0, ..c.settings };
            &&& !c.hold ==> {
                &&& action == ActionView::Send(ebusd::set_mode_command(change))
                &&& after == (Control {
                    current_temperature: t,
                    phase: Phase::Sending(Purpose::TemperatureChange, change),
                    ..c
                })
            }
            &&& c.hold ==> {
                &&& waits(after, action, now)
                &&& after == (Control { current_temperature: t, update_pending: true, ..c })
            }
        }),
{
}

/// Any other temperature is noted, and nothing else; one that equals the last is
/// not even that, and neither is the end of the measurements.
pub proof fn law_quiet_room(c: Control, t: Temperature, now: u64)
    requires
        c.phase is Waiting,
    ensures
        ({
            let (after, action) = c.moved(RunEvent::Temperature(Some(t)), now);
            let same = !t.is_nan() && !c.current_temperature.is_nan() && t.steps()
                == c.current_temperature.steps();
            let cold = !t.is_nan() && !c.prefs.lower_bound.is_nan() && t.steps()
                <= c.prefs.lower_bound.steps();
            let warm = !t.is_nan() && !c.prefs.higher_bound.is_nan() && t.steps()
                >= c.prefs.higher_bound.steps();
            &&& same ==> after == c && waits(after, action, now)
            &&& !same && c.settings.flow_temp_desired == 0 && !cold ==> {
                &&& after == (Control { current_temperature: t, ..c })
                &&& waits(after, action, now)
            }
            &&& !same && c.settings.flow_temp_desired != 0 && !warm ==> {
                &&& after == (Control { current_temperature: t, ..c })
                &&& waits(after, action, now)
            }
        }),
        c.moved(RunEvent::Temperature(None), now).0 == c,
        waits(c, c.moved(RunEvent::Temperature(None), now).1, now),
{
}

/// A message of the queue changes nothing; it is only published.
pub proof fn law_outbox(c: Control, message: Option<(String, String)>, now: u64)
    requires
        c.phase is Waiting,
    ensures
        c.moved(RunEvent::Outbox(message), now).0 == c,
        waits(c, c.moved(RunEvent::Outbox(message), now).1, now),
{
}

/// At the end of a hold during which a bound was crossed the settings in force
/// are sent; else the end of the next hold is put far away. Nothing is on hold
/// any more.
pub proof fn law_hold_over(c: Control, now: u64)
    requires
        c.phase is Waiting,
    ensures
        ({
            let (after, action) = c.moved(RunEvent::HoldElapsed, now);
            &&& c.update_pending ==> {
                &&& action == ActionView::Send(ebusd::set_mode_command(c.settings))
                &&& after == (Control {
                    hold: false,
                    phase: Phase::Sending(Purpose::HoldElapsed, c.settings),
                    ..c
                })
            }
            &&& !c.update_pending ==> {
                &&& waits(after, action, now)
                &&& after.hold_deadline == now + 999_999_999_000_000_000
                &&& after == (Control { hold: false, hold_deadline: after.hold_deadline, ..c })
            }
        }),
{
}

// ---------------------------------------------------------------------------
// Messages
// ---------------------------------------------------------------------------

/// What a message is about: the second part of its topic says whether it is a
/// temperature or the mode, the third that it is to be set, or, of a
/// temperature, which bound is, if the fourth says that it is to be set. All
/// else is ignored, and further parts and the first play no role.
pub proof fn law_topics(parts: Seq<Seq<char>>)
    ensures
        control::command_of(parts) == TopicCommand::SetTemperature(Target::SetPoint) <==> {
            &&& parts.len() >= 3
            &&& parts[1] == "temp"@
            &&& parts[2] == "set"@
        },
        control::command_of(parts) == TopicCommand::SetTemperature(Target::HigherBound) <==> {
            &&& parts.len() >= 4
            &&& parts[1] == "temp"@
            &&& parts[2] == "high"@
            &&& parts[3] == "set"@
        },
        control::command_of(parts) == TopicCommand::SetTemperature(Target::LowerBound) <==> {
            &&& parts.len() >= 4
            &&& parts[1] == "temp"@
            &&& parts[2] == "low"@
            &&& parts[3] == "set"@
        },
        control::command_of(parts) == TopicCommand::SetMode <==> {
            &&& parts.len() >= 3
            &&& parts[1] == "mode"@
            &&& parts[2] == "set"@
        },
{
    reveal_strlit("temp");
    reveal_strlit("mode");
    reveal_strlit("set");
    reveal_strlit("high");
    reveal_strlit("low");
    assert("temp"@[0] != "mode"@[0]);
    assert("set"@[0] != "high"@[0]);
    assert("set"@[0] != "low"@[0]);
    assert("high"@[0] != "low"@[0]);
}

/// A message that sets a temperature has its text read, exactly as it stands and
/// with the band of the preferences in force, for the target that its topic
/// names; nothing else changes.
pub proof fn law_temperature_message(c: Control, topic: String, payload: Vec<u8>, now: u64)
    requires
        c.phase is Waiting,
        vstd::utf8::valid_utf8(payload@),
    ensures
        ({
            let parts = text::split_on(topic@, '/');
            let event = RunEvent::Mqtt(MqttEvent::Publish { topic, payload });
            let (after, action) = c.moved(event, now);
            let reads = action == (ActionView::ReadTemperature {
                text: vstd::utf8::decode_utf8(payload@),
                band: c.prefs.temperature_band,
            });
            &&& parts.len() >= 3 && parts[1] == "temp"@ && parts[2] == "set"@ ==> reads && after
                == (Control { phase: Phase::Reading(Target::SetPoint), ..c })
            &&& parts.len() >= 4 && parts[1] == "temp"@ && parts[2] == "high"@ && parts[3]
                == "set"@ ==> reads && after == (Control {
                phase: Phase::Reading(Target::HigherBound),
                ..c
            })
            &&& parts.len() >= 4 && parts[1] == "temp"@ && parts[2] == "low"@ && parts[3] == "set"@
                ==> reads && after == (Control { phase: Phase::Reading(Target::LowerBound), ..c })
        }),
{
    law_topics(text::split_on(topic@, '/'));
}

/// A message that sets the mode by its name changes the mode alone, and has the
/// settings with it sent at once; one with any other text ends the run.
pub proof fn law_mode_set(c: Control, topic: String, payload: Vec<u8>, now: u64)
    requires
        c.phase is Waiting,
        vstd::utf8::valid_utf8(payload@),
        text::split_on(topic@, '/').len() >= 3,
        text::split_on(topic@, '/')[1] == "mode"@,
        text::split_on(topic@, '/')[2] == "set"@,
    ensures
        ({
            let value = vstd::utf8::decode_utf8(payload@);
            let event = RunEvent::Mqtt(MqttEvent::Publish { topic, payload });
            let (after, action) = c.moved(event, now);
            &&& forall|mode: HeaterMode|
                value == #[trigger] mode.name() ==> {
                    let settings = HeaterSettings { hc_mode: mode, ..c.settings };
                    &&& action == ActionView::Send(ebusd::set_mode_command(settings))
                    &&& after == (Control {
                        settings,
                        phase: Phase::Sending(Purpose::ModeChange, settings),
                        ..c
                    })
                }
            &&& value != "auto"@ && value != "heat"@ && value != "off"@ ==> {
                &&& ends(after, action, "Invalid heater mode"@)
                &&& after == (Control { phase: Phase::Idle, ..c })
            }
        }),
{
    law_topics(text::split_on(topic@, '/'));
    let value = vstd::utf8::decode_utf8(payload@);
    heater::law_mode_texts(value);
    let event = MqttEvent::Publish { topic, payload };
    assert(control::publish_verdict(topic@, payload@) == control::command_verdict(
        TopicCommand::SetMode,
        value,
    ));
    assert forall|mode: HeaterMode| value == #[trigger] mode.name() implies
        control::mqtt_verdict(event) == MqttVerdict::SetMode(mode) by {
        heater::law_mode_round_trip(mode);
    }
}

/// A message that sets something and is no text ends the run.
pub proof fn law_message_without_text(c: Control, topic: String, payload: Vec<u8>, now: u64)
    requires
        c.phase is Waiting,
        !vstd::utf8::valid_utf8(payload@),
        !(control::command_of(text::split_on(topic@, '/')) is Ignore),
    ensures
        ({
            let event = RunEvent::Mqtt(MqttEvent::Publish { topic, payload });
            let (after, action) = c.moved(event, now);
            &&& ends(after, action, text::utf8_error_text(payload@))
            &&& after == (Control { phase: Phase::Idle, ..c })
        }),
{
}

/// A message on any other topic changes nothing, whatever it holds, and neither
/// does any other packet; only the end of the connection ends the run.
pub proof fn law_other_packets(c: Control, event: MqttEvent, now: u64)
    requires
        c.phase is Waiting,
    ensures
        ({
            let (after, action) = c.moved(RunEvent::Mqtt(event), now);
            &&& event matches MqttEvent::Publish { topic, payload } ==> ({
                let parts = text::split_on(topic@, '/');
                ||| parts.len() <= 2
                ||| parts[1] != "temp"@ && parts[1] != "mode"@
                ||| parts[1] == "mode"@ && parts[2] != "set"@
                ||| parts[1] == "temp"@ && parts[2] != "set"@ && parts[2] != "high"@ && parts[2]
                    != "low"@
                ||| parts[1] == "temp"@ && parts[2] != "set"@ && (parts.len() < 4 || parts[3]
                    != "set"@)
            } ==> after == c && waits(after, action, now))
            &&& event is Incoming || event is Outgoing ==> after == c && waits(after, action, now)
            &&& event is Disconnect ==> {
                &&& ends(after, action, "MQTT disconnect"@)
                &&& after == (Control { phase: Phase::Idle, ..c })
            }
        }),
{
    if let MqttEvent::Publish { topic, payload } = event {
        law_topics(text::split_on(topic@, '/'));
        reveal_strlit("temp");
        reveal_strlit("mode");
        assert("temp"@[0] != "mode"@[0]);
    }
}

/// A set point that was read is preferred together with the bounds one band off
/// it; a bound is preferred alone. The state is announced, and the heater is
/// told nothing. A text that could not be read ends the run.
pub proof fn law_temperature_read(c: Control, target: Target, read: ReadNumber, now: u64)
    requires
        c.phase == Phase::Reading(target),
    ensures
        ({
            let (after, action) = c.moved(RunEvent::TemperatureRead(Ok(read)), now);
            &&& action == ActionView::Queue(
                control::status_messages(c.settings.hc_mode, after.prefs),
            )
            &&& after == (Control {
                prefs: after.prefs,
                phase: Phase::Queueing(Purpose::Preferences),
                ..c
            })
            &&& target is SetPoint ==> after.prefs == (TemperaturePreferences {
                set_point: read.value,
                lower_bound: read.below,
                higher_bound: read.above,
                ..c.prefs
            })
            &&& target is HigherBound ==> after.prefs == (TemperaturePreferences {
                higher_bound: read.value,
                ..c.prefs
            })
            &&& target is LowerBound ==> after.prefs == (TemperaturePreferences {
                lower_bound: read.value,
                ..c.prefs
            })
        }),
        forall|reason: String|
            ({
                let (after, action) = #[trigger] c.moved(
                    RunEvent::TemperatureRead(Err(reason)),
                    now,
                );
                ends(after, action, reason@) && after == (Control { phase: Phase::Idle, ..c })
            }),
{
}

// ---------------------------------------------------------------------------
// Answers
// ---------------------------------------------------------------------------

/// A command that was done sets the count of failures back; its settings are in
/// force from now on, and the state is announced.
pub proof fn law_command_done(c: Control, purpose: Purpose, settings: HeaterSettings, now: u64)
    requires
        c.phase == Phase::Sending(purpose, settings),
    ensures
        ({
            let (after, action) = c.moved(RunEvent::Sent(Ok(())), now);
            &&& action == ActionView::Queue(control::status_messages(settings.hc_mode, c.prefs))
            &&& after == (Control {
                settings,
                set_fails: 0,
                last_mode_set_time: Some(now),
                phase: Phase::Queueing(purpose),
                ..c
            })
        }),
{
}

/// A command that failed is counted. A failure of the connection whose text, in
/// small letters, speaks of a broken pipe or a connection has the daemon
/// connected to again. After any other, settings are in force all the same and
/// the state is announced, unless it is the sixth failure in a row or a later
/// one: then a pause of ten minutes is made first.
pub proof fn law_command_failed(
    c: Control,
    purpose: Purpose,
    settings: HeaterSettings,
    failure: SendFailure,
    now: u64,
)
    requires
        c.phase == Phase::Sending(purpose, settings),
        c.set_fails < 255,
    ensures
        ({
            let (after, action) = c.moved(RunEvent::Sent(Err(failure)), now);
            let lost = failure matches SendFailure::Io(error) && (text::occurs_in(
                "broken pipe"@,
                text::lowercase(error@),
            ) || text::occurs_in("connection"@, text::lowercase(error@)));
            &&& after.set_fails == c.set_fails + 1
            &&& lost ==> {
                &&& action is Reconnect
                &&& after == (Control {
                    set_fails: after.set_fails,
                    phase: Phase::Reconnecting(purpose, settings),
                    ..c
                })
            }
            &&& !lost && c.set_fails < 5 ==> {
                &&& action == ActionView::Queue(
                    control::status_messages(settings.hc_mode, c.prefs),
                )
                &&& after == (Control {
                    settings,
                    set_fails: after.set_fails,
                    last_mode_set_time: Some(now),
                    phase: Phase::Queueing(purpose),
                    ..c
                })
            }
            &&& !lost && c.set_fails >= 5 ==> {
                &&& action == ActionView::CoolDown(600_000_000_000)
                &&& after == (Control {
                    set_fails: after.set_fails,
                    last_mode_set_time: Some(now),
                    phase: Phase::CoolingDown(purpose, settings),
                    ..c
                })
            }
        }),
{
}

/// Once the daemon is connected to again, the message is defined anew.
pub proof fn law_reconnected(c: Control, purpose: Purpose, settings: HeaterSettings, now: u64)
    requires
        c.phase == Phase::Reconnecting(purpose, settings),
    ensures
        ({
            let (after, action) = c.moved(RunEvent::Reconnected(Ok(())), now);
            &&& action == ActionView::Define(
                "define -r "@ + ebusd::SET_MODE_DEFINITION@ + "\n\n"@,
            )
            &&& after == (Control { phase: Phase::Defining(purpose, settings), ..c })
        }),
{
}

/// Once the message is defined anew, the settings are in force and the state is
/// announced, after a pause where there were more than five failures in a row.
pub proof fn law_defined(c: Control, purpose: Purpose, settings: HeaterSettings, now: u64)
    requires
        c.phase == Phase::Defining(purpose, settings),
    ensures
        ({
            let (after, action) = c.moved(RunEvent::Defined(Ok(())), now);
            &&& c.set_fails <= 5 ==> {
                &&& action == ActionView::Queue(
                    control::status_messages(settings.hc_mode, c.prefs),
                )
                &&& after == (Control {
                    settings,
                    last_mode_set_time: Some(now),
                    phase: Phase::Queueing(purpose),
                    ..c
                })
            }
            &&& c.set_fails > 5 ==> {
                &&& action == ActionView::CoolDown(600_000_000_000)
                &&& after == (Control {
                    last_mode_set_time: Some(now),
                    phase: Phase::CoolingDown(purpose, settings),
                    ..c
                })
            }
        }),
{
}

/// After a pause the count begins anew, the settings are in force and the state
/// is announced.
pub proof fn law_cooled_down(c: Control, purpose: Purpose, settings: HeaterSettings, now: u64)
    requires
        c.phase == Phase::CoolingDown(purpose, settings),
    ensures
        ({
            let (after, action) = c.moved(RunEvent::CooledDown, now);
            &&& action == ActionView::Queue(control::status_messages(settings.hc_mode, c.prefs))
            &&& after == (Control { settings, set_fails: 0, phase: Phase::Queueing(purpose), ..c })
        }),
{
}

/// Once the state is announced the thermostat waits. A change of the heating is
/// then on hold for as long as is preferred; a crossing that was remembered has
/// been dealt with, and the end of the next hold is put far away.
pub proof fn law_announced(c: Control, purpose: Purpose, now: u64)
    requires
        c.phase == Phase::Queueing(purpose),
    ensures
        ({
            let (after, action) = c.moved(RunEvent::Queued(Ok(())), now);
            &&& waits(after, action, now)
            &&& purpose is TemperatureChange ==> {
                &&& after.hold_deadline == now + c.prefs.maintain_state_for
                &&& after == (Control {
                    hold: true,
                    hold_deadline: after.hold_deadline,
                    phase: Phase::Waiting,
                    ..c
                })
            }
            &&& purpose is HoldElapsed ==> {
                &&& after.hold_deadline == now + 999_999_999_000_000_000
                &&& after == (Control {
                    update_pending: false,
                    hold_deadline: after.hold_deadline,
                    phase: Phase::Waiting,
                    ..c
                })
            }
            &&& purpose !is TemperatureChange && purpose !is HoldElapsed ==> after == (Control {
                phase: Phase::Waiting,
                ..c
            })
        }),
{
}

/// The event says that what was begun for `purpose` has failed, and why.
pub open spec fn tells_failure(
    c: Control,
    event: RunEvent,
    purpose: Purpose,
    reason: Seq<char>,
) -> bool {
    match (c.phase, event) {
        (Phase::Reconnecting(p, _), RunEvent::Reconnected(Err(e))) => p == purpose && e@ == reason,
        (Phase::Defining(p, _), RunEvent::Defined(Err(e))) => p == purpose && e@ == reason,
        (Phase::Queueing(p), RunEvent::Queued(Err(e))) => p == purpose && e@ == reason,
        (_, _) => false,
    }
}

/// Where the daemon cannot be connected to again, or refuses the definition, or
/// the state cannot be announced, the run ends with the reason if it has just
/// begun or a message was being followed; else the thermostat waits, with the
/// settings as they are, and after a hold the next end is put far away.
pub proof fn law_failure(
    c: Control,
    event: RunEvent,
    purpose: Purpose,
    reason: Seq<char>,
    now: u64,
)
    requires
        tells_failure(c, event, purpose, reason),
    ensures
        ({
            let (after, action) = c.moved(event, now);
            &&& purpose is Start || purpose is ModeChange || purpose is Preferences ==> {
                &&& ends(after, action, reason)
                &&& after == (Control { phase: Phase::Idle, ..c })
            }
            &&& purpose is TemperatureChange || purpose is KeepAlive ==> {
                &&& waits(after, action, now)
                &&& after == (Control { phase: Phase::Waiting, ..c })
            }
            &&& purpose is HoldElapsed ==> {
                &&& waits(after, action, now)
                &&& after.hold_deadline == now + 999_999_999_000_000_000
                &&& after == (Control {
                    hold_deadline: after.hold_deadline,
                    phase: Phase::Waiting,
                    ..c
                })
            }
        }),
{
}

} // verus!
