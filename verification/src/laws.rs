//! What holds of the thermostat as a whole.
use crate::control::{
    ActionView, Control, ErrorView, MqttEvent, MqttVerdict, Phase, Purpose, RunEvent, Target,
    COOL_DOWN, CURRENT_TOPIC, KEEP_ALIVE, MAX_FAILS, TOPIC_PREFIX,
};
use crate::control;
use crate::ebusd;
use crate::heater::{self, HeaterMode, HeaterSettings, TemperaturePreferences};
use crate::temperature::{self, Temperature};
use crate::text;
use vstd::prelude::*;

verus! {

/// A new thermostat is well-formed, and a run of it can begin.
pub proof fn law_fresh(c: Control)
    requires
        c.fresh(),
    ensures
        c.wf(),
        c.accepts_spec(RunEvent::Start),
{
}

/// A run asks to be restarted exactly when the MQTT connection fails. The next
/// run can then begin; after any other end, none can.
pub proof fn law_restart(c: Control, event: RunEvent, now: u64)
    requires
        c.wf(),
        c.accepts_spec(event),
    ensures
        c.moved(event, now).1 == ActionView::Finish(ErrorView::Restart) <==> event is MqttError,
        event is MqttError ==> c.moved(event, now).0.accepts_spec(RunEvent::Start),
        (c.moved(event, now).1 is Finish && event !is MqttError) ==> !c.moved(
            event,
            now,
        ).0.accepts_spec(RunEvent::Start),
{
}

/// A restart keeps what the thermostat knows and wants, and what the heater
/// was told.
pub proof fn law_restart_keeps(c: Control, now: u64)
    requires
        c.phase is Waiting,
    ensures
        ({
            let after = c.moved(RunEvent::MqttError, now).0;
            &&& after.prefs == c.prefs
            &&& after.settings == c.settings
            &&& after.current_temperature == c.current_temperature
            &&& after.last_mode_set_time == c.last_mode_set_time
            &&& after.set_fails == c.set_fails
        }),
{
}

/// While a change is being kept, no temperature reaches the heater: it is
/// noted, and that is all.
pub proof fn law_hold_keeps_heater(c: Control, t: Temperature, now: u64)
    requires
        c.phase is Waiting,
        c.hold,
    ensures
        ({
            let (after, action) = c.moved(RunEvent::Temperature(Some(t)), now);
            &&& action is Wait
            &&& after.settings == c.settings
            &&& after.last_mode_set_time == c.last_mode_set_time
            &&& after.hold
            &&& after.hold_deadline == c.hold_deadline
        }),
{
}

/// A bound that is crossed during a hold is remembered, and when the hold is
/// over, the settings in force are sent once more.
pub proof fn law_crossing_during_hold(
    c: Control,
    t: Temperature,
    measured_at: u64,
    released_at: u64,
)
    requires
        c.phase is Waiting,
        c.hold,
        !t.equals_spec(c.current_temperature),
        heater::heating_change(c.settings, c.prefs, t) is Some,
    ensures
        ({
            let held = c.moved(RunEvent::Temperature(Some(t)), measured_at).0;
            let (free, action) = held.moved(RunEvent::HoldElapsed, released_at);
            &&& held.update_pending
            &&& !free.hold
            &&& action == ActionView::Send(ebusd::set_mode_command(c.settings))
            &&& free.phase == Phase::Sending(Purpose::HoldElapsed, c.settings)
        }),
{
}

/// A hold begins only when a change of the heating has been applied, and then
/// lasts as long as is preferred; it ends only when its time is over, or with
/// a new run.
pub proof fn law_hold_begins_and_ends(c: Control, event: RunEvent, now: u64)
    requires
        c.accepts_spec(event),
    ensures
        ({
            let (after, action) = c.moved(event, now);
            &&& !c.hold && after.hold ==> {
                &&& c.phase == Phase::Queueing(Purpose::TemperatureChange)
                &&& event matches RunEvent::Queued(Ok(_))
                &&& after.hold_deadline == now + c.prefs.maintain_state_for
            }
            &&& c.hold && !after.hold ==> event is HoldElapsed || event is Start
        }),
{
}

/// The state after the events, each with the time at which it came.
pub open spec fn after_all(c: Control, events: Seq<(RunEvent, u64)>) -> Control
    decreases events.len(),
{
    if events.len() == 0 {
        c
    } else {
        after_all(c, events.drop_last()).moved(events.last().0, events.last().1).0
    }
}

/// Each of the events can come where it comes.
pub open spec fn all_accepted(c: Control, events: Seq<(RunEvent, u64)>) -> bool
    decreases events.len(),
{
    events.len() > 0 ==> {
        &&& all_accepted(c, events.drop_last())
        &&& after_all(c, events.drop_last()).accepts_spec(events.last().0)
    }
}

/// Whatever happens to a well-formed thermostat, it stays well-formed.
pub proof fn law_always_well_formed(c: Control, events: Seq<(RunEvent, u64)>)
    requires
        c.wf(),
        all_accepted(c, events),
    ensures
        after_all(c, events).wf(),
    decreases events.len(),
{
    if events.len() > 0 {
        law_always_well_formed(c, events.drop_last());
        after_all(c, events.drop_last()).lemma_wf_kept(events.last().0, events.last().1);
    }
}

/// What is under way for `purpose` with `settings` neither changes the flow
/// temperature nor moves the end of the hold.
spec fn undisturbing(purpose: Purpose, settings: HeaterSettings, flow_temp: u8) -> bool {
    &&& settings.flow_temp_desired == flow_temp
    &&& purpose !is TemperatureChange
    &&& purpose !is HoldElapsed
}

/// A change is on hold until `deadline`, and nothing is under way that would
/// disturb it.
spec fn kept(c: Control, flow_temp: u8, deadline: u128) -> bool {
    &&& c.hold
    &&& c.hold_deadline == deadline
    &&& c.settings.flow_temp_desired == flow_temp
    &&& match c.phase {
        Phase::Sending(purpose, settings) => undisturbing(purpose, settings, flow_temp),
        Phase::Reconnecting(purpose, settings) => undisturbing(purpose, settings, flow_temp),
        Phase::Defining(purpose, settings) => undisturbing(purpose, settings, flow_temp),
        Phase::CoolingDown(purpose, settings) => undisturbing(purpose, settings, flow_temp),
        Phase::Queueing(purpose) => undisturbing(purpose, c.settings, flow_temp),
        _ => true,
    }
}

proof fn lemma_kept(c: Control, events: Seq<(RunEvent, u64)>)
    requires
        c.phase is Waiting,
        c.hold,
        all_accepted(c, events),
        forall|i: int|
            0 <= i < events.len() ==> (#[trigger] events[i]).0 !is HoldElapsed
                && events[i].0 !is Start,
    ensures
        kept(after_all(c, events), c.settings.flow_temp_desired, c.hold_deadline),
    decreases events.len(),
{
    if events.len() > 0 {
        let front = events.drop_last();
        assert forall|i: int| 0 <= i < front.len() implies (#[trigger] front[i]).0 !is HoldElapsed
            && front[i].0 !is Start by {
            assert(front[i] == events[i]);
        }
        lemma_kept(c, front);
        assert(events.last() == events[events.len() - 1]);
    }
}

/// A change of the heating is kept: until the hold is over or a new run begins,
/// the flow temperature stays as it is, whatever else happens, no other is sent
/// to the heater, and the end of the hold stays where it was put.
pub proof fn law_change_is_kept(c: Control, events: Seq<(RunEvent, u64)>)
    requires
        c.phase is Waiting,
        c.hold,
        all_accepted(c, events),
        forall|i: int|
            0 <= i < events.len() ==> (#[trigger] events[i]).0 !is HoldElapsed
                && events[i].0 !is Start,
    ensures
        ({
            let after = after_all(c, events);
            &&& after.hold
            &&& after.hold_deadline == c.hold_deadline
            &&& after.settings.flow_temp_desired == c.settings.flow_temp_desired
            &&& after.phase matches Phase::Sending(_, settings) ==> settings.flow_temp_desired
                == c.settings.flow_temp_desired
        }),
{
    lemma_kept(c, events);
}

/// A change of the heating that meets no obstacle: the temperature comes in,
/// the heater takes the settings, the state is announced; then the settings
/// are in force and on hold.
pub proof fn law_heating_change(
    c: Control,
    t: Temperature,
    measured_at: u64,
    sent_at: u64,
    queued_at: u64,
)
    requires
        c.phase is Waiting,
        !c.hold,
        !t.equals_spec(c.current_temperature),
        heater::heating_change(c.settings, c.prefs, t) is Some,
    ensures
        ({
            let change = heater::heating_change(c.settings, c.prefs, t)->0;
            let (sending, send) = c.moved(RunEvent::Temperature(Some(t)), measured_at);
            let (queueing, queue) = sending.moved(RunEvent::Sent(Ok(())), sent_at);
            let (waiting, wait) = queueing.moved(RunEvent::Queued(Ok(())), queued_at);
            &&& send == ActionView::Send(ebusd::set_mode_command(change))
            &&& queue == ActionView::Queue(control::status_messages(change.hc_mode, c.prefs))
            &&& wait is Wait
            &&& waiting.settings == change
            &&& waiting.current_temperature == t
            &&& waiting.last_mode_set_time == Some(sent_at)
            &&& waiting.set_fails == 0
            &&& waiting.hold
            &&& waiting.hold_deadline == queued_at + c.prefs.maintain_state_for
            &&& waiting.prefs == c.prefs
        }),
{
}

/// The longest way from a phase back to waiting, counted in events.
pub open spec fn distance(phase: Phase) -> nat {
    match phase {
        Phase::Idle => 0,
        Phase::Waiting => 0,
        Phase::Queueing(_) => 1,
        Phase::Reading(_) => 2,
        Phase::CoolingDown(_, _) => 2,
        Phase::Defining(_, _) => 3,
        Phase::Reconnecting(_, _) => 4,
        Phase::Sending(_, _) => 5,
    }
}

/// Whatever is begun comes to an end: each event brings the thermostat nearer
/// to waiting again, or to the end of the run.
pub proof fn law_progress(c: Control, event: RunEvent, now: u64)
    requires
        c.accepts_spec(event),
        c.phase !is Idle,
        c.phase !is Waiting,
    ensures
        distance(c.moved(event, now).0.phase) < distance(c.phase),
{
}

/// The heater is asked for settings exactly when they begin to be applied, and
/// for those settings; only two flow temperatures are ever asked for.
pub proof fn law_commands(c: Control, event: RunEvent, now: u64)
    requires
        c.accepts_spec(event),
    ensures
        match c.moved(event, now) {
            (after, ActionView::Send(command)) => {
                &&& after.phase matches Phase::Sending(_, settings)
                &&& command == ebusd::set_mode_command(settings)
                &&& c.wf() ==> control::two_valued(settings)
            },
            (after, _) => after.phase !is Sending,
        },
{
}

/// Settings count as applied, whether or not the heater has taken them: from
/// the moment at which it was asked for them, or from before the pause that
/// follows too many failures. Only where the daemon cannot be reached again, or refuses
/// the definition of the message, do they not.
pub proof fn law_applied(
    c: Control,
    purpose: Purpose,
    settings: HeaterSettings,
    event: RunEvent,
    now: u64,
)
    requires
        c.accepts_spec(event),
        ({
            ||| c.phase == Phase::Sending(purpose, settings)
            ||| c.phase == Phase::Reconnecting(purpose, settings)
            ||| c.phase == Phase::Defining(purpose, settings)
            ||| c.phase == Phase::CoolingDown(purpose, settings)
        }),
    ensures
        ({
            let after = c.moved(event, now).0;
            &&& after.phase is Queueing ==> {
                &&& after.phase == Phase::Queueing(purpose)
                &&& after.settings == settings
                &&& after.last_mode_set_time == (if c.phase is CoolingDown {
                    c.last_mode_set_time
                } else {
                    Some(now)
                })
            }
            &&& after.phase !is Queueing ==> {
                &&& after.settings == c.settings
                &&& after.last_mode_set_time == (if after.phase is CoolingDown {
                    Some(now)
                } else {
                    c.last_mode_set_time
                })
            }
            &&& (after.phase is Waiting || after.phase is Idle) ==> {
                ||| event matches RunEvent::Reconnected(Err(_))
                ||| event matches RunEvent::Defined(Err(_))
            }
        }),
{
}

/// Failures in a row are counted, and a success or a pause sets the count back.
/// A pause is made only where there are more failures than are borne, and
/// settings count as applied only where there are not.
pub proof fn law_failures(c: Control, event: RunEvent, now: u64)
    requires
        c.wf(),
        c.accepts_spec(event),
    ensures
        ({
            let (after, action) = c.moved(event, now);
            &&& event matches RunEvent::Sent(Ok(_)) ==> after.set_fails == 0
            &&& event matches RunEvent::Sent(Err(_)) ==> after.set_fails == c.set_fails + 1
            &&& event is CooledDown ==> after.set_fails == 0
            &&& !(event is Sent || event is CooledDown) ==> after.set_fails == c.set_fails
            &&& action is CoolDown ==> after.set_fails > MAX_FAILS
            &&& (after.phase matches Phase::Queueing(purpose) && purpose !is Preferences)
                ==> after.set_fails <= MAX_FAILS
        }),
{
}

/// Whenever the thermostat waits, it waits to repeat the settings until five
/// minutes after the heater was last asked for them, half the time after which
/// it forgets them, and not at all where that is over.
pub proof fn law_keep_alive(c: Control, event: RunEvent, now: u64)
    requires
        c.accepts_spec(event),
    ensures
        c.moved(event, now) matches (after, ActionView::Wait { repeat_in, hold_until }) ==> {
            &&& repeat_in <= KEEP_ALIVE
            &&& after.last_mode_set_time matches Some(last) ==> (last <= now ==> now + repeat_in
                == (if last + KEEP_ALIVE <= now {
                now as int
            } else {
                last + KEEP_ALIVE
            }))
            &&& hold_until == after.hold_deadline
        },
{
}

/// The time from which the repetition is counted is entered only when the
/// heater has just been asked for settings, or when the failure of that has
/// been dealt with; a pause begins at that time, and lasts as long as the heater
/// remembers its settings.
pub proof fn law_last_asked(c: Control, event: RunEvent, now: u64)
    requires
        c.wf(),
        c.accepts_spec(event),
    ensures
        ({
            let (after, action) = c.moved(event, now);
            &&& after.last_mode_set_time == c.last_mode_set_time || {
                &&& after.last_mode_set_time == Some(now)
                &&& event is Sent || event matches RunEvent::Defined(Ok(_))
            }
            &&& action matches ActionView::CoolDown(pause) ==> {
                &&& pause == 2 * KEEP_ALIVE
                &&& after.last_mode_set_time == Some(now)
            }
        }),
{
}

/// A pause does not put the repetition off: once it is over and the state has
/// been announced, or could not be, the settings are to be repeated at once.
pub proof fn law_repeat_after_pause(
    c: Control,
    purpose: Purpose,
    settings: HeaterSettings,
    asked_at: u64,
    cooled_at: u64,
    queued: Result<(), String>,
    queued_at: u64,
)
    requires
        c.phase == Phase::CoolingDown(purpose, settings),
        c.last_mode_set_time == Some(asked_at),
        asked_at + COOL_DOWN <= cooled_at <= queued_at,
    ensures
        ({
            let queueing = c.moved(RunEvent::CooledDown, cooled_at).0;
            let (after, action) = queueing.moved(RunEvent::Queued(queued), queued_at);
            &&& after.settings == settings
            &&& queued is Ok ==> action is Wait
            &&& action matches ActionView::Wait { repeat_in, hold_until } ==> repeat_in == 0
        }),
{
}

/// When the time has come, the settings in force are sent again, and nothing
/// else is changed.
pub proof fn law_repeat(c: Control, now: u64)
    requires
        c.phase is Waiting,
    ensures
        ({
            let (after, action) = c.moved(RunEvent::KeepAliveDue, now);
            &&& action == ActionView::Send(ebusd::set_mode_command(c.settings))
            &&& after == (Control {
                phase: Phase::Sending(Purpose::KeepAlive, c.settings),
                ..c
            })
        }),
{
}

/// Only a temperature that was set by a message changes the preferences, and
/// then only the set point and the bounds.
pub proof fn law_preferences(c: Control, event: RunEvent, now: u64)
    requires
        c.accepts_spec(event),
    ensures
        ({
            let after = c.moved(event, now).0;
            &&& !(event matches RunEvent::TemperatureRead(Ok(_))) ==> after.prefs == c.prefs
            &&& after.prefs == (TemperaturePreferences {
                set_point: after.prefs.set_point,
                lower_bound: after.prefs.lower_bound,
                higher_bound: after.prefs.higher_bound,
                ..c.prefs
            })
            &&& event is TemperatureRead ==> after.settings == c.settings
        }),
{
}

/// A message that sets the mode changes the mode alone, and has the heater
/// told at once.
pub proof fn law_mode_message(c: Control, event: MqttEvent, mode: HeaterMode, now: u64)
    requires
        c.phase is Waiting,
        control::mqtt_verdict(event) == MqttVerdict::SetMode(mode),
    ensures
        ({
            let (after, action) = c.moved(RunEvent::Mqtt(event), now);
            let settings = HeaterSettings { hc_mode: mode, ..c.settings };
            &&& action == ActionView::Send(ebusd::set_mode_command(settings))
            &&& after == (Control {
                settings,
                phase: Phase::Sending(Purpose::ModeChange, settings),
                ..c
            })
        }),
{
}

/// At the beginning of a run the heater is asked for tap water of the whole
/// number of degrees that is preferred.
pub proof fn law_tap_water(c: Control, degrees: u8, now: u64)
    requires
        c.accepts_spec(RunEvent::Start),
        c.phase is Idle,
        heater::is_degrees(c.prefs.tap_water_set_point, degrees),
    ensures
        ({
            let (after, action) = c.moved(RunEvent::Start, now);
            let settings = HeaterSettings { hwc_temp_desired: degrees, ..c.settings };
            &&& after.settings == settings
            &&& action == ActionView::Send(ebusd::set_mode_command(settings))
        }),
{
    temperature::law_degrees_round_trip(degrees, c.prefs.tap_water_set_point);
}

/// A topic of the thermostat itself falls apart into its name and the parts of
/// the rest.
proof fn lemma_own_topic(rest: Seq<char>)
    ensures
        text::split_on(TOPIC_PREFIX@ + rest, '/') == seq!["ebus-thermostat"@] + text::split_on(
            rest,
            '/',
        ),
{
    reveal_strlit("ebus-thermostat/");
    reveal_strlit("ebus-thermostat");
    let name = "ebus-thermostat"@;
    assert(TOPIC_PREFIX@ =~= name.push('/'));
    text::lemma_split_concat(name, rest, '/');
    text::lemma_split_plain(name, '/');
}

/// The thermostat subscribes to the topics that it publishes on, and hears
/// itself: its own announcements change nothing, whatever they say.
pub proof fn law_deaf_to_itself(
    topic: Seq<char>,
    payload: Seq<u8>,
    mode: HeaterMode,
    prefs: TemperaturePreferences,
    i: int,
)
    requires
        0 <= i < control::status_messages(mode, prefs).len(),
        topic == TOPIC_PREFIX@ + control::status_messages(mode, prefs)[i].topic || topic
            == CURRENT_TOPIC@,
    ensures
        control::publish_verdict(topic, payload) is Nothing,
{
    reveal_strlit("mode");
    reveal_strlit("temp");
    reveal_strlit("low");
    reveal_strlit("high");
    reveal_strlit("current");
    reveal_strlit("set");
    reveal_strlit("temp/low");
    reveal_strlit("temp/high");
    reveal_strlit("temp/current");
    reveal_strlit("ebus-thermostat/");
    reveal_strlit("ebus-thermostat/temp/current");
    lemma_own_topic("mode"@);
    lemma_own_topic("temp"@);
    lemma_own_topic("temp/low"@);
    lemma_own_topic("temp/high"@);
    lemma_own_topic("temp/current"@);
    text::lemma_split_plain("mode"@, '/');
    text::lemma_split_plain("temp"@, '/');
    text::lemma_split_plain("low"@, '/');
    text::lemma_split_plain("high"@, '/');
    text::lemma_split_plain("current"@, '/');
    text::lemma_split_concat("temp"@, "low"@, '/');
    text::lemma_split_concat("temp"@, "high"@, '/');
    text::lemma_split_concat("temp"@, "current"@, '/');
    assert("temp/low"@ =~= "temp"@.push('/') + "low"@);
    assert("temp/high"@ =~= "temp"@.push('/') + "high"@);
    assert("temp/current"@ =~= "temp"@.push('/') + "current"@);
    assert(CURRENT_TOPIC@ =~= TOPIC_PREFIX@ + "temp/current"@);
    assert("low"@[0] != "set"@[0]);
    assert("high"@[0] != "set"@[0]);
    assert("current"@[0] != "set"@[0]);
    assert("current"@[0] != "high"@[0]);
    assert("current"@[0] != "low"@[0]);
}

/// The payload of a message is read as the text that it encodes.
proof fn lemma_text_payload(value: Seq<char>)
    ensures
        vstd::utf8::valid_utf8(vstd::utf8::encode_utf8(value)),
        vstd::utf8::decode_utf8(vstd::utf8::encode_utf8(value)) == value,
{
    vstd::utf8::encode_utf8_valid_utf8(value);
    vstd::utf8::encode_utf8_decode_utf8(value);
}

/// The name of any mode, sent to the topic for modes, sets that mode; any other
/// text sent there is refused.
pub proof fn law_mode_topic(value: Seq<char>)
    ensures
        control::publish_verdict(
            TOPIC_PREFIX@ + "mode/set"@,
            vstd::utf8::encode_utf8(value),
        ) == (match heater::mode_named(value) {
            Some(mode) => MqttVerdict::SetMode(mode),
            None => MqttVerdict::Fail("Invalid heater mode"@),
        }),
        forall|mode: HeaterMode|
            value == #[trigger] mode.name() ==> heater::mode_named(value) == Some(mode),
{
    reveal_strlit("mode");
    reveal_strlit("temp");
    reveal_strlit("set");
    reveal_strlit("mode/set");
    lemma_own_topic("mode/set"@);
    text::lemma_split_plain("mode"@, '/');
    text::lemma_split_plain("set"@, '/');
    text::lemma_split_concat("mode"@, "set"@, '/');
    assert("mode/set"@ =~= "mode"@.push('/') + "set"@);
    assert("mode"@[0] != "temp"@[0]);
    lemma_text_payload(value);
    assert forall|mode: HeaterMode| value == #[trigger] mode.name() implies heater::mode_named(
        value,
    ) == Some(mode) by {
        heater::law_mode_round_trip(mode);
    }
}

/// Any text sent to the topic of the set point or of a bound is read as the
/// temperature to be set there.
pub proof fn law_temperature_topics(value: Seq<char>)
    ensures
        control::publish_verdict(TOPIC_PREFIX@ + "temp/set"@, vstd::utf8::encode_utf8(value))
            == MqttVerdict::ReadTemperature(Target::SetPoint, value),
        control::publish_verdict(TOPIC_PREFIX@ + "temp/high/set"@, vstd::utf8::encode_utf8(value))
            == MqttVerdict::ReadTemperature(Target::HigherBound, value),
        control::publish_verdict(TOPIC_PREFIX@ + "temp/low/set"@, vstd::utf8::encode_utf8(value))
            == MqttVerdict::ReadTemperature(Target::LowerBound, value),
{
    reveal_strlit("temp");
    reveal_strlit("high");
    reveal_strlit("low");
    reveal_strlit("set");
    reveal_strlit("temp/set");
    reveal_strlit("high/set");
    reveal_strlit("low/set");
    reveal_strlit("temp/high/set");
    reveal_strlit("temp/low/set");
    lemma_own_topic("temp/set"@);
    lemma_own_topic("temp/high/set"@);
    lemma_own_topic("temp/low/set"@);
    text::lemma_split_plain("temp"@, '/');
    text::lemma_split_plain("high"@, '/');
    text::lemma_split_plain("low"@, '/');
    text::lemma_split_plain("set"@, '/');
    text::lemma_split_concat("temp"@, "set"@, '/');
    text::lemma_split_concat("high"@, "set"@, '/');
    text::lemma_split_concat("low"@, "set"@, '/');
    text::lemma_split_concat("temp"@, "high/set"@, '/');
    text::lemma_split_concat("temp"@, "low/set"@, '/');
    assert("temp/set"@ =~= "temp"@.push('/') + "set"@);
    assert("high/set"@ =~= "high"@.push('/') + "set"@);
    assert("low/set"@ =~= "low"@.push('/') + "set"@);
    assert("temp/high/set"@ =~= "temp"@.push('/') + "high/set"@);
    assert("temp/low/set"@ =~= "temp"@.push('/') + "low/set"@);
    assert("high"@[0] != "set"@[0]);
    assert("low"@[0] != "set"@[0]);
    assert("low"@[0] != "high"@[0]);
    lemma_text_payload(value);
}

} // verus!
