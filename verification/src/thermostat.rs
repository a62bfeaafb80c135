//! The thermostat.
use crate::control::{
    Action, Control, Message, MqttEvent, Payload, Phase, Publication, Purpose, Qos, ReadNumber,
    RunEvent, SendFailure, Step, Target, ThermostatError, TopicCommand, COOL_DOWN, CURRENT_TOPIC,
    KEEP_ALIVE, MAX_FAILS, NO_HOLD, TOPIC_PREFIX,
};
use crate::control;
use crate::ebusd::{self, Ebusd};
use crate::heater::{self, HeaterMode, HeaterSettings, TemperaturePreferences, SECOND};
use crate::homeassistant::{self, Device, Event, Reading};
use crate::temperature::Temperature;
use crate::text;
use vstd::prelude::*;

verus! {

/// How the broker is reached.
#[derive(Debug, PartialEq, Eq)]
pub struct MqttParameters {
    pub client_id: String,
    pub host: String,
    pub port: u16,
    /// In nanoseconds.
    pub keep_alive: u64,
    pub username: String,
    pub password: String,
    /// How many requests may be outstanding.
    pub capacity: usize,
    /// The topics to subscribe to.
    pub subscription: String,
    pub subscription_qos: Qos,
}

/// What an event of the MQTT connection asks for.
#[derive(Debug, PartialEq, Eq)]
pub enum MqttOutcome {
    /// Nothing.
    Nothing,
    /// The text is to be read as a temperature, which is to be set.
    ReadTemperature(Target, String),
    /// The settings are to be applied.
    Apply,
}

/// A thermostat that heats by the temperature of one thermometer.
#[derive(Debug, PartialEq, Eq)]
pub struct Thermostat {
    pub thermometer_entity: String,
    pub mqtt_host: String,
    pub mqtt_username: String,
    pub mqtt_password: String,
    pub control: Control,
}

impl MqttOutcome {
    /// `outcome` and the new state are what a verdict asks for.
    pub open spec fn follows(
        outcome: Result<MqttOutcome, String>,
        verdict: control::MqttVerdict,
        before: Control,
        after: Control,
    ) -> bool {
        match (verdict, outcome) {
            (control::MqttVerdict::Nothing, Ok(MqttOutcome::Nothing)) => after == before,
            (
                control::MqttVerdict::ReadTemperature(target, value),
                Ok(MqttOutcome::ReadTemperature(t, v)),
            ) => t == target && v@ == value && after == before,
            (control::MqttVerdict::SetMode(mode), Ok(MqttOutcome::Apply)) => after == (Control {
                settings: HeaterSettings { hc_mode: mode, ..before.settings },
                ..before
            }),
            (control::MqttVerdict::Fail(reason), Err(e)) => e@ == reason && after == before,
            (_, _) => false,
        }
    }
}

/// What is said of a thermometer that no device has.
pub open spec fn not_found(entity: Seq<char>) -> Seq<char> {
    "Thermometer entity "@ + entity + " not found"@
}

/// What a message on a topic is about.
pub fn topic_command(topic: &str) -> (command: TopicCommand)
    ensures
        command == control::command_of(text::split_on(topic@, '/')),
{
    let parts = text::split(topic, '/');
    let ghost views = text::texts(parts@);
    if parts.len() <= 2 {
        return TopicCommand::Ignore;
    }
    assert(parts@[1]@ == views[1] && parts@[2]@ == views[2]);
    if text::spells(&parts[1], "temp") {
        if text::spells(&parts[2], "set") {
            TopicCommand::SetTemperature(Target::SetPoint)
        } else if text::spells(&parts[2], "high") {
            assert(parts@.len() >= 4 ==> parts@[3]@ == views[3]);
            if parts.len() < 4 || !text::spells(&parts[3], "set") {
                TopicCommand::Ignore
            } else {
                TopicCommand::SetTemperature(Target::HigherBound)
            }
        } else if text::spells(&parts[2], "low") {
            assert(parts@.len() >= 4 ==> parts@[3]@ == views[3]);
            if parts.len() < 4 || !text::spells(&parts[3], "set") {
                TopicCommand::Ignore
            } else {
                TopicCommand::SetTemperature(Target::LowerBound)
            }
        } else {
            TopicCommand::Ignore
        }
    } else if text::spells(&parts[1], "mode") {
        if text::spells(&parts[2], "set") {
            TopicCommand::SetMode
        } else {
            TopicCommand::Ignore
        }
    } else {
        TopicCommand::Ignore
    }
}

/// The error text, in small letters, tells of a lost connection.
pub fn lost_connection(lower: &str) -> (lost: bool)
    ensures
        lost == control::tells_of_lost_connection(lower@),
{
    text::contains(lower, "broken pipe") || text::contains(lower, "connection")
}

/// How long to wait until the settings are to be repeated.
pub fn time_to_repeat(last_mode_set_time: Option<u64>, now: u64) -> (delay: u64)
    ensures
        delay == control::repeat_delay(last_mode_set_time, now),
{
    match last_mode_set_time {
        None => KEEP_ALIVE,
        Some(last) => KEEP_ALIVE.saturating_sub(now.saturating_sub(last)),
    }
}

fn publish_lasting(message: Message) -> (publication: Publication)
    ensures
        publication@ == control::lasting(message@),
{
    Publication { message, qos: Qos::AtLeastOnce, retain: true }
}

impl Purpose {
    /// A failure ends the run.
    fn fatal(&self) -> (fatal: bool)
        ensures
            fatal == self.fatal_spec(),
    {
        match self {
            Purpose::Start | Purpose::ModeChange | Purpose::Preferences => true,
            Purpose::TemperatureChange | Purpose::KeepAlive | Purpose::HoldElapsed => false,
        }
    }
}

impl Thermostat {
    /// The thermostat has the thermometer and the broker of `other`.
    pub open spec fn connected_as(&self, other: &Thermostat) -> bool {
        &&& self.thermometer_entity == other.thermometer_entity
        &&& self.mqtt_host == other.mqtt_host
        &&& self.mqtt_username == other.mqtt_username
        &&& self.mqtt_password == other.mqtt_password
    }

    /// A thermostat for a thermometer that one of `devices` has, with default
    /// preferences and settings and nothing going on.
    pub fn new(
        devices: &Vec<Device>,
        thermometer_entity: String,
        mqtt_host: String,
        mqtt_username: String,
        mqtt_password: String,
    ) -> (thermostat: Result<Thermostat, ThermostatError>)
        ensures
            match thermostat {
                Ok(t) => {
                    &&& homeassistant::has_entity(devices@, thermometer_entity@)
                    &&& t.thermometer_entity@ == thermometer_entity@
                    &&& t.mqtt_host@ == mqtt_host@
                    &&& t.mqtt_username@ == mqtt_username@
                    &&& t.mqtt_password@ == mqtt_password@
                    &&& t.control.fresh()
                    &&& t.control.wf()
                },
                Err(e) => {
                    &&& !homeassistant::has_entity(devices@, thermometer_entity@)
                    &&& e@ == control::ErrorView::Other(not_found(thermometer_entity@))
                },
            },
    {
        if !homeassistant::find_entity(devices, thermometer_entity.as_str()) {
            let mut reason = "Thermometer entity ".to_string();
            reason.append(thermometer_entity.as_str());
            reason.append(" not found");
            return Err(ThermostatError::from(reason));
        }
        Ok(
            Thermostat {
                thermometer_entity,
                mqtt_host,
                mqtt_username,
                mqtt_password,
                control: Control {
                    prefs: TemperaturePreferences::default(),
                    settings: HeaterSettings::default(),
                    current_temperature: Temperature::from_degrees(0),
                    last_mode_set_time: None,
                    set_fails: 0,
                    phase: Phase::Idle,
                    hold: false,
                    update_pending: false,
                    hold_deadline: 0,
                    outbox_parked: true,
                },
            },
        )
    }

    /// How the broker is to be connected to.
    pub fn mqtt_reconnect(&self) -> (parameters: MqttParameters)
        ensures
            parameters.client_id@ == "ebus-thermostat"@,
            parameters.host@ == self.mqtt_host@,
            parameters.port == 1883,
            parameters.keep_alive == 30 * SECOND,
            parameters.username@ == self.mqtt_username@,
            parameters.password@ == self.mqtt_password@,
            parameters.capacity == 10,
            parameters.subscription@ == "ebus-thermostat/#"@,
            parameters.subscription_qos == Qos::AtLeastOnce,
    {
        MqttParameters {
            client_id: "ebus-thermostat".to_string(),
            host: self.mqtt_host.clone(),
            port: 1883,
            keep_alive: 30 * SECOND,
            username: self.mqtt_username.clone(),
            password: self.mqtt_password.clone(),
            capacity: 10,
            subscription: "ebus-thermostat/#".to_string(),
            subscription_qos: Qos::AtLeastOnce,
        }
    }

    /// Replaces the preferences.
    pub fn set_temp_preference(&mut self, prefs: TemperaturePreferences)
        ensures
            final(self).connected_as(old(self)),
            final(self).control == (Control { prefs, ..old(self).control }),
            old(self).control.wf() ==> final(self).control.wf(),
    {
        self.control.prefs = prefs;
    }

    /// What an event says of the temperature that the thermometer measures.
    pub fn temperature_changes(&self, event: &Event) -> (reading: Reading)
        ensures
            event.says(self.thermometer_entity@, reading),
    {
        event.reading(self.thermometer_entity.as_str())
    }

    /// The settings to change to at `current_temp`, if any.
    pub fn update_heater_settings(&self, current_temp: Temperature) -> (change: Option<
        HeaterSettings,
    >)
        ensures
            change == heater::heating_change(
                self.control.settings,
                self.control.prefs,
                current_temp,
            ),
    {
        heater::change_heating(self.control.settings, &self.control.prefs, &current_temp)
    }

    /// The messages that announce the mode, the bounds and the set point.
    pub fn publish_settings(&self) -> (messages: Vec<Message>)
        ensures
            control::message_views(messages@) == control::status_messages(
                self.control.settings.hc_mode,
                self.control.prefs,
            ),
    {
        let prefs = self.control.prefs;
        let messages: Vec<Message> = vec![
            Message {
                topic: "mode".to_string(),
                payload: Payload::Text(self.control.settings.hc_mode.to_string()),
            },
            Message {
                topic: "temp/low".to_string(),
                payload: Payload::Temperature(prefs.lower_bound),
            },
            Message {
                topic: "temp/high".to_string(),
                payload: Payload::Temperature(prefs.higher_bound),
            },
            Message {
                topic: "temp".to_string(),
                payload: Payload::Temperature(prefs.set_point),
            },
        ];
        assert(control::message_views(messages@) =~= control::status_messages(
            self.control.settings.hc_mode,
            prefs,
        ));
        messages
    }

    /// Takes an event of the MQTT connection: a mode is set at once, a
    /// temperature is still to be read. What is wrong with a message, and the
    /// end of the connection, are errors.
    pub fn handle_mqtt_message(&mut self, event: MqttEvent) -> (outcome: Result<
        MqttOutcome,
        String,
    >)
        requires
            event matches MqttEvent::Publish { topic, payload } ==> topic@.contains('/'),
        ensures
            final(self).connected_as(old(self)),
            MqttOutcome::follows(
                outcome,
                control::mqtt_verdict(event),
                old(self).control,
                final(self).control,
            ),
            old(self).control.wf() ==> final(self).control.wf(),
    {
        match event {
            MqttEvent::Publish { topic, payload } => {
                let command = topic_command(topic.as_str());
                if let TopicCommand::Ignore = command {
                    return Ok(MqttOutcome::Nothing);
                }
                match text::utf8_text(payload) {
                    Ok(value) => self.handle_command(command, value),
                    Err(error) => Err(error),
                }
            },
            MqttEvent::Disconnect => Err("MQTT disconnect".to_string()),
            MqttEvent::Incoming => Ok(MqttOutcome::Nothing),
            MqttEvent::Outgoing => Ok(MqttOutcome::Nothing),
        }
    }

    /// Takes a message whose text is `value`.
    pub fn handle_command(&mut self, command: TopicCommand, value: String) -> (outcome: Result<
        MqttOutcome,
        String,
    >)
        ensures
            final(self).connected_as(old(self)),
            MqttOutcome::follows(
                outcome,
                control::command_verdict(command, value@),
                old(self).control,
                final(self).control,
            ),
            old(self).control.wf() ==> final(self).control.wf(),
    {
        match command {
            TopicCommand::Ignore => Ok(MqttOutcome::Nothing),
            TopicCommand::SetTemperature(target) => Ok(
                MqttOutcome::ReadTemperature(target, value),
            ),
            TopicCommand::SetMode => match HeaterMode::from_str(value.as_str()) {
                Ok(mode) => {
                    self.control.settings.hc_mode = mode;
                    Ok(MqttOutcome::Apply)
                },
                Err(_) => Err("Invalid heater mode".to_string()),
            },
        }
    }

    fn wait(&mut self, now: u64) -> (action: Action)
        ensures
            final(self).connected_as(old(self)),
            (final(self).control, action@) == old(self).control.waiting(now),
    {
        self.control.phase = Phase::Waiting;
        Action::Wait {
            repeat_in: time_to_repeat(self.control.last_mode_set_time, now),
            hold_until: self.control.hold_deadline,
        }
    }

    fn finish(&mut self, reason: String) -> (action: Action)
        ensures
            final(self).connected_as(old(self)),
            (final(self).control, action@) == old(self).control.finished(reason@),
    {
        self.control.phase = Phase::Idle;
        Action::Finish(ThermostatError::from(reason))
    }

    /// Begins to apply `settings`: the heater is asked for them.
    pub fn apply_settings(&mut self, settings: HeaterSettings, purpose: Purpose) -> (action: Action)
        ensures
            final(self).connected_as(old(self)),
            (final(self).control, action@) == old(self).control.applying(settings, purpose),
            ({
                &&& old(self).control.wf()
                &&& !old(self).control.outbox_parked
                &&& control::two_valued(settings)
                &&& purpose !is Preferences
                &&& purpose is Start || old(self).control.last_mode_set_time is Some
            }) ==> final(self).control.wf(),
    {
        self.control.phase = Phase::Sending(purpose, settings);
        Action::Send(Ebusd::set_mode(settings))
    }

    fn announce(&mut self, purpose: Purpose) -> (action: Action)
        ensures
            final(self).connected_as(old(self)),
            (final(self).control, action@) == old(self).control.announcing(purpose),
    {
        let messages = self.publish_settings();
        self.control.phase = Phase::Queueing(purpose);
        Action::Queue(messages)
    }

    fn record(&mut self, settings: HeaterSettings, purpose: Purpose, now: u64) -> (action: Action)
        ensures
            final(self).connected_as(old(self)),
            (final(self).control, action@) == old(self).control.recorded(settings, purpose, now),
    {
        self.control.last_mode_set_time = Some(now);
        self.control.settings = settings;
        self.announce(purpose)
    }

    fn handle_failure(
        &mut self,
        settings: HeaterSettings,
        purpose: Purpose,
        now: u64,
    ) -> (action: Action)
        ensures
            final(self).connected_as(old(self)),
            (final(self).control, action@) == old(self).control.failure_handled(
                settings,
                purpose,
                now,
            ),
    {
        if self.control.set_fails > MAX_FAILS {
            self.control.last_mode_set_time = Some(now);
            self.control.phase = Phase::CoolingDown(purpose, settings);
            Action::CoolDown(COOL_DOWN)
        } else {
            self.record(settings, purpose, now)
        }
    }

    fn fail(&mut self, purpose: Purpose, reason: String, now: u64) -> (action: Action)
        ensures
            final(self).connected_as(old(self)),
            (final(self).control, action@) == old(self).control.failed(purpose, reason@, now),
    {
        if purpose.fatal() {
            return self.finish(reason);
        }
        if let Purpose::HoldElapsed = purpose {
            self.control.hold_deadline = now as u128 + NO_HOLD as u128;
        }
        self.wait(now)
    }

    fn complete(&mut self, purpose: Purpose, now: u64) -> (action: Action)
        ensures
            final(self).connected_as(old(self)),
            (final(self).control, action@) == old(self).control.completed(purpose, now),
    {
        match purpose {
            Purpose::TemperatureChange => {
                self.control.hold_deadline = now as u128 + self.control.prefs.maintain_state_for
                    as u128;
                self.control.hold = true;
            },
            Purpose::HoldElapsed => {
                self.control.update_pending = false;
                self.control.hold_deadline = now as u128 + NO_HOLD as u128;
            },
            _ => {},
        }
        self.wait(now)
    }

    fn start(&mut self, now: u64) -> (action: Action)
        ensures
            final(self).connected_as(old(self)),
            (final(self).control, action@) == old(self).control.started(now),
    {
        self.control.outbox_parked = false;
        self.control.hold_deadline = now as u128 + self.control.prefs.maintain_state_for as u128;
        self.control.hold = false;
        self.control.update_pending = false;
        self.control.settings.hwc_temp_desired =
        self.control.prefs.tap_water_set_point.whole_degrees();
        self.apply_settings(self.control.settings, Purpose::Start)
    }

    fn take_mqtt_event(&mut self, event: MqttEvent, now: u64) -> (action: Action)
        requires
            event matches MqttEvent::Publish { topic, payload } ==> topic@.contains('/'),
        ensures
            final(self).connected_as(old(self)),
            (final(self).control, action@) == old(self).control.judged(
                control::mqtt_verdict(event),
                now,
            ),
    {
        match self.handle_mqtt_message(event) {
            Ok(MqttOutcome::Nothing) => self.wait(now),
            Ok(MqttOutcome::ReadTemperature(target, value)) => {
                self.control.phase = Phase::Reading(target);
                Action::ReadTemperature { text: value, band: self.control.prefs.temperature_band }
            },
            Ok(MqttOutcome::Apply) => self.apply_settings(
                self.control.settings,
                Purpose::ModeChange,
            ),
            Err(reason) => self.finish(reason),
        }
    }

    fn take_temperature(&mut self, temp: Temperature, now: u64) -> (action: Action)
        ensures
            final(self).connected_as(old(self)),
            (final(self).control, action@) == old(self).control.measured(temp, now),
    {
        if temp.equals(&self.control.current_temperature) {
            return self.wait(now);
        }
        self.control.current_temperature = temp;
        match self.update_heater_settings(temp) {
            None => self.wait(now),
            Some(change) => {
                if self.control.hold {
                    self.control.update_pending = true;
                    self.wait(now)
                } else {
                    self.apply_settings(change, Purpose::TemperatureChange)
                }
            },
        }
    }

    fn release_hold(&mut self, now: u64) -> (action: Action)
        ensures
            final(self).connected_as(old(self)),
            (final(self).control, action@) == old(self).control.released(now),
    {
        self.control.hold = false;
        if self.control.update_pending {
            self.apply_settings(self.control.settings, Purpose::HoldElapsed)
        } else {
            self.control.hold_deadline = now as u128 + NO_HOLD as u128;
            self.wait(now)
        }
    }

    fn prefer(&mut self, target: Target, read: ReadNumber) -> (action: Action)
        ensures
            final(self).connected_as(old(self)),
            (final(self).control, action@) == old(self).control.preferring(
                target,
                read,
            ).announcing(Purpose::Preferences),
    {
        match target {
            Target::SetPoint => {
                self.control.prefs.set_point = read.value;
                self.control.prefs.lower_bound = read.below;
                self.control.prefs.higher_bound = read.above;
            },
            Target::HigherBound => {
                self.control.prefs.higher_bound = read.value;
            },
            Target::LowerBound => {
                self.control.prefs.lower_bound = read.value;
            },
        }
        self.announce(Purpose::Preferences)
    }

    fn take_sending_outcome(
        &mut self,
        purpose: Purpose,
        settings: HeaterSettings,
        outcome: Result<(), SendFailure>,
        now: u64,
    ) -> (action: Action)
        requires
            outcome is Err ==> old(self).control.set_fails < u8::MAX,
        ensures
            final(self).connected_as(old(self)),
            (final(self).control, action@) == old(self).control.after_sending(
                purpose,
                settings,
                outcome,
                now,
            ),
    {
        match outcome {
            Ok(_) => {
                self.control.set_fails = 0;
                self.record(settings, purpose, now)
            },
            Err(failure) => {
                self.control.set_fails = self.control.set_fails + 1;
                if let SendFailure::Io(error) = failure {
                    let lower = text::to_lowercase(error.as_str());
                    if lost_connection(lower.as_str()) {
                        self.control.phase = Phase::Reconnecting(purpose, settings);
                        return Action::Reconnect;
                    }
                }
                self.handle_failure(settings, purpose, now)
            },
        }
    }

    /// The event can come now.
    pub fn accepts(&self, event: &RunEvent) -> (accepted: bool)
        ensures
            accepted == self.control.accepts_spec(*event),
    {
        match self.control.phase {
            Phase::Idle => match event {
                RunEvent::Start => self.control.outbox_parked,
                _ => false,
            },
            Phase::Waiting => match event {
                RunEvent::Mqtt(MqttEvent::Publish { topic, payload: _ }) => text::holds_char(
                    topic.as_str(),
                    '/',
                ),
                RunEvent::Mqtt(_) => true,
                RunEvent::MqttError => true,
                RunEvent::Temperature(_) => true,
                RunEvent::Outbox(_) => true,
                RunEvent::KeepAliveDue => true,
                RunEvent::HoldElapsed => true,
                _ => false,
            },
            Phase::Reading(_) => match event {
                RunEvent::TemperatureRead(_) => true,
                _ => false,
            },
            Phase::Sending(_, _) => match event {
                RunEvent::Sent(Ok(_)) => true,
                RunEvent::Sent(Err(_)) => self.control.set_fails < u8::MAX,
                _ => false,
            },
            Phase::Reconnecting(_, _) => match event {
                RunEvent::Reconnected(_) => true,
                _ => false,
            },
            Phase::Defining(_, _) => match event {
                RunEvent::Defined(_) => true,
                _ => false,
            },
            Phase::CoolingDown(_, _) => match event {
                RunEvent::CooledDown => true,
                _ => false,
            },
            Phase::Queueing(_) => match event {
                RunEvent::Queued(_) => true,
                _ => false,
            },
        }
    }

    /// Runs the thermostat on by one event, at the time `now` in nanoseconds:
    /// what is to be done next, and what is to be published on the way.
    pub fn run(&mut self, event: RunEvent, now: u64) -> (step: Step)
        requires
            old(self).control.accepts_spec(event),
        ensures
            final(self).connected_as(old(self)),
            (final(self).control, step@.action) == old(self).control.moved(event, now),
            step@.publish == old(self).control.published(event),
            old(self).control.wf() ==> final(self).control.wf(),
    {
        proof {
            self.control.lemma_wf_kept(event, now);
        }
        let action = match (self.control.phase, event) {
            (Phase::Idle, RunEvent::Start) => self.start(now),
            (Phase::Waiting, RunEvent::Mqtt(e)) => self.take_mqtt_event(e, now),
            (Phase::Waiting, RunEvent::MqttError) => {
                self.control.phase = Phase::Idle;
                self.control.outbox_parked = true;
                Action::Finish(ThermostatError::Restart)
            },
            (Phase::Waiting, RunEvent::Temperature(Some(temp))) => {
                let action = self.take_temperature(temp, now);
                let message = Message {
                    topic: CURRENT_TOPIC.to_string(),
                    payload: Payload::Temperature(temp),
                };
                return Step { publish: Some(publish_lasting(message)), action };
            },
            (Phase::Waiting, RunEvent::Outbox(Some((topic, payload)))) => {
                let action = self.wait(now);
                let message = Message {
                    topic: TOPIC_PREFIX.to_string().concat(topic.as_str()),
                    payload: Payload::Text(payload),
                };
                return Step { publish: Some(publish_lasting(message)), action };
            },
            (Phase::Waiting, RunEvent::KeepAliveDue) => self.apply_settings(
                self.control.settings,
                Purpose::KeepAlive,
            ),
            (Phase::Waiting, RunEvent::HoldElapsed) => self.release_hold(now),
            (Phase::Reading(target), RunEvent::TemperatureRead(Ok(read))) => self.prefer(
                target,
                read,
            ),
            (Phase::Reading(_), RunEvent::TemperatureRead(Err(reason))) => self.finish(reason),
            (Phase::Sending(purpose, settings), RunEvent::Sent(outcome)) =>
            self.take_sending_outcome(purpose, settings, outcome, now),
            (Phase::Reconnecting(purpose, settings), RunEvent::Reconnected(Ok(_))) => {
                self.control.phase = Phase::Defining(purpose, settings);
                Action::Define(Ebusd::define_message(ebusd::SET_MODE_DEFINITION))
            },
            (Phase::Reconnecting(purpose, _), RunEvent::Reconnected(Err(reason))) => self.fail(
                purpose,
                reason,
                now,
            ),
            (Phase::Defining(purpose, settings), RunEvent::Defined(Ok(_))) => self.handle_failure(
                settings,
                purpose,
                now,
            ),
            (Phase::Defining(purpose, _), RunEvent::Defined(Err(reason))) => self.fail(
                purpose,
                reason,
                now,
            ),
            (Phase::CoolingDown(purpose, settings), RunEvent::CooledDown) => {
                self.control.set_fails = 0;
                self.control.settings = settings;
                self.announce(purpose)
            },
            (Phase::Queueing(purpose), RunEvent::Queued(Ok(_))) => self.complete(purpose, now),
            (Phase::Queueing(purpose), RunEvent::Queued(Err(reason))) => self.fail(
                purpose,
                reason,
                now,
            ),
            (_, _) => self.wait(now),
        };
        Step { publish: None, action }
    }
}

// ---------------------------------------------------------------------------
// Laws
// ---------------------------------------------------------------------------

/// A thermometer that no device has is named in the complaint.
pub proof fn law_not_found(entity: Seq<char>)
    ensures
        not_found(entity) == "Thermometer entity "@ + entity + " not found"@,
{
}

/// Thermostats that are connected alike have the same thermometer, broker and
/// credentials.
pub proof fn law_connected(a: Thermostat, b: Thermostat)
    ensures
        a.connected_as(&b) <==> {
            &&& a.thermometer_entity == b.thermometer_entity
            &&& a.mqtt_host == b.mqtt_host
            &&& a.mqtt_username == b.mqtt_username
            &&& a.mqtt_password == b.mqtt_password
        },
{
}

/// What becomes of an event of the MQTT connection: where there is nothing to
/// do, nothing is changed; where a temperature is to be read, its text and its
/// target come out; where a mode is set, the mode alone is changed; and a
/// failure has its reason and changes nothing.
pub proof fn law_verdict_followed(
    outcome: Result<MqttOutcome, String>,
    verdict: control::MqttVerdict,
    before: Control,
    after: Control,
)
    requires
        MqttOutcome::follows(outcome, verdict, before, after),
    ensures
        match verdict {
            control::MqttVerdict::Nothing => outcome == Ok::<MqttOutcome, String>(
                MqttOutcome::Nothing,
            ) && after == before,
            control::MqttVerdict::ReadTemperature(target, value) => {
                &&& outcome matches Ok(MqttOutcome::ReadTemperature(t, v))
                &&& t == target
                &&& v@ == value
                &&& after == before
            },
            control::MqttVerdict::SetMode(mode) => {
                &&& outcome == Ok::<MqttOutcome, String>(MqttOutcome::Apply)
                &&& after.settings.hc_mode == mode
                &&& after == (Control {
                    settings: HeaterSettings { hc_mode: mode, ..before.settings },
                    ..before
                })
            },
            control::MqttVerdict::Fail(reason) => {
                &&& outcome matches Err(e)
                &&& e@ == reason
                &&& after == before
            },
        },
{
}

} // verus!
