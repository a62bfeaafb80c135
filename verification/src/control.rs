//! The state of the thermostat, and how each event moves it on.
use crate::ebusd;
use crate::heater::{self, HeaterMode, HeaterSettings, TemperaturePreferences, SECOND};
use crate::temperature::Temperature;
use crate::text;
use vstd::prelude::*;

verus! {

/// The heater forgets its settings after ten minutes, so they are repeated
/// after five.
pub const KEEP_ALIVE: u64 = 300 * SECOND;

/// The pause after too many failures in a row.
pub const COOL_DOWN: u64 = 600 * SECOND;

/// How many failures in a row are borne without a pause.
pub const MAX_FAILS: u8 = 5;

/// How far away the end of a hold is put while nothing is on hold.
pub const NO_HOLD: u64 = 999_999_999 * SECOND;

/// What every topic of the thermostat begins with.
pub const TOPIC_PREFIX: &'static str = "ebus-thermostat/";

/// The topic of the room temperature.
pub const CURRENT_TOPIC: &'static str = "ebus-thermostat/temp/current";

// ---------------------------------------------------------------------------
// Events
// ---------------------------------------------------------------------------

/// An event of the MQTT connection.
#[derive(Debug, PartialEq, Eq)]
pub enum MqttEvent {
    /// A message on a topic that the thermostat has subscribed to.
    Publish { topic: String, payload: Vec<u8> },
    /// The broker ends the connection.
    Disconnect,
    /// Any other packet from the broker.
    Incoming,
    /// A packet to the broker.
    Outgoing,
}

/// A temperature that was read from a text, and the temperatures one band
/// below and one band above it.
#[derive(Clone, Copy, Debug, PartialEq, Eq)]
pub struct ReadNumber {
    pub value: Temperature,
    pub below: Temperature,
    pub above: Temperature,
}

/// Why the heater was not set.
#[derive(Debug, PartialEq, Eq)]
pub enum SendFailure {
    /// The connection failed, with what the error prints.
    Io(String),
    /// The daemon refused, or did not answer in text.
    Other(String),
}

/// What the thermostat is told.
#[derive(Debug, PartialEq, Eq)]
pub enum RunEvent {
    /// A new run begins.
    Start,
    /// The MQTT connection reports an event.
    Mqtt(MqttEvent),
    /// The MQTT connection failed.
    MqttError,
    /// The room temperature was measured; none where the stream has ended.
    Temperature(Option<Temperature>),
    /// A queued message (topic and payload) is due; none where the queue is
    /// closed.
    Outbox(Option<(String, String)>),
    /// It is time to repeat the settings.
    KeepAliveDue,
    /// The hold is over.
    HoldElapsed,
    /// A text was read as a temperature, or could not be.
    TemperatureRead(Result<ReadNumber, String>),
    /// The heater was asked for settings.
    Sent(Result<(), SendFailure>),
    /// The daemon was connected to again, or could not be.
    Reconnected(Result<(), String>),
    /// The message was defined anew, or could not be.
    Defined(Result<(), String>),
    /// The pause is over.
    CooledDown,
    /// Messages were queued, or could not be.
    Queued(Result<(), String>),
}

// ---------------------------------------------------------------------------
// Actions
// ---------------------------------------------------------------------------

/// Why a run of the thermostat ended.
#[derive(Debug, PartialEq, Eq)]
pub enum ThermostatError {
    /// The connections are to be made anew.
    Restart,
    /// Something else went wrong.
    Other(String),
}

impl From<String> for ThermostatError {
    fn from(value: String) -> (error: ThermostatError) {
        ThermostatError::Other(value)
    }
}

impl vstd::std_specs::convert::FromSpecImpl<String> for ThermostatError {
    open spec fn obeys_from_spec() -> bool {
        true
    }

    open spec fn from_spec(value: String) -> ThermostatError {
        ThermostatError::Other(value)
    }
}

/// What a message says.
#[derive(Debug, PartialEq, Eq)]
pub enum Payload {
    Text(String),
    /// A temperature, still to be printed.
    Temperature(Temperature),
}

/// A message and its topic.
#[derive(Debug, PartialEq, Eq)]
pub struct Message {
    pub topic: String,
    pub payload: Payload,
}

/// How surely the broker is to deliver a message.
#[derive(Clone, Copy, Debug, PartialEq, Eq)]
pub enum Qos {
    AtMostOnce,
    AtLeastOnce,
    ExactlyOnce,
}

/// A message for the broker.
#[derive(Debug, PartialEq, Eq)]
pub struct Publication {
    pub message: Message,
    pub qos: Qos,
    /// The broker keeps the message for those who subscribe later.
    pub retain: bool,
}

/// What is to be done next. What comes of it is the next event.
#[derive(Debug, PartialEq, Eq)]
pub enum Action {
    /// Wait for an event: the settings are to be repeated after `repeat_in`,
    /// the hold is over at `hold_until`.
    Wait { repeat_in: u64, hold_until: u128 },
    /// Read the text as a temperature, and the temperatures one band off it.
    ReadTemperature { text: String, band: Temperature },
    /// Write the command to the daemon and read its reply.
    Send(String),
    /// Connect to the daemon again.
    Reconnect,
    /// Write the command that defines the message, and read the reply.
    Define(String),
    /// Pause.
    CoolDown(u64),
    /// Queue the messages, in order.
    Queue(Vec<Message>),
    /// End the run.
    Finish(ThermostatError),
}

/// What follows an event.
#[derive(Debug, PartialEq, Eq)]
pub struct Step {
    /// A message to publish on the way.
    pub publish: Option<Publication>,
    pub action: Action,
}

// ---------------------------------------------------------------------------
// Actions as values
// ---------------------------------------------------------------------------

/// A payload as a value.
pub enum PayloadView {
    Text(Seq<char>),
    Temperature(Temperature),
}

/// A message as a value.
pub struct MessageView {
    pub topic: Seq<char>,
    pub payload: PayloadView,
}

/// A message for the broker as a value.
pub struct PublicationView {
    pub message: MessageView,
    pub qos: Qos,
    pub retain: bool,
}

/// The end of a run as a value.
pub enum ErrorView {
    Restart,
    Other(Seq<char>),
}

/// An action as a value.
pub enum ActionView {
    Wait { repeat_in: u64, hold_until: u128 },
    ReadTemperature { text: Seq<char>, band: Temperature },
    Send(Seq<char>),
    Reconnect,
    Define(Seq<char>),
    CoolDown(u64),
    Queue(Seq<MessageView>),
    Finish(ErrorView),
}

/// A step as a value.
pub struct StepView {
    pub publish: Option<PublicationView>,
    pub action: ActionView,
}

impl View for ThermostatError {
    type V = ErrorView;

    open spec fn view(&self) -> ErrorView {
        match self {
            ThermostatError::Restart => ErrorView::Restart,
            ThermostatError::Other(m) => ErrorView::Other(m@),
        }
    }
}

impl View for Message {
    type V = MessageView;

    open spec fn view(&self) -> MessageView {
        MessageView {
            topic: self.topic@,
            payload: match self.payload {
                Payload::Text(s) => PayloadView::Text(s@),
                Payload::Temperature(t) => PayloadView::Temperature(t),
            },
        }
    }
}

impl View for Publication {
    type V = PublicationView;

    open spec fn view(&self) -> PublicationView {
        PublicationView { message: self.message@, qos: self.qos, retain: self.retain }
    }
}

/// The messages as values.
pub open spec fn message_views(messages: Seq<Message>) -> Seq<MessageView> {
    Seq::new(messages.len(), |i: int| messages[i]@)
}

impl View for Action {
    type V = ActionView;

    open spec fn view(&self) -> ActionView {
        match self {
            Action::Wait { repeat_in, hold_until } => ActionView::Wait {
                repeat_in: *repeat_in,
                hold_until: *hold_until,
            },
            Action::ReadTemperature { text, band } => ActionView::ReadTemperature {
                text: text@,
                band: *band,
            },
            Action::Send(command) => ActionView::Send(command@),
            Action::Reconnect => ActionView::Reconnect,
            Action::Define(command) => ActionView::Define(command@),
            Action::CoolDown(pause) => ActionView::CoolDown(*pause),
            Action::Queue(messages) => ActionView::Queue(message_views(messages@)),
            Action::Finish(error) => ActionView::Finish(error@),
        }
    }
}

impl View for Step {
    type V = StepView;

    open spec fn view(&self) -> StepView {
        StepView {
            publish: match self.publish {
                Some(publication) => Some(publication@),
                None => None,
            },
            action: self.action@,
        }
    }
}

// ---------------------------------------------------------------------------
// State
// ---------------------------------------------------------------------------

/// The temperature that a message sets.
#[derive(Clone, Copy, Debug, PartialEq, Eq)]
pub enum Target {
    /// The set point, and with it both bounds.
    SetPoint,
    HigherBound,
    LowerBound,
}

/// Why the settings are applied, or the state is announced.
#[derive(Clone, Copy, Debug, PartialEq, Eq)]
pub enum Purpose {
    /// A run has begun.
    Start,
    /// The room temperature has crossed a bound.
    TemperatureChange,
    /// The settings are repeated.
    KeepAlive,
    /// A hold is over during which a bound was crossed.
    HoldElapsed,
    /// A message has set the mode.
    ModeChange,
    /// A message has set a temperature; the heater is told nothing.
    Preferences,
}

/// What the thermostat is in the middle of.
#[derive(Clone, Copy, Debug, PartialEq, Eq)]
pub enum Phase {
    /// No run is on.
    Idle,
    /// Waiting for whatever comes.
    Waiting,
    /// A text is being read as a temperature.
    Reading(Target),
    /// The heater is being asked for settings.
    Sending(Purpose, HeaterSettings),
    /// The daemon is being connected to again.
    Reconnecting(Purpose, HeaterSettings),
    /// The message is being defined anew.
    Defining(Purpose, HeaterSettings),
    /// The pause after too many failures is on.
    CoolingDown(Purpose, HeaterSettings),
    /// The state is being announced.
    Queueing(Purpose),
}

/// The state of the thermostat.
#[derive(Clone, Copy, Debug, PartialEq, Eq)]
pub struct Control {
    pub prefs: TemperaturePreferences,
    pub settings: HeaterSettings,
    pub current_temperature: Temperature,
    /// When the heater was last asked for settings, in nanoseconds: the time
    /// at which what came of it had been dealt with, before any pause.
    pub last_mode_set_time: Option<u64>,
    /// How often in a row the heater could not be set.
    pub set_fails: u8,
    pub phase: Phase,
    /// A change of the heating is being kept.
    pub hold: bool,
    /// A bound was crossed while a change was being kept.
    pub update_pending: bool,
    /// When the hold is over, in nanoseconds.
    pub hold_deadline: u128,
    /// The queue's receiving end waits for the next run.
    pub outbox_parked: bool,
}

impl Purpose {
    /// A failure ends the run.
    pub open spec fn fatal_spec(self) -> bool {
        self is Start || self is ModeChange || self is Preferences
    }
}

/// A flow temperature that the thermostat asks for: none, or the one of an
/// active heater.
pub open spec fn two_valued(settings: HeaterSettings) -> bool {
    settings.flow_temp_desired == 0 || settings.flow_temp_desired == heater::ACTIVE_FLOW_TEMP
}

impl Control {
    /// The heater is still to be asked for settings for the first time, or is
    /// just being asked.
    pub open spec fn untold(self) -> bool {
        match self.phase {
            Phase::Idle => true,
            Phase::Sending(purpose, _) => purpose is Start,
            Phase::Reconnecting(purpose, _) => purpose is Start,
            Phase::Defining(purpose, _) => purpose is Start,
            _ => false,
        }
    }

    /// What holds of the state at all times: only two flow temperatures are
    /// ever asked for; a pause is made exactly after too many failures, so
    /// none is outstanding when settings have been applied; the queue waits
    /// only while no run is on; and it is known when the heater was last asked
    /// for settings, unless it never was.
    pub open spec fn wf(self) -> bool {
        &&& two_valued(self.settings)
        &&& self.outbox_parked ==> self.phase is Idle
        &&& self.last_mode_set_time is None ==> self.untold()
        &&& match self.phase {
            Phase::Sending(purpose, settings) => two_valued(settings) && purpose !is Preferences,
            Phase::Reconnecting(purpose, settings) => two_valued(settings)
                && purpose !is Preferences,
            Phase::Defining(purpose, settings) => two_valued(settings) && purpose !is Preferences,
            Phase::CoolingDown(purpose, settings) => two_valued(settings)
                && purpose !is Preferences && self.set_fails > MAX_FAILS,
            Phase::Queueing(purpose) => purpose !is Preferences ==> self.set_fails <= MAX_FAILS,
            _ => true,
        }
    }

    /// Nothing has happened yet.
    pub open spec fn fresh(self) -> bool {
        &&& heater::default_preferences(self.prefs)
        &&& self.settings == heater::default_settings()
        &&& heater::is_degrees(self.current_temperature, 0)
        &&& !self.current_temperature.negative()
        &&& self.last_mode_set_time is None
        &&& self.set_fails == 0
        &&& self.phase is Idle
        &&& !self.hold
        &&& !self.update_pending
        &&& self.hold_deadline == 0
        &&& self.outbox_parked
    }

    /// The event can come now. A failure to set the heater is counted, so it
    /// cannot come where the count is at its end; a topic has two parts or
    /// more.
    pub open spec fn accepts_spec(self, event: RunEvent) -> bool {
        match self.phase {
            Phase::Idle => event is Start && self.outbox_parked,
            Phase::Waiting => match event {
                RunEvent::Mqtt(MqttEvent::Publish { topic, payload }) => topic@.contains('/'),
                RunEvent::Mqtt(_) => true,
                RunEvent::MqttError => true,
                RunEvent::Temperature(_) => true,
                RunEvent::Outbox(_) => true,
                RunEvent::KeepAliveDue => true,
                RunEvent::HoldElapsed => true,
                _ => false,
            },
            Phase::Reading(_) => event is TemperatureRead,
            Phase::Sending(_, _) => match event {
                RunEvent::Sent(Ok(_)) => true,
                RunEvent::Sent(Err(_)) => self.set_fails < u8::MAX,
                _ => false,
            },
            Phase::Reconnecting(_, _) => event is Reconnected,
            Phase::Defining(_, _) => event is Defined,
            Phase::CoolingDown(_, _) => event is CooledDown,
            Phase::Queueing(_) => event is Queued,
        }
    }
}

// ---------------------------------------------------------------------------
// Messages from the broker
// ---------------------------------------------------------------------------

/// What a message on a topic is about.
#[derive(Clone, Copy, Debug, PartialEq, Eq)]
pub enum TopicCommand {
    /// Nothing that concerns the thermostat.
    Ignore,
    /// A temperature to be set.
    SetTemperature(Target),
    /// The mode to be set.
    SetMode,
}

/// What a message is about, by the parts of its topic.
pub open spec fn command_of(parts: Seq<Seq<char>>) -> TopicCommand {
    if parts.len() <= 2 {
        TopicCommand::Ignore
    } else if parts[1] == "temp"@ {
        if parts[2] == "set"@ {
            TopicCommand::SetTemperature(Target::SetPoint)
        } else if parts[2] == "high"@ && parts.len() >= 4 && parts[3] == "set"@ {
            TopicCommand::SetTemperature(Target::HigherBound)
        } else if parts[2] == "low"@ && parts.len() >= 4 && parts[3] == "set"@ {
            TopicCommand::SetTemperature(Target::LowerBound)
        } else {
            TopicCommand::Ignore
        }
    } else if parts[1] == "mode"@ && parts[2] == "set"@ {
        TopicCommand::SetMode
    } else {
        TopicCommand::Ignore
    }
}

/// What is to be done about an event of the MQTT connection.
pub enum MqttVerdict {
    Nothing,
    /// Read the text as a temperature, and set it.
    ReadTemperature(Target, Seq<char>),
    /// Set the mode, and apply the settings.
    SetMode(HeaterMode),
    /// Give up, for the reason given.
    Fail(Seq<char>),
}

/// What is to be done about an event of the MQTT connection.
pub open spec fn mqtt_verdict(event: MqttEvent) -> MqttVerdict {
    match event {
        MqttEvent::Publish { topic, payload } => publish_verdict(topic@, payload@),
        MqttEvent::Disconnect => MqttVerdict::Fail("MQTT disconnect"@),
        MqttEvent::Incoming => MqttVerdict::Nothing,
        MqttEvent::Outgoing => MqttVerdict::Nothing,
    }
}

/// What is to be done about a message.
pub open spec fn publish_verdict(topic: Seq<char>, payload: Seq<u8>) -> MqttVerdict {
    let command = command_of(text::split_on(topic, '/'));
    if command is Ignore {
        MqttVerdict::Nothing
    } else if !vstd::utf8::valid_utf8(payload) {
        MqttVerdict::Fail(text::utf8_error_text(payload))
    } else {
        command_verdict(command, vstd::utf8::decode_utf8(payload))
    }
}

/// What is to be done about a message whose text is `value`.
pub open spec fn command_verdict(command: TopicCommand, value: Seq<char>) -> MqttVerdict {
    match command {
        TopicCommand::Ignore => MqttVerdict::Nothing,
        TopicCommand::SetTemperature(target) => MqttVerdict::ReadTemperature(target, value),
        TopicCommand::SetMode => match heater::mode_named(value) {
            Some(mode) => MqttVerdict::SetMode(mode),
            None => MqttVerdict::Fail("Invalid heater mode"@),
        },
    }
}

// ---------------------------------------------------------------------------
// Transitions
// ---------------------------------------------------------------------------

/// How long to wait until the settings are to be repeated.
pub open spec fn repeat_delay(last_mode_set_time: Option<u64>, now: u64) -> u64 {
    match last_mode_set_time {
        None => KEEP_ALIVE,
        Some(last) => if now <= last {
            KEEP_ALIVE
        } else if now - last >= KEEP_ALIVE {
            0
        } else {
            (KEEP_ALIVE - (now - last)) as u64
        },
    }
}

/// The error text tells of a lost connection; `lower` is the text in small
/// letters.
pub open spec fn tells_of_lost_connection(lower: Seq<char>) -> bool {
    text::occurs_in("broken pipe"@, lower) || text::occurs_in("connection"@, lower)
}

/// What is announced: the mode, the two bounds, and the set point.
pub open spec fn status_messages(
    mode: HeaterMode,
    prefs: TemperaturePreferences,
) -> Seq<MessageView> {
    seq![
        MessageView { topic: "mode"@, payload: PayloadView::Text(mode.name()) },
        MessageView {
            topic: "temp/low"@,
            payload: PayloadView::Temperature(prefs.lower_bound),
        },
        MessageView {
            topic: "temp/high"@,
            payload: PayloadView::Temperature(prefs.higher_bound),
        },
        MessageView { topic: "temp"@, payload: PayloadView::Temperature(prefs.set_point) },
    ]
}

/// The message is to be delivered at least once, and to be kept by the broker.
pub open spec fn lasting(message: MessageView) -> PublicationView {
    PublicationView { message, qos: Qos::AtLeastOnce, retain: true }
}

impl Control {
    /// Nothing is left to do: wait.
    pub open spec fn waiting(self, now: u64) -> (Control, ActionView) {
        (
            Control { phase: Phase::Waiting, ..self },
            ActionView::Wait {
                repeat_in: repeat_delay(self.last_mode_set_time, now),
                hold_until: self.hold_deadline,
            },
        )
    }

    /// The run ends, and takes the queue with it.
    pub open spec fn finished(self, reason: Seq<char>) -> (Control, ActionView) {
        (
            Control { phase: Phase::Idle, ..self },
            ActionView::Finish(ErrorView::Other(reason)),
        )
    }

    /// The heater is asked for `settings`.
    pub open spec fn applying(self, settings: HeaterSettings, purpose: Purpose) -> (
        Control,
        ActionView,
    ) {
        (
            Control { phase: Phase::Sending(purpose, settings), ..self },
            ActionView::Send(ebusd::set_mode_command(settings)),
        )
    }

    /// The state is announced.
    pub open spec fn announcing(self, purpose: Purpose) -> (Control, ActionView) {
        (
            Control { phase: Phase::Queueing(purpose), ..self },
            ActionView::Queue(status_messages(self.settings.hc_mode, self.prefs)),
        )
    }

    /// The settings count as applied from now on.
    pub open spec fn recorded(self, settings: HeaterSettings, purpose: Purpose, now: u64) -> (
        Control,
        ActionView,
    ) {
        Control { last_mode_set_time: Some(now), settings, ..self }.announcing(purpose)
    }

    /// A failure has been dealt with: pause if there were too many. The pause
    /// counts towards the time after which the settings are repeated.
    pub open spec fn failure_handled(
        self,
        settings: HeaterSettings,
        purpose: Purpose,
        now: u64,
    ) -> (Control, ActionView) {
        if self.set_fails > MAX_FAILS {
            (
                Control {
                    last_mode_set_time: Some(now),
                    phase: Phase::CoolingDown(purpose, settings),
                    ..self
                },
                ActionView::CoolDown(COOL_DOWN),
            )
        } else {
            self.recorded(settings, purpose, now)
        }
    }

    /// What was begun for `purpose` has failed.
    pub open spec fn failed(self, purpose: Purpose, reason: Seq<char>, now: u64) -> (
        Control,
        ActionView,
    ) {
        if purpose.fatal_spec() {
            self.finished(reason)
        } else if purpose is HoldElapsed {
            Control { hold_deadline: (now + NO_HOLD) as u128, ..self }.waiting(now)
        } else {
            self.waiting(now)
        }
    }

    /// What was begun for `purpose` is done.
    pub open spec fn completed(self, purpose: Purpose, now: u64) -> (Control, ActionView) {
        match purpose {
            Purpose::TemperatureChange => Control {
                hold: true,
                hold_deadline: (now + self.prefs.maintain_state_for) as u128,
                ..self
            }.waiting(now),
            Purpose::HoldElapsed => Control {
                update_pending: false,
                hold_deadline: (now + NO_HOLD) as u128,
                ..self
            }.waiting(now),
            _ => self.waiting(now),
        }
    }

    /// A run begins: nothing is on hold, the tap water is set as preferred,
    /// and the settings are applied.
    pub open spec fn started(self, now: u64) -> (Control, ActionView) {
        let settings = HeaterSettings {
            hwc_temp_desired: self.prefs.tap_water_set_point.whole_degrees_spec(),
            ..self.settings
        };
        Control {
            settings,
            hold: false,
            update_pending: false,
            hold_deadline: (now + self.prefs.maintain_state_for) as u128,
            outbox_parked: false,
            ..self
        }.applying(settings, Purpose::Start)
    }

    /// An event of the MQTT connection was judged.
    pub open spec fn judged(self, verdict: MqttVerdict, now: u64) -> (Control, ActionView) {
        match verdict {
            MqttVerdict::Nothing => self.waiting(now),
            MqttVerdict::ReadTemperature(target, value) => (
                Control { phase: Phase::Reading(target), ..self },
                ActionView::ReadTemperature { text: value, band: self.prefs.temperature_band },
            ),
            MqttVerdict::SetMode(mode) => {
                let settings = HeaterSettings { hc_mode: mode, ..self.settings };
                Control { settings, ..self }.applying(settings, Purpose::ModeChange)
            },
            MqttVerdict::Fail(reason) => self.finished(reason),
        }
    }

    /// The connections are to be made anew; the queue waits for the next run.
    pub open spec fn restarting(self) -> (Control, ActionView) {
        (
            Control { phase: Phase::Idle, outbox_parked: true, ..self },
            ActionView::Finish(ErrorView::Restart),
        )
    }

    /// The room is at temperature `t`.
    pub open spec fn measured(self, t: Temperature, now: u64) -> (Control, ActionView) {
        if t.equals_spec(self.current_temperature) {
            self.waiting(now)
        } else {
            let noted = Control { current_temperature: t, ..self };
            match heater::heating_change(self.settings, self.prefs, t) {
                None => noted.waiting(now),
                Some(change) => if self.hold {
                    Control { update_pending: true, ..noted }.waiting(now)
                } else {
                    noted.applying(change, Purpose::TemperatureChange)
                },
            }
        }
    }

    /// The hold is over.
    pub open spec fn released(self, now: u64) -> (Control, ActionView) {
        let free = Control { hold: false, ..self };
        if self.update_pending {
            free.applying(self.settings, Purpose::HoldElapsed)
        } else {
            Control { hold_deadline: (now + NO_HOLD) as u128, ..free }.waiting(now)
        }
    }

    /// The preferences with a temperature that a message has set.
    pub open spec fn preferring(self, target: Target, read: ReadNumber) -> Control {
        let prefs = match target {
            Target::SetPoint => TemperaturePreferences {
                set_point: read.value,
                lower_bound: read.below,
                higher_bound: read.above,
                ..self.prefs
            },
            Target::HigherBound => TemperaturePreferences {
                higher_bound: read.value,
                ..self.prefs
            },
            Target::LowerBound => TemperaturePreferences { lower_bound: read.value, ..self.prefs },
        };
        Control { prefs, ..self }
    }

    /// The heater was asked for settings.
    pub open spec fn after_sending(
        self,
        purpose: Purpose,
        settings: HeaterSettings,
        outcome: Result<(), SendFailure>,
        now: u64,
    ) -> (Control, ActionView) {
        match outcome {
            Ok(_) => Control { set_fails: 0, ..self }.recorded(settings, purpose, now),
            Err(failure) => {
                let counted = Control { set_fails: (self.set_fails + 1) as u8, ..self };
                if failure matches SendFailure::Io(error) && tells_of_lost_connection(
                    text::lowercase(error@),
                ) {
                    (
                        Control { phase: Phase::Reconnecting(purpose, settings), ..counted },
                        ActionView::Reconnect,
                    )
                } else {
                    counted.failure_handled(settings, purpose, now)
                }
            },
        }
    }

    /// The state after the event, and what is to be done next.
    pub open spec fn moved(self, event: RunEvent, now: u64) -> (Control, ActionView) {
        match (self.phase, event) {
            (Phase::Idle, RunEvent::Start) => self.started(now),
            (Phase::Waiting, RunEvent::Mqtt(e)) => self.judged(mqtt_verdict(e), now),
            (Phase::Waiting, RunEvent::MqttError) => self.restarting(),
            (Phase::Waiting, RunEvent::Temperature(Some(t))) => self.measured(t, now),
            (Phase::Waiting, RunEvent::KeepAliveDue) => self.applying(
                self.settings,
                Purpose::KeepAlive,
            ),
            (Phase::Waiting, RunEvent::HoldElapsed) => self.released(now),
            (Phase::Reading(target), RunEvent::TemperatureRead(Ok(read))) => self.preferring(
                target,
                read,
            ).announcing(Purpose::Preferences),
            (Phase::Reading(_), RunEvent::TemperatureRead(Err(reason))) => self.finished(reason@),
            (Phase::Sending(purpose, settings), RunEvent::Sent(outcome)) => self.after_sending(
                purpose,
                settings,
                outcome,
                now,
            ),
            (Phase::Reconnecting(purpose, settings), RunEvent::Reconnected(Ok(_))) => (
                Control { phase: Phase::Defining(purpose, settings), ..self },
                ActionView::Define(ebusd::define_command(ebusd::SET_MODE_DEFINITION@)),
            ),
            (Phase::Reconnecting(purpose, _), RunEvent::Reconnected(Err(reason))) => self.failed(
                purpose,
                reason@,
                now,
            ),
            (Phase::Defining(purpose, settings), RunEvent::Defined(Ok(_))) => self.failure_handled(
                settings,
                purpose,
                now,
            ),
            (Phase::Defining(purpose, _), RunEvent::Defined(Err(reason))) => self.failed(
                purpose,
                reason@,
                now,
            ),
            (Phase::CoolingDown(purpose, settings), RunEvent::CooledDown) => Control {
                set_fails: 0,
                settings,
                ..self
            }.announcing(purpose),
            (Phase::Queueing(purpose), RunEvent::Queued(Ok(_))) => self.completed(purpose, now),
            (Phase::Queueing(purpose), RunEvent::Queued(Err(reason))) => self.failed(
                purpose,
                reason@,
                now,
            ),
            (_, _) => self.waiting(now),
        }
    }

    /// What is published on the way: each measured temperature, and each
    /// message of the queue.
    pub open spec fn published(self, event: RunEvent) -> Option<PublicationView> {
        match event {
            RunEvent::Temperature(Some(t)) => Some(
                lasting(
                    MessageView { topic: CURRENT_TOPIC@, payload: PayloadView::Temperature(t) },
                ),
            ),
            RunEvent::Outbox(Some(m)) => Some(
                lasting(
                    MessageView {
                        topic: TOPIC_PREFIX@ + m.0@,
                        payload: PayloadView::Text(m.1@),
                    },
                ),
            ),
            _ => None,
        }
    }
}

// ---------------------------------------------------------------------------
// The invariant
// ---------------------------------------------------------------------------

impl Control {
    /// Every event that can come keeps the invariant.
    pub proof fn lemma_wf_kept(self, event: RunEvent, now: u64)
        requires
            self.accepts_spec(event),
        ensures
            self.wf() ==> self.moved(event, now).0.wf(),
    {
    }
}

} // verus!
