//! The Home Assistant side: devices, state events, and the event stream.
use crate::temperature::Temperature;
use crate::text;
use vstd::prelude::*;

verus! {

// ---------------------------------------------------------------------------
// Devices
// ---------------------------------------------------------------------------

/// The answer to the request for devices: one group of devices after the
/// other.
#[derive(Debug, PartialEq, Eq)]
pub struct Namespaces {
    pub namespaces: Vec<Devices>,
}

/// Devices by their identifiers; no identifier stands twice.
#[derive(Debug, PartialEq, Eq)]
pub struct Devices {
    pub devices: Vec<(String, Device)>,
}

/// A device and the groups of its entities.
#[derive(Debug, PartialEq, Eq)]
pub struct Device {
    pub name: String,
    pub entities: Vec<Vec<String>>,
}

impl Devices {
    /// No identifier stands twice.
    pub open spec fn wf(&self) -> bool {
        forall|i: int, j: int|
            #![trigger self.devices@[i], self.devices@[j]]
            0 <= i < j < self.devices@.len() ==> self.devices@[i].0@ != self.devices@[j].0@
    }

    /// The devices by identifier.
    pub open spec fn by_id(&self) -> Map<Seq<char>, Device> {
        devices_by_id(self.devices@)
    }

    /// No devices.
    pub fn new() -> (devices: Devices)
        ensures
            devices.wf(),
            devices.devices@.len() == 0,
            devices.by_id() == Map::<Seq<char>, Device>::empty(),
    {
        let devices = Devices { devices: Vec::new() };
        assert(devices.by_id() =~= Map::<Seq<char>, Device>::empty());
        devices
    }

    /// Enters a device, in the place of an earlier one with its identifier.
    pub fn insert(&mut self, id: String, device: Device)
        requires
            old(self).wf(),
        ensures
            final(self).wf(),
            final(self).by_id() == old(self).by_id().insert(id@, device),
    {
        let ghost before = self.devices@;
        let mut at: usize = 0;
        while at < self.devices.len()
            invariant
                old(self).wf(),
                before == old(self).devices@,
                self.devices@ == before,
                at <= self.devices.len(),
                forall|i: int| 0 <= i < at ==> (#[trigger] before[i]).0@ != id@,
            decreases self.devices.len() - at,
        {
            if text::same_text(self.devices[at].0.as_str(), id.as_str()) {
                proof {
                    lemma_by_id_update(before, at as int, (id, device));
                }
                self.devices.set(at, (id, device));
                return;
            }
            at = at + 1;
        }
        proof {
            lemma_by_id_push(before, (id, device));
        }
        self.devices.push((id, device));
    }
}

/// The devices of `pairs` by identifier.
pub open spec fn devices_by_id(pairs: Seq<(String, Device)>) -> Map<Seq<char>, Device> {
    Map::new(
        |id: Seq<char>| exists|i: int| 0 <= i < pairs.len() && (#[trigger] pairs[i]).0@ == id,
        |id: Seq<char>|
            pairs[choose|i: int| 0 <= i < pairs.len() && (#[trigger] pairs[i]).0@ == id].1,
    )
}

proof fn lemma_by_id_update(pairs: Seq<(String, Device)>, at: int, pair: (String, Device))
    requires
        0 <= at < pairs.len(),
        pairs[at].0@ == pair.0@,
        forall|i: int, j: int|
            #![trigger pairs[i], pairs[j]]
            0 <= i < j < pairs.len() ==> pairs[i].0@ != pairs[j].0@,
    ensures
        devices_by_id(pairs.update(at, pair)) == devices_by_id(pairs).insert(pair.0@, pair.1),
{
    let after = pairs.update(at, pair);
    assert forall|id: Seq<char>|
        devices_by_id(after).dom().contains(id) == devices_by_id(pairs).insert(
            pair.0@,
            pair.1,
        ).dom().contains(id) by {
        if exists|i: int| 0 <= i < after.len() && (#[trigger] after[i]).0@ == id {
            let i = choose|i: int| 0 <= i < after.len() && (#[trigger] after[i]).0@ == id;
            assert(pairs[i].0@ == id);
        }
        if exists|i: int| 0 <= i < pairs.len() && (#[trigger] pairs[i]).0@ == id {
            let i = choose|i: int| 0 <= i < pairs.len() && (#[trigger] pairs[i]).0@ == id;
            assert(after[i].0@ == id);
        }
        assert(after[at].0@ == pair.0@);
    }
    assert forall|id: Seq<char>| devices_by_id(after).dom().contains(id) implies (
    #[trigger] devices_by_id(after)[id]) == devices_by_id(pairs).insert(pair.0@, pair.1)[id] by {
        let i = choose|i: int| 0 <= i < after.len() && (#[trigger] after[i]).0@ == id;
        assert(pairs[i].0@ == id);
        let j = choose|i: int| 0 <= i < pairs.len() && (#[trigger] pairs[i]).0@ == id;
        assert(i == j);
    }
    assert(devices_by_id(after) =~= devices_by_id(pairs).insert(pair.0@, pair.1));
}

proof fn lemma_by_id_push(pairs: Seq<(String, Device)>, pair: (String, Device))
    requires
        forall|i: int| 0 <= i < pairs.len() ==> (#[trigger] pairs[i]).0@ != pair.0@,
        forall|i: int, j: int|
            #![trigger pairs[i], pairs[j]]
            0 <= i < j < pairs.len() ==> pairs[i].0@ != pairs[j].0@,
    ensures
        devices_by_id(pairs.push(pair)) == devices_by_id(pairs).insert(pair.0@, pair.1),
{
    let after = pairs.push(pair);
    assert(after[pairs.len() as int] == pair);
    assert forall|id: Seq<char>|
        devices_by_id(after).dom().contains(id) == devices_by_id(pairs).insert(
            pair.0@,
            pair.1,
        ).dom().contains(id) by {
        if exists|i: int| 0 <= i < after.len() && (#[trigger] after[i]).0@ == id {
            let i = choose|i: int| 0 <= i < after.len() && (#[trigger] after[i]).0@ == id;
            if i < pairs.len() {
                assert(pairs[i].0@ == id);
            }
        }
        if exists|i: int| 0 <= i < pairs.len() && (#[trigger] pairs[i]).0@ == id {
            let i = choose|i: int| 0 <= i < pairs.len() && (#[trigger] pairs[i]).0@ == id;
            assert(after[i].0@ == id);
        }
    }
    assert forall|id: Seq<char>| devices_by_id(after).dom().contains(id) implies (
    #[trigger] devices_by_id(after)[id]) == devices_by_id(pairs).insert(pair.0@, pair.1)[id] by {
        let i = choose|i: int| 0 <= i < after.len() && (#[trigger] after[i]).0@ == id;
        if i < pairs.len() {
            assert(pairs[i].0@ == id);
            let j = choose|i: int| 0 <= i < pairs.len() && (#[trigger] pairs[i]).0@ == id;
            assert(i == j);
        }
    }
    assert(devices_by_id(after) =~= devices_by_id(pairs).insert(pair.0@, pair.1));
}

/// The devices of `groups`, group after group.
pub open spec fn all_devices(groups: Seq<Devices>) -> Seq<Device>
    decreases groups.len(),
{
    if groups.len() == 0 {
        Seq::empty()
    } else {
        all_devices(groups.drop_last()) + group_devices(groups.last().devices@)
    }
}

/// The devices of one group.
pub open spec fn group_devices(pairs: Seq<(String, Device)>) -> Seq<Device> {
    Seq::new(pairs.len(), |i: int| pairs[i].1)
}

impl Namespaces {
    /// The devices of all groups.
    pub fn into_devices(self) -> (devices: Vec<Device>)
        ensures
            devices@ == all_devices(self.namespaces@),
    {
        let groups = self.namespaces;
        let ghost all = groups@;
        let mut devices: Vec<Device> = Vec::new();
        for group in iter: groups
            invariant
                iter.seq() == all,
                devices@ == all_devices(all.take(iter.index() as int)),
        {
            let ghost before = devices@;
            let ghost pairs = group.devices@;
            for pair in inner: group.devices
                invariant
                    inner.seq() == pairs,
                    devices@ == before + group_devices(pairs.take(inner.index() as int)),
            {
                let (_, device) = pair;
                devices.push(device);
                assert(group_devices(pairs.take(inner.index() + 1)) =~= group_devices(
                    pairs.take(inner.index() as int),
                ).push(device));
            }
            assert(pairs.take(pairs.len() as int) =~= pairs);
            assert(all.take(iter.index() + 1).drop_last() =~= all.take(iter.index() as int));
        }
        assert(all.take(all.len() as int) =~= all);
        devices
    }
}

/// Some device of `devices` has the entity.
pub open spec fn has_entity(devices: Seq<Device>, entity: Seq<char>) -> bool {
    exists|d: int, g: int, e: int| entity_at(devices, d, g, e, entity)
}

/// The entity stands at place `e` of group `g` of device `d`.
pub open spec fn entity_at(
    devices: Seq<Device>,
    d: int,
    g: int,
    e: int,
    entity: Seq<char>,
) -> bool {
    &&& 0 <= d < devices.len()
    &&& 0 <= g < devices[d].entities@.len()
    &&& 0 <= e < devices[d].entities@[g]@.len()
    &&& devices[d].entities@[g]@[e]@ == entity
}

/// Some device of `devices` has the entity.
pub fn find_entity(devices: &Vec<Device>, entity: &str) -> (found: bool)
    ensures
        found == has_entity(devices@, entity@),
{
    for d in 0..devices.len()
        invariant
            forall|a: int, g: int, e: int| a < d ==> !entity_at(devices@, a, g, e, entity@),
    {
        let groups = &devices[d].entities;
        for g in 0..groups.len()
            invariant
                0 <= d < devices.len(),
                *groups == devices@[d as int].entities,
                forall|a: int, b: int, e: int|
                    a < d || (a == d && b < g) ==> !entity_at(devices@, a, b, e, entity@),
        {
            let group = &groups[g];
            for e in 0..group.len()
                invariant
                    0 <= d < devices.len(),
                    *groups == devices@[d as int].entities,
                    0 <= g < groups.len(),
                    *group == groups@[g as int],
                    forall|a: int, b: int, c: int|
                        a < d || (a == d && b < g) || (a == d && b == g && c < e) ==> !entity_at(
                            devices@,
                            a,
                            b,
                            c,
                            entity@,
                        ),
            {
                if text::same_text(group[e].as_str(), entity) {
                    assert(entity_at(devices@, d as int, g as int, e as int, entity@));
                    return true;
                }
            }
        }
    }
    false
}

// ---------------------------------------------------------------------------
// State events
// ---------------------------------------------------------------------------

/// A message on the event stream.
#[derive(Debug, PartialEq, Eq)]
pub struct HaMessage {
    pub id: u8,
    pub msg_type: String,
    pub event: Event,
}

/// An event of Home Assistant.
#[derive(Debug, PartialEq, Eq)]
pub struct Event {
    pub event_type: String,
    pub data: EventData,
    pub origin: String,
}

/// The change that an event reports.
#[derive(Debug, PartialEq, Eq)]
pub struct EventData {
    pub old_state: State,
    pub new_state: State,
}

/// The state of an entity.
#[derive(Debug, PartialEq, Eq)]
pub struct State {
    pub entity_id: String,
    pub state: StateValue,
}

/// What the state of an entity is, of all that JSON can hold.
#[derive(Debug, PartialEq, Eq)]
pub enum StateValue {
    Null,
    Bool(bool),
    Number(Temperature),
    Text(String),
    Array,
    Object,
}

/// What an event says of the room temperature.
#[derive(Debug, PartialEq, Eq)]
pub enum Reading {
    /// Nothing.
    Ignored,
    /// The temperature.
    Number(Temperature),
    /// The temperature in text, still to be read as a number.
    Text(String),
}

impl Event {
    /// The event reports a change of the state of `entity`.
    pub open spec fn reports(&self, entity: Seq<char>) -> bool {
        &&& self.event_type@ == "state_changed"@
        &&& self.data.new_state.entity_id@ == entity
    }

    /// `reading` is what the event says of the temperature that `entity`
    /// measures.
    pub open spec fn says(&self, entity: Seq<char>, reading: Reading) -> bool {
        match (self.data.new_state.state, reading) {
            (StateValue::Number(t), Reading::Number(r)) => self.reports(entity) && r == t,
            (StateValue::Text(v), Reading::Text(s)) => self.reports(entity) && s@ == v@,
            (StateValue::Number(_), Reading::Ignored) => !self.reports(entity),
            (StateValue::Text(_), Reading::Ignored) => !self.reports(entity),
            (_, Reading::Ignored) => true,
            (_, _) => false,
        }
    }

    /// What the event says of the temperature that `entity` measures.
    pub fn reading(&self, entity: &str) -> (reading: Reading)
        ensures
            self.says(entity@, reading),
    {
        if !text::same_text(self.event_type.as_str(), "state_changed") {
            return Reading::Ignored;
        }
        if !text::same_text(self.data.new_state.entity_id.as_str(), entity) {
            return Reading::Ignored;
        }
        match &self.data.new_state.state {
            StateValue::Null => Reading::Ignored,
            StateValue::Bool(_) => Reading::Ignored,
            StateValue::Number(t) => Reading::Number(*t),
            StateValue::Text(s) => Reading::Text(s.clone()),
            StateValue::Array => Reading::Ignored,
            StateValue::Object => Reading::Ignored,
        }
    }
}

// ---------------------------------------------------------------------------
// Requests
// ---------------------------------------------------------------------------

/// The template that makes Home Assistant list its devices.
pub const DEVICES_TEMPLATE: &'static str =
    "{\"template\": \"{% set devices = states | map(attribute='entity_id') | map('device_id') | unique | reject('eq',None) | list %}{%- set ns = namespace(devices = []) %}{%- for device in devices %} {%- set entities = device_entities(device) | list %}{%- if entities %}{%- set ns.devices = ns.devices +  [ {device: {\\\"name\\\": device_attr(device, \\\"name\\\"), \\\"entities\\\":[entities ]}} ] %}{%- endif %}{%- endfor %}{{ ns.devices }}\"}";

/// What stands before the token in the message that authenticates.
pub const AUTH_HEAD: &'static str = "\n{\n  \"type\": \"auth\",\n  \"access_token\": \"";

/// What stands behind the token in the message that authenticates.
pub const AUTH_TAIL: &'static str = "\"\n}\n        ";

/// The message that subscribes to changes of state.
pub const SUBSCRIBE: &'static str =
    "\n{\n  \"id\": 18,\n  \"type\": \"subscribe_events\",\n  \"event_type\": \"state_changed\"\n}\n        ";

/// What `reqwest::Url::parse` makes of a text: the URL as it is written out,
/// or what the error prints.
pub uninterp spec fn url_parse(text: Seq<char>) -> Result<Seq<char>, Seq<char>>;

/// Calls `reqwest::Url::parse`, and writes out the URL or the error. Which
/// texts are URLs, and how a URL is written out, is left to the name.
#[verifier::external_body]
pub(crate) fn parse_url(text: &str) -> (url: Result<String, String>)
    ensures
        match url {
            Ok(u) => url_parse(text@) == Ok::<Seq<char>, Seq<char>>(u@),
            Err(e) => url_parse(text@) == Err::<Seq<char>, Seq<char>>(e@),
        },
{
    match reqwest::Url::parse(text) {
        Ok(url) => Ok(url.to_string()),
        Err(error) => Err(error.to_string()),
    }
}

/// An address without the scheme that it may begin with: each kind of
/// connection has a scheme of its own.
pub open spec fn without_scheme(address: Seq<char>) -> Seq<char> {
    if text::occurs_at("http://"@, address, 0) {
        address.skip("http://"@.len() as int)
    } else if text::occurs_at("ws://"@, address, 0) {
        address.skip("ws://"@.len() as int)
    } else {
        address
    }
}

/// The address without the scheme that it may begin with.
pub fn bare(address: &str) -> (bare: String)
    ensures
        bare@ == without_scheme(address@),
{
    match text::after_prefix(address, "http://") {
        Some(rest) => rest,
        None => match text::after_prefix(address, "ws://") {
            Some(rest) => rest,
            None => address.to_string(),
        },
    }
}

/// A request to be posted.
#[derive(Debug, PartialEq, Eq)]
pub struct TemplateRequest {
    pub url: String,
    pub bearer_token: String,
    pub body: String,
}

/// Where a Home Assistant answers, and the token that it asks for.
#[derive(Debug, PartialEq, Eq)]
pub struct Api {
    pub url: String,
    pub bearer_token: String,
}

/// What is waited for while the event stream is set up.
#[derive(Clone, Copy, Debug, PartialEq, Eq)]
pub enum Stage {
    /// The server asks who we are.
    AuthRequired,
    /// The server accepts the token.
    AuthOk,
    /// The server accepts the subscription.
    Subscribed,
}

/// A message on the event stream.
#[derive(Debug, PartialEq, Eq)]
pub enum WsMessage {
    Text(String),
    /// Another kind of message, in the form that is printed of it.
    Other(String),
}

/// What follows a message that was waited for.
#[derive(Debug, PartialEq, Eq)]
pub struct StageDone {
    /// The message to send, if any.
    pub send: Option<String>,
    /// What is waited for next; nothing once events are to come.
    pub next: Option<Stage>,
}

impl Stage {
    /// What the message that is waited for holds.
    pub open spec fn mark(self) -> Seq<char> {
        match self {
            Stage::AuthRequired => "auth_required"@,
            Stage::AuthOk => "auth_ok"@,
            Stage::Subscribed => "success\":true"@,
        }
    }

    /// `message` is what is waited for.
    pub open spec fn met_by(self, message: WsMessage) -> bool {
        message matches WsMessage::Text(s) && text::occurs_in(self.mark(), s@)
    }

    /// What is waited for next.
    pub open spec fn following(self) -> Option<Stage> {
        match self {
            Stage::AuthRequired => Some(Stage::AuthOk),
            Stage::AuthOk => Some(Stage::Subscribed),
            Stage::Subscribed => None,
        }
    }

    /// What is answered to the message that was waited for.
    pub open spec fn answer(self, token: Seq<char>) -> Option<Seq<char>> {
        match self {
            Stage::AuthRequired => Some(AUTH_HEAD@ + token + AUTH_TAIL@),
            Stage::AuthOk => Some(SUBSCRIBE@),
            Stage::Subscribed => None,
        }
    }

    /// What is said of a message that was not waited for.
    pub open spec fn complaint_about(self, message: WsMessage) -> Seq<char> {
        match (self, message) {
            (Stage::AuthOk, WsMessage::Text(s)) => "Invalid ws auth credentials: "@
                + text::debug_form(s@),
            (Stage::Subscribed, WsMessage::Text(s)) => "Failed to subscribe: "@
                + text::debug_form(s@),
            (Stage::Subscribed, WsMessage::Other(shown)) => "Unexpected ws message type: "@
                + shown@,
            (_, _) => "Invalid ws handshake"@,
        }
    }
}

/// A complaint about something, as it is shown.
pub fn complaint(what: &str, shown: &str) -> (text: String)
    ensures
        text@ == what@ + shown@,
{
    what.to_string().concat(shown)
}

impl Api {
    /// The Home Assistant at `url`, with the token that it asks for.
    pub fn new(url: String, bearer_token: String) -> (api: Api)
        ensures
            api.url@ == url@,
            api.bearer_token@ == bearer_token@,
    {
        Api { url, bearer_token }
    }

    /// The request for the devices, or what is wrong with the address.
    pub fn get_devices(&self) -> (request: Result<TemplateRequest, String>)
        ensures
            match (url_parse("http://"@ + self.url@ + "/api/template"@), request) {
                (Ok(url), Ok(r)) => {
                    &&& r.url@ == url
                    &&& r.bearer_token@ == self.bearer_token@
                    &&& r.body@ == DEVICES_TEMPLATE@
                },
                (Err(error), Err(e)) => e@ == error,
                (_, _) => false,
            },
    {
        let address = "http://".to_string().concat(self.url.as_str()).concat("/api/template");
        match parse_url(address.as_str()) {
            Ok(url) => Ok(self.template_request(url)),
            Err(error) => Err(error),
        }
    }

    /// The request for the devices, posted to `url`.
    pub fn template_request(&self, url: String) -> (request: TemplateRequest)
        ensures
            request.url@ == url@,
            request.bearer_token@ == self.bearer_token@,
            request.body@ == DEVICES_TEMPLATE@,
    {
        TemplateRequest {
            url,
            bearer_token: self.bearer_token.clone(),
            body: DEVICES_TEMPLATE.to_string(),
        }
    }

    /// The JSON in the answer to the request for the devices.
    ///
    /// The answer quotes with single quotes, which is no JSON. Double quotes
    /// in their place mend that, except where a value holds a quote.
    pub fn read_devices(answer: Vec<u8>) -> (json: Result<String, String>)
        ensures
            match json {
                Ok(j) => vstd::utf8::valid_utf8(answer@) && j@ == text::with_double_quotes(
                    vstd::utf8::decode_utf8(answer@),
                ),
                Err(e) => !vstd::utf8::valid_utf8(answer@) && e@ == text::utf8_error_text(answer@),
            },
    {
        match text::utf8_text(answer) {
            Ok(answer_text) => Ok(text::to_double_quotes(answer_text.as_str())),
            Err(error) => Err(error),
        }
    }

    /// The address of the event stream, or what is wrong with it.
    pub fn state_updates(&self) -> (url: Result<String, String>)
        ensures
            match (url_parse("ws://"@ + self.url@ + "/api/websocket"@), url) {
                (Ok(u), Ok(r)) => r@ == u,
                (Err(error), Err(e)) => e@ == error,
                (_, _) => false,
            },
    {
        let address = "ws://".to_string().concat(self.url.as_str()).concat("/api/websocket");
        parse_url(address.as_str())
    }

    /// Takes a message while the event stream is set up: what follows if it
    /// is the one that was waited for, else what to say of it.
    pub fn handshake(&self, stage: Stage, message: &WsMessage) -> (outcome: Result<
        StageDone,
        String,
    >)
        ensures
            match outcome {
                Ok(done) => {
                    &&& stage.met_by(*message)
                    &&& done.next == stage.following()
                    &&& match (stage.answer(self.bearer_token@), done.send) {
                        (Some(answer), Some(sent)) => sent@ == answer,
                        (None, None) => true,
                        (_, _) => false,
                    }
                },
                Err(e) => !stage.met_by(*message) && e@ == stage.complaint_about(*message),
            },
    {
        match stage {
            Stage::AuthRequired => match message {
                WsMessage::Text(s) => {
                    if text::contains(s.as_str(), "auth_required") {
                        let auth = AUTH_HEAD.to_string().concat(self.bearer_token.as_str()).concat(
                            AUTH_TAIL,
                        );
                        Ok(StageDone { send: Some(auth), next: Some(Stage::AuthOk) })
                    } else {
                        Err("Invalid ws handshake".to_string())
                    }
                },
                WsMessage::Other(_) => Err("Invalid ws handshake".to_string()),
            },
            Stage::AuthOk => match message {
                WsMessage::Text(s) => {
                    if text::contains(s.as_str(), "auth_ok") {
                        Ok(
                            StageDone {
                                send: Some(SUBSCRIBE.to_string()),
                                next: Some(Stage::Subscribed),
                            },
                        )
                    } else {
                        let shown = text::debug_text(s.as_str());
                        Err(complaint("Invalid ws auth credentials: ", shown.as_str()))
                    }
                },
                WsMessage::Other(_) => Err("Invalid ws handshake".to_string()),
            },
            Stage::Subscribed => match message {
                WsMessage::Text(s) => {
                    if text::contains(s.as_str(), "success\":true") {
                        Ok(StageDone { send: None, next: None })
                    } else {
                        let shown = text::debug_text(s.as_str());
                        Err(complaint("Failed to subscribe: ", shown.as_str()))
                    }
                },
                WsMessage::Other(shown) => Err(
                    complaint("Unexpected ws message type: ", shown.as_str()),
                ),
            },
        }
    }

    /// The event to hand on for a message of the stream: the one that it
    /// carries, and none for a message that could not be read.
    pub fn stream_event(message: Result<HaMessage, String>) -> (event: Option<Event>)
        ensures
            match message {
                Ok(m) => event == Some(m.event),
                Err(_) => event is None,
            },
    {
        match message {
            Ok(m) => Some(m.event),
            Err(_) => None,
        }
    }
}

// ---------------------------------------------------------------------------
// Laws
// ---------------------------------------------------------------------------

/// The devices of all groups are just those that some group holds.
pub proof fn law_all_devices(groups: Seq<Devices>, device: Device)
    ensures
        all_devices(groups).contains(device) <==> exists|g: int, i: int|
            0 <= g < groups.len() && 0 <= i < groups[g].devices@.len() && (
            #[trigger] groups[g].devices@[i]).1 == device,
    decreases groups.len(),
{
    if groups.len() > 0 {
        let front = groups.drop_last();
        let pairs = groups.last().devices@;
        law_all_devices(front, device);
        let head = all_devices(front);
        let tail = group_devices(pairs);
        let all = head + tail;
        if all.contains(device) {
            let k = choose|k: int| 0 <= k < all.len() && all[k] == device;
            if k < head.len() {
                assert(head[k] == device);
                assert(head.contains(device));
                let (g, i) = choose|g: int, i: int|
                    0 <= g < front.len() && 0 <= i < front[g].devices@.len() && (
                    #[trigger] front[g].devices@[i]).1 == device;
                assert(groups[g].devices@[i].1 == device);
            } else {
                let i = k - head.len();
                assert(tail[i] == device);
                assert(groups[groups.len() - 1].devices@[i].1 == device);
            }
        }
        if exists|g: int, i: int|
            0 <= g < groups.len() && 0 <= i < groups[g].devices@.len() && (
            #[trigger] groups[g].devices@[i]).1 == device {
            let (g, i) = choose|g: int, i: int|
                0 <= g < groups.len() && 0 <= i < groups[g].devices@.len() && (
                #[trigger] groups[g].devices@[i]).1 == device;
            if g < front.len() {
                assert(front[g].devices@[i].1 == device);
                let k = choose|k: int| 0 <= k < head.len() && head[k] == device;
                assert(all[k] == device);
            } else {
                assert(tail[i] == device);
                assert(all[head.len() + i] == device);
            }
        }
    }
}

/// `messages` lead from `stage` to the point where events are to come.
pub open spec fn subscribed_by(stage: Stage, messages: Seq<WsMessage>) -> bool
    decreases messages.len(),
{
    &&& messages.len() > 0
    &&& stage.met_by(messages[0])
    &&& match stage.following() {
        Some(next) => subscribed_by(next, messages.drop_first()),
        None => messages.len() == 1,
    }
}

/// The event stream is set up by three messages and no others: a demand for
/// authentication, its acceptance, and the acceptance of the subscription.
pub proof fn law_subscription(messages: Seq<WsMessage>)
    ensures
        subscribed_by(Stage::AuthRequired, messages) <==> {
            &&& messages.len() == 3
            &&& Stage::AuthRequired.met_by(messages[0])
            &&& Stage::AuthOk.met_by(messages[1])
            &&& Stage::Subscribed.met_by(messages[2])
        },
{
    reveal_with_fuel(subscribed_by, 3);
}

/// The token goes into the answer to a demand for authentication, and into no
/// other answer.
pub proof fn law_token_kept(stage: Stage, token: Seq<char>, other: Seq<char>)
    ensures
        stage is AuthRequired ==> stage.answer(token) == Some(AUTH_HEAD@ + token + AUTH_TAIL@),
        stage !is AuthRequired ==> stage.answer(token) == stage.answer(other),
{
}

/// The devices of several groups follow one another, and those of one group
/// stand in its order.
pub proof fn law_devices_in_order(a: Seq<Devices>, b: Seq<Devices>, group: Devices)
    ensures
        all_devices(Seq::empty()) == Seq::<Device>::empty(),
        all_devices(a + b) == all_devices(a) + all_devices(b),
        all_devices(seq![group]).len() == group.devices@.len(),
        forall|i: int|
            0 <= i < group.devices@.len() ==> #[trigger] all_devices(seq![group])[i]
                == group.devices@[i].1,
    decreases b.len(),
{
    assert(seq![group].drop_last() =~= Seq::<Devices>::empty());
    assert(all_devices(Seq::empty()) =~= Seq::<Device>::empty());
    assert(all_devices(seq![group]) =~= group_devices(group.devices@));
    if b.len() == 0 {
        assert(a + b =~= a);
        assert(all_devices(a) + all_devices(b) =~= all_devices(a));
    } else {
        law_devices_in_order(a, b.drop_last(), group);
        assert((a + b).drop_last() =~= a + b.drop_last());
        assert((a + b).last() == b.last());
        assert(all_devices(a + b) =~= all_devices(a) + all_devices(b));
    }
}

/// A device is found under its identifier, and no other is.
pub proof fn law_by_id(devices: Devices, id: Seq<char>)
    requires
        devices.wf(),
    ensures
        devices.by_id().dom().contains(id) <==> exists|i: int|
            0 <= i < devices.devices@.len() && (#[trigger] devices.devices@[i]).0@ == id,
        forall|i: int|
            0 <= i < devices.devices@.len() && (#[trigger] devices.devices@[i]).0@ == id
                ==> devices.by_id()[id] == devices.devices@[i].1,
{
    let pairs = devices.devices@;
    assert forall|i: int| 0 <= i < pairs.len() && (#[trigger] pairs[i]).0@ == id implies
        devices.by_id()[id] == pairs[i].1 by {
        let j = choose|j: int| 0 <= j < pairs.len() && (#[trigger] pairs[j]).0@ == id;
        assert(i == j);
    }
}

/// An entity is there exactly if some group of some device lists it.
pub proof fn law_has_entity(devices: Seq<Device>, entity: Seq<char>)
    ensures
        has_entity(devices, entity) <==> exists|d: int, g: int, e: int|
            0 <= d < devices.len() && 0 <= g < devices[d].entities@.len() && 0 <= e
                < devices[d].entities@[g]@.len() && (#[trigger] devices[d].entities@[g]@[e])@
                == entity,
{
    if has_entity(devices, entity) {
        let (d, g, e) = choose|d: int, g: int, e: int| entity_at(devices, d, g, e, entity);
        assert(devices[d].entities@[g]@[e]@ == entity);
    }
    if exists|d: int, g: int, e: int|
        0 <= d < devices.len() && 0 <= g < devices[d].entities@.len() && 0 <= e
            < devices[d].entities@[g]@.len() && (#[trigger] devices[d].entities@[g]@[e])@
            == entity {
        let (d, g, e) = choose|d: int, g: int, e: int|
            0 <= d < devices.len() && 0 <= g < devices[d].entities@.len() && 0 <= e
                < devices[d].entities@[g]@.len() && (#[trigger] devices[d].entities@[g]@[e])@
                == entity;
        assert(entity_at(devices, d, g, e, entity));
    }
}

/// What a change of the thermometer's state says is its new state: the number or
/// the text that it then shows, and nothing of any other kind of state.
pub proof fn law_reading_is_new_state(event: Event, entity: Seq<char>, reading: Reading)
    requires
        event.says(entity, reading),
        event.event_type@ == "state_changed"@,
        event.data.new_state.entity_id@ == entity,
    ensures
        match event.data.new_state.state {
            StateValue::Number(t) => reading == Reading::Number(t),
            StateValue::Text(shown) => reading matches Reading::Text(s) && s@ == shown@,
            StateValue::Null => reading is Ignored,
            StateValue::Bool(_) => reading is Ignored,
            StateValue::Array => reading is Ignored,
            StateValue::Object => reading is Ignored,
        },
{
}

/// An event of another type, or of another entity, says nothing.
pub proof fn law_other_events(event: Event, entity: Seq<char>, reading: Reading)
    requires
        event.says(entity, reading),
        event.event_type@ != "state_changed"@ || event.data.new_state.entity_id@ != entity,
    ensures
        reading is Ignored,
{
}

/// Two events that agree in type and new state say the same, whatever the state
/// was before and wherever they come from.
pub proof fn law_old_state_is_past(
    a: Event,
    b: Event,
    entity: Seq<char>,
    from_a: Reading,
    from_b: Reading,
)
    requires
        a.event_type@ == b.event_type@,
        a.data.new_state.entity_id@ == b.data.new_state.entity_id@,
        a.data.new_state.state == b.data.new_state.state,
        a.says(entity, from_a),
        b.says(entity, from_b),
    ensures
        match (from_a, from_b) {
            (Reading::Ignored, Reading::Ignored) => true,
            (Reading::Number(x), Reading::Number(y)) => x == y,
            (Reading::Text(x), Reading::Text(y)) => x@ == y@,
            (_, _) => false,
        },
{
}

/// While the stream is set up a text is what is waited for exactly if it holds,
/// anywhere, the demand for authentication, its acceptance, or a success; no
/// other message is.
pub proof fn law_handshake_marks(s: String, shown: String)
    ensures
        Stage::AuthRequired.met_by(WsMessage::Text(s)) <==> exists|a: Seq<char>, b: Seq<char>|
            s@ == #[trigger] (a + "auth_required"@ + b),
        Stage::AuthOk.met_by(WsMessage::Text(s)) <==> exists|a: Seq<char>, b: Seq<char>|
            s@ == #[trigger] (a + "auth_ok"@ + b),
        Stage::Subscribed.met_by(WsMessage::Text(s)) <==> exists|a: Seq<char>, b: Seq<char>|
            s@ == #[trigger] (a + "success\":true"@ + b),
        forall|stage: Stage| !(#[trigger] stage.met_by(WsMessage::Other(shown))),
{
    text::law_occurs("auth_required"@, s@);
    text::law_occurs("auth_ok"@, s@);
    text::law_occurs("success\":true"@, s@);
}

/// The demand for authentication is answered with the token, its acceptance with
/// a subscription to changes of state, and then events are to come.
pub proof fn law_handshake_answers(token: Seq<char>)
    ensures
        Stage::AuthRequired.answer(token) == Some(
            "\n{\n  \"type\": \"auth\",\n  \"access_token\": \""@ + token + "\"\n}\n        "@,
        ),
        Stage::AuthOk.answer(token) == Some(
            "\n{\n  \"id\": 18,\n  \"type\": \"subscribe_events\",\n  \"event_type\": \"state_changed\"\n}\n        "@,
        ),
        Stage::Subscribed.answer(token) is None,
        Stage::AuthRequired.following() == Some(Stage::AuthOk),
        Stage::AuthOk.following() == Some(Stage::Subscribed),
        Stage::Subscribed.following() is None,
{
}

/// A text that was not waited for is shown when it answers the token or the
/// subscription, and so is a message of another kind when it answers the
/// subscription; all else is an invalid handshake.
pub proof fn law_handshake_complaints(s: String, shown: String)
    ensures
        Stage::AuthRequired.complaint_about(WsMessage::Text(s)) == "Invalid ws handshake"@,
        Stage::AuthRequired.complaint_about(WsMessage::Other(shown)) == "Invalid ws handshake"@,
        Stage::AuthOk.complaint_about(WsMessage::Text(s)) == "Invalid ws auth credentials: "@
            + text::debug_form(s@),
        Stage::AuthOk.complaint_about(WsMessage::Other(shown)) == "Invalid ws handshake"@,
        Stage::Subscribed.complaint_about(WsMessage::Text(s)) == "Failed to subscribe: "@
            + text::debug_form(s@),
        Stage::Subscribed.complaint_about(WsMessage::Other(shown))
            == "Unexpected ws message type: "@ + shown@,
{
}

/// An address keeps what stands behind its scheme, and one without a scheme is
/// kept whole.
pub proof fn law_without_scheme(rest: Seq<char>)
    ensures
        without_scheme("http://"@ + rest) == rest,
        without_scheme("ws://"@ + rest) == rest,
        ({
            &&& forall|r: Seq<char>| rest != #[trigger] ("http://"@ + r)
            &&& forall|r: Seq<char>| rest != #[trigger] ("ws://"@ + r)
        }) ==> without_scheme(rest) == rest,
{
    reveal_strlit("http://");
    reveal_strlit("ws://");
    let http = "http://"@ + rest;
    let ws = "ws://"@ + rest;
    text::law_begins("http://"@, http);
    assert(http.skip("http://"@.len() as int) =~= rest);
    text::law_begins("ws://"@, ws);
    assert(ws.skip("ws://"@.len() as int) =~= rest);
    assert(!text::occurs_at("http://"@, ws, 0)) by {
        if text::occurs_at("http://"@, ws, 0) {
            assert(ws.subrange(0, 7)[0] == ws[0]);
            assert(ws[0] == 'w');
            assert("http://"@[0] == 'h');
        }
    }
    text::law_begins("http://"@, rest);
    text::law_begins("ws://"@, rest);
}

/// The template collects, for each device that has entities, its name and the
/// list of them, by the device's identifier.
pub proof fn law_devices_template()
    ensures
        DEVICES_TEMPLATE@
            == "{\"template\": \"{% set devices = states | map(attribute='entity_id') | map('device_id') | unique | reject('eq',None) | list %}{%- set ns = namespace(devices = []) %}{%- for device in devices %} {%- set entities = device_entities(device) | list %}{%- if entities %}{%- set ns.devices = ns.devices +  [ {device: {\\\"name\\\": device_attr(device, \\\"name\\\"), \\\"entities\\\":[entities ]}} ] %}{%- endif %}{%- endfor %}{{ ns.devices }}\"}"@,
{
}

} // verus!
