use vstd::prelude::*;
use crate::topics::Guarantee;
use crate::topics::SubscribeRequest;
use crate::topics::chat_send_topic;
use crate::topics::chat_send_topic_text;
use crate::wire::OutboundMessage;
use crate::wire::content_wire;
use crate::wire::encode_wire;
use crate::text::is_voltage_command;
use crate::text::normalize;
use crate::text::normalized;
use vstd::string::StringExecFns;

verus! {

/// Bit pattern of the binary32 value 10.5, the initial warning threshold.
pub const DEFAULT_THRESHOLD_BITS: u32 = 0x4128_0000;

/// Bit pattern of the binary32 value 0.0, the initial last-seen voltage.
pub const INITIAL_VOLTAGE_BITS: u32 = 0;

/// Fixed numeric identifier of the destination chat channel.
pub const DESTINATION_ID: u64 = 699300787746111528;

/// Outcome of comparing a voltage reading against the warning threshold.
/// `Unordered` covers readings that compare neither below, equal, nor above
/// (a not-a-number reading): such a reading updates the stored voltage but
/// triggers neither alert branch.
pub enum FloatCmp {
    Less,
    Equal,
    Greater,
    Unordered,
}

/// The in-memory session state: the last observed voltage (as the bit
/// pattern of a binary32 value, with its rendered decimal text alongside),
/// the warning threshold, and whether a low-voltage alert is currently
/// outstanding.
pub struct SessionState {
    pub last_voltage_bits: u32,
    pub last_voltage_text: String,
    pub threshold_bits: u32,
    pub warning_active: bool,
}

/// The warning flag after a reading whose comparison against the threshold
/// came out as `cmp`: a reading below the threshold raises it, a reading
/// above clears it, and a reading equal (or unordered) leaves it alone.
pub open spec fn warning_after(active: bool, cmp: FloatCmp) -> bool {
    match cmp {
        FloatCmp::Less => true,
        FloatCmp::Greater => false,
        FloatCmp::Equal => active,
        FloatCmp::Unordered => active,
    }
}

/// The alert text emitted for a reading, if any: a "low" alert on the first
/// reading below the threshold, a "good" alert on a reading above the
/// threshold while an alert is outstanding, and nothing otherwise.
pub open spec fn voltage_message(active: bool, cmp: FloatCmp, rendered: Seq<char>) -> Option<
    Seq<char>,
> {
    match cmp {
        FloatCmp::Less => if !active {
            Some(low_text(rendered))
        } else {
            None
        },
        FloatCmp::Greater => if active {
            Some(good_text(rendered))
        } else {
            None
        },
        FloatCmp::Equal => None,
        FloatCmp::Unordered => None,
    }
}

/// Text of a low-voltage alert for a reading rendered as `rendered`.
pub open spec fn low_text(rendered: Seq<char>) -> Seq<char> {
    "Voltage low: "@ + rendered
}

/// Text of a recovery alert for a reading rendered as `rendered`.
pub open spec fn good_text(rendered: Seq<char>) -> Seq<char> {
    "Voltage good: "@ + rendered
}

/// Text of the reply to the recognized chat command, for a last voltage
/// rendered as `rendered`.
pub open spec fn current_text(rendered: Seq<char>) -> Seq<char> {
    "Current voltage is "@ + rendered
}

impl SessionState {
    /// Fresh session state: no voltage seen yet (0.0, rendered "0"), the
    /// default threshold of 10.5, and no alert outstanding.
    pub fn new() -> (s: SessionState)
        ensures
            s.last_voltage_bits == INITIAL_VOLTAGE_BITS,
            s.last_voltage_text@ == "0"@,
            s.threshold_bits == DEFAULT_THRESHOLD_BITS,
            !s.warning_active,
    {
        SessionState {
            last_voltage_bits: INITIAL_VOLTAGE_BITS,
            last_voltage_text: "0".to_owned(),
            threshold_bits: DEFAULT_THRESHOLD_BITS,
            warning_active: false,
        }
    }
}

/// A voltage reading after the surrounding program has run the binary32
/// primitives on it: its bit pattern, its rendered decimal text, and how it
/// compares to the warning threshold the session held when it arrived.
pub struct Reading {
    pub bits: u32,
    pub rendered: String,
    pub cmp: FloatCmp,
}

/// A publish the surrounding program must issue to the broker.
pub struct PublishRequest {
    pub topic: String,
    pub guarantee: Guarantee,
    pub retain: bool,
    pub payload: String,
}

/// Severity of a diagnostic the surrounding program should log.
pub enum LogLevel {
    Error,
    Warn,
}

/// A diagnostic the core asks the surrounding program to log. Per-message
/// failures are logged and swallowed, never escalated.
pub enum LogEvent {
    VoltagePayloadNotText,
    ChatPayloadNotText,
    UnknownTopic,
    Disconnected,
    Reconnected,
}

/// Severity of each diagnostic: a voltage payload that is not text logs as
/// an error, everything else as a warning.
pub open spec fn level_of(e: LogEvent) -> LogLevel {
    match e {
        LogEvent::VoltagePayloadNotText => LogLevel::Error,
        _ => LogLevel::Warn,
    }
}

impl LogEvent {
    /// Severity this diagnostic should be logged at.
    pub fn level(&self) -> (l: LogLevel)
        ensures
            l == level_of(*self),
    {
        match self {
            LogEvent::VoltagePayloadNotText => LogLevel::Error,
            _ => LogLevel::Warn,
        }
    }
}

/// Everything one inbound notification asks the surrounding program to do:
/// at most one publish, a list of subscriptions to issue (empty except after
/// a reconnection), and at most one diagnostic to log.
pub struct Action {
    pub publish: Option<PublishRequest>,
    pub subscriptions: Vec<SubscribeRequest>,
    pub log: Option<LogEvent>,
}

/// An action that asks for nothing.
pub open spec fn action_silent(a: Action) -> bool {
    a.publish is None && a.subscriptions@.len() == 0 && a.log is None
}

/// An action that only asks for one diagnostic.
pub open spec fn action_log_only(a: Action, e: LogEvent) -> bool {
    a.publish is None && a.subscriptions@.len() == 0 && a.log == Some(e)
}

/// Whether a publish request is exactly the outbound chat send of the given
/// text (when there is one): addressed to the fixed channel, framed in the
/// wire format, on the outbound topic, at-least-once, not retained.
pub open spec fn publish_matches(p: Option<PublishRequest>, m: Option<Seq<char>>) -> bool {
    match (p, m) {
        (Some(p), Some(t)) => p.topic@ == chat_send_topic_text() && p.guarantee
            == Guarantee::AtLeastOnce && !p.retain && p.payload@ == content_wire(
            DESTINATION_ID as int,
            t,
        ),
        (None, None) => true,
        _ => false,
    }
}

impl Action {
    /// The action that asks for nothing.
    pub fn none() -> (a: Action)
        ensures
            action_silent(a),
    {
        Action { publish: None, subscriptions: Vec::new(), log: None }
    }

    /// The action that only asks for one diagnostic.
    pub fn log_only(e: LogEvent) -> (a: Action)
        ensures
            action_log_only(a, e),
    {
        Action { publish: None, subscriptions: Vec::new(), log: Some(e) }
    }
}

/// Builds the publish request that sends `text` to the fixed chat channel.
fn publish_chat(text: String) -> (p: PublishRequest)
    ensures
        publish_matches(Some(p), Some(text@)),
{
    let payload = encode_wire(
        &OutboundMessage::Content { destination_id: DESTINATION_ID, text },
    );
    PublishRequest {
        topic: chat_send_topic(),
        guarantee: Guarantee::AtLeastOnce,
        retain: false,
        payload,
    }
}

/// Applies one voltage reading (or a failed parse) to the session.
///
/// A failed parse is silently ignored. A parsed reading always becomes the
/// last-seen voltage; the warning flag and the emitted alert follow the
/// hysteresis rule: the first reading below the threshold raises the flag
/// and sends the "low" alert, a reading above the threshold clears the flag
/// and sends the "good" alert only if the flag was raised, and a reading
/// equal to the threshold (or unordered) changes nothing but the stored
/// voltage.
pub fn apply_voltage(state: &mut SessionState, reading: Option<Reading>) -> (a: Action)
    ensures
        reading is None ==> *final(state) == *old(state),
        reading matches Some(r) ==> {
            &&& final(state).last_voltage_bits == r.bits
            &&& final(state).last_voltage_text == r.rendered
            &&& final(state).threshold_bits == old(state).threshold_bits
            &&& final(state).warning_active == warning_after(old(state).warning_active, r.cmp)
        },
        publish_matches(
            a.publish,
            match reading {
                Some(r) => voltage_message(old(state).warning_active, r.cmp, r.rendered@),
                None => None,
            },
        ),
        a.subscriptions@.len() == 0,
        a.log is None,
{
    match reading {
        None => Action::none(),
        Some(r) => {
            let Reading { bits, rendered, cmp } = r;
            state.last_voltage_bits = bits;
            let mut publish: Option<PublishRequest> = None;
            match cmp {
                FloatCmp::Less => {
                    if !state.warning_active {
                        state.warning_active = true;
                        let mut t = String::from_str("Voltage low: ");
                        t.append(rendered.as_str());
                        publish = Some(publish_chat(t));
                    }
                },
                FloatCmp::Greater => {
                    if state.warning_active {
                        let mut t = String::from_str("Voltage good: ");
                        t.append(rendered.as_str());
                        publish = Some(publish_chat(t));
                    }
                    state.warning_active = false;
                },
                _ => {},
            }
            state.last_voltage_text = rendered;
            Action { publish, subscriptions: Vec::new(), log: None }
        },
    }
}

/// Applies one threshold update (or a failed parse) to the session.
///
/// A failed parse is silently ignored. A parsed value overwrites the
/// threshold unconditionally; nothing else changes, nothing is emitted, and
/// the warning flag is only re-evaluated on the next voltage reading.
pub fn apply_threshold(state: &mut SessionState, bits: Option<u32>) -> (a: Action)
    ensures
        bits matches Some(b) ==> *final(state) == (SessionState {
            threshold_bits: b,
            ..*old(state)
        }),
        bits is None ==> *final(state) == *old(state),
        action_silent(a),
{
    match bits {
        Some(b) => {
            state.threshold_bits = b;
        },
        None => {},
    }
    Action::none()
}

/// Handles one decoded chat text: replies with the current voltage exactly
/// when the text, lowercased and trimmed, is the recognized command, and
/// stays silent on anything else. Never touches the session state.
pub fn handle_chat(state: &SessionState, text: &str) -> (a: Action)
    ensures
        normalized(text@) == "voltage"@ ==> publish_matches(
            a.publish,
            Some(current_text(state.last_voltage_text@)),
        ),
        normalized(text@) != "voltage"@ ==> a.publish is None,
        a.subscriptions@.len() == 0,
        a.log is None,
{
    let n = normalize(text);
    if is_voltage_command(&n) {
        let mut t = String::from_str("Current voltage is ");
        t.append(state.last_voltage_text.as_str());
        Action { publish: Some(publish_chat(t)), subscriptions: Vec::new(), log: None }
    } else {
        Action::none()
    }
}

} // verus!
