use vstd::prelude::*;
use crate::session::DESTINATION_ID;
use crate::text::string_from_chars;
use crate::wire::dec_digits;
use crate::wire::u64_decimal_chars;
use vstd::string::StringExecFns;

verus! {

/// Delivery guarantee a broker request is made with.
pub enum Guarantee {
    AtMostOnce,
    AtLeastOnce,
}

/// The handler an inbound topic is routed to.
pub enum Route {
    Voltage,
    Threshold,
    Chat,
    Unknown,
}

/// A subscription the surrounding program must issue to the broker.
pub struct SubscribeRequest {
    pub topic: String,
    pub guarantee: Guarantee,
}

/// Topic carrying voltage readings.
pub open spec fn voltage_topic_text() -> Seq<char> {
    "telemetry/voltage"@
}

/// Topic carrying threshold updates.
pub open spec fn threshold_topic_text() -> Seq<char> {
    "telemetry/warning_voltage"@
}

/// Topic carrying inbound chat text for the fixed destination channel.
pub open spec fn chat_receive_topic_text() -> Seq<char> {
    "chat/receive/"@ + dec_digits(DESTINATION_ID as int)
}

/// Topic outbound chat messages are published on.
pub open spec fn chat_send_topic_text() -> Seq<char> {
    "chat/send"@
}

/// Builds the voltage topic string.
pub fn voltage_topic() -> (r: String)
    ensures
        r@ == voltage_topic_text(),
{
    String::from_str("telemetry/voltage")
}

/// Builds the threshold topic string.
pub fn threshold_topic() -> (r: String)
    ensures
        r@ == threshold_topic_text(),
{
    String::from_str("telemetry/warning_voltage")
}

/// Builds the chat-receive topic string, with the destination channel
/// identifier interpolated in decimal.
pub fn chat_receive_topic() -> (r: String)
    ensures
        r@ == chat_receive_topic_text(),
{
    let mut s = String::from_str("chat/receive/");
    let digits = string_from_chars(&u64_decimal_chars(DESTINATION_ID));
    s.append(digits.as_str());
    s
}

/// Builds the outbound chat topic string.
pub fn chat_send_topic() -> (r: String)
    ensures
        r@ == chat_send_topic_text(),
{
    String::from_str("chat/send")
}

/// Which handler an inbound topic belongs to.
pub open spec fn route_of(t: Seq<char>) -> Route {
    if t == voltage_topic_text() {
        Route::Voltage
    } else if t == threshold_topic_text() {
        Route::Threshold
    } else if t == chat_receive_topic_text() {
        Route::Chat
    } else {
        Route::Unknown
    }
}

/// Routes an inbound topic to its handler; anything but the three
/// subscribed topics is unknown.
pub fn classify(topic: &String) -> (r: Route)
    ensures
        r == route_of(topic@),
{
    let vt = voltage_topic();
    let tt = threshold_topic();
    let ct = chat_receive_topic();
    if *topic == vt {
        Route::Voltage
    } else if *topic == tt {
        Route::Threshold
    } else if *topic == ct {
        Route::Chat
    } else {
        Route::Unknown
    }
}

/// The topics subscribed to at startup and again after every reconnection,
/// in order.
pub open spec fn subscription_topics() -> Seq<Seq<char>> {
    seq![voltage_topic_text(), threshold_topic_text(), chat_receive_topic_text()]
}

/// Whether a subscription list is exactly the fixed topic set, each topic
/// once, in order, all at-most-once.
pub open spec fn resubscribe_ok(subs: Seq<SubscribeRequest>) -> bool {
    &&& subs.len() == subscription_topics().len()
    &&& forall|i: int|
        0 <= i < subs.len() ==> subs[i].topic@ == subscription_topics()[i] && subs[i].guarantee
            == Guarantee::AtMostOnce
}

/// Builds the fixed subscription set.
pub fn subscription_set() -> (r: Vec<SubscribeRequest>)
    ensures
        resubscribe_ok(r@),
{
    let mut v: Vec<SubscribeRequest> = Vec::new();
    v.push(SubscribeRequest { topic: voltage_topic(), guarantee: Guarantee::AtMostOnce });
    v.push(SubscribeRequest { topic: threshold_topic(), guarantee: Guarantee::AtMostOnce });
    v.push(SubscribeRequest { topic: chat_receive_topic(), guarantee: Guarantee::AtMostOnce });
    v
}

} // verus!
