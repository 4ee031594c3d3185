use vstd::prelude::*;
use crate::session::Action;
use crate::session::LogEvent;
use crate::session::SessionState;
use crate::session::action_log_only;
use crate::session::action_silent;
use crate::session::current_text;
use crate::session::handle_chat;
use crate::session::publish_matches;
use crate::text::decode_text;
use crate::text::normalized;
use crate::topics::Route;
use crate::topics::classify;
use crate::topics::resubscribe_ok;
use crate::topics::route_of;
use crate::topics::subscription_set;
use vstd::utf8::decode_utf8;
use vstd::utf8::valid_utf8;

verus! {

/// One notification the broker session delivers: an inbound message, a lost
/// connection, or a re-established connection.
pub enum Notification {
    Publish { topic: String, payload: Vec<u8> },
    Disconnection,
    Reconnection,
}

/// What the dispatcher asks for next. A notification is either fully
/// handled (`Done`), or it carries decimal text that must first go through
/// the binary32 primitives the surrounding program provides: parse the text
/// and compare the value to the current threshold for a reading, parse it
/// alone for a threshold update. The outcome is then handed back through
/// `apply_voltage` or `apply_threshold`.
pub enum Step {
    Done(Action),
    NeedVoltage { text: String },
    NeedThreshold { text: String },
}

/// Dispatches one broker notification.
///
/// Inbound messages are routed by topic: the two telemetry topics yield the
/// decoded text for the number primitives; the chat topic is answered in
/// place; an unknown topic is logged and dropped. A payload that is not
/// UTF-8 is dropped, logged as an error on the voltage topic, as a warning
/// on the chat topic, and silently on the threshold topic. A disconnection
/// is only logged; a reconnection asks for the whole fixed topic set to be
/// subscribed again. The session state itself never changes here.
pub fn handle_notification(state: &SessionState, n: Notification) -> (s: Step)
    ensures
        match n {
            Notification::Publish { topic, payload } => match route_of(topic@) {
                Route::Voltage => if valid_utf8(payload@) {
                    s matches Step::NeedVoltage { text } && text@ == decode_utf8(payload@)
                } else {
                    s matches Step::Done(a) && action_log_only(
                        a,
                        LogEvent::VoltagePayloadNotText,
                    )
                },
                Route::Threshold => if valid_utf8(payload@) {
                    s matches Step::NeedThreshold { text } && text@ == decode_utf8(payload@)
                } else {
                    s matches Step::Done(a) && action_silent(a)
                },
                Route::Chat => if valid_utf8(payload@) {
                    s matches Step::Done(a) && a.subscriptions@.len() == 0 && a.log is None && (
                    if normalized(decode_utf8(payload@)) == "voltage"@ {
                        publish_matches(a.publish, Some(current_text(state.last_voltage_text@)))
                    } else {
                        a.publish is None
                    })
                } else {
                    s matches Step::Done(a) && action_log_only(a, LogEvent::ChatPayloadNotText)
                },
                Route::Unknown => s matches Step::Done(a) && action_log_only(
                    a,
                    LogEvent::UnknownTopic,
                ),
            },
            Notification::Disconnection => s matches Step::Done(a) && action_log_only(
                a,
                LogEvent::Disconnected,
            ),
            Notification::Reconnection => s matches Step::Done(a) && a.publish is None && a.log
                == Some(LogEvent::Reconnected) && resubscribe_ok(a.subscriptions@),
        },
{
    match n {
        Notification::Publish { topic, payload } => match classify(&topic) {
            Route::Voltage => match decode_text(&payload) {
                Some(text) => Step::NeedVoltage { text },
                None => Step::Done(Action::log_only(LogEvent::VoltagePayloadNotText)),
            },
            Route::Threshold => match decode_text(&payload) {
                Some(text) => Step::NeedThreshold { text },
                None => Step::Done(Action::none()),
            },
            Route::Chat => match decode_text(&payload) {
                Some(text) => Step::Done(handle_chat(state, text.as_str())),
                None => Step::Done(Action::log_only(LogEvent::ChatPayloadNotText)),
            },
            Route::Unknown => Step::Done(Action::log_only(LogEvent::UnknownTopic)),
        },
        Notification::Disconnection => Step::Done(Action::log_only(LogEvent::Disconnected)),
        Notification::Reconnection => Step::Done(
            Action {
                publish: None,
                subscriptions: subscription_set(),
                log: Some(LogEvent::Reconnected),
            },
        ),
    }
}

} // verus!
