use voltbridge::dispatch::{handle_notification, Notification, Step};
use voltbridge::session::{
    apply_threshold, apply_voltage, Action, FloatCmp, LogEvent, LogLevel, Reading, SessionState,
    DEFAULT_THRESHOLD_BITS, DESTINATION_ID, INITIAL_VOLTAGE_BITS,
};
use voltbridge::topics::Guarantee;
use voltbridge::wire::OutboundMessage;
use voltbridge::wire::encode_wire;

/// Runs the part of the event loop the library leaves to the surrounding
/// program: the binary32 parse, comparison and rendering.
fn drive(state: &mut SessionState, topic: &str, payload: &[u8]) -> Action {
    let step = handle_notification(
        state,
        Notification::Publish { topic: topic.to_string(), payload: payload.to_vec() },
    );
    match step {
        Step::Done(a) => a,
        Step::NeedVoltage { text } => match text.parse::<f32>() {
            Ok(v) => {
                let threshold = f32::from_bits(state.threshold_bits);
                let cmp = match v.partial_cmp(&threshold) {
                    Some(std::cmp::Ordering::Less) => FloatCmp::Less,
                    Some(std::cmp::Ordering::Equal) => FloatCmp::Equal,
                    Some(std::cmp::Ordering::Greater) => FloatCmp::Greater,
                    None => FloatCmp::Unordered,
                };
                apply_voltage(
                    state,
                    Some(Reading { bits: v.to_bits(), rendered: format!("{}", v), cmp }),
                )
            }
            Err(_) => apply_voltage(state, None),
        },
        Step::NeedThreshold { text } => {
            apply_threshold(state, text.parse::<f32>().ok().map(f32::to_bits))
        }
    }
}

fn sent_content(a: &Action) -> Option<String> {
    a.publish.as_ref().map(|p| {
        assert_eq!(p.topic, "chat/send");
        assert!(matches!(p.guarantee, Guarantee::AtLeastOnce));
        assert!(!p.retain);
        let v: serde_json::Value = serde_json::from_str(&p.payload).unwrap();
        assert_eq!(v["Message"]["channel_id"].as_u64(), Some(DESTINATION_ID));
        v["Message"]["content"].as_str().unwrap().to_string()
    })
}

fn assert_silent(a: &Action) {
    assert!(a.publish.is_none());
    assert!(a.subscriptions.is_empty());
    assert!(a.log.is_none());
}

#[test]
fn default_state_matches_binary32_constants() {
    let s = SessionState::new();
    assert_eq!(s.threshold_bits, 10.5f32.to_bits());
    assert_eq!(s.threshold_bits, DEFAULT_THRESHOLD_BITS);
    assert_eq!(s.last_voltage_bits, 0.0f32.to_bits());
    assert_eq!(s.last_voltage_bits, INITIAL_VOLTAGE_BITS);
    assert_eq!(s.last_voltage_text, format!("{}", 0.0f32));
    assert!(!s.warning_active);
}

#[test]
fn low_reading_raises_warning_and_alerts_once() {
    let mut s = SessionState::new();
    let a = drive(&mut s, "telemetry/voltage", b"9.0");
    assert!(s.warning_active);
    assert_eq!(s.last_voltage_bits, 9.0f32.to_bits());
    assert_eq!(sent_content(&a), Some("Voltage low: 9".to_string()));
    assert!(a.log.is_none());
}

#[test]
fn recovery_reading_clears_warning_and_alerts() {
    let mut s = SessionState::new();
    drive(&mut s, "telemetry/voltage", b"9.0");
    let a = drive(&mut s, "telemetry/voltage", b"11.0");
    assert!(!s.warning_active);
    assert_eq!(sent_content(&a), Some("Voltage good: 11".to_string()));
}

#[test]
fn reading_equal_to_threshold_changes_nothing_but_voltage() {
    let mut s = SessionState::new();
    let a = drive(&mut s, "telemetry/voltage", b"10.5");
    assert!(!s.warning_active);
    assert_eq!(s.last_voltage_bits, 10.5f32.to_bits());
    assert!(a.publish.is_none());
    assert!(a.log.is_none());

    s.warning_active = true;
    let a = drive(&mut s, "telemetry/voltage", b"10.5");
    assert!(s.warning_active);
    assert!(a.publish.is_none());
}

#[test]
fn repeated_low_readings_alert_only_once() {
    let mut s = SessionState::new();
    let first = drive(&mut s, "telemetry/voltage", b"9.0");
    assert!(first.publish.is_some());
    let second = drive(&mut s, "telemetry/voltage", b"9.5");
    assert!(s.warning_active);
    assert_eq!(s.last_voltage_bits, 9.5f32.to_bits());
    assert!(second.publish.is_none());
    let third = drive(&mut s, "telemetry/voltage", b"8.0");
    assert!(third.publish.is_none());
}

#[test]
fn full_alert_recovery_scenario() {
    let mut s = SessionState::new();
    let a = drive(&mut s, "telemetry/voltage", b"9.0");
    assert_eq!(sent_content(&a), Some("Voltage low: 9".to_string()));
    assert!(s.warning_active);
    let b = drive(&mut s, "telemetry/voltage", b"9.5");
    assert!(b.publish.is_none());
    assert!(s.warning_active);
    let c = drive(&mut s, "telemetry/voltage", b"11.0");
    assert_eq!(sent_content(&c), Some("Voltage good: 11".to_string()));
    assert!(!s.warning_active);
}

#[test]
fn threshold_update_is_silent_and_keeps_flag() {
    let mut s = SessionState::new();
    s.warning_active = true;
    let a = drive(&mut s, "telemetry/warning_voltage", b"11.25");
    assert_silent(&a);
    assert!(s.warning_active);
    assert_eq!(s.threshold_bits, 11.25f32.to_bits());
    assert_eq!(s.last_voltage_bits, INITIAL_VOLTAGE_BITS);
}

#[test]
fn threshold_update_applies_to_next_reading() {
    let mut s = SessionState::new();
    let a = drive(&mut s, "telemetry/voltage", b"11.0");
    assert!(a.publish.is_none());
    drive(&mut s, "telemetry/warning_voltage", b"12");
    let b = drive(&mut s, "telemetry/voltage", b"11.0");
    assert_eq!(sent_content(&b), Some("Voltage low: 11".to_string()));
}

#[test]
fn chat_command_round_trip_mixed_case_padded() {
    let mut s = SessionState::new();
    drive(&mut s, "telemetry/voltage", b"7.25");
    let a = drive(&mut s, "chat/receive/699300787746111528", b"  Voltage  ");
    assert_eq!(sent_content(&a), Some("Current voltage is 7.25".to_string()));
    assert!(a.log.is_none());
}

#[test]
fn chat_command_with_unicode_whitespace() {
    let mut s = SessionState::new();
    let a = drive(
        &mut s,
        "chat/receive/699300787746111528",
        "\u{3000}VOLTAGE\u{a0}".as_bytes(),
    );
    assert_eq!(sent_content(&a), Some("Current voltage is 0".to_string()));
}

#[test]
fn other_chat_text_is_ignored() {
    let mut s = SessionState::new();
    let a = drive(&mut s, "chat/receive/699300787746111528", b"voltages please");
    assert_silent(&a);
    let b = drive(&mut s, "chat/receive/699300787746111528", b"volt age");
    assert_silent(&b);
}

#[test]
fn malformed_number_leaves_state_unchanged() {
    let mut s = SessionState::new();
    s.warning_active = true;
    let a = drive(&mut s, "telemetry/voltage", b"abc");
    assert_silent(&a);
    assert!(s.warning_active);
    assert_eq!(s.last_voltage_bits, INITIAL_VOLTAGE_BITS);
    assert_eq!(s.threshold_bits, DEFAULT_THRESHOLD_BITS);
    let b = drive(&mut s, "telemetry/warning_voltage", b"abc");
    assert_silent(&b);
    assert_eq!(s.threshold_bits, DEFAULT_THRESHOLD_BITS);
}

#[test]
fn invalid_utf8_is_dropped_with_the_right_diagnostic() {
    let mut s = SessionState::new();
    let a = drive(&mut s, "telemetry/voltage", &[0xff, 0xfe]);
    assert!(a.publish.is_none());
    assert!(matches!(a.log, Some(LogEvent::VoltagePayloadNotText)));
    assert!(matches!(
        LogEvent::VoltagePayloadNotText.level(),
        LogLevel::Error
    ));
    let b = drive(&mut s, "telemetry/warning_voltage", &[0xff, 0xfe]);
    assert_silent(&b);
    let c = drive(&mut s, "chat/receive/699300787746111528", &[0xff, 0xfe]);
    assert!(c.publish.is_none());
    assert!(matches!(c.log, Some(LogEvent::ChatPayloadNotText)));
    assert!(matches!(LogEvent::ChatPayloadNotText.level(), LogLevel::Warn));
    assert_eq!(s.last_voltage_bits, INITIAL_VOLTAGE_BITS);
    assert_eq!(s.threshold_bits, DEFAULT_THRESHOLD_BITS);
    assert!(!s.warning_active);
}

#[test]
fn unknown_topic_is_logged_and_dropped() {
    let mut s = SessionState::new();
    let a = drive(&mut s, "telemetry/current", b"1.0");
    assert!(a.publish.is_none());
    assert!(a.subscriptions.is_empty());
    assert!(matches!(a.log, Some(LogEvent::UnknownTopic)));
    assert!(matches!(LogEvent::UnknownTopic.level(), LogLevel::Warn));
}

#[test]
fn disconnection_is_only_logged() {
    let mut s = SessionState::new();
    let step = handle_notification(&s, Notification::Disconnection);
    match step {
        Step::Done(a) => {
            assert!(a.publish.is_none());
            assert!(a.subscriptions.is_empty());
            assert!(matches!(a.log, Some(LogEvent::Disconnected)));
        }
        _ => panic!("disconnection must be handled in place"),
    }
    assert!(!s.warning_active);
    s.warning_active = true;
    handle_notification(&s, Notification::Disconnection);
    assert!(s.warning_active);
}

#[test]
fn reconnection_resubscribes_every_topic_exactly_once() {
    let s = SessionState::new();
    for _ in 0..3 {
        let step = handle_notification(&s, Notification::Reconnection);
        match step {
            Step::Done(a) => {
                assert!(a.publish.is_none());
                assert!(matches!(a.log, Some(LogEvent::Reconnected)));
                let topics: Vec<&str> =
                    a.subscriptions.iter().map(|r| r.topic.as_str()).collect();
                assert_eq!(
                    topics,
                    vec![
                        "telemetry/voltage",
                        "telemetry/warning_voltage",
                        "chat/receive/699300787746111528",
                    ]
                );
                for r in &a.subscriptions {
                    assert!(matches!(r.guarantee, Guarantee::AtMostOnce));
                }
            }
            _ => panic!("reconnection must be handled in place"),
        }
    }
}

#[test]
fn wire_format_matches_the_protocol() {
    let m = OutboundMessage::Content {
        destination_id: DESTINATION_ID,
        text: "hi".to_string(),
    };
    assert_eq!(
        encode_wire(&m),
        "{\"Message\":{\"channel_id\":699300787746111528,\"content\":\"hi\"}}"
    );
    assert_eq!(encode_wire(&OutboundMessage::KeepAlive), "{\"KeepAlive\":null}");
    let v: serde_json::Value =
        serde_json::from_str(&encode_wire(&OutboundMessage::KeepAlive)).unwrap();
    assert!(v["KeepAlive"].is_null());
}

#[test]
fn wire_format_escapes_like_json() {
    let m = OutboundMessage::Content {
        destination_id: 7,
        text: "a\"b\\c\nd\te\u{1}f\u{1f}g é".to_string(),
    };
    let encoded = encode_wire(&m);
    assert_eq!(
        encoded,
        "{\"Message\":{\"channel_id\":7,\"content\":\"a\\\"b\\\\c\\nd\\te\\u0001f\\u001fg é\"}}"
    );
    let v: serde_json::Value = serde_json::from_str(&encoded).unwrap();
    assert_eq!(v["Message"]["content"].as_str(), Some("a\"b\\c\nd\te\u{1}f\u{1f}g é"));
    assert_eq!(v["Message"]["channel_id"].as_u64(), Some(7));
}

#[test]
fn outbound_publish_uses_the_send_topic_and_guarantee() {
    let mut s = SessionState::new();
    let a = drive(&mut s, "telemetry/voltage", b"1.5");
    let p = a.publish.expect("a low reading must publish");
    assert_eq!(p.topic, "chat/send");
    assert!(matches!(p.guarantee, Guarantee::AtLeastOnce));
    assert!(!p.retain);
    let v: serde_json::Value = serde_json::from_str(&p.payload).unwrap();
    assert_eq!(v["Message"]["content"].as_str(), Some("Voltage low: 1.5"));
}

#[test]
fn nan_reading_updates_voltage_without_alert() {
    let mut s = SessionState::new();
    let a = drive(&mut s, "telemetry/voltage", b"NaN");
    assert!(a.publish.is_none());
    assert!(!s.warning_active);
    assert_eq!(s.last_voltage_bits, "NaN".parse::<f32>().unwrap().to_bits());
    s.warning_active = true;
    let b = drive(&mut s, "telemetry/voltage", b"NaN");
    assert!(b.publish.is_none());
    assert!(s.warning_active);
}
