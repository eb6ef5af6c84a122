use eventpipe::counters::State;
use eventpipe::event::make_record;
use eventpipe::validate::{RawEvent, ValidationError};

fn valid_raw(ts: &str) -> RawEvent {
    RawEvent {
        ts: Some(ts.to_string()),
        sender: Some("alice".to_string()),
        message: Some("{\"a\":1}".to_string()),
        ip: Some("10.0.0.1".to_string()),
        priority: Some(5),
        unknown_fields: Vec::new(),
    }
}

#[test]
fn counters_settle_after_n_events() {
    let n = 3;
    let mut st = State::new();
    let mut events = Vec::new();
    for i in 0..n {
        let raw = valid_raw(&format!("{}", 100 + i));
        events.push(st.submit(&raw).unwrap());
    }
    assert_eq!(st.received, n as u64);
    // The detached publish tasks settle: two deliveries, one failure.
    st.record_publish_outcome(true);
    st.record_publish_outcome(false);
    st.record_publish_outcome(true);
    assert_eq!(st.received, n as u64);
    assert_eq!(st.processed + st.errored, n as u64);
    assert_eq!(st.processed, 2);
    assert_eq!(st.errored, 1);
}

#[test]
fn rejected_submission_touches_nothing() {
    let mut st = State::new();
    let mut raw = valid_raw("123");
    raw.unknown_fields = vec!["surprise".to_string()];
    let r = st.submit(&raw);
    assert_eq!(
        r.unwrap_err(),
        ValidationError::UnknownField("surprise".to_string())
    );
    // Zero counter mutation, and no event was handed out to publish.
    assert_eq!(st.received, 0);
    assert_eq!(st.processed, 0);
    assert_eq!(st.errored, 0);
}

#[test]
fn success_reported_before_failure_recorded() {
    let mut st = State::new();
    // The caller's success response: submit already returned Ok...
    let accepted = st.submit(&valid_raw("123"));
    assert!(accepted.is_ok());
    assert_eq!(st.errored, 0);
    // ...and only afterwards does the detached publish fail, recorded once.
    st.record_publish_outcome(false);
    assert_eq!(st.errored, 1);
    assert_eq!(st.processed, 0);
    assert_eq!(st.received, 1);
}

#[test]
fn record_has_fixed_topic_key_and_exact_payload() {
    let mut st = State::new();
    let e = st.submit(&valid_raw("123")).unwrap();
    let rec = make_record(&e);
    assert_eq!(rec.topic, "test");
    assert_eq!(rec.key, "Key 1");
    assert_eq!(
        rec.payload,
        "{\"ts\":\"123\",\"sender\":\"alice\",\"message\":{\"a\":1},\"sent-from-ip\":\"10.0.0.1\",\"priority\":5}"
    );
}

#[test]
fn string_fields_are_escaped_in_the_payload() {
    let mut raw = valid_raw("123");
    raw.sender = Some("a\"b\\c".to_string());
    let mut st = State::new();
    let e = st.submit(&raw).unwrap();
    let rec = make_record(&e);
    assert_eq!(
        rec.payload,
        "{\"ts\":\"123\",\"sender\":\"a\\\"b\\\\c\",\"message\":{\"a\":1},\"sent-from-ip\":\"10.0.0.1\",\"priority\":5}"
    );
}

#[test]
fn summary_of_a_fresh_state() {
    let st = State::new();
    assert_eq!(st.summary(), "received: 0, processed: 0, errored: 0");
}

#[test]
fn summary_renders_the_counters() {
    let mut st = State::new();
    let _ = st.submit(&valid_raw("123")).unwrap();
    let _ = st.submit(&valid_raw("124")).unwrap();
    st.record_publish_outcome(true);
    st.record_publish_outcome(false);
    assert_eq!(st.summary(), "received: 2, processed: 1, errored: 1");
}
