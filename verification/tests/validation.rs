use eventpipe::event::to_decimal;
use eventpipe::validate::{parse_u64, validate_ip, validate_timestamp, RawEvent, ValidationError};
use eventpipe::validate::validate_event;

fn full_raw() -> RawEvent {
    RawEvent {
        ts: Some("123".to_string()),
        sender: Some("alice".to_string()),
        message: Some("{\"a\":1}".to_string()),
        ip: Some("10.0.0.1".to_string()),
        priority: Some(5),
        unknown_fields: Vec::new(),
    }
}

#[test]
fn timestamp() {
    assert_eq!(validate_timestamp("1"), Ok(()));
    assert_eq!(validate_timestamp("21474836473").is_err(), true);
}

#[test]
fn timestamp_range_bounds() {
    assert_eq!(
        validate_timestamp("0"),
        Err(ValidationError::TimestampOutOfRange)
    );
    assert_eq!(validate_timestamp("2147483647"), Ok(()));
    assert_eq!(
        validate_timestamp("2147483648"),
        Err(ValidationError::TimestampOutOfRange)
    );
    assert_eq!(validate_timestamp("+1"), Ok(()));
}

#[test]
fn timestamp_not_numeric() {
    assert_eq!(
        validate_timestamp("abc"),
        Err(ValidationError::TimestampNotNumeric)
    );
    assert_eq!(
        validate_timestamp(""),
        Err(ValidationError::TimestampNotNumeric)
    );
    assert_eq!(
        validate_timestamp("12x"),
        Err(ValidationError::TimestampNotNumeric)
    );
    assert_eq!(
        validate_timestamp("+"),
        Err(ValidationError::TimestampNotNumeric)
    );
    assert_eq!(
        validate_timestamp("-1"),
        Err(ValidationError::TimestampNotNumeric)
    );
    // Too large even for u64: the text does not parse as a number at all.
    assert_eq!(
        validate_timestamp("99999999999999999999999"),
        Err(ValidationError::TimestampNotNumeric)
    );
}

#[test]
fn parse_u64_values() {
    assert_eq!(parse_u64("42"), Some(42));
    assert_eq!(parse_u64("+0"), Some(0));
    assert_eq!(parse_u64("007"), Some(7));
    assert_eq!(parse_u64("18446744073709551615"), Some(u64::MAX));
    assert_eq!(parse_u64("18446744073709551616"), None);
    assert_eq!(parse_u64(""), None);
    assert_eq!(parse_u64("1 "), None);
}

#[test]
fn decimal_round_trips_through_parse() {
    assert_eq!(to_decimal(907), "907");
    assert_eq!(parse_u64(&to_decimal(0)), Some(0));
    assert_eq!(parse_u64(&to_decimal(12345)), Some(12345));
    assert_eq!(parse_u64(&to_decimal(u64::MAX)), Some(u64::MAX));
}

#[test]
fn ip_literals() {
    assert_eq!(
        validate_ip("999.999.1.1"),
        Err(ValidationError::InvalidSourceIp)
    );
    assert_eq!(validate_ip("10.0.0.1"), Ok(()));
    assert_eq!(validate_ip("::1"), Ok(()));
    assert_eq!(
        validate_ip("1.2.3"),
        Err(ValidationError::InvalidSourceIp)
    );
    assert_eq!(
        validate_ip("not an ip"),
        Err(ValidationError::InvalidSourceIp)
    );
}

#[test]
fn event_with_unknown_field_is_rejected() {
    let mut raw = full_raw();
    raw.unknown_fields = vec!["surprise".to_string()];
    assert_eq!(
        validate_event(&raw),
        Err(ValidationError::UnknownField("surprise".to_string()))
    );
}

#[test]
fn event_with_missing_fields_is_rejected() {
    let mut raw = full_raw();
    raw.ts = None;
    assert_eq!(validate_event(&raw), Err(ValidationError::MissingTimestamp));

    let mut raw = full_raw();
    raw.sender = None;
    assert_eq!(validate_event(&raw), Err(ValidationError::MissingSender));

    let mut raw = full_raw();
    raw.message = None;
    assert_eq!(validate_event(&raw), Err(ValidationError::MissingMessage));

    let mut raw = full_raw();
    raw.ip = None;
    assert_eq!(validate_event(&raw), Err(ValidationError::MissingSourceIp));

    let mut raw = full_raw();
    raw.priority = None;
    assert_eq!(validate_event(&raw), Err(ValidationError::MissingPriority));
}

#[test]
fn event_with_bad_message_is_rejected() {
    let mut raw = full_raw();
    raw.message = Some("{\"a\":".to_string());
    assert_eq!(validate_event(&raw), Err(ValidationError::MessageNotJson));
}

#[test]
fn valid_event_passes_with_its_fields() {
    let raw = full_raw();
    let e = validate_event(&raw).unwrap();
    assert_eq!(e.ts, "123");
    assert_eq!(e.sender, "alice");
    assert_eq!(e.message, "{\"a\":1}");
    assert_eq!(e.ip, "10.0.0.1");
    assert_eq!(e.priority, 5);
}
