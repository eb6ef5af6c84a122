//! Input validation for submitted events.
//!
//! An event is accepted only if its payload declares exactly the expected
//! fields, its timestamp is an unsigned decimal number inside the supported
//! Unix-epoch range, its source address is a well-formed IP literal, and its
//! message is well-formed JSON. Validation happens before any counter is
//! touched and before any broker interaction.

use vstd::prelude::*;
use vstd::string::StrSliceExecFns;
use crate::event::Event;
use crate::json::{json_text_ok, parse_json_value};

verus! {

/// A field-level reason for rejecting a submission.
#[derive(Debug, Clone, PartialEq, Eq)]
pub enum ValidationError {
    /// The payload carried a field that the event shape does not declare.
    UnknownField(String),
    MissingTimestamp,
    MissingSender,
    MissingMessage,
    MissingSourceIp,
    MissingPriority,
    /// The timestamp is not the decimal text of an unsigned 64-bit number.
    TimestampNotNumeric,
    /// The timestamp parsed but lies outside `(0, 2147483647]`.
    TimestampOutOfRange,
    /// The source address is not a valid IPv4 or IPv6 literal.
    InvalidSourceIp,
    /// The message is not well-formed JSON text.
    MessageNotJson,
}

pub open spec fn is_decimal_digit(c: char) -> bool {
    48 <= c as int && c as int <= 57
}

pub open spec fn all_digits(s: Seq<char>) -> bool {
    forall|i: int| 0 <= i < s.len() ==> is_decimal_digit(#[trigger] s[i])
}

/// The number a sequence of decimal digits denotes, most significant first.
pub open spec fn digits_val(s: Seq<char>) -> int
    decreases s.len(),
{
    if s.len() == 0 {
        0
    } else {
        digits_val(s.drop_last()) * 10 + (s.last() as int - 48)
    }
}

/// The digit part of an unsigned decimal text: a leading `+` sign, which
/// `u64` parsing accepts, is dropped.
pub open spec fn unsigned_digits(s: Seq<char>) -> Seq<char> {
    if s.len() > 0 && s[0] == '+' {
        s.drop_first()
    } else {
        s
    }
}

/// The texts that parse as an unsigned 64-bit number, up to overflow: an
/// optional `+` sign followed by one or more decimal digits.
pub open spec fn is_u64_text(s: Seq<char>) -> bool {
    unsigned_digits(s).len() > 0 && all_digits(unsigned_digits(s))
}

/// The texts `u64` parsing accepts outright: shape and value both fit.
pub open spec fn parses_as_u64(s: Seq<char>) -> bool {
    is_u64_text(s) && digits_val(unsigned_digits(s)) <= u64::MAX
}

proof fn lemma_digits_val_nonneg(s: Seq<char>)
    requires
        all_digits(s),
    ensures
        digits_val(s) >= 0,
    decreases s.len(),
{
    if s.len() > 0 {
        assert(all_digits(s.drop_last()));
        lemma_digits_val_nonneg(s.drop_last());
    }
}

/// Appending digits never shrinks the denoted number, so every prefix of a
/// digit sequence denotes at most the whole.
proof fn lemma_digits_val_prefix(s: Seq<char>, i: int)
    requires
        all_digits(s),
        0 <= i <= s.len(),
    ensures
        digits_val(s.subrange(0, i)) <= digits_val(s),
    decreases s.len() - i,
{
    if i == s.len() {
        assert(s.subrange(0, i) =~= s);
    } else {
        assert(s.subrange(0, i + 1).drop_last() =~= s.subrange(0, i));
        assert(all_digits(s.subrange(0, i)));
        lemma_digits_val_nonneg(s.subrange(0, i));
        lemma_digits_val_prefix(s, i + 1);
    }
}

/// Decimal parsing of an unsigned 64-bit number, with the grammar `u64`'s
/// own parser uses: an optional leading `+`, then at least one digit, and a
/// value that fits.
pub fn parse_u64(s: &str) -> (r: Option<u64>)
    ensures
        r is Some <==> parses_as_u64(s@),
        r is Some ==> r->0 == digits_val(unsigned_digits(s@)),
{
    let n = s.unicode_len();
    if n == 0 {
        return None;
    }
    let first = s.get_char(0);
    let start: usize = if first == '+' {
        1
    } else {
        0
    };
    if n == start {
        return None;
    }
    let ghost digits = s@.subrange(start as int, n as int);
    proof {
        assert(digits =~= unsigned_digits(s@));
    }
    let mut acc: u64 = 0;
    let mut i: usize = start;
    while i < n
        invariant
            start <= i <= n,
            n == s@.len(),
            start == 1 ==> s@[0] == '+',
            start == 0 || start == 1,
            digits =~= s@.subrange(start as int, n as int),
            digits == unsigned_digits(s@),
            all_digits(s@.subrange(start as int, i as int)),
            acc == digits_val(s@.subrange(start as int, i as int)),
        decreases n - i,
    {
        let c = s.get_char(i);
        let u = c as u32;
        let ghost prefix = s@.subrange(start as int, i as int);
        if u < 48 || u > 57 {
            proof {
                assert(!is_decimal_digit(s@[i as int]));
                assert(digits[i - start] == s@[i as int]);
            }
            return None;
        }
        let d = (u - 48) as u64;
        proof {
            assert(s@.subrange(start as int, i + 1).drop_last() =~= prefix);
            assert(all_digits(s@.subrange(start as int, i + 1)));
        }
        let next = match acc.checked_mul(10) {
            Some(m) => m.checked_add(d),
            None => None,
        };
        match next {
            Some(v) => {
                acc = v;
            },
            None => {
                proof {
                    // The digits read so far, with this one, already denote
                    // more than fits; further digits only grow the value.
                    if all_digits(digits) {
                        assert(s@.subrange(start as int, i + 1) =~= digits.subrange(
                            0,
                            i + 1 - start,
                        ));
                        lemma_digits_val_prefix(digits, i + 1 - start);
                    }
                }
                return None;
            },
        }
        i = i + 1;
    }
    proof {
        assert(s@.subrange(start as int, n as int) =~= digits);
    }
    Some(acc)
}

/// The timestamps the validator accepts: decimal texts of a number in the
/// supported Unix-epoch range `(0, 2147483647]`.
pub open spec fn spec_timestamp_ok(s: Seq<char>) -> bool {
    parses_as_u64(s) && 0 < digits_val(unsigned_digits(s)) <= 2147483647
}

/// The reason a rejected timestamp is rejected: the text does not parse as
/// an unsigned number at all, or its value lies outside the epoch range.
pub open spec fn spec_timestamp_error(s: Seq<char>) -> ValidationError {
    if !parses_as_u64(s) {
        ValidationError::TimestampNotNumeric
    } else {
        ValidationError::TimestampOutOfRange
    }
}

/// Accepts exactly the decimal timestamps in `(0, 2147483647]`.
pub fn validate_timestamp(ts: &str) -> (r: Result<(), ValidationError>)
    ensures
        r is Ok <==> spec_timestamp_ok(ts@),
        r is Err ==> r == Err::<(), ValidationError>(spec_timestamp_error(ts@)),
{
    match parse_u64(ts) {
        None => Err(ValidationError::TimestampNotNumeric),
        Some(n) => {
            if 0 < n && n <= 2147483647 {
                Ok(())
            } else {
                Err(ValidationError::TimestampOutOfRange)
            }
        },
    }
}

/// Whether `s` is a syntactically valid IPv4 or IPv6 literal, exactly as the
/// validator crate's address check accepts it; a function of the characters
/// alone.
pub uninterp spec fn ip_literal_ok(s: Seq<char>) -> bool;

/// Relies on validator's `ValidateIp` for `&str`: true exactly when the text
/// parses as an IPv4 or IPv6 address literal.
#[verifier::external_body]
fn check_ip_literal(s: &str) -> (r: bool)
    ensures
        r == ip_literal_ok(s@),
{
    validator::ValidateIp::validate_ip(&s)
}

/// Accepts exactly the well-formed IPv4 and IPv6 literals.
pub fn validate_ip(ip: &str) -> (r: Result<(), ValidationError>)
    ensures
        r is Ok <==> ip_literal_ok(ip@),
        r is Err ==> r == Err::<(), ValidationError>(ValidationError::InvalidSourceIp),
{
    if check_ip_literal(ip) {
        Ok(())
    } else {
        Err(ValidationError::InvalidSourceIp)
    }
}

/// A submission as it arrives from the network layer, before validation:
/// each declared field as present or absent, the message as raw JSON text,
/// and the names of any fields the payload carried beyond the declared ones.
#[derive(Debug, Clone)]
pub struct RawEvent {
    pub ts: Option<String>,
    pub sender: Option<String>,
    pub message: Option<String>,
    pub ip: Option<String>,
    pub priority: Option<u8>,
    pub unknown_fields: Vec<String>,
}

pub open spec fn all_fields_present(raw: RawEvent) -> bool {
    &&& raw.ts is Some
    &&& raw.sender is Some
    &&& raw.message is Some
    &&& raw.ip is Some
    &&& raw.priority is Some
}

/// The submissions the validator accepts: exactly the declared fields, a
/// timestamp in range, a well-formed IP literal, and well-formed message
/// JSON.
pub open spec fn spec_raw_valid(raw: RawEvent) -> bool {
    &&& raw.unknown_fields@.len() == 0
    &&& all_fields_present(raw)
    &&& spec_timestamp_ok(raw.ts->0@)
    &&& ip_literal_ok(raw.ip->0@)
    &&& json_text_ok(raw.message->0@)
}

/// The event a valid submission denotes: its fields, unchanged.
pub open spec fn spec_event_of(raw: RawEvent) -> Event
    recommends
        all_fields_present(raw),
{
    Event {
        ts: raw.ts->0,
        sender: raw.sender->0,
        message: raw.message->0,
        ip: raw.ip->0,
        priority: raw.priority->0,
    }
}

/// Which violation an invalid submission is rejected for, checking unknown
/// fields first, then presence of each declared field in declaration order,
/// then the timestamp, the source address, and the message.
pub open spec fn spec_validation_error(raw: RawEvent) -> ValidationError
    recommends
        !spec_raw_valid(raw),
{
    if raw.unknown_fields@.len() > 0 {
        ValidationError::UnknownField(raw.unknown_fields@[0])
    } else if raw.ts is None {
        ValidationError::MissingTimestamp
    } else if raw.sender is None {
        ValidationError::MissingSender
    } else if raw.message is None {
        ValidationError::MissingMessage
    } else if raw.ip is None {
        ValidationError::MissingSourceIp
    } else if raw.priority is None {
        ValidationError::MissingPriority
    } else if !spec_timestamp_ok(raw.ts->0@) {
        spec_timestamp_error(raw.ts->0@)
    } else if !ip_literal_ok(raw.ip->0@) {
        ValidationError::InvalidSourceIp
    } else {
        ValidationError::MessageNotJson
    }
}

/// Full validation of a submission: returns the validated event, or the
/// first field-level violation in checking order.
pub fn validate_event(raw: &RawEvent) -> (r: Result<Event, ValidationError>)
    ensures
        r is Ok <==> spec_raw_valid(*raw),
        r is Ok ==> r->Ok_0 == spec_event_of(*raw) && r->Ok_0.wf(),
        r is Err ==> r->Err_0 == spec_validation_error(*raw),
{
    if raw.unknown_fields.len() > 0 {
        return Err(ValidationError::UnknownField(raw.unknown_fields[0].clone()));
    }
    let ts = match &raw.ts {
        Some(t) => t,
        None => {
            return Err(ValidationError::MissingTimestamp);
        },
    };
    let sender = match &raw.sender {
        Some(t) => t,
        None => {
            return Err(ValidationError::MissingSender);
        },
    };
    let message = match &raw.message {
        Some(t) => t,
        None => {
            return Err(ValidationError::MissingMessage);
        },
    };
    let ip = match &raw.ip {
        Some(t) => t,
        None => {
            return Err(ValidationError::MissingSourceIp);
        },
    };
    let priority = match &raw.priority {
        Some(p) => *p,
        None => {
            return Err(ValidationError::MissingPriority);
        },
    };
    match validate_timestamp(ts.as_str()) {
        Ok(u) => u,
        Err(e) => {
            return Err(e);
        },
    };
    match validate_ip(ip.as_str()) {
        Ok(u) => u,
        Err(e) => {
            return Err(e);
        },
    };
    match parse_json_value(message.as_str()) {
        Some(_) => {},
        None => {
            return Err(ValidationError::MessageNotJson);
        },
    }
    Ok(
        Event {
            ts: ts.clone(),
            sender: sender.clone(),
            message: message.clone(),
            ip: ip.clone(),
            priority,
        },
    )
}

} // verus!
