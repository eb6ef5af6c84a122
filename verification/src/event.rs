//! The validated event, its wire form, and the broker record built from it.

use vstd::prelude::*;
use vstd::string::StringExecFns;
use crate::json::{json_string_of, json_text_ok, encode_json_string};
use crate::validate::{spec_timestamp_ok, ip_literal_ok, all_digits, digits_val, is_decimal_digit};

verus! {

/// A validated event, immutable once built at ingress. The timestamp keeps
/// the decimal text it arrived with; `message` is the raw JSON text of the
/// submitted message value, carried through without being interpreted.
#[derive(Debug, Clone, PartialEq, Eq)]
pub struct Event {
    pub ts: String,
    pub sender: String,
    pub message: String,
    pub ip: String,
    pub priority: u8,
}

impl Event {
    /// What validation established: the timestamp is decimal text in the
    /// supported epoch range, the source address is an IP literal, and the
    /// message is well-formed JSON.
    pub open spec fn wf(self) -> bool {
        &&& spec_timestamp_ok(self.ts@)
        &&& ip_literal_ok(self.ip@)
        &&& json_text_ok(self.message@)
    }
}

/// One record as handed to the broker: a fixed topic, a key, and the
/// serialized event as payload. The key is a constant literal rather than
/// derived from the event, so all records collide on one partition key; a
/// known defect kept as-is.
#[derive(Debug, Clone)]
pub struct BrokerRecord {
    pub topic: String,
    pub key: String,
    pub payload: String,
}

pub open spec fn spec_digit_char(d: int) -> char {
    ((d + 48) as u8) as char
}

/// The decimal text of a non-negative number, most significant digit first.
pub open spec fn spec_decimal(n: int) -> Seq<char>
    decreases n,
{
    if n < 10 {
        seq![spec_digit_char(n)]
    } else {
        spec_decimal(n / 10).push(spec_digit_char(n % 10))
    }
}

/// Relies on String::push: appends exactly one character.
#[verifier::external_body]
fn push_char(s: &mut String, c: char)
    ensures
        final(s)@ == old(s)@.push(c),
{
    s.push(c);
}

/// Renders a number as decimal text.
pub fn to_decimal(n: u64) -> (r: String)
    ensures
        r@ == spec_decimal(n as int),
    decreases n,
{
    let d: u8 = (n % 10) as u8 + 48;
    let c: char = d as char;
    if n < 10 {
        let mut s = String::new();
        push_char(&mut s, c);
        proof {
            assert(s@ =~= seq![spec_digit_char(n as int)]);
        }
        s
    } else {
        let mut s = to_decimal(n / 10);
        push_char(&mut s, c);
        s
    }
}

/// Decimal rendering and decimal parsing agree: the rendered text of a
/// number is all digits and denotes that number again. In particular a
/// counter or priority written to the wire reads back as itself.
pub proof fn lemma_decimal_round_trip(n: int)
    requires
        0 <= n,
    ensures
        spec_decimal(n).len() > 0,
        all_digits(spec_decimal(n)),
        digits_val(spec_decimal(n)) == n,
    decreases n,
{
    if n < 10 {
        assert(spec_decimal(n) =~= seq![spec_digit_char(n)]);
        assert(spec_digit_char(n) as int == n + 48);
        assert(spec_decimal(n).last() == spec_digit_char(n));
        assert(spec_decimal(n).drop_last() =~= Seq::<char>::empty());
        assert(digits_val(Seq::<char>::empty()) == 0);
        assert(digits_val(spec_decimal(n)) == n);
    } else {
        lemma_decimal_round_trip(n / 10);
        assert(spec_decimal(n) == spec_decimal(n / 10).push(spec_digit_char(n % 10)));
        assert(spec_decimal(n).drop_last() =~= spec_decimal(n / 10));
        assert(spec_decimal(n).last() == spec_digit_char(n % 10));
        assert(spec_digit_char(n % 10) as int == n % 10 + 48);
        assert(digits_val(spec_decimal(n)) == digits_val(spec_decimal(n / 10)) * 10 + (n % 10));
        assert(n / 10 * 10 + n % 10 == n);
        assert forall|i: int| 0 <= i < spec_decimal(n).len() implies is_decimal_digit(
            #[trigger] spec_decimal(n)[i],
        ) by {
            if i < spec_decimal(n / 10).len() {
                assert(spec_decimal(n)[i] == spec_decimal(n / 10)[i]);
            }
        }
    }
}

/// The wire form of an event: the JSON object the original submission
/// denoted, fields in declaration order, string fields re-escaped and the
/// message text inlined unchanged.
pub open spec fn spec_encoded_event(e: Event) -> Seq<char> {
    "{\"ts\":"@ + json_string_of(e.ts@) + ",\"sender\":"@ + json_string_of(e.sender@)
        + ",\"message\":"@ + e.message@ + ",\"sent-from-ip\":"@ + json_string_of(e.ip@)
        + ",\"priority\":"@ + spec_decimal(e.priority as int) + "}"@
}

/// Serializes an event to its wire form.
pub fn encode_event(e: &Event) -> (r: String)
    ensures
        r@ == spec_encoded_event(*e),
{
    let mut s = String::from_str("{\"ts\":");
    let ts = encode_json_string(e.ts.as_str());
    s.append(ts.as_str());
    s.append(",\"sender\":");
    let sender = encode_json_string(e.sender.as_str());
    s.append(sender.as_str());
    s.append(",\"message\":");
    s.append(e.message.as_str());
    s.append(",\"sent-from-ip\":");
    let ip = encode_json_string(e.ip.as_str());
    s.append(ip.as_str());
    s.append(",\"priority\":");
    let priority = to_decimal(e.priority as u64);
    s.append(priority.as_str());
    s.append("}");
    s
}

/// Builds the broker record for a validated event: the fixed topic, the
/// constant key, and the serialized payload.
pub fn make_record(e: &Event) -> (r: BrokerRecord)
    ensures
        r.topic@ == "test"@,
        r.key@ == "Key 1"@,
        r.payload@ == spec_encoded_event(*e),
{
    BrokerRecord {
        topic: String::from_str("test"),
        key: String::from_str("Key 1"),
        payload: encode_event(e),
    }
}

} // verus!
