//! Trusted boundary to the JSON codec.
//!
//! The pipeline carries event payloads as JSON text. Parsing and string
//! escaping are done by serde_json; the two facts the rest of the library
//! needs about them are named here and stated on the trusted calls.

use vstd::prelude::*;

verus! {

#[verifier::external_type_specification]
#[verifier::external_body]
pub struct ExJsonValue(serde_json::Value);

/// Whether `s` is a well-formed JSON text, exactly as serde_json's parser
/// accepts it. Spelling that out would take the whole JSON grammar, so the
/// predicate is only named; it depends on the characters alone.
pub uninterp spec fn json_text_ok(s: Seq<char>) -> bool;

/// Relies on serde_json::from_str::<Value>: parsing succeeds exactly on
/// well-formed JSON text, a function of the characters alone.
#[verifier::external_body]
pub(crate) fn parse_json_value(s: &str) -> (r: Option<serde_json::Value>)
    ensures
        r is Some <==> json_text_ok(s@),
{
    serde_json::from_str(s).ok()
}

/// The JSON string literal (quotes and escapes included) that serde_json
/// writes for the character sequence `s`; a function of the characters alone.
pub uninterp spec fn json_string_of(s: Seq<char>) -> Seq<char>;

/// Relies on serde_json::to_string::<str>: writing a string value yields its
/// JSON string literal and never fails for a string.
#[verifier::external_body]
pub(crate) fn encode_json_string(s: &str) -> (r: String)
    ensures
        r@ == json_string_of(s@),
{
    serde_json::to_string(s).unwrap()
}

} // verus!
