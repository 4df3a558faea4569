//! Trusted boundary to the JSON decoder. Inbound payloads are arbitrary
//! JSON, so decoding is left to the `serde_json` crate; the rest of the
//! library only ever sees the plain strings and number texts extracted
//! here. Decoding is deterministic — a pure function of the payload bytes
//! — so what each extraction returns is given a name over the bytes, and
//! the parser's own contract is stated in terms of those names. Each item
//! below is believed on the strength of the named `serde_json` functions
//! and is not itself verified.

use vstd::prelude::*;

verus! {

#[verifier::external_type_specification]
#[verifier::external_body]
pub struct ExValue(serde_json::Value);

/// Whether the decoder accepts `payload` as one JSON document (valid
/// JSON within the decoder's nesting-depth bound).
pub uninterp spec fn json_accepts(payload: Seq<u8>) -> bool;

/// The decoder's message for a rejected payload.
pub uninterp spec fn json_error_text(payload: Seq<u8>) -> Seq<char>;

/// Whether `payload` decodes to a JSON object.
pub uninterp spec fn json_is_object(payload: Seq<u8>) -> bool;

/// Whether `payload` decodes to a JSON object that has the member `key`.
pub uninterp spec fn json_has_member(payload: Seq<u8>, key: Seq<char>) -> bool;

/// The string at member `key` of the object `payload` decodes to; `None`
/// when `payload` is no object, has no such member, or the member is not
/// a JSON string.
pub uninterp spec fn json_member_string(payload: Seq<u8>, key: Seq<char>) -> Option<Seq<char>>;

/// The decimal text of the number at member `key` of the object `payload`
/// decodes to; `None` when `payload` is no object, has no such member, or
/// the member is not a JSON number.
pub uninterp spec fn json_member_number_text(payload: Seq<u8>, key: Seq<char>) -> Option<
    Seq<char>,
>;

/// The member keys of the object `payload` decodes to, in the order the
/// decoder's map hands them out; empty when `payload` is no object.
pub uninterp spec fn json_member_keys(payload: Seq<u8>) -> Seq<Seq<char>>;

/// Relies on `serde_json::from_slice::<serde_json::Value>`: decoding is a
/// function of the bytes alone and succeeds exactly when the decoder
/// accepts them as one JSON document (it also bounds nesting depth). On
/// failure the decoder's own message is handed back.
#[verifier::external_body]
pub(crate) fn json_decode_check(payload: &[u8]) -> (r: Result<(), String>)
    ensures
        r is Ok <==> json_accepts(payload@),
        r matches Err(m) ==> m@ == json_error_text(payload@),
{
    match serde_json::from_slice::<serde_json::Value>(payload) {
        Ok(_) => Ok(()),
        Err(error) => Err(error.to_string()),
    }
}

/// Relies on `serde_json::from_slice::<serde_json::Value>` and
/// `serde_json::Value::is_object`: whether the payload decodes to a JSON
/// object, a function of the bytes alone.
#[verifier::external_body]
pub(crate) fn payload_is_object(payload: &[u8]) -> (r: bool)
    ensures
        r == json_is_object(payload@),
        r ==> json_accepts(payload@),
{
    match serde_json::from_slice::<serde_json::Value>(payload) {
        Ok(doc) => doc.is_object(),
        Err(_) => false,
    }
}

/// Relies on `serde_json::from_slice::<serde_json::Value>` and
/// `serde_json::Value::get` with a string index: whether the decoded
/// object has the member `key`, a function of the bytes and key alone.
#[verifier::external_body]
pub(crate) fn payload_member_exists(payload: &[u8], key: &str) -> (r: bool)
    ensures
        r == json_has_member(payload@, key@),
        r ==> json_is_object(payload@),
{
    match serde_json::from_slice::<serde_json::Value>(payload) {
        Ok(doc) => doc.is_object() && doc.get(key).is_some(),
        Err(_) => false,
    }
}

/// Relies on `serde_json::from_slice::<serde_json::Value>`,
/// `serde_json::Value::get` and `serde_json::Value::as_str`: the string
/// at member `key` of the decoded object, a function of the bytes and key
/// alone.
#[verifier::external_body]
pub(crate) fn payload_member_string(payload: &[u8], key: &str) -> (r: Option<String>)
    ensures
        r matches Some(s) ==> json_member_string(payload@, key@) == Some(s@),
        r is None ==> json_member_string(payload@, key@) is None,
        r is Some ==> json_has_member(payload@, key@),
{
    match serde_json::from_slice::<serde_json::Value>(payload) {
        Ok(doc) => match doc.get(key) {
            Some(member) => member.as_str().map(str::to_owned),
            None => None,
        },
        Err(_) => None,
    }
}

/// Relies on `serde_json::from_slice::<serde_json::Value>`,
/// `serde_json::Value::get` and the `Display` of `serde_json::Number` (an
/// integer through `itoa`, a finite float through the
/// shortest-representation formatter): the decimal text of the number at
/// member `key` of the decoded object, never empty; a function of the
/// bytes and key alone.
#[verifier::external_body]
pub(crate) fn payload_member_number_text(payload: &[u8], key: &str) -> (r: Option<String>)
    ensures
        r matches Some(t) ==> json_member_number_text(payload@, key@) == Some(t@) && t@.len() > 0,
        r is None ==> json_member_number_text(payload@, key@) is None,
        r is Some ==> json_has_member(payload@, key@),
{
    match serde_json::from_slice::<serde_json::Value>(payload) {
        Ok(doc) => match doc.get(key) {
            Some(serde_json::Value::Number(n)) => Some(n.to_string()),
            _ => None,
        },
        Err(_) => None,
    }
}

/// Relies on `serde_json::from_slice::<serde_json::Map<String,
/// serde_json::Value>>`: the members of the decoded object as key–value
/// pairs, in the decoder's map order; empty when the payload does not
/// decode to an object. A function of the bytes alone.
#[verifier::external_body]
pub(crate) fn payload_object_entries(payload: &[u8]) -> (r: Vec<(String, serde_json::Value)>)
    ensures
        r@.map_values(|e: (String, serde_json::Value)| e.0@) == json_member_keys(payload@),
{
    match serde_json::from_slice::<serde_json::Map<String, serde_json::Value>>(payload) {
        Ok(members) => members.into_iter().collect(),
        Err(_) => Vec::new(),
    }
}

} // verus!
