//! The sensor reading and its enriched counterpart.
//!
//! An inbound payload is a JSON object carrying the identity of a RuuviTag
//! and its raw measurements. Parsing turns it into a [`RuuviMessage`];
//! enrichment derives the dew point (computed outside the library, since
//! the verifier does not model floating point — the measurements travel as
//! their decimal texts) and produces a [`RuuviAdditionalMessage`], which
//! serializes itself to the fixed wire shape.

use vstd::prelude::*;
use vstd::slice::slice_to_vec;
use vstd::string::StrSliceExecFns;
use vstd::string::StringExecFns;

use crate::json::{
    after_last_colon, colon_free, json_quote, json_quoted_spec, lemma_after_last_colon_append,
    lemma_after_last_colon_none,
};
use crate::json_value::{
    json_accepts, json_decode_check, json_error_text, json_has_member, json_is_object,
    json_member_keys, json_member_number_text, json_member_string, payload_is_object,
    payload_member_exists, payload_member_number_text, payload_member_string,
    payload_object_entries,
};
use crate::message::OutboundMessage;
use crate::text::{strip_colons, strip_colons_spec};

verus! {

/// One validated sensor observation. The measurement fields hold the
/// decimal text of the JSON numbers of the payload; the pipeline itself
/// never computes with them.
#[derive(Debug)]
pub struct RuuviMessage {
    /// The topic the message arrived on; set from the transport, never
    /// from the payload body.
    pub topic: String,
    /// Display label of the sensor.
    pub name: String,
    /// Stable device identifier, e.g. a colon-delimited hardware address.
    /// Never empty.
    pub device_id: String,
    pub brand: String,
    pub model: String,
    /// Hardware/firmware variant, e.g. `RuuviTag_RAWv2`.
    pub model_id: String,
    /// The payload's reading-class tag.
    pub reading_type: String,
    /// Temperature in degrees Celsius, as decimal text.
    pub temperature_celsius_text: String,
    /// Relative humidity in percent, as decimal text.
    pub relative_humidity_percent_text: String,
    /// Air pressure in millibar, as decimal text.
    pub pressure_millibar_text: String,
    /// The members of the payload that this system does not interpret, as
    /// decoded key–value pairs, kept for forward compatibility; nothing is
    /// read back out of them and they are not re-emitted.
    pub other_data: Vec<(String, serde_json::Value)>,
}

/// The nine payload members this system interprets.
pub open spec fn is_interpreted_key(k: Seq<char>) -> bool {
    ||| k == "name"@
    ||| k == "id"@
    ||| k == "brand"@
    ||| k == "model"@
    ||| k == "model_id"@
    ||| k == "type"@
    ||| k == "tempc"@
    ||| k == "hum"@
    ||| k == "pres"@
}

/// The keys of `keys` that the system does not interpret, in order.
pub open spec fn uninterpreted_keys(keys: Seq<Seq<char>>) -> Seq<Seq<char>>
    decreases keys.len(),
{
    if keys.len() == 0 {
        Seq::empty()
    } else if is_interpreted_key(keys.last()) {
        uninterpreted_keys(keys.drop_last())
    } else {
        uninterpreted_keys(keys.drop_last()).push(keys.last())
    }
}

/// The keys of a sequence of decoded members.
pub open spec fn entry_keys(entries: Seq<(String, serde_json::Value)>) -> Seq<Seq<char>> {
    entries.map_values(|e: (String, serde_json::Value)| e.0@)
}

/// When the parser accepts a payload: one JSON object whose six string
/// members and three number members are present with the right types, and
/// whose device identifier is non-empty.
pub open spec fn reading_accepted(payload: Seq<u8>) -> bool {
    &&& json_accepts(payload)
    &&& json_is_object(payload)
    &&& json_member_string(payload, "name"@) is Some
    &&& (json_member_string(payload, "id"@) matches Some(id) && id.len() > 0)
    &&& json_member_string(payload, "brand"@) is Some
    &&& json_member_string(payload, "model"@) is Some
    &&& json_member_string(payload, "model_id"@) is Some
    &&& json_member_string(payload, "type"@) is Some
    &&& json_member_number_text(payload, "tempc"@) is Some
    &&& json_member_number_text(payload, "hum"@) is Some
    &&& json_member_number_text(payload, "pres"@) is Some
}

/// `m` is the reading parsed from `topic` and `payload`: the topic comes
/// from the transport, every interpreted field equals its payload member,
/// the device identifier is non-empty, and exactly the uninterpreted
/// members are kept aside.
pub open spec fn is_reading_of(topic: Seq<char>, payload: Seq<u8>, m: RuuviMessage) -> bool {
    &&& m.topic@ == topic
    &&& json_member_string(payload, "name"@) == Some(m.name@)
    &&& json_member_string(payload, "id"@) == Some(m.device_id@)
    &&& m.device_id@.len() > 0
    &&& json_member_string(payload, "brand"@) == Some(m.brand@)
    &&& json_member_string(payload, "model"@) == Some(m.model@)
    &&& json_member_string(payload, "model_id"@) == Some(m.model_id@)
    &&& json_member_string(payload, "type"@) == Some(m.reading_type@)
    &&& json_member_number_text(payload, "tempc"@) == Some(m.temperature_celsius_text@)
    &&& json_member_number_text(payload, "hum"@) == Some(m.relative_humidity_percent_text@)
    &&& json_member_number_text(payload, "pres"@) == Some(m.pressure_millibar_text@)
    &&& entry_keys(m.other_data@) == uninterpreted_keys(json_member_keys(payload))
}

/// Why a payload was rejected.
#[derive(Debug, Clone, Copy, PartialEq, Eq)]
pub enum ParseErrorKind {
    /// The payload is not valid JSON.
    InvalidJson,
    /// The payload is valid JSON but not an object.
    NotAnObject,
    /// A required member is absent.
    MissingField,
    /// A required member is present with the wrong JSON type.
    WrongType,
    /// The device identifier is present but empty.
    EmptyDeviceId,
}

/// A structured parse rejection: what went wrong, on which member, with
/// the decoder's own message where there is one, and the raw payload for
/// diagnostics.
#[derive(Debug)]
pub struct ParseError {
    pub kind: ParseErrorKind,
    /// The JSON key at fault; empty when the whole payload is at fault.
    pub field: String,
    /// The decoder's message for `InvalidJson`; empty otherwise.
    pub detail: String,
    /// The raw payload, kept for diagnostics.
    pub payload: Vec<u8>,
}

fn field_error(kind: ParseErrorKind, field: &str, payload: &[u8]) -> (r: ParseError)
    ensures
        r.kind == kind,
        r.field@ == field@,
        r.detail@ == Seq::<char>::empty(),
        r.payload@ == payload@,
{
    ParseError {
        kind,
        field: field.to_owned(),
        detail: String::new(),
        payload: slice_to_vec(payload),
    }
}

/// Looks up the member `key` and demands a JSON string.
fn required_string(payload: &[u8], key: &str) -> (r: Result<String, ParseError>)
    ensures
        r matches Ok(s) ==> json_member_string(payload@, key@) == Some(s@),
        r matches Err(e) ==> {
            &&& json_member_string(payload@, key@) is None
            &&& e.field@ == key@
            &&& e.detail@ == Seq::<char>::empty()
            &&& e.payload@ == payload@
            &&& (e.kind == ParseErrorKind::MissingField <==> !json_has_member(payload@, key@))
            &&& (e.kind == ParseErrorKind::WrongType <==> json_has_member(payload@, key@))
        },
{
    match payload_member_string(payload, key) {
        Some(s) => Ok(s),
        None => {
            if payload_member_exists(payload, key) {
                Err(field_error(ParseErrorKind::WrongType, key, payload))
            } else {
                Err(field_error(ParseErrorKind::MissingField, key, payload))
            }
        },
    }
}

/// Looks up the member `key` and demands a JSON number, handed back as its
/// decimal text.
fn required_number_text(payload: &[u8], key: &str) -> (r: Result<String, ParseError>)
    ensures
        r matches Ok(t) ==> json_member_number_text(payload@, key@) == Some(t@) && t@.len() > 0,
        r matches Err(e) ==> {
            &&& json_member_number_text(payload@, key@) is None
            &&& e.field@ == key@
            &&& e.detail@ == Seq::<char>::empty()
            &&& e.payload@ == payload@
            &&& (e.kind == ParseErrorKind::MissingField <==> !json_has_member(payload@, key@))
            &&& (e.kind == ParseErrorKind::WrongType <==> json_has_member(payload@, key@))
        },
{
    match payload_member_number_text(payload, key) {
        Some(t) => Ok(t),
        None => {
            if payload_member_exists(payload, key) {
                Err(field_error(ParseErrorKind::WrongType, key, payload))
            } else {
                Err(field_error(ParseErrorKind::MissingField, key, payload))
            }
        },
    }
}

/// Whether `key` is one of the nine members the parser interprets.
fn interpreted_key(key: &String) -> (r: bool)
    ensures
        r == is_interpreted_key(key@),
{
    *key == String::from_str("name") || *key == String::from_str("id") || *key
        == String::from_str("brand") || *key == String::from_str("model") || *key
        == String::from_str("model_id") || *key == String::from_str("type") || *key
        == String::from_str("tempc") || *key == String::from_str("hum") || *key
        == String::from_str("pres")
}

/// The decoded members of the payload that the parser does not interpret,
/// in the decoder's order, values untouched.
fn collect_uninterpreted_members(payload: &[u8]) -> (r: Vec<(String, serde_json::Value)>)
    ensures
        entry_keys(r@) == uninterpreted_keys(json_member_keys(payload@)),
{
    let mut entries = payload_object_entries(payload);
    let ghost all = entries@;
    proof {
        assert(entry_keys(all) =~= json_member_keys(payload@));
    }
    let mut out: Vec<(String, serde_json::Value)> = Vec::new();
    while entries.len() > 0
        invariant
            entries@.len() <= all.len(),
            entries@ == all.subrange(all.len() - entries@.len(), all.len() as int),
            entry_keys(out@) == uninterpreted_keys(
                entry_keys(all.take(all.len() - entries@.len())),
            ),
        decreases entries@.len(),
    {
        let ghost p = all.len() - entries@.len();
        let entry = entries.remove(0);
        proof {
            assert(entry == all[p]);
            assert(entries@ =~= all.subrange(all.len() - entries@.len(), all.len() as int));
            assert(all.take(p + 1).drop_last() =~= all.take(p));
            assert(all.take(p + 1).last() == all[p]);
            assert(entry_keys(all.take(p + 1)).drop_last() =~= entry_keys(all.take(p)));
            assert(entry_keys(all.take(p + 1)).last() == all[p].0@);
        }
        if !interpreted_key(&entry.0) {
            out.push(entry);
            proof {
                assert(entry_keys(out@) =~= uninterpreted_keys(entry_keys(all.take(p + 1))));
            }
        } else {
            proof {
                assert(entry_keys(out@) =~= uninterpreted_keys(entry_keys(all.take(p + 1))));
            }
        }
    }
    proof {
        assert(all.take(all.len() as int) =~= all);
    }
    out
}

impl RuuviMessage {
    /// Parses one inbound message into a validated reading.
    ///
    /// Parsing succeeds exactly when `reading_accepted` holds of the
    /// payload: a JSON object whose members `name`, `id`, `brand`,
    /// `model`, `model_id` and `type` are strings and whose members
    /// `tempc`, `hum` and `pres` are numbers, with `id` non-empty. The
    /// resulting fields equal the payload's members; unrecognized members
    /// are preserved, not rejected. The reading's topic is always the
    /// inbound topic — the payload body is not trusted for it. On failure
    /// the error names what went wrong, the member at fault, the
    /// decoder's own message where there is one, and the raw payload.
    pub fn parse(topic: &str, payload: &[u8]) -> (r: Result<RuuviMessage, ParseError>)
        ensures
            r is Ok <==> reading_accepted(payload@),
            r matches Ok(m) ==> is_reading_of(topic@, payload@, m),
            r matches Err(e) ==> {
                &&& e.payload@ == payload@
                &&& (e.kind == ParseErrorKind::InvalidJson <==> !json_accepts(payload@))
                &&& (e.kind == ParseErrorKind::InvalidJson ==> e.detail@ == json_error_text(
                    payload@,
                ))
                &&& (e.kind != ParseErrorKind::InvalidJson ==> e.detail@ == Seq::<char>::empty())
                &&& ((e.kind == ParseErrorKind::InvalidJson || e.kind
                    == ParseErrorKind::NotAnObject) ==> e.field@ == Seq::<char>::empty())
                &&& (e.kind == ParseErrorKind::NotAnObject <==> json_accepts(payload@)
                    && !json_is_object(payload@))
                &&& (e.kind == ParseErrorKind::MissingField ==> json_is_object(payload@)
                    && !json_has_member(payload@, e.field@))
                &&& (e.kind == ParseErrorKind::WrongType ==> json_has_member(payload@, e.field@))
                &&& (e.kind == ParseErrorKind::EmptyDeviceId ==> json_member_string(
                    payload@,
                    "id"@,
                ) == Some(Seq::<char>::empty()) && e.field@ == "id"@)
            },
    {
        if let Err(message) = json_decode_check(payload) {
            return Err(
                ParseError {
                    kind: ParseErrorKind::InvalidJson,
                    field: String::new(),
                    detail: message,
                    payload: slice_to_vec(payload),
                },
            );
        }
        if !payload_is_object(payload) {
            proof {
                reveal_strlit("");
                assert(""@ =~= Seq::<char>::empty());
            }
            return Err(field_error(ParseErrorKind::NotAnObject, "", payload));
        }
        let name = required_string(payload, "name")?;
        let device_id = required_string(payload, "id")?;
        if device_id.as_str().is_empty() {
            proof {
                assert(device_id@ =~= Seq::<char>::empty());
            }
            return Err(field_error(ParseErrorKind::EmptyDeviceId, "id", payload));
        }
        let brand = required_string(payload, "brand")?;
        let model = required_string(payload, "model")?;
        let model_id = required_string(payload, "model_id")?;
        let reading_type = required_string(payload, "type")?;
        let temperature_celsius_text = required_number_text(payload, "tempc")?;
        let relative_humidity_percent_text = required_number_text(payload, "hum")?;
        let pressure_millibar_text = required_number_text(payload, "pres")?;
        let other_data = collect_uninterpreted_members(payload);
        Ok(
            RuuviMessage {
                topic: topic.to_owned(),
                name,
                device_id,
                brand,
                model,
                model_id,
                reading_type,
                temperature_celsius_text,
                relative_humidity_percent_text,
                pressure_millibar_text,
                other_data,
            },
        )
    }

    /// The one-line summary of a reading, as written to the log.
    pub open spec fn display_spec(self) -> Seq<char> {
        self.topic@ + ": "@ + self.name@ + " ("@ + self.model_id@ + "; "@ + self.reading_type@
            + ") T="@ + self.temperature_celsius_text@ + "\u{00B0}C Rh="@
            + self.relative_humidity_percent_text@ + "% p="@ + self.pressure_millibar_text@
            + "mbar"@
    }

    /// Renders the reading for a log line.
    pub fn display_string(&self) -> (r: String)
        ensures
            r@ == self.display_spec(),
    {
        let mut out = self.topic.clone();
        out.append(": ");
        out.append(self.name.as_str());
        out.append(" (");
        out.append(self.model_id.as_str());
        out.append("; ");
        out.append(self.reading_type.as_str());
        out.append(") T=");
        out.append(self.temperature_celsius_text.as_str());
        out.append("\u{00B0}C Rh=");
        out.append(self.relative_humidity_percent_text.as_str());
        out.append("% p=");
        out.append(self.pressure_millibar_text.as_str());
        out.append("mbar");
        proof {
            assert(out@ =~= self.display_spec());
        }
        out
    }

    /// Derives the enriched reading: identity carried over unchanged, the
    /// topic computed from the device identifier alone, and the dew point
    /// — computed by the caller from the measurement texts — attached as
    /// its decimal text.
    pub fn create_additional_message(&self, dewpoint_celsius_text: String) -> (r:
        RuuviAdditionalMessage)
        ensures
            r.topic@ == enriched_topic_spec(self.device_id@),
            r.name@ == self.name@,
            r.device_id@ == self.device_id@,
            r.brand@ == self.brand@,
            r.model@ == self.model@,
            r.model_id@ == self.model_id@,
            r.reading_type@ == self.reading_type@,
            r.dewpoint_celsius_text@ == dewpoint_celsius_text@,
    {
        let mut topic = String::from_str("home/Radd/RuuviTagAdditions/");
        let stripped = strip_colons(self.device_id.as_str());
        topic.append(stripped.as_str());
        RuuviAdditionalMessage {
            topic,
            name: self.name.clone(),
            device_id: self.device_id.clone(),
            brand: self.brand.clone(),
            model: self.model.clone(),
            model_id: self.model_id.clone(),
            reading_type: self.reading_type.clone(),
            dewpoint_celsius_text,
        }
    }
}

/// The state topic of a device whose identifier has already lost its
/// colons.
pub open spec fn enriched_topic_of_stripped(device_id_no_colons: Seq<char>) -> Seq<char> {
    "home/Radd/RuuviTagAdditions/"@ + device_id_no_colons
}

/// The state topic an enriched reading is published on: a fixed prefix
/// followed by the device identifier stripped of colons. A pure function
/// of the device identifier; no other field influences it.
pub open spec fn enriched_topic_spec(device_id: Seq<char>) -> Seq<char> {
    enriched_topic_of_stripped(strip_colons_spec(device_id))
}

/// The reading enriched with its dew point. Identity fields are carried
/// through from the source reading; the topic is a pure function of the
/// device identifier.
#[derive(Debug)]
pub struct RuuviAdditionalMessage {
    pub topic: String,
    pub name: String,
    pub device_id: String,
    pub brand: String,
    pub model: String,
    pub model_id: String,
    pub reading_type: String,
    /// The derived dew point in degrees Celsius, as decimal text.
    pub dewpoint_celsius_text: String,
}

/// The wire payload of an enriched reading: a JSON object with the keys
/// `name`, `id`, `brand`, `model`, `model_id`, `mac`, `type`, `dewpoint`,
/// in that order. `mac` repeats the hardware address that `id` carries.
pub open spec fn enriched_payload_spec(m: RuuviAdditionalMessage) -> Seq<char> {
    "{\"name\":"@ + json_quoted_spec(m.name@) + ",\"id\":"@ + json_quoted_spec(m.device_id@)
        + ",\"brand\":"@ + json_quoted_spec(m.brand@) + ",\"model\":"@ + json_quoted_spec(m.model@)
        + ",\"model_id\":"@ + json_quoted_spec(m.model_id@) + ",\"mac\":"@ + json_quoted_spec(
        m.device_id@,
    ) + ",\"type\":"@ + json_quoted_spec(m.reading_type@) + ",\"dewpoint\":"@
        + m.dewpoint_celsius_text@ + "}"@
}

impl RuuviAdditionalMessage {
    /// The one-line summary of an enriched reading, as written to the log.
    pub open spec fn display_spec(self) -> Seq<char> {
        self.topic@ + ": "@ + self.name@ + " ("@ + self.model_id@ + "; "@ + self.reading_type@
            + ") Dewpoint="@ + self.dewpoint_celsius_text@ + "\u{00B0}C"@
    }

    /// Renders the enriched reading for a log line.
    pub fn display_string(&self) -> (r: String)
        ensures
            r@ == self.display_spec(),
    {
        let mut out = self.topic.clone();
        out.append(": ");
        out.append(self.name.as_str());
        out.append(" (");
        out.append(self.model_id.as_str());
        out.append("; ");
        out.append(self.reading_type.as_str());
        out.append(") Dewpoint=");
        out.append(self.dewpoint_celsius_text.as_str());
        out.append("\u{00B0}C");
        proof {
            assert(out@ =~= self.display_spec());
        }
        out
    }

    /// Serializes the enriched reading to its wire message: the state
    /// topic, and the payload in the fixed key order.
    pub fn to_message(&self) -> (r: OutboundMessage)
        ensures
            r.topic@ == self.topic@,
            r.payload@ == enriched_payload_spec(*self),
    {
        let mut p = String::from_str("{\"name\":");
        let q_name = json_quote(self.name.as_str());
        p.append(q_name.as_str());
        p.append(",\"id\":");
        let q_id = json_quote(self.device_id.as_str());
        p.append(q_id.as_str());
        p.append(",\"brand\":");
        let q_brand = json_quote(self.brand.as_str());
        p.append(q_brand.as_str());
        p.append(",\"model\":");
        let q_model = json_quote(self.model.as_str());
        p.append(q_model.as_str());
        p.append(",\"model_id\":");
        let q_model_id = json_quote(self.model_id.as_str());
        p.append(q_model_id.as_str());
        p.append(",\"mac\":");
        p.append(q_id.as_str());
        p.append(",\"type\":");
        let q_type = json_quote(self.reading_type.as_str());
        p.append(q_type.as_str());
        p.append(",\"dewpoint\":");
        p.append(self.dewpoint_celsius_text.as_str());
        p.append("}");
        proof {
            assert(p@ =~= enriched_payload_spec(*self));
        }
        OutboundMessage { topic: self.topic.clone(), payload: p }
    }
}

/// What reading back the dew point out of a serialized payload means: the
/// characters between the last colon and the closing brace.
pub open spec fn extract_dewpoint_text_spec(s: Seq<char>) -> Option<Seq<char>> {
    if s.len() > 0 && s.last() == '}' {
        after_last_colon(s.drop_last())
    } else {
        None
    }
}

/// Law (round trip): the dew-point text written into an enriched payload
/// is read back out of that payload unchanged, whenever the text contains
/// no colon — true of any decimal number text. Recovering the text
/// unchanged recovers the dew-point value exactly.
pub proof fn lemma_enriched_payload_round_trip(m: RuuviAdditionalMessage)
    requires
        colon_free(m.dewpoint_celsius_text@),
    ensures
        extract_dewpoint_text_spec(enriched_payload_spec(m)) == Some(m.dewpoint_celsius_text@),
{
    reveal_strlit("}");
    reveal_strlit(",\"dewpoint\":");
    let t = m.dewpoint_celsius_text@;
    let p = enriched_payload_spec(m);
    let lit = ",\"dewpoint\":"@;
    let head = "{\"name\":"@ + json_quoted_spec(m.name@) + ",\"id\":"@ + json_quoted_spec(
        m.device_id@,
    ) + ",\"brand\":"@ + json_quoted_spec(m.brand@) + ",\"model\":"@ + json_quoted_spec(m.model@)
        + ",\"model_id\":"@ + json_quoted_spec(m.model_id@) + ",\"mac\":"@ + json_quoted_spec(
        m.device_id@,
    ) + ",\"type\":"@ + json_quoted_spec(m.reading_type@);
    assert(lit.len() == 12);
    assert(lit[11] == ':');
    assert("}"@.len() == 1);
    assert("}"@[0] == '}');
    assert(p =~= head + lit + t + "}"@);
    assert(p.len() == head.len() + 12 + t.len() + 1);
    assert(p.last() == '}');
    assert(p.drop_last() =~= (head + lit.take(11)) + seq![':'] + t);
    lemma_after_last_colon_append(head + lit.take(11), t);
    assert(extract_dewpoint_text_spec(p) == Some(t));
}

/// Reads the dew-point text back out of a serialized enriched payload:
/// the characters between the last colon and the closing brace. `None`
/// when the text does not end in a closing brace or holds no colon.
pub fn extract_dewpoint_text(payload: &str) -> (r: Option<String>)
    ensures
        r matches Some(t) ==> extract_dewpoint_text_spec(payload@) == Some(t@),
        r is None ==> extract_dewpoint_text_spec(payload@) is None,
{
    let len = payload.unicode_len();
    if len == 0 || payload.get_char(len - 1) != '}' {
        return None;
    }
    let mut j = len - 1;
    while j > 0
        invariant
            j <= len - 1,
            len == payload@.len(),
            1 <= len,
            payload@[len - 1] == '}',
            colon_free(payload@.subrange(j as int, len - 1)),
        decreases j,
    {
        if payload.get_char(j - 1) == ':' {
            let piece = payload.substring_char(j, len - 1);
            let r = piece.to_owned();
            proof {
                let u = payload@.drop_last();
                assert(u =~= u.take(j - 1) + seq![':'] + u.subrange(j as int, u.len() as int));
                assert(u.subrange(j as int, u.len() as int) =~= payload@.subrange(
                    j as int,
                    len - 1,
                ));
                lemma_after_last_colon_append(
                    u.take(j - 1),
                    u.subrange(j as int, u.len() as int),
                );
                assert(extract_dewpoint_text_spec(payload@) == Some(r@));
            }
            return Some(r);
        }
        proof {
            assert(payload@.subrange(j - 1, len - 1) =~= seq![payload@[j - 1]] + payload@.subrange(
                j as int,
                len - 1,
            ));
        }
        j = j - 1;
    }
    proof {
        let u = payload@.drop_last();
        assert(u =~= payload@.subrange(0, len - 1));
        lemma_after_last_colon_none(u);
    }
    None
}

} // verus!
