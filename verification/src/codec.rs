//! Structural serialization of the envelope.
//!
//! An [`OperationResult`] crosses a process or network boundary as a
//! structured record: a JSON-shaped object with exactly the six fields
//! `success`, `data`, `message`, `error`, `error_type` and `timestamp`,
//! in that order. [`to_json`] builds the record, [`from_json`] reads one
//! back, and [`lemma_decode_determined`] with the two functions' contracts
//! gives the round trip: decoding an encoding of `r` yields `r` again.
//!
//! An absent optional field is encoded as JSON `null`. A `data` payload of
//! `Some(JsonValue::Null)` therefore shares its encoding with an absent
//! payload and decodes to `None`, just as a null does under the usual JSON
//! treatment of optional fields.

use vstd::prelude::*;
use crate::json::JsonValue;
use crate::envelope::OperationResult;

verus! {

/// Why a value failed to decode as an envelope record.
#[derive(Debug, PartialEq)]
pub enum DecodeError {
    /// The value is not an object of exactly the six envelope fields,
    /// named in order, with values of the right shapes.
    NotAnEnvelope,
}

/// `j` is the encoding of the optional payload `d`: the payload itself
/// when present, JSON null when absent.
pub open spec fn encodes_opt_value(j: JsonValue, d: Option<JsonValue>) -> bool {
    match d {
        Some(v) => j == v,
        None => j == JsonValue::Null,
    }
}

/// `j` is the encoding of the optional text `s`: a JSON string when
/// present, JSON null when absent.
pub open spec fn encodes_opt_text(j: JsonValue, s: Option<String>) -> bool {
    match s {
        Some(t) => j == JsonValue::Str(t),
        None => j == JsonValue::Null,
    }
}

/// `v` is the six-field structured record that serializes the envelope `r`.
pub open spec fn encodes(v: JsonValue, r: OperationResult) -> bool {
    &&& v matches JsonValue::Obj(f)
    &&& f@.len() == 6
    &&& f@[0].0@ == "success"@
    &&& f@[0].1 == JsonValue::Bool(r.success)
    &&& f@[1].0@ == "data"@
    &&& encodes_opt_value(f@[1].1, r.data)
    &&& f@[2].0@ == "message"@
    &&& encodes_opt_text(f@[2].1, r.message)
    &&& f@[3].0@ == "error"@
    &&& encodes_opt_text(f@[3].1, r.error)
    &&& f@[4].0@ == "error_type"@
    &&& encodes_opt_text(f@[4].1, r.error_type)
    &&& f@[5].0@ == "timestamp"@
    &&& f@[5].1 == JsonValue::Int(r.timestamp)
}

/// `v` has the shape of an envelope record: an object of exactly the six
/// fields, named in order, each value of the right kind. Exactly these
/// values decode successfully.
pub open spec fn well_formed_envelope(v: JsonValue) -> bool {
    &&& v matches JsonValue::Obj(f)
    &&& f@.len() == 6
    &&& f@[0].0@ == "success"@
    &&& f@[0].1 is Bool
    &&& f@[1].0@ == "data"@
    &&& f@[2].0@ == "message"@
    &&& (f@[2].1 is Str || f@[2].1 is Null)
    &&& f@[3].0@ == "error"@
    &&& (f@[3].1 is Str || f@[3].1 is Null)
    &&& f@[4].0@ == "error_type"@
    &&& (f@[4].1 is Str || f@[4].1 is Null)
    &&& f@[5].0@ == "timestamp"@
    &&& f@[5].1 is Int
}

/// Serialize the envelope into its six-field structured record.
pub fn to_json(r: OperationResult) -> (v: JsonValue)
    ensures
        encodes(v, r),
{
    let mut fields: Vec<(String, JsonValue)> = Vec::new();
    fields.push(("success".to_string(), JsonValue::Bool(r.success)));
    let data_j = match r.data {
        Some(d) => d,
        None => JsonValue::Null,
    };
    fields.push(("data".to_string(), data_j));
    let message_j = match r.message {
        Some(m) => JsonValue::Str(m),
        None => JsonValue::Null,
    };
    fields.push(("message".to_string(), message_j));
    let error_j = match r.error {
        Some(e) => JsonValue::Str(e),
        None => JsonValue::Null,
    };
    fields.push(("error".to_string(), error_j));
    let error_type_j = match r.error_type {
        Some(t) => JsonValue::Str(t),
        None => JsonValue::Null,
    };
    fields.push(("error_type".to_string(), error_type_j));
    fields.push(("timestamp".to_string(), JsonValue::Int(r.timestamp)));
    JsonValue::Obj(fields)
}

/// Deserialize a structured record back into an envelope.
///
/// Succeeds exactly on well-formed records. On success the result is an
/// envelope that the record encodes, and its `data` payload is never an
/// explicit null: a null `data` field decodes to an absent payload.
pub fn from_json(v: JsonValue) -> (out: Result<OperationResult, DecodeError>)
    ensures
        out is Ok <==> well_formed_envelope(v),
        out matches Ok(r) ==> encodes(v, r) && r.data != Some(JsonValue::Null),
        out matches Err(e) ==> e == DecodeError::NotAnEnvelope,
{
    let mut fields = match v {
        JsonValue::Obj(f) => f,
        _ => {
            return Err(DecodeError::NotAnEnvelope);
        },
    };
    if fields.len() != 6 {
        return Err(DecodeError::NotAnEnvelope);
    }
    let (k_timestamp, j_timestamp) = fields.pop().unwrap();
    let (k_error_type, j_error_type) = fields.pop().unwrap();
    let (k_error, j_error) = fields.pop().unwrap();
    let (k_message, j_message) = fields.pop().unwrap();
    let (k_data, j_data) = fields.pop().unwrap();
    let (k_success, j_success) = fields.pop().unwrap();
    if !(k_success == "success".to_string() && k_data == "data".to_string()
        && k_message == "message".to_string() && k_error == "error".to_string()
        && k_error_type == "error_type".to_string()
        && k_timestamp == "timestamp".to_string()) {
        return Err(DecodeError::NotAnEnvelope);
    }
    let success = match j_success {
        JsonValue::Bool(b) => b,
        _ => {
            return Err(DecodeError::NotAnEnvelope);
        },
    };
    let data = match j_data {
        JsonValue::Null => None,
        d => Some(d),
    };
    let message = match j_message {
        JsonValue::Str(t) => Some(t),
        JsonValue::Null => None,
        _ => {
            return Err(DecodeError::NotAnEnvelope);
        },
    };
    let error = match j_error {
        JsonValue::Str(t) => Some(t),
        JsonValue::Null => None,
        _ => {
            return Err(DecodeError::NotAnEnvelope);
        },
    };
    let error_type = match j_error_type {
        JsonValue::Str(t) => Some(t),
        JsonValue::Null => None,
        _ => {
            return Err(DecodeError::NotAnEnvelope);
        },
    };
    let timestamp = match j_timestamp {
        JsonValue::Int(n) => n,
        _ => {
            return Err(DecodeError::NotAnEnvelope);
        },
    };
    Ok(OperationResult { success, data, message, error, error_type, timestamp })
}

/// Any encoding of an envelope is a well-formed record, so decoding it
/// succeeds.
pub proof fn lemma_encodes_well_formed(v: JsonValue, r: OperationResult)
    requires
        encodes(v, r),
    ensures
        well_formed_envelope(v),
{
}

/// Round-trip law: a structured record determines the envelope it encodes.
/// Serializing an envelope `r` and deserializing the record therefore
/// yields `r` again, equal in all six fields — provided `r` does not carry
/// an explicit null payload, whose encoding it shares with an absent one.
pub proof fn lemma_decode_determined(v: JsonValue, r1: OperationResult, r2: OperationResult)
    requires
        encodes(v, r1),
        encodes(v, r2),
        r1.data != Some(JsonValue::Null),
        r2.data != Some(JsonValue::Null),
    ensures
        r1 == r2,
{
}

} // verus!
