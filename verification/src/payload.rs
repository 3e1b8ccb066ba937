//! Serialized payloads and the interchange form in which they arrive: a
//! JSON array of byte values.

use vstd::prelude::*;
use crate::error::PipelineError;

verus! {

/// `serde_json::Error`, the error of the JSON parser. A value of it is
/// passed on and never looked into.
#[verifier::external_type_specification]
#[verifier::external_body]
pub struct ExJsonError(serde_json::Error);

/// What a payload stands for.
#[derive(Clone, Copy, Debug, PartialEq, Eq, Structural)]
pub enum PayloadRole {
    Model,
    Data,
}

/// The bytes of a model or of a data set, as the trainer wrote them, with
/// the role they play in the run.
#[derive(Debug)]
pub struct SerializedPayload {
    pub role: PayloadRole,
    pub bytes: Vec<u8>,
}

impl PayloadRole {
    /// The error with which decoding a payload of this role fails.
    pub open spec fn spec_decode_failure(self) -> PipelineError {
        match self {
            PayloadRole::Model => PipelineError::ModelDecodeFailure,
            PayloadRole::Data => PipelineError::DataDecodeFailure,
        }
    }

    /// The error with which decoding a payload of this role fails.
    pub fn decode_failure(self) -> (r: PipelineError)
        ensures
            r == self.spec_decode_failure(),
    {
        match self {
            PayloadRole::Model => PipelineError::ModelDecodeFailure,
            PayloadRole::Data => PipelineError::DataDecodeFailure,
        }
    }
}

/// The byte array that a JSON text denotes, or `None` where the text is not
/// a JSON array of numbers that each fit in a byte.
pub uninterp spec fn json_byte_array(text: Seq<char>) -> Option<Seq<u8>>;

/// Calls `serde_json::from_str` to read a text as a vector of bytes. The
/// parser is a function of the text alone: it returns the bytes that the
/// text denotes, or an error where it denotes none.
#[verifier::external_body]
fn parse_byte_array(text: &str) -> (r: Result<Vec<u8>, serde_json::Error>)
    ensures
        r is Ok <==> json_byte_array(text@) is Some,
        r is Ok ==> r->Ok_0@ == json_byte_array(text@)->Some_0,
{
    serde_json::from_str::<Vec<u8>>(text)
}

/// The payload of a role from what the interchange text denotes: the bytes
/// as they are, or the role's decode failure where the text denotes none.
/// Nothing is defaulted.
pub fn payload_from_parsed(role: PayloadRole, parsed: Option<Vec<u8>>) -> (r: Result<
    SerializedPayload,
    PipelineError,
>)
    ensures
        match parsed {
            Some(bytes) => r is Ok && r->Ok_0.role == role && r->Ok_0.bytes == bytes,
            None => r is Err && r->Err_0 == role.spec_decode_failure(),
        },
{
    match parsed {
        Some(bytes) => Ok(SerializedPayload { role, bytes }),
        None => Err(role.decode_failure()),
    }
}

/// Unwraps the interchange form of a payload: a JSON array of bytes.
///
/// Gives the payload with exactly the bytes that the text denotes, tagged
/// with `role`; a text that denotes no byte array fails with the decode
/// failure of the role.
pub fn unwrap_interchange(text: &str, role: PayloadRole) -> (r: Result<
    SerializedPayload,
    PipelineError,
>)
    ensures
        match json_byte_array(text@) {
            Some(bytes) => r is Ok && r->Ok_0.role == role && r->Ok_0.bytes@ == bytes,
            None => r is Err && r->Err_0 == role.spec_decode_failure(),
        },
{
    let parsed = match parse_byte_array(text) {
        Ok(bytes) => Some(bytes),
        Err(_) => None,
    };
    payload_from_parsed(role, parsed)
}

/// Unwraps the two inputs of a run, the model first and the data second.
///
/// Gives both payloads where both texts denote byte arrays. A model text
/// that denotes none fails with `ModelDecodeFailure`, whatever the data
/// text holds; otherwise a data text that denotes none fails with
/// `DataDecodeFailure`.
pub fn unwrap_inputs(model_text: &str, data_text: &str) -> (r: Result<
    (SerializedPayload, SerializedPayload),
    PipelineError,
>)
    ensures
        match (json_byte_array(model_text@), json_byte_array(data_text@)) {
            (Some(model), Some(data)) => {
                &&& r is Ok
                &&& r->Ok_0.0.role == PayloadRole::Model
                &&& r->Ok_0.0.bytes@ == model
                &&& r->Ok_0.1.role == PayloadRole::Data
                &&& r->Ok_0.1.bytes@ == data
            },
            (None, _) => r is Err && r->Err_0 == PipelineError::ModelDecodeFailure,
            (Some(_), None) => r is Err && r->Err_0 == PipelineError::DataDecodeFailure,
        },
{
    let model = match unwrap_interchange(model_text, PayloadRole::Model) {
        Ok(payload) => payload,
        Err(e) => {
            return Err(e);
        },
    };
    let data = match unwrap_interchange(data_text, PayloadRole::Data) {
        Ok(payload) => payload,
        Err(e) => {
            return Err(e);
        },
    };
    Ok((model, data))
}

} // verus!
