//! Command payloads and their encoding to datagram bytes. Serialization of
//! structured values is delegated to serde_json behind trusted wrappers.
use vstd::prelude::*;
use vstd::string::StringExecFns;

use crate::error::BridgeError;

verus! {

#[verifier::external_type_specification]
#[verifier::external_body]
pub struct ExValue(serde_json::Value);

#[verifier::external_type_specification]
#[verifier::external_body]
pub struct ExJsonError(serde_json::Error);

/// A command payload supplied by the caller: either a plain string, whose
/// bytes are sent verbatim, or a structured JSON value, serialized before
/// sending.
pub enum Payload {
    Text(String),
    Structured(serde_json::Value),
}

/// Relies on serde_json::to_string: serializes the value as a JSON
/// document; it fails only if serialization itself fails.
#[verifier::external_body]
fn json_to_string(v: &serde_json::Value) -> (r: Result<String, serde_json::Error>) {
    serde_json::to_string(v)
}

/// Relies on serde_json::Error's Display implementation (through
/// ToString::to_string) for the serializer's own description of a failure.
#[verifier::external_body]
fn json_error_message(e: &serde_json::Error) -> (r: String) {
    e.to_string()
}

/// The prefix put before a serializer failure's description.
pub open spec fn invalid_payload_prefix() -> Seq<char> {
    "Invalid payload: "@
}

/// Encodes a payload into the message to transmit: a string payload is
/// used verbatim, without re-encoding; a structured payload is serialized
/// to JSON, and a serialization failure becomes an `Invalid` error whose
/// message starts with `"Invalid payload: "`.
pub fn encode_payload(p: &Payload) -> (r: Result<String, BridgeError>)
    ensures
        p matches Payload::Text(s) ==> (r matches Ok(m) && m@ == s@),
        r matches Err(e) ==> ({
            &&& p is Structured
            &&& e matches BridgeError::Invalid(m)
            &&& m@.len() >= invalid_payload_prefix().len()
            &&& m@.subrange(0, invalid_payload_prefix().len() as int) == invalid_payload_prefix()
        }),
{
    match p {
        Payload::Text(s) => Ok(s.clone()),
        Payload::Structured(v) => {
            match json_to_string(v) {
                Ok(m) => Ok(m),
                Err(e) => {
                    let detail = json_error_message(&e);
                    let msg = String::from_str("Invalid payload: ").concat(detail.as_str());
                    proof {
                        assert(msg@.subrange(0, invalid_payload_prefix().len() as int)
                            =~= invalid_payload_prefix());
                    }
                    Err(BridgeError::Invalid(msg))
                },
            }
        },
    }
}

} // verus!
