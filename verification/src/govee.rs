//! The UDP command sender for the smart-light bridge: host validation,
//! payload encoding and destination-address construction, plus the
//! discovery stub. The socket send itself is fire-and-forget I/O and is
//! performed by the caller from the prepared request.
use vstd::prelude::*;
use vstd::string::StrSliceExecFns;
use vstd::string::StringExecFns;

use crate::error::BridgeError;
use crate::error::BridgeResult;
use crate::json::Payload;
use crate::json::encode_payload;
use crate::json::invalid_payload_prefix;
use crate::text::all_whitespace;
use crate::text::dec_rep;
use crate::text::trim_spec;
use crate::text::trim_str;
use crate::text::u16_to_decimal;

verus! {

/// The port used when the caller gives none.
pub const DEFAULT_UDP_PORT: u16 = 4003;

/// The write timeout, in milliseconds, that the sender asks of the socket.
pub const SEND_TIMEOUT_MS: u64 = 1500;

/// The port a send is addressed to: the caller's choice, or the default.
pub open spec fn chosen_port(port: Option<u16>) -> int {
    match port {
        Some(p) => p as int,
        None => DEFAULT_UDP_PORT as int,
    }
}

/// The destination address: the trimmed host, a colon, and the port in
/// decimal.
pub open spec fn address_spec(host: Seq<char>, port: int) -> Seq<char> {
    trim_spec(host) + seq![':'] + dec_rep(port)
}

/// A fully prepared UDP request: where the datagram goes and the exact
/// bytes it carries.
#[derive(Debug)]
pub struct UdpRequest {
    pub address: String,
    pub message: String,
}

/// Builds UDP command sends for the smart-light device. Stateless: every
/// send is an independent, one-shot datagram.
#[derive(Default)]
pub struct GoveeSender;

impl GoveeSender {
    /// Validates the target and encodes the payload into a single UDP
    /// request. A host that is empty after trimming is rejected as
    /// `Invalid` before anything else happens; a string payload becomes
    /// the message verbatim; a structured payload is serialized to JSON,
    /// failure of which is rejected as `Invalid`.
    pub fn prepare(&self, host: &str, port: Option<u16>, body: &Payload) -> (r: Result<
        UdpRequest,
        BridgeError,
    >)
        ensures
            all_whitespace(host@) ==> ({
                &&& r matches Err(e)
                &&& e matches BridgeError::Invalid(m)
                &&& m@ == "Missing host"@
            }),
            !all_whitespace(host@) ==> (body matches Payload::Text(s) ==> ({
                &&& r matches Ok(req)
                &&& req.message@ == s@
                &&& req.address@ == address_spec(host@, chosen_port(port))
            })),
            !all_whitespace(host@) && body is Structured ==> match r {
                Ok(req) => req.address@ == address_spec(host@, chosen_port(port)),
                Err(e) => {
                    &&& e matches BridgeError::Invalid(m)
                    &&& m@.len() >= invalid_payload_prefix().len()
                    &&& m@.subrange(0, invalid_payload_prefix().len() as int)
                        == invalid_payload_prefix()
                },
            },
    {
        let trimmed = trim_str(host);
        proof {
            crate::text::lemma_trim_empty_iff_all_whitespace(host@);
        }
        if trimmed.as_str().is_empty() {
            return Err(BridgeError::Invalid("Missing host".to_owned()));
        }
        let message = match encode_payload(body) {
            Ok(m) => m,
            Err(e) => {
                return Err(e);
            },
        };
        let port_number = match port {
            Some(p) => p,
            None => DEFAULT_UDP_PORT,
        };
        let address = trimmed.concat(":").concat(u16_to_decimal(port_number).as_str());
        proof {
            reveal_strlit(":");
            assert((":")@ =~= seq![':']);
            assert(address@ =~= address_spec(host@, chosen_port(port)));
        }
        Ok(UdpRequest { address, message })
    }
}

/// Local-network device discovery. Not implemented: it always reports an
/// empty list of devices, whatever timeout is asked for.
pub fn discover(_timeout_ms: Option<u64>) -> (r: BridgeResult<Vec<serde_json::Value>>)
    ensures
        r matches Ok(found) && found@ == Seq::<serde_json::Value>::empty(),
{
    Ok(Vec::new())
}

} // verus!
