//! The closed error taxonomy shared by all bridges.
use vstd::prelude::*;
use vstd::string::StringExecFns;

verus! {

/// A bridge failure, classified into a flat, exhaustive set of categories.
/// Every variant but `Unsupported` carries a human-readable message.
#[derive(Debug)]
pub enum BridgeError {
    /// Malformed caller input (empty host, unserializable payload).
    Invalid(String),
    /// Remote or transport failure: timeout, non-success HTTP status,
    /// decode failure, worker-offload failure.
    Network(String),
    /// Local OS-level failure (socket bind/configure/send failure).
    Io(String),
    /// Operation not implemented on this platform or build.
    Unsupported,
}

pub type BridgeResult<T> = Result<T, BridgeError>;

impl BridgeError {
    /// A human-readable description of the error, prefixed by its category.
    pub fn message(&self) -> (r: String)
        ensures
            match self {
                BridgeError::Invalid(m) => r@ == "Invalid request: "@ + m@,
                BridgeError::Network(m) => r@ == "Network error: "@ + m@,
                BridgeError::Io(m) => r@ == "IO error: "@ + m@,
                BridgeError::Unsupported => r@ == "Unsupported on this platform"@,
            },
    {
        match self {
            BridgeError::Invalid(m) => String::from_str("Invalid request: ").concat(m.as_str()),
            BridgeError::Network(m) => String::from_str("Network error: ").concat(m.as_str()),
            BridgeError::Io(m) => String::from_str("IO error: ").concat(m.as_str()),
            BridgeError::Unsupported => String::from_str("Unsupported on this platform"),
        }
    }
}

/// Classifies a failure reported by the HTTP transport into a `Network`
/// error: a timeout gets a fixed message, a response-decoding failure is
/// prefixed accordingly, and anything else carries the transport's own
/// description unchanged.
pub fn classify_transport_failure(timed_out: bool, decode_failed: bool, detail: String) -> (r:
    BridgeError)
    ensures
        timed_out ==> (r matches BridgeError::Network(m) && m@ == "Request timed out"@),
        !timed_out && decode_failed ==> (r matches BridgeError::Network(m) && m@
            == "Failed to decode response: "@ + detail@),
        !timed_out && !decode_failed ==> r == BridgeError::Network(detail),
{
    if timed_out {
        BridgeError::Network("Request timed out".to_owned())
    } else if decode_failed {
        BridgeError::Network(String::from_str("Failed to decode response: ").concat(detail.as_str()))
    } else {
        BridgeError::Network(detail)
    }
}

/// Classifies a local socket failure: the OS error description becomes an
/// `Io` error, unchanged.
pub fn classify_io_failure(detail: String) -> (r: BridgeError)
    ensures
        r == BridgeError::Io(detail),
{
    BridgeError::Io(detail)
}

} // verus!
