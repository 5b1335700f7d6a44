//! Decision logic of the HTTP remote-control client: which statuses count
//! as success, what body a POST attaches, and how exchange outcomes map to
//! bridge errors. The blocking HTTP calls themselves are I/O and are
//! performed by the caller around these functions.
use vstd::prelude::*;

use crate::error::BridgeError;

verus! {

/// The request timeout, in seconds, the HTTP client is configured with.
pub const HTTP_TIMEOUT_SECS: u64 = 6;

/// The connection settings the HTTP client is built with, fixed at
/// construction and shared read-only across calls.
pub struct HttpClientConfig {
    /// Total timeout per request, in seconds.
    pub timeout_secs: u64,
    /// Whether TLS certificate validation is disabled. Accepting
    /// self-signed or invalid certificates is a deliberate trust
    /// trade-off: LAN devices typically present self-signed certificates
    /// or speak plain HTTP. It is a known weakening of transport
    /// security, kept on purpose.
    pub accept_invalid_certs: bool,
}

/// The one configuration the media-player client uses: a 6-second total
/// timeout per request, and certificate validation disabled.
pub fn client_config() -> (c: HttpClientConfig)
    ensures
        c.timeout_secs == HTTP_TIMEOUT_SECS,
        c.accept_invalid_certs,
{
    HttpClientConfig { timeout_secs: HTTP_TIMEOUT_SECS, accept_invalid_certs: true }
}

/// An HTTP exchange succeeds exactly on the 2xx and 3xx statuses.
pub open spec fn status_ok(status: int) -> bool {
    200 <= status <= 399
}

/// Runtime test for `status_ok`.
pub fn status_is_success(status: u16) -> (r: bool)
    ensures
        r == status_ok(status as int),
{
    200 <= status && status <= 399
}

/// Judges a response by its status code alone: success statuses yield
/// `Ok`, every other status yields a `Network` error carrying the given
/// description — never a body.
pub fn classify_status(status: u16, detail: String) -> (r: Result<(), BridgeError>)
    ensures
        r is Ok <==> status_ok(status as int),
        !status_ok(status as int) ==> (r matches Err(e) && e == BridgeError::Network(detail)),
{
    if status_is_success(status) {
        Ok(())
    } else {
        Err(BridgeError::Network(detail))
    }
}

/// The body a POST attaches: none when the caller supplied no body or an
/// empty one; otherwise the caller's string, verbatim.
pub fn post_body_plan(body: Option<&str>) -> (r: Option<String>)
    ensures
        match body {
            None => r is None,
            Some(b) => if b@.len() == 0 {
                r is None
            } else {
                r matches Some(s) && s@ == b@
            },
        },
{
    match body {
        None => None,
        Some(b) => if b.is_empty() {
            None
        } else {
            Some(b.to_owned())
        },
    }
}

} // verus!
