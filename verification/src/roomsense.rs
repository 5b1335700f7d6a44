//! The local wireless scanning stub.
use vstd::prelude::*;

use crate::error::BridgeError;
use crate::error::BridgeResult;

verus! {

/// Local wireless scanning. Not implemented on any platform or build: it
/// always fails with `Unsupported`, whatever timeout is asked for.
pub fn scan(_timeout_ms: Option<u64>) -> (r: BridgeResult<Vec<serde_json::Value>>)
    ensures
        r matches Err(e) && e is Unsupported,
{
    Err(BridgeError::Unsupported)
}

} // verus!
