//! The error taxonomy of the correlation core.
//!
//! None of these are recovered locally: every failure is returned to
//! the caller as a typed result, and the caller branches on the kind.

use vstd::prelude::*;

verus! {

/// A failure of one call, notification or batch.
#[derive(Debug, PartialEq)]
pub enum RpcError {
    /// The transport collaborator failed, or the outbound body
    /// exceeded the configured maximum request body size.  Carries
    /// the collaborator's own description.
    Transport(String),
    /// The response bytes decoded under neither the success nor the
    /// error envelope shape.  Carries the original decoding failure,
    /// not the secondary one.
    Parse(String),
    /// The server returned a well-formed error envelope; its code,
    /// message and optional data are surfaced as the server sent them.
    Protocol { code: i64, message: String, data: Option<serde_json::Value> },
    /// The response id was missing, not a correlation id, or matched
    /// no outstanding call.
    Unattributable,
}

} // verus!
