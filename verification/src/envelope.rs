//! The data model of requests and decoded responses.
//!
//! Requests carry plain values: a method name, optional structured
//! parameters, and — for calls, never for notifications — a
//! correlation id.  Decoded responses carry the fields the correlator
//! reads as plain values; the result payload itself stays an opaque
//! structured value that is handed back to the caller uninterpreted.

use vstd::prelude::*;

verus! {

/// A method call that expects a response, carrying the correlation id
/// that its response must echo.
#[derive(Debug, PartialEq)]
pub struct Call {
    pub method: String,
    pub params: Option<serde_json::Value>,
    pub id: u64,
}

/// A method call that expects no response and therefore carries no id.
#[derive(Debug, PartialEq)]
pub struct Notification {
    pub method: String,
    pub params: Option<serde_json::Value>,
}

/// The id field of a decoded response envelope, as the correlator
/// reads it.
#[derive(Clone, Copy, Debug, PartialEq, Eq, Structural)]
pub enum ResponseId {
    /// The envelope carried no id field.
    Absent,
    /// The id field was present but not an unsigned 64-bit number.
    Unparseable,
    /// The id field parsed as a correlation id.
    Num(u64),
}

/// A response envelope decoded under the success shape.
#[derive(Debug, PartialEq)]
pub struct ResponseEnvelope {
    pub id: ResponseId,
    /// The server-supplied result, handed to the caller uninterpreted.
    pub result: serde_json::Value,
}

/// A response envelope decoded under the error shape: a protocol-level
/// failure reported by the server.
#[derive(Debug, PartialEq)]
pub struct ErrorEnvelope {
    pub id: ResponseId,
    pub code: i64,
    pub message: String,
    pub data: Option<serde_json::Value>,
}

/// The outcome of decoding the response bytes of a single call.
#[derive(Debug, PartialEq)]
pub enum SingleOutcome {
    /// The bytes decoded under the success envelope shape.
    Success(ResponseEnvelope),
    /// The bytes decoded under the error envelope shape instead.
    ProtocolErrorShape(ErrorEnvelope),
    /// The bytes decoded under neither shape; carries the original
    /// decoding failure.
    Undecodable(String),
}

/// The outcome of decoding the response bytes of a batch.
#[derive(Debug, PartialEq)]
pub enum BatchOutcome {
    /// The bytes decoded as an array of success envelopes.
    Batch(Vec<ResponseEnvelope>),
    /// The bytes decoded as a single error envelope: the server
    /// rejected the batch wholesale.
    ProtocolErrorShape(ErrorEnvelope),
    /// The bytes decoded under neither shape; carries the original
    /// decoding failure.
    Undecodable(String),
}

} // verus!
