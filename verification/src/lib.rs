//! Correlation core of a JSON-RPC client: it allocates unique
//! correlation identifiers, builds single and batched request
//! envelopes, decodes response bytes under the success and error
//! envelope shapes, and matches decoded responses back to the calls
//! that produced them by id, never by array position.

pub mod client;
pub mod correlate;
pub mod decode;
pub mod encode;
pub mod envelope;
pub mod errors;
pub mod ids;
pub mod json;
