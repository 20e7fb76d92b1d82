//! Decoding response bytes under the two envelope shapes.
//!
//! The bytes of a single-call response are first read under the
//! success shape; when that fails, under the error shape as a
//! fallback interpretation; when both fail, the outcome carries the
//! original decoding failure, not the secondary one.  The bytes of a
//! batch response are read as an array of success envelopes, and on
//! failure as one error envelope: a batch-level protocol failure.
//!
//! What a byte sequence parses as, and what a document's fields hold,
//! are the codec's — named at the trusted boundary (`parsed_document`,
//! `field_of`, ...).  Over those names, `spec_read_id`,
//! `spec_success_shape`, `is_error_shape` and `spec_batch_shape` say
//! what the readers return, and `decode_single` / `decode_batch`
//! promise the whole two-stage outcome.

use vstd::prelude::*;
use vstd::pervasive::arbitrary;
use vstd::string::StringExecFns;
use crate::envelope::{BatchOutcome, ErrorEnvelope, ResponseEnvelope, ResponseId, SingleOutcome};
use crate::json::{
    clone_value, elements_of, error_detail, field_of, get_field, i64_of, parse_json,
    parsed_document, text_of, u64_of, value_as_array, value_as_i64, value_as_text, value_as_u64,
};

verus! {

/// The id field of the envelope `v`, as the correlator reads it.
pub open spec fn spec_read_id(v: serde_json::Value) -> ResponseId {
    match field_of(v, "id"@) {
        None => ResponseId::Absent,
        Some(idv) => match u64_of(idv) {
            Some(n) => ResponseId::Num(n),
            None => ResponseId::Unparseable,
        },
    }
}

/// The envelope that `v` holds under the success shape — an object
/// carrying a `result` field — if it does.
pub open spec fn spec_success_shape(v: serde_json::Value) -> Option<ResponseEnvelope> {
    match field_of(v, "result"@) {
        Some(res) => Some(ResponseEnvelope { id: spec_read_id(v), result: res }),
        None => None,
    }
}

/// The integer code of an error object, when it has one.
pub open spec fn spec_error_code(err: serde_json::Value) -> Option<i64> {
    match field_of(err, "code"@) {
        Some(c) => i64_of(c),
        None => None,
    }
}

/// The message text of an error object, when it has one.
pub open spec fn spec_error_message(err: serde_json::Value) -> Option<Seq<char>> {
    match field_of(err, "message"@) {
        Some(m) => text_of(m),
        None => None,
    }
}

/// Whether `v` carries the error envelope shape: an object with an
/// `error` object holding an integer `code` and a string `message`.
pub open spec fn is_error_shape(v: serde_json::Value) -> bool {
    match field_of(v, "error"@) {
        Some(err) => spec_error_code(err) is Some && spec_error_message(err) is Some,
        None => false,
    }
}

/// Whether `e` is the error envelope that `v` holds: the id as the
/// correlator reads it, and the error object's code, message and
/// optional data.
pub open spec fn matches_error_shape(v: serde_json::Value, e: ErrorEnvelope) -> bool {
    match field_of(v, "error"@) {
        Some(err) => e.id == spec_read_id(v) && Some(e.code) == spec_error_code(err) && (
        match spec_error_message(err) {
            Some(m) => e.message@ == m,
            None => false,
        }) && e.data == field_of(err, "data"@),
        None => false,
    }
}

/// The envelope under `o`, for positions known to hold one.
pub open spec fn env_of(o: Option<ResponseEnvelope>) -> ResponseEnvelope {
    match o {
        Some(e) => e,
        None => arbitrary(),
    }
}

/// The envelopes that `v` holds under the batch shape — an array
/// every element of which carries the success shape — if it does.
pub open spec fn spec_batch_shape(v: serde_json::Value) -> Option<Seq<ResponseEnvelope>> {
    match elements_of(v) {
        None => None,
        Some(items) => if forall|i: int|
            0 <= i < items.len() ==> (#[trigger] spec_success_shape(items[i])) is Some {
            Some(Seq::new(items.len(), |i: int| env_of(spec_success_shape(items[i]))))
        } else {
            None
        },
    }
}

/// Reads the id field of the envelope `v`.
fn read_id(v: &serde_json::Value) -> (r: ResponseId)
    ensures
        r == spec_read_id(*v),
{
    match get_field(v, "id") {
        None => ResponseId::Absent,
        Some(idv) => match value_as_u64(idv) {
            Some(n) => ResponseId::Num(n),
            None => ResponseId::Unparseable,
        },
    }
}

/// Reads `v` under the success envelope shape.
fn read_success_shape(v: &serde_json::Value) -> (r: Option<ResponseEnvelope>)
    ensures
        r == spec_success_shape(*v),
{
    match get_field(v, "result") {
        Some(result) => Some(ResponseEnvelope { id: read_id(v), result: clone_value(result) }),
        None => None,
    }
}

/// Reads `v` under the error envelope shape.
fn read_error_shape(v: &serde_json::Value) -> (r: Option<ErrorEnvelope>)
    ensures
        r is Some <==> is_error_shape(*v),
        r matches Some(e) ==> matches_error_shape(*v, e),
{
    let err = match get_field(v, "error") {
        Some(e) => e,
        None => {
            return None;
        },
    };
    let code = match get_field(err, "code") {
        Some(c) => match value_as_i64(c) {
            Some(n) => n,
            None => {
                return None;
            },
        },
        None => {
            return None;
        },
    };
    let message = match get_field(err, "message") {
        Some(m) => match value_as_text(m) {
            Some(s) => s,
            None => {
                return None;
            },
        },
        None => {
            return None;
        },
    };
    let data = match get_field(err, "data") {
        Some(d) => Some(clone_value(d)),
        None => None,
    };
    Some(ErrorEnvelope { id: read_id(v), code, message, data })
}

/// Reads `v` as an array of success envelopes; one element that does
/// not carry the success shape fails the whole reading.
fn read_batch_shape(v: &serde_json::Value) -> (r: Option<Vec<ResponseEnvelope>>)
    ensures
        match spec_batch_shape(*v) {
            None => r is None,
            Some(s) => r matches Some(envs) && envs@ == s,
        },
{
    let items = match value_as_array(v) {
        Some(items) => items,
        None => {
            return None;
        },
    };
    let n = items.len();
    let mut envs: Vec<ResponseEnvelope> = Vec::with_capacity(n);
    let mut i: usize = 0;
    while i < n
        invariant
            i <= n,
            n == items@.len(),
            elements_of(*v) == Some(items@),
            envs@.len() == i,
            forall|k: int|
                0 <= k < i ==> (#[trigger] spec_success_shape(items@[k])) is Some && envs@[k]
                    == env_of(spec_success_shape(items@[k])),
        decreases n - i,
    {
        match read_success_shape(&items[i]) {
            Some(env) => envs.push(env),
            None => {
                assert(spec_success_shape(items@[i as int]) is None);
                return None;
            },
        }
        i += 1;
    }
    proof {
        assert(envs@ =~= Seq::new(items@.len(), |k: int| env_of(spec_success_shape(items@[k]))));
    }
    Some(envs)
}

/// Resolves the two decoding attempts of a single-call response into
/// one outcome: the success reading when it went through, else the
/// error reading, else undecodable with the original failure detail.
pub fn resolve_single(
    success: Option<ResponseEnvelope>,
    error: Option<ErrorEnvelope>,
    detail: String,
) -> (r: SingleOutcome)
    ensures
        match success {
            Some(env) => r == SingleOutcome::Success(env),
            None => match error {
                Some(e) => r == SingleOutcome::ProtocolErrorShape(e),
                None => r == SingleOutcome::Undecodable(detail),
            },
        },
{
    match success {
        Some(env) => SingleOutcome::Success(env),
        None => match error {
            Some(e) => SingleOutcome::ProtocolErrorShape(e),
            None => SingleOutcome::Undecodable(detail),
        },
    }
}

/// Resolves the two decoding attempts of a batch response into one
/// outcome: the array reading when it went through, else the error
/// reading, else undecodable with the original failure detail.
pub fn resolve_batch(
    batch: Option<Vec<ResponseEnvelope>>,
    error: Option<ErrorEnvelope>,
    detail: String,
) -> (r: BatchOutcome)
    ensures
        match batch {
            Some(envs) => r == BatchOutcome::Batch(envs),
            None => match error {
                Some(e) => r == BatchOutcome::ProtocolErrorShape(e),
                None => r == BatchOutcome::Undecodable(detail),
            },
        },
{
    match batch {
        Some(envs) => BatchOutcome::Batch(envs),
        None => match error {
            Some(e) => BatchOutcome::ProtocolErrorShape(e),
            None => BatchOutcome::Undecodable(detail),
        },
    }
}

/// Decodes the raw response bytes of a single call: the success
/// envelope the bytes hold; else the error envelope they hold; else
/// undecodable.
pub fn decode_single(bytes: &[u8]) -> (r: SingleOutcome)
    ensures
        match parsed_document(bytes@) {
            None => r is Undecodable,
            Some(v) => match spec_success_shape(v) {
                Some(env) => r == SingleOutcome::Success(env),
                None => if is_error_shape(v) {
                    r matches SingleOutcome::ProtocolErrorShape(e) && matches_error_shape(v, e)
                } else {
                    r is Undecodable
                },
            },
        },
{
    let v = match parse_json(bytes) {
        Ok(v) => v,
        Err(e) => {
            return SingleOutcome::Undecodable(error_detail(&e));
        },
    };
    let success = read_success_shape(&v);
    let error = read_error_shape(&v);
    resolve_single(
        success,
        error,
        String::from_str("response carries neither a result nor an error envelope"),
    )
}

/// Decodes the raw response bytes of a batch: the success envelopes
/// the bytes hold as an array; else the error envelope they hold;
/// else undecodable.
pub fn decode_batch(bytes: &[u8]) -> (r: BatchOutcome)
    ensures
        match parsed_document(bytes@) {
            None => r is Undecodable,
            Some(v) => match spec_batch_shape(v) {
                Some(s) => r matches BatchOutcome::Batch(envs) && envs@ == s,
                None => if is_error_shape(v) {
                    r matches BatchOutcome::ProtocolErrorShape(e) && matches_error_shape(v, e)
                } else {
                    r is Undecodable
                },
            },
        },
{
    let v = match parse_json(bytes) {
        Ok(v) => v,
        Err(e) => {
            return BatchOutcome::Undecodable(error_detail(&e));
        },
    };
    let batch = read_batch_shape(&v);
    let error = read_error_shape(&v);
    resolve_batch(
        batch,
        error,
        String::from_str("response is neither an envelope array nor an error envelope"),
    )
}

} // verus!
