//! Building request envelopes and their wire text.
//!
//! An envelope carries the version tag, the method, the parameters
//! when there are any, and — for a call, never for a notification —
//! the correlation id.  `envelope_model` states exactly which keys
//! the envelope object binds; the JSON text itself is produced by the
//! codec behind the trusted boundary and named by `json_text`.

use vstd::prelude::*;
use crate::envelope::{Call, Notification};
use crate::errors::RpcError;
use crate::json::{
    array_document, array_value, clone_value, document_of, error_detail, json_text, new_object,
    number_document, number_value, obj_model, object_insert, object_value, text_document,
    text_value, to_json_text,
};

verus! {

/// The bindings of one request's envelope object: the version tag,
/// the id when there is one, the method, and the parameters when
/// there are any — and nothing else.
pub open spec fn envelope_model(
    method: Seq<char>,
    params: Option<serde_json::Value>,
    id: Option<u64>,
) -> Map<Seq<char>, serde_json::Value> {
    let base = Map::<Seq<char>, serde_json::Value>::empty().insert(
        "jsonrpc"@,
        text_document("2.0"@),
    );
    let with_id = match id {
        Some(n) => base.insert("id"@, number_document(n)),
        None => base,
    };
    let with_method = with_id.insert("method"@, text_document(method));
    match params {
        Some(p) => with_method.insert("params"@, p),
        None => with_method,
    }
}

/// The envelope document of one call.
pub open spec fn call_document(c: Call) -> serde_json::Value {
    document_of(envelope_model(c.method@, c.params, Some(c.id)))
}

/// The envelope document of one notification: the same envelope as a
/// call's, binding no id.
pub open spec fn notification_document(n: Notification) -> serde_json::Value {
    document_of(envelope_model(n.method@, n.params, None))
}

/// The envelope array of an ordered batch: the calls' envelope
/// documents, in submission order.
pub open spec fn batch_document(calls: Seq<Call>) -> serde_json::Value {
    array_document(Seq::new(calls.len(), |i: int| call_document(calls[i])))
}

/// The envelope object of one request; `id` is present for a call
/// and absent for a notification.
fn request_value(method: &str, params: &Option<serde_json::Value>, id: Option<u64>) -> (r:
    serde_json::Value)
    ensures
        r == document_of(envelope_model(method@, *params, id)),
{
    let obj = new_object();
    proof {
        assert(obj_model(obj) =~= Map::<Seq<char>, serde_json::Value>::empty());
    }
    let obj = object_insert(obj, "jsonrpc", text_value("2.0"));
    let obj = match id {
        Some(n) => object_insert(obj, "id", number_value(n)),
        None => obj,
    };
    let obj = object_insert(obj, "method", text_value(method));
    let obj = match params {
        Some(p) => object_insert(obj, "params", clone_value(p)),
        None => obj,
    };
    object_value(obj)
}

/// The wire text of one call: the serialization of its envelope,
/// which binds exactly the version tag, the call's id, its method,
/// and its parameters when it has any.
pub fn encode_call(call: &Call) -> (r: Result<String, RpcError>)
    ensures
        r matches Ok(s) && s@ == json_text(call_document(*call)),
{
    let v = request_value(call.method.as_str(), &call.params, Some(call.id));
    match to_json_text(&v) {
        Ok(s) => Ok(s),
        Err(e) => Err(RpcError::Parse(error_detail(&e))),
    }
}

/// The wire text of one notification: the serialization of its
/// envelope, which binds exactly the version tag, its method, and its
/// parameters when it has any — and no id.
pub fn encode_notification(notif: &Notification) -> (r: Result<String, RpcError>)
    ensures
        r matches Ok(s) && s@ == json_text(notification_document(*notif)),
{
    let v = request_value(notif.method.as_str(), &notif.params, None);
    match to_json_text(&v) {
        Ok(s) => Ok(s),
        Err(e) => Err(RpcError::Parse(error_detail(&e))),
    }
}

/// The wire text of an ordered batch: the serialization of the array
/// of its calls' envelopes, in submission order.
pub fn encode_batch(calls: &Vec<Call>) -> (r: Result<String, RpcError>)
    ensures
        r matches Ok(s) && s@ == json_text(batch_document(calls@)),
{
    let n = calls.len();
    let mut items: Vec<serde_json::Value> = Vec::with_capacity(n);
    let mut i: usize = 0;
    while i < n
        invariant
            i <= n,
            n == calls@.len(),
            items@.len() == i,
            forall|k: int| 0 <= k < i ==> items@[k] == call_document(calls@[k]),
        decreases n - i,
    {
        let call = &calls[i];
        items.push(request_value(call.method.as_str(), &call.params, Some(call.id)));
        i += 1;
    }
    proof {
        assert(items@ =~= Seq::new(calls@.len(), |k: int| call_document(calls@[k])));
    }
    let v = array_value(items);
    match to_json_text(&v) {
        Ok(s) => Ok(s),
        Err(e) => Err(RpcError::Parse(error_detail(&e))),
    }
}

} // verus!
