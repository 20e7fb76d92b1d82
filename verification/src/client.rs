//! The client core: configuration and the compute halves of
//! notifications, calls and batches.
//!
//! The transport collaborator that physically carries bytes is owned
//! by the caller.  A call or batch is issued in two halves: `start_*`
//! allocates ids, builds the envelope and its wire body — exactly the
//! bytes that `call_wire` / `notification_wire` / `batch_wire` name —
//! and rejects a body over the configured size limit; the caller
//! sends the body and reads the response bytes; `complete_*` decodes
//! them and matches them back to the ids that were allocated.

use vstd::prelude::*;
use vstd::string::{StringExecFns, StrSliceExecFns};
use vstd::utf8::encode_utf8;
use crate::correlate::{all_attributable, finish_batch, finish_single, slot, BatchHandle};
use crate::decode::{
    decode_batch, decode_single, is_error_shape, matches_error_shape, spec_batch_shape,
    spec_read_id, spec_success_shape,
};
use crate::encode::{encode_batch, encode_call, encode_notification, envelope_model};
use crate::envelope::{Call, ErrorEnvelope, Notification, ResponseId};
use crate::errors::RpcError;
use crate::ids::{id_run, lemma_id_run_distinct, wrap_add, wrap_inc, IdGenerator};
use crate::json::{document_of, json_text, parsed_document};

verus! {

/// The default maximum size of an outbound request body: 10 MiB.
pub const TEN_MB_SIZE_BYTES: u32 = 10 * 1024 * 1024;

/// The wire bytes of one call: the UTF-8 text of its envelope, which
/// binds exactly the version tag, the id, the method, and the
/// parameters when there are any.
pub open spec fn call_wire(method: Seq<char>, params: Option<serde_json::Value>, id: u64) -> Seq<
    u8,
> {
    encode_utf8(json_text(document_of(envelope_model(method, params, Some(id)))))
}

/// The wire bytes of one notification: the same envelope as a call's,
/// binding no id.
pub open spec fn notification_wire(method: Seq<char>, params: Option<serde_json::Value>) -> Seq<
    u8,
> {
    encode_utf8(json_text(document_of(envelope_model(method, params, None))))
}

/// The calls of a batch whose entries were allocated ids starting at
/// `start`, in submission order.
pub open spec fn batch_calls(
    entries: Seq<(String, Option<serde_json::Value>)>,
    start: u64,
) -> Seq<Call> {
    Seq::new(
        entries.len(),
        |i: int|
            Call { method: entries[i].0, params: entries[i].1, id: wrap_add(start, i as u64) },
    )
}

/// The wire bytes of an ordered batch: the UTF-8 text of the array of
/// its calls' envelopes, in submission order.
pub open spec fn batch_wire(calls: Seq<Call>) -> Seq<u8> {
    encode_utf8(json_text(crate::encode::batch_document(calls)))
}

/// Whether `e` is the protocol-level error that the document `v`
/// carries as an error envelope.
pub open spec fn is_protocol_of(v: serde_json::Value, e: RpcError) -> bool {
    match e {
        RpcError::Protocol { code, message, data } => matches_error_shape(
            v,
            ErrorEnvelope { id: spec_read_id(v), code, message, data },
        ),
        _ => false,
    }
}

/// Http Client Builder.
pub struct HttpClientBuilder {
    pub max_request_body_size: u32,
}

impl HttpClientBuilder {
    /// Sets the maximum size of a request body in bytes (default is 10 MiB).
    pub fn max_request_body_size(self, size: u32) -> (r: Self)
        ensures
            r.max_request_body_size == size,
    {
        let mut this = self;
        this.max_request_body_size = size;
        this
    }

    /// Builds the client core, its id counter at zero.  The transport
    /// that will carry its bodies is the caller's, built elsewhere.
    pub fn build(self) -> (r: HttpClient)
        ensures
            r.max_request_body_size == self.max_request_body_size,
            r.request_id.counter == 0,
    {
        HttpClient {
            max_request_body_size: self.max_request_body_size,
            request_id: IdGenerator::new(),
        }
    }
}

impl Default for HttpClientBuilder {
    fn default() -> (r: Self)
        ensures
            r.max_request_body_size == TEN_MB_SIZE_BYTES,
    {
        HttpClientBuilder { max_request_body_size: TEN_MB_SIZE_BYTES }
    }
}

/// JSON-RPC HTTP client core: performs the id allocation, envelope
/// construction and response correlation of method calls and
/// notifications.
pub struct HttpClient {
    /// Maximum outbound request body size in bytes.
    pub max_request_body_size: u32,
    /// Request id generator; wraps around when overflowing.
    pub request_id: IdGenerator,
}

impl HttpClient {
    /// Builds a call, allocating the next correlation id to it.
    pub fn make_call(&mut self, method: String, params: Option<serde_json::Value>) -> (c: Call)
        ensures
            c.method == method,
            c.params == params,
            c.id == old(self).request_id.counter,
            final(self).request_id.counter == wrap_inc(old(self).request_id.counter),
            final(self).max_request_body_size == old(self).max_request_body_size,
    {
        let id = self.request_id.next_id();
        Call { method, params, id }
    }

    /// Builds a notification.  No id is allocated: the receiver is
    /// shared, so the generator provably cannot move.
    pub fn make_notification(&self, method: String, params: Option<serde_json::Value>) -> (n:
        Notification)
        ensures
            n.method == method,
            n.params == params,
    {
        Notification { method, params }
    }

    /// Builds an ordered batch of calls, allocating one id per entry
    /// in submission order, and the handle that maps each id back to
    /// its entry's position — the only way correlation can later
    /// restore submission order, since batch replies are unordered.
    pub fn make_batch(&mut self, entries: Vec<(String, Option<serde_json::Value>)>) -> (r: (
        Vec<Call>,
        BatchHandle,
    ))
        ensures
            r.0@ == batch_calls(entries@, old(self).request_id.counter),
            r.1.wf(),
            r.1.ids@ == id_run(old(self).request_id.counter, entries@.len() as u64),
            final(self).request_id.counter == wrap_add(
                old(self).request_id.counter,
                entries@.len() as u64,
            ),
            final(self).max_request_body_size == old(self).max_request_body_size,
    {
        let ghost start = self.request_id.counter;
        let n = entries.len();
        let mut entries = entries;
        let mut calls: Vec<Call> = Vec::with_capacity(n);
        let mut ids: Vec<u64> = Vec::with_capacity(n);
        let ghost all_entries = entries@;
        let mut i: usize = 0;
        while i < n
            invariant
                i <= n,
                n == all_entries.len(),
                entries@ == all_entries.skip(i as int),
                calls@.len() == i,
                ids@.len() == i,
                self.request_id.counter == wrap_add(start, i as u64),
                self.max_request_body_size == old(self).max_request_body_size,
                forall|j: int|
                    0 <= j < i ==> (#[trigger] calls@[j]).method == all_entries[j].0
                        && calls@[j].params == all_entries[j].1 && calls@[j].id == wrap_add(
                        start,
                        j as u64,
                    ),
                forall|j: int| 0 <= j < i ==> ids@[j] == wrap_add(start, j as u64),
            decreases n - i,
        {
            let (method, params) = entries.remove(0);
            let id = self.request_id.next_id();
            proof {
                assert(wrap_inc(wrap_add(start, i as u64)) == wrap_add(start, (i + 1) as u64));
            }
            calls.push(Call { method, params, id });
            ids.push(id);
            i += 1;
        }
        proof {
            lemma_id_run_distinct(start, n as u64);
            assert(ids@ =~= id_run(start, n as u64));
            assert(ids@.no_duplicates());
            assert(calls@ =~= batch_calls(all_entries, start));
        }
        let handle = BatchHandle::from_ids(ids);
        (calls, handle)
    }

    /// The compute half of sending a notification: the wire body of
    /// the notification envelope — owed exactly when it fits the
    /// configured size limit, and rejected as the transport
    /// collaborator's concern when it does not.  Takes the receiver
    /// shared: issuing any number of notifications leaves the id
    /// generator unchanged.
    pub fn start_notification(&self, method: &str, params: Option<serde_json::Value>) -> (r:
        Result<Vec<u8>, RpcError>)
        ensures
            r is Ok <==> notification_wire(method@, params).len() <= self.max_request_body_size,
            r matches Ok(body) ==> body@ == notification_wire(method@, params),
            r matches Err(e) ==> e is Transport,
    {
        let notif = self.make_notification(String::from_str(method), params);
        let text = match encode_notification(&notif) {
            Ok(t) => t,
            Err(e) => {
                return Err(e);
            },
        };
        self.check_body_size(text)
    }

    /// The compute half of sending a call: allocates the call's id
    /// and returns it with the wire body of the call's envelope —
    /// owed exactly when the body fits the configured size limit.
    /// The id is consumed even when the body is rejected, as the
    /// counter has already advanced.
    pub fn start_request(&mut self, method: &str, params: Option<serde_json::Value>) -> (r: Result<
        (u64, Vec<u8>),
        RpcError,
    >)
        ensures
            final(self).request_id.counter == wrap_inc(old(self).request_id.counter),
            final(self).max_request_body_size == old(self).max_request_body_size,
            r is Ok <==> call_wire(method@, params, old(self).request_id.counter).len() <= old(
                self,
            ).max_request_body_size,
            r matches Ok(pair) ==> pair.0 == old(self).request_id.counter && pair.1@ == call_wire(
                method@,
                params,
                old(self).request_id.counter,
            ),
            r matches Err(e) ==> e is Transport,
    {
        let call = self.make_call(String::from_str(method), params);
        let id = call.id;
        let text = match encode_call(&call) {
            Ok(t) => t,
            Err(e) => {
                return Err(e);
            },
        };
        match self.check_body_size(text) {
            Ok(body) => Ok((id, body)),
            Err(e) => Err(e),
        }
    }

    /// The compute half of sending a batch: allocates one id per
    /// entry and returns the correlation handle with the wire body of
    /// the envelope array — owed exactly when the body fits the
    /// configured size limit.  The ids are consumed even when the
    /// body is rejected.
    pub fn start_batch(&mut self, entries: Vec<(String, Option<serde_json::Value>)>) -> (r: Result<
        (BatchHandle, Vec<u8>),
        RpcError,
    >)
        ensures
            final(self).request_id.counter == wrap_add(
                old(self).request_id.counter,
                entries@.len() as u64,
            ),
            final(self).max_request_body_size == old(self).max_request_body_size,
            r is Ok <==> batch_wire(batch_calls(entries@, old(self).request_id.counter)).len()
                <= old(self).max_request_body_size,
            r matches Ok(pair) ==> pair.0.wf() && pair.0.ids@ == id_run(
                old(self).request_id.counter,
                entries@.len() as u64,
            ) && pair.1@ == batch_wire(batch_calls(entries@, old(self).request_id.counter)),
            r matches Err(e) ==> e is Transport,
    {
        let (calls, handle) = self.make_batch(entries);
        let text = match encode_batch(&calls) {
            Ok(t) => t,
            Err(e) => {
                return Err(e);
            },
        };
        match self.check_body_size(text) {
            Ok(body) => Ok((handle, body)),
            Err(e) => Err(e),
        }
    }

    /// Matches the raw response bytes of a single call against the id
    /// the call was allocated: the result of the success envelope the
    /// bytes hold, exactly when its id echoes the call's; the
    /// unattributable-response error when it does not; the envelope's
    /// protocol-level error when the bytes hold an error envelope;
    /// and a parse failure when they hold neither shape.  Never a
    /// transport failure: the transport is not consulted here.
    pub fn complete_request(&self, id: u64, body: &[u8]) -> (r: Result<serde_json::Value, RpcError>)
        ensures
            match parsed_document(body@) {
                None => r matches Err(e) && e is Parse,
                Some(v) => match spec_success_shape(v) {
                    Some(env) => if env.id == ResponseId::Num(id) {
                        r == Ok::<serde_json::Value, RpcError>(env.result)
                    } else {
                        r == Err::<serde_json::Value, RpcError>(RpcError::Unattributable)
                    },
                    None => if is_error_shape(v) {
                        r matches Err(e) && is_protocol_of(v, e)
                    } else {
                        r matches Err(e) && e is Parse
                    },
                },
            },
    {
        finish_single(id, decode_single(body))
    }

    /// Matches the raw response bytes of a batch against its handle:
    /// when the bytes hold an envelope array, the results in
    /// submission order — exactly when every envelope's id names an
    /// outstanding call, with `placeholder` at positions the reply
    /// never named, and the unattributable-response error otherwise;
    /// the protocol-level error when the bytes hold an error
    /// envelope; a parse failure when they hold neither shape.  Never
    /// a transport failure.
    pub fn complete_batch(
        &self,
        handle: &BatchHandle,
        body: &[u8],
        placeholder: serde_json::Value,
    ) -> (r: Result<Vec<serde_json::Value>, RpcError>)
        requires
            handle.wf(),
        ensures
            match parsed_document(body@) {
                None => r matches Err(e) && e is Parse,
                Some(v) => match spec_batch_shape(v) {
                    Some(envs) => {
                        &&& (r is Ok <==> all_attributable(handle.ids@, envs))
                        &&& (r matches Ok(out) ==> out@.len() == handle.ids@.len() && forall|
                            p: int,
                        |
                            0 <= p < handle.ids@.len() ==> out@[p] == slot(
                                envs,
                                handle.ids@[p],
                                placeholder,
                            ))
                        &&& (r is Err ==> r == Err::<Vec<serde_json::Value>, RpcError>(
                            RpcError::Unattributable,
                        ))
                    },
                    None => if is_error_shape(v) {
                        r matches Err(e) && is_protocol_of(v, e)
                    } else {
                        r matches Err(e) && e is Parse
                    },
                },
            },
    {
        finish_batch(handle, decode_batch(body), placeholder)
    }

    /// The outbound size check: the UTF-8 bytes of the wire text,
    /// exactly when they fit the configured limit, and a
    /// transport-kind rejection — the size limit is the transport
    /// collaborator's concern, enforced here before sending — when
    /// they do not.
    fn check_body_size(&self, text: String) -> (r: Result<Vec<u8>, RpcError>)
        ensures
            r is Ok <==> encode_utf8(text@).len() <= self.max_request_body_size,
            r matches Ok(body) ==> body@ == encode_utf8(text@),
            r matches Err(e) ==> e is Transport,
    {
        let body = text.as_str().as_bytes_vec();
        if body.len() <= self.max_request_body_size as usize {
            Ok(body)
        } else {
            Err(RpcError::Transport(String::from_str("request body exceeds the maximum size")))
        }
    }
}

} // verus!
