//! Matching decoded responses back to the calls that produced them.
//!
//! A single call is matched by comparing the response's id with the
//! id the call was allocated.  A batch is matched through an explicit
//! id-to-position map built when the batch was assembled: batch
//! replies arrive in arbitrary order, so a response's position in the
//! reply array means nothing, and only its id says which call it
//! answers.  One envelope whose id matches no outstanding call fails
//! the whole batch, since position assignment can no longer be
//! trusted.

use vstd::prelude::*;
use vstd::pervasive::VecAdditionalExecFns;
use std::collections::HashMap;
use crate::envelope::{BatchOutcome, ResponseEnvelope, ResponseId, SingleOutcome};
use crate::errors::RpcError;
use crate::json::clone_value;

verus! {

broadcast use vstd::std_specs::hash::group_hash_axioms;

/// The correlation handle of one batch: the ids allocated to its
/// calls in submission order, and the id-to-position map that is
/// consulted — never inferred — when the responses arrive.
pub struct BatchHandle {
    /// The member ids, in submission order.
    pub ids: Vec<u64>,
    /// Maps each member id to its position in `ids`.
    pub positions: HashMap<u64, usize>,
}

impl BatchHandle {
    /// The handle is internally consistent: the member ids are
    /// pairwise distinct, and `positions` maps exactly the member ids,
    /// each to its position in submission order.
    pub open spec fn wf(&self) -> bool {
        &&& self.ids@.no_duplicates()
        &&& forall|p: int|
            0 <= p < self.ids@.len() ==> self.positions@.contains_key(#[trigger] self.ids@[p])
                && self.positions@[self.ids@[p]] == p
        &&& forall|k: u64| #[trigger] self.positions@.contains_key(k) ==> self.ids@.contains(k)
    }

    /// Builds the handle for a batch whose calls were allocated `ids`,
    /// in submission order, recording each id's position.
    pub fn from_ids(ids: Vec<u64>) -> (r: BatchHandle)
        requires
            ids@.no_duplicates(),
        ensures
            r.wf(),
            r.ids@ == ids@,
    {
        let n = ids.len();
        let mut positions: HashMap<u64, usize> = HashMap::with_capacity(n);
        let mut p: usize = 0;
        while p < n
            invariant
                p <= n,
                n == ids@.len(),
                ids@.no_duplicates(),
                forall|q: int|
                    0 <= q < p ==> positions@.contains_key(#[trigger] ids@[q])
                        && positions@[ids@[q]] == q,
                forall|k: u64| #[trigger] positions@.contains_key(k) ==> ids@.take(p as int).contains(k),
            decreases n - p,
        {
            let id = ids[p];
            positions.insert(id, p);
            assert(ids@.take(p + 1)[p as int] == ids@[p as int]);
            assert(ids@.take(p + 1).contains(ids@[p as int]));
            assert(forall|k: u64|
                ids@.take(p as int).contains(k) ==> #[trigger] ids@.take(p + 1).contains(k)) by {
                assert(forall|j: int| 0 <= j < p ==> ids@.take(p as int)[j] == #[trigger] ids@.take(
                    p + 1,
                )[j]);
            }
            p += 1;
        }
        assert(forall|k: u64| ids@.take(n as int).contains(k) ==> #[trigger] ids@.contains(k)) by {
            assert(ids@.take(n as int) =~= ids@);
        }
        BatchHandle { ids, positions }
    }
}

/// Whether `env` answers an outstanding call: its id parsed as a
/// correlation id that is a member of `ids`.
pub open spec fn attributable(ids: Seq<u64>, env: ResponseEnvelope) -> bool {
    match env.id {
        ResponseId::Num(n) => ids.contains(n),
        _ => false,
    }
}

/// Every envelope of the reply answers an outstanding call.
pub open spec fn all_attributable(ids: Seq<u64>, envs: Seq<ResponseEnvelope>) -> bool {
    forall|j: int| 0 <= j < envs.len() ==> attributable(ids, #[trigger] envs[j])
}

/// The result carried by the last envelope in `envs` whose id is
/// `Num(id)`, if any.  When a reply names one id twice, the later
/// envelope wins, because its slot is overwritten in reply order.
pub open spec fn last_match(envs: Seq<ResponseEnvelope>, id: u64) -> Option<serde_json::Value>
    decreases envs.len(),
{
    if envs.len() == 0 {
        None
    } else if envs.last().id == ResponseId::Num(id) {
        Some(envs.last().result)
    } else {
        last_match(envs.drop_last(), id)
    }
}

/// The output slot of the call allocated `id`: the result its reply
/// envelope carried, or the caller-supplied placeholder when the
/// reply named `id` not at all.
pub open spec fn slot(
    envs: Seq<ResponseEnvelope>,
    id: u64,
    placeholder: serde_json::Value,
) -> serde_json::Value {
    match last_match(envs, id) {
        Some(v) => v,
        None => placeholder,
    }
}

/// No correlation id is named by two envelopes of the reply.
pub open spec fn distinct_num_ids(envs: Seq<ResponseEnvelope>) -> bool {
    forall|j: int, k: int|
        #![trigger envs[j], envs[k]]
        0 <= j < k < envs.len() && envs[j].id is Num ==> envs[j].id != envs[k].id
}

/// When envelope `j` of a reply without repeated ids names `id`, it
/// is the envelope whose result the slot for `id` carries.
proof fn lemma_last_match_unique(envs: Seq<ResponseEnvelope>, id: u64, j: int)
    requires
        distinct_num_ids(envs),
        0 <= j < envs.len(),
        envs[j].id == ResponseId::Num(id),
    ensures
        last_match(envs, id) == Some(envs[j].result),
    decreases envs.len(),
{
    if j == envs.len() - 1 {
        assert(envs.last() == envs[j]);
    } else {
        assert(envs.last().id != ResponseId::Num(id));
        assert(forall|i: int| 0 <= i < envs.len() - 1 ==> envs.drop_last()[i] == envs[i]);
        lemma_last_match_unique(envs.drop_last(), id, j);
    }
}

/// A reply none of whose envelopes names `id` leaves the slot for
/// `id` unfilled.
proof fn lemma_last_match_none(envs: Seq<ResponseEnvelope>, id: u64)
    requires
        forall|j: int| 0 <= j < envs.len() ==> (#[trigger] envs[j]).id != ResponseId::Num(id),
    ensures
        last_match(envs, id) is None,
    decreases envs.len(),
{
    if envs.len() > 0 {
        assert(forall|i: int| 0 <= i < envs.len() - 1 ==> envs.drop_last()[i] == envs[i]);
        lemma_last_match_none(envs.drop_last(), id);
    }
}

/// A filled slot carries the result of some envelope that names `id`.
proof fn lemma_last_match_witness(envs: Seq<ResponseEnvelope>, id: u64)
    requires
        last_match(envs, id) is Some,
    ensures
        exists|j: int|
            0 <= j < envs.len() && (#[trigger] envs[j]).id == ResponseId::Num(id) && Some(
                envs[j].result,
            ) == last_match(envs, id),
    decreases envs.len(),
{
    if envs.last().id == ResponseId::Num(id) {
        assert(envs[envs.len() - 1] == envs.last());
    } else {
        lemma_last_match_witness(envs.drop_last(), id);
        let j = choose|j: int|
            0 <= j < envs.drop_last().len() && (#[trigger] envs.drop_last()[j]).id
                == ResponseId::Num(id) && Some(envs.drop_last()[j].result) == last_match(
                envs.drop_last(),
                id,
            );
        assert(envs[j] == envs.drop_last()[j]);
    }
}

/// Batch replies are unordered: two replies that carry the same
/// envelopes, in whatever order, and name no id twice, fill every
/// slot alike.  Correlation therefore depends only on which envelopes
/// arrived, never on where in the reply array they stood.
pub proof fn lemma_reply_order_irrelevant(
    a: Seq<ResponseEnvelope>,
    b: Seq<ResponseEnvelope>,
    id: u64,
    placeholder: serde_json::Value,
)
    requires
        forall|e: ResponseEnvelope| a.contains(e) <==> b.contains(e),
        distinct_num_ids(a),
        distinct_num_ids(b),
    ensures
        slot(a, id, placeholder) == slot(b, id, placeholder),
{
    if last_match(a, id) is Some {
        lemma_last_match_witness(a, id);
        let j = choose|j: int|
            0 <= j < a.len() && (#[trigger] a[j]).id == ResponseId::Num(id) && Some(a[j].result)
                == last_match(a, id);
        let e = a[j];
        assert(a.contains(e));
        assert(b.contains(e));
        let k = choose|k: int| 0 <= k < b.len() && b[k] == e;
        lemma_last_match_unique(b, id, k);
    } else {
        assert forall|k: int| 0 <= k < b.len() implies (#[trigger] b[k]).id != ResponseId::Num(
            id,
        ) by {
            if b[k].id == ResponseId::Num(id) {
                let e = b[k];
                assert(b.contains(e));
                assert(a.contains(e));
                let j = choose|j: int| 0 <= j < a.len() && a[j] == e;
                lemma_last_match_unique(a, id, j);
            }
        }
        lemma_last_match_none(b, id);
    }
}

proof fn lemma_last_match_push(s: Seq<ResponseEnvelope>, e: ResponseEnvelope, id: u64)
    ensures
        last_match(s.push(e), id) == if e.id == ResponseId::Num(id) {
            Some(e.result)
        } else {
            last_match(s, id)
        },
{
    assert(s.push(e).last() == e);
    assert(s.push(e).drop_last() =~= s);
}

/// Matches the decoded envelopes of a batch reply against the batch's
/// handle.  Succeeds exactly when every envelope answers an
/// outstanding call; the output then holds, at each submission-order
/// position, the result sent for that position's id — wherever in the
/// reply array it arrived — and the caller-supplied placeholder at
/// positions whose id the reply never named.
pub fn correlate_batch(
    handle: &BatchHandle,
    envs: Vec<ResponseEnvelope>,
    placeholder: serde_json::Value,
) -> (r: Result<Vec<serde_json::Value>, RpcError>)
    requires
        handle.wf(),
    ensures
        r is Ok <==> all_attributable(handle.ids@, envs@),
        r matches Ok(out) ==> out@.len() == handle.ids@.len() && forall|p: int|
            0 <= p < handle.ids@.len() ==> out@[p] == slot(envs@, handle.ids@[p], placeholder),
        r is Err ==> r == Err::<Vec<serde_json::Value>, RpcError>(RpcError::Unattributable),
{
    let n = handle.ids.len();
    let mut out: Vec<serde_json::Value> = Vec::with_capacity(n);
    while out.len() < n
        invariant
            out@.len() <= n,
            forall|p: int| 0 <= p < out@.len() ==> out@[p] == placeholder,
        decreases n - out@.len(),
    {
        out.push(clone_value(&placeholder));
    }
    let mut j: usize = 0;
    while j < envs.len()
        invariant
            handle.wf(),
            j <= envs@.len(),
            out@.len() == handle.ids@.len(),
            all_attributable(handle.ids@, envs@.take(j as int)),
            forall|p: int|
                0 <= p < handle.ids@.len() ==> out@[p] == slot(
                    envs@.take(j as int),
                    handle.ids@[p],
                    placeholder,
                ),
        decreases envs@.len() - j,
    {
        let ghost prefix = envs@.take(j as int);
        let env = &envs[j];
        let num = match env.id {
            ResponseId::Num(num) => num,
            _ => {
                return Err(RpcError::Unattributable);
            },
        };
        let pos = match handle.positions.get(&num) {
            Some(pos) => *pos,
            None => {
                assert(!handle.ids@.contains(num));
                return Err(RpcError::Unattributable);
            },
        };
        proof {
            assert(handle.positions@.contains_key(num));
            let witness = choose|q: int|
                0 <= q < handle.ids@.len() && handle.ids@[q] == num;
            assert(handle.ids@.contains(num));
            assert(0 <= witness < handle.ids@.len() && handle.ids@[witness] == num);
            assert(handle.positions@[num] == witness);
            assert(pos == witness);
        }
        out.set(pos, clone_value(&env.result));
        proof {
            assert(envs@.take(j + 1) =~= prefix.push(envs@[j as int]));
            assert forall|p: int| 0 <= p < handle.ids@.len() implies out@[p] == slot(
                envs@.take(j + 1),
                handle.ids@[p],
                placeholder,
            ) by {
                lemma_last_match_push(prefix, envs@[j as int], handle.ids@[p]);
            }
        }
        j += 1;
    }
    proof {
        assert(envs@.take(envs@.len() as int) =~= envs@);
    }
    Ok(out)
}

/// Resolves a single call from its decoded outcome and the id the
/// call was allocated.  A success envelope yields the result exactly
/// when its id echoes the call's id, and an unattributable-response
/// failure otherwise; an error envelope yields the server's
/// protocol-level error; undecodable bytes yield a parse failure
/// carrying the original decoding detail.
pub fn finish_single(expected: u64, outcome: SingleOutcome) -> (r: Result<
    serde_json::Value,
    RpcError,
>)
    ensures
        match outcome {
            SingleOutcome::Success(env) => if env.id == ResponseId::Num(expected) {
                r == Ok::<serde_json::Value, RpcError>(env.result)
            } else {
                r == Err::<serde_json::Value, RpcError>(RpcError::Unattributable)
            },
            SingleOutcome::ProtocolErrorShape(e) => r == Err::<serde_json::Value, RpcError>(
                RpcError::Protocol { code: e.code, message: e.message, data: e.data },
            ),
            SingleOutcome::Undecodable(d) => r == Err::<serde_json::Value, RpcError>(
                RpcError::Parse(d),
            ),
        },
{
    match outcome {
        SingleOutcome::Success(env) => {
            let id_matches = match env.id {
                ResponseId::Num(n) => n == expected,
                _ => false,
            };
            if id_matches {
                Ok(env.result)
            } else {
                Err(RpcError::Unattributable)
            }
        },
        SingleOutcome::ProtocolErrorShape(e) => Err(
            RpcError::Protocol { code: e.code, message: e.message, data: e.data },
        ),
        SingleOutcome::Undecodable(d) => Err(RpcError::Parse(d)),
    }
}

/// Resolves a batch from its decoded outcome: an array of success
/// envelopes is correlated by id through the handle; an error
/// envelope yields the server's protocol-level error for the whole
/// batch; undecodable bytes yield a parse failure carrying the
/// original decoding detail.
pub fn finish_batch(
    handle: &BatchHandle,
    outcome: BatchOutcome,
    placeholder: serde_json::Value,
) -> (r: Result<Vec<serde_json::Value>, RpcError>)
    requires
        handle.wf(),
    ensures
        match outcome {
            BatchOutcome::Batch(envs) => {
                &&& (r is Ok <==> all_attributable(handle.ids@, envs@))
                &&& (r matches Ok(out) ==> out@.len() == handle.ids@.len() && forall|p: int|
                    0 <= p < handle.ids@.len() ==> out@[p] == slot(
                        envs@,
                        handle.ids@[p],
                        placeholder,
                    ))
                &&& (r is Err ==> r == Err::<Vec<serde_json::Value>, RpcError>(
                    RpcError::Unattributable,
                ))
            },
            BatchOutcome::ProtocolErrorShape(e) => r == Err::<Vec<serde_json::Value>, RpcError>(
                RpcError::Protocol { code: e.code, message: e.message, data: e.data },
            ),
            BatchOutcome::Undecodable(d) => r == Err::<Vec<serde_json::Value>, RpcError>(
                RpcError::Parse(d),
            ),
        },
{
    match outcome {
        BatchOutcome::Batch(envs) => correlate_batch(handle, envs, placeholder),
        BatchOutcome::ProtocolErrorShape(e) => Err(
            RpcError::Protocol { code: e.code, message: e.message, data: e.data },
        ),
        BatchOutcome::Undecodable(d) => Err(RpcError::Parse(d)),
    }
}

} // verus!
