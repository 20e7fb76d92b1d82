//! Allocation of correlation identifiers.
//!
//! One client instance owns one counter, shared by every call issued
//! through it.  Each allocation returns the current counter value and
//! advances the counter by one, wrapping at the top of the 64-bit
//! range rather than failing; ids handed out over any run of fewer
//! than 2^64 allocations are pairwise distinct.

use vstd::prelude::*;

verus! {

/// `start + k` reduced modulo 2^64: the id handed out `k` allocations
/// after the counter stood at `start`.
pub open spec fn wrap_add(start: u64, k: u64) -> u64 {
    if start + k > u64::MAX {
        (start + k - 0x1_0000_0000_0000_0000) as u64
    } else {
        (start + k) as u64
    }
}

/// The counter value after one allocation starting from `n`: the
/// successor of `n` modulo 2^64.
pub open spec fn wrap_inc(n: u64) -> u64 {
    wrap_add(n, 1)
}

/// The ids handed out by `n` successive allocations starting at `start`.
pub open spec fn id_run(start: u64, n: u64) -> Seq<u64> {
    Seq::new(n as nat, |i: int| wrap_add(start, i as u64))
}

/// Produces the correlation identifiers for one client instance.
pub struct IdGenerator {
    /// The id the next allocation will return.
    pub counter: u64,
}

impl IdGenerator {
    /// A fresh generator; the first allocated id is zero.
    pub fn new() -> (r: IdGenerator)
        ensures
            r.counter == 0,
    {
        IdGenerator { counter: 0 }
    }

    /// Returns the current counter value and advances the counter by
    /// one.  At the top of the range the counter wraps to zero instead
    /// of failing, so the allocation after the one that returned
    /// `u64::MAX` returns zero.
    pub fn next_id(&mut self) -> (r: u64)
        ensures
            r == old(self).counter,
            final(self).counter == wrap_inc(old(self).counter),
    {
        let id = self.counter;
        self.counter = self.counter.wrapping_add(1);
        id
    }
}

/// Over any run of `n` allocations starting at counter value `start`,
/// the returned ids are pairwise distinct, and each id is the
/// successor modulo 2^64 of the one allocated before it.  (`n` is a
/// `u64`, so the run is shorter than 2^64 allocations; over a longer
/// run ids repeat by design.)
pub proof fn lemma_id_run_distinct(start: u64, n: u64)
    ensures
        forall|i: int, j: int|
            0 <= i < j < n ==> id_run(start, n)[i] != id_run(start, n)[j],
        forall|i: int|
            0 <= i && i + 1 < n ==> id_run(start, n)[i + 1] == wrap_inc(id_run(start, n)[i]),
{
    assert forall|i: int, j: int| 0 <= i < j < n implies id_run(start, n)[i] != id_run(
        start,
        n,
    )[j] by {
        assert(id_run(start, n)[i] == wrap_add(start, i as u64));
        assert(id_run(start, n)[j] == wrap_add(start, j as u64));
    }
    assert forall|i: int| 0 <= i && i + 1 < n implies id_run(start, n)[i + 1] == wrap_inc(
        id_run(start, n)[i],
    ) by {
        assert(id_run(start, n)[i] == wrap_add(start, i as u64));
        assert(id_run(start, n)[i + 1] == wrap_add(start, (i + 1) as u64));
    }
}

} // verus!
