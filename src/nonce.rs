use vstd::prelude::*;
use crate::request::Request;

verus! {

/// The identifier that follows `n`: one more, wrapping to zero past `u64::MAX`.
pub open spec fn next_nonce(n: u64) -> u64 {
    if n == u64::MAX {
        0
    } else {
        (n + 1) as u64
    }
}

/// The counter's value after `k` successive advances from `start`.
pub open spec fn counter_after(start: u64, k: nat) -> u64
    decreases k,
{
    if k == 0 {
        start
    } else {
        next_nonce(counter_after(start, (k - 1) as nat))
    }
}

/// The identifiers handed out by `k` successive advances from `start`, in order.
pub open spec fn issued_ids(start: u64, k: nat) -> Seq<u64> {
    Seq::new(k, |i: int| counter_after(start, (i + 1) as nat))
}

/// A counter of request identifiers.
pub struct NonceCounter {
    value: u64,
}

impl NonceCounter {
    /// The last identifier handed out, or zero before the first.
    pub closed spec fn view(&self) -> u64 {
        self.value
    }

    pub fn new() -> (r: NonceCounter)
        ensures
            r@ == 0,
    {
        NonceCounter { value: 0 }
    }

    /// Moves to the next identifier and returns it.
    pub fn advance(&mut self) -> (r: u64)
        ensures
            final(self)@ == next_nonce(old(self)@),
            r == final(self)@,
    {
        self.value = self.value.wrapping_add(1);
        self.value
    }

    /// A call of `name` with `params`, numbered with the next identifier.
    pub fn build_request(&mut self, name: String, params: Vec<serde_json::Value>) -> (r: Request)
        ensures
            final(self)@ == next_nonce(old(self)@),
            r.id == final(self)@,
            r.method@ == name@,
            r.params@ == params@,
    {
        let id = self.advance();
        Request { method: name, params, id }
    }

    /// The last identifier handed out, without changing the counter.
    pub fn last(&self) -> (r: u64)
        ensures
            r == self@,
    {
        self.value
    }
}

proof fn lemma_counter_from_zero(k: nat)
    requires
        k <= u64::MAX,
    ensures
        counter_after(0, k) == k,
    decreases k,
{
    if k > 0 {
        lemma_counter_from_zero((k - 1) as nat);
    }
}

/// From a fresh counter, `k` advances hand out exactly `1, 2, ..., k`, each once,
/// and leave the counter at `k`.
pub proof fn lemma_ids_from_zero(k: nat)
    requires
        k <= u64::MAX,
    ensures
        counter_after(0, k) == k,
        issued_ids(0, k) =~= Seq::new(k, |i: int| (i + 1) as u64),
        forall|i: int, j: int|
            0 <= i < j < k ==> issued_ids(0, k)[i] != issued_ids(0, k)[j],
{
    lemma_counter_from_zero(k);
    assert forall|i: int| 0 <= i < k implies #[trigger] counter_after(0, (i + 1) as nat) == i + 1 by {
        lemma_counter_from_zero((i + 1) as nat);
    }
}

/// Two successive advances never hand out the same identifier.
pub proof fn lemma_consecutive_ids_differ(n: u64)
    ensures
        next_nonce(n) != next_nonce(next_nonce(n)),
{
}

} // verus!
