use crate::state::Escrow;
use crate::state::key_eq;
use vstd::prelude::*;

verus! {

/// A balance-holder account: a quantity of one fungible asset held for one
/// owner.
#[derive(Clone, Copy, Debug, PartialEq, Eq)]
pub struct TokenAccount {
    /// Identity the balance belongs to.
    pub owner: [u8; 32],
    /// Identifier of the asset counted here.
    pub mint: [u8; 32],
    /// Quantity held.
    pub amount: u64,
}

/// A live escrow: the record together with the balance of its vault.  The
/// two are created together and destroyed together, so one entry stands for
/// both.
#[derive(Clone, Copy, Debug, PartialEq, Eq)]
pub struct LiveEscrow {
    /// The persistent record.
    pub record: Escrow,
    /// Current balance of the record's vault, in the deposited asset.
    pub vault_amount: u64,
}

/// `le` is the escrow that `maker` opened under `seed`.
pub open spec fn pair_matches(le: LiveEscrow, maker: Seq<u8>, seed: u64) -> bool {
    le.record.maker@ == maker && le.record.seed == seed
}

/// Some live escrow was opened by `maker` under `seed`.
pub open spec fn has_record(s: Seq<LiveEscrow>, maker: Seq<u8>, seed: u64) -> bool {
    exists|i: int| 0 <= i < s.len() && #[trigger] pair_matches(s[i], maker, seed)
}

/// Well-formedness of the set of live escrows: every demanded amount is
/// strictly positive, and no two records share a maker and a seed (their
/// derived addresses would collide).
pub open spec fn wf_seq(s: Seq<LiveEscrow>) -> bool {
    &&& forall|i: int| 0 <= i < s.len() ==> (#[trigger] s[i]).record.receive > 0
    &&& forall|i: int, j: int|
        0 <= i < j < s.len() ==> !#[trigger] pair_matches(
            s[j],
            s[i].record.maker@,
            s[i].record.seed,
        )
}

/// The escrows a deployment of this protocol keeps alive at one moment.
/// Balance-holder accounts of the parties are handed to each operation and
/// handed back updated; only the record/vault pairs persist here.
#[derive(Debug)]
pub struct Ledger {
    /// The live record/vault pairs, in order of creation.
    pub escrows: Vec<LiveEscrow>,
}

impl Ledger {
    /// Invariant every operation preserves.
    pub open spec fn wf(self) -> bool {
        wf_seq(self.escrows@)
    }

    /// An empty deployment: no escrow is live.
    pub fn new() -> (r: Ledger)
        ensures
            r.wf(),
            r.escrows@.len() == 0,
    {
        Ledger { escrows: Vec::new() }
    }

    /// How many escrows are live.
    pub fn live_count(&self) -> (n: usize)
        ensures
            n == self.escrows@.len(),
    {
        self.escrows.len()
    }

    /// Decide at run time whether the invariant holds; an unverified caller
    /// that assembled a ledger by hand can test it before asking for an
    /// operation.
    pub fn wf_check(&self) -> (r: bool)
        ensures
            r == self.wf(),
    {
        let n = self.escrows.len();
        let mut i: usize = 0;
        while i < n
            invariant
                n == self.escrows@.len(),
                i <= n,
                forall|a: int| 0 <= a < i ==> (#[trigger] self.escrows@[a]).record.receive > 0,
                forall|a: int, b: int|
                    0 <= a < b < n && a < i ==> !#[trigger] pair_matches(
                        self.escrows@[b],
                        self.escrows@[a].record.maker@,
                        self.escrows@[a].record.seed,
                    ),
            decreases n - i,
        {
            if self.escrows[i].record.receive == 0 {
                return false;
            }
            let mut j: usize = i + 1;
            while j < n
                invariant
                    n == self.escrows@.len(),
                    i < n,
                    i < j <= n,
                    forall|b: int|
                        i < b < j ==> !#[trigger] pair_matches(
                            self.escrows@[b],
                            self.escrows@[i as int].record.maker@,
                            self.escrows@[i as int].record.seed,
                        ),
                decreases n - j,
            {
                if self.escrows[j].record.seed == self.escrows[i].record.seed && key_eq(
                    &self.escrows[j].record.maker,
                    &self.escrows[i].record.maker,
                ) {
                    assert(pair_matches(
                        self.escrows@[j as int],
                        self.escrows@[i as int].record.maker@,
                        self.escrows@[i as int].record.seed,
                    ));
                    return false;
                }
                j = j + 1;
            }
            i = i + 1;
        }
        true
    }

    /// Locate the live escrow that `maker` opened under `seed`, if any.
    pub fn find_record(&self, maker: &[u8; 32], seed: u64) -> (r: Option<usize>)
        ensures
            match r {
                Some(i) => i < self.escrows@.len() && pair_matches(
                    self.escrows@[i as int],
                    maker@,
                    seed,
                ),
                None => !has_record(self.escrows@, maker@, seed),
            },
    {
        let mut i: usize = 0;
        while i < self.escrows.len()
            invariant
                i <= self.escrows@.len(),
                forall|j: int|
                    0 <= j < i ==> !#[trigger] pair_matches(self.escrows@[j], maker@, seed),
            decreases self.escrows@.len() - i,
        {
            if self.escrows[i].record.seed == seed && key_eq(&self.escrows[i].record.maker, maker)
            {
                return Some(i);
            }
            i = i + 1;
        }
        None
    }
}

/// Appending a fresh pair to a well-formed set keeps it well-formed.
pub proof fn lemma_wf_push(s: Seq<LiveEscrow>, e: LiveEscrow)
    requires
        wf_seq(s),
        e.record.receive > 0,
        !has_record(s, e.record.maker@, e.record.seed),
    ensures
        wf_seq(s.push(e)),
{
    let t = s.push(e);
    assert forall|i: int, j: int| 0 <= i < j < t.len() implies !pair_matches(
        t[j],
        t[i].record.maker@,
        t[i].record.seed,
    ) by {
        if j < s.len() {
            assert(t[i] == s[i] && t[j] == s[j]);
        } else {
            assert(t[j] == e && t[i] == s[i]);
            assert(!pair_matches(s[i], e.record.maker@, e.record.seed));
        }
    }
}

/// Removing one pair from a well-formed set keeps it well-formed.
pub proof fn lemma_wf_remove(s: Seq<LiveEscrow>, k: int)
    requires
        wf_seq(s),
        0 <= k < s.len(),
    ensures
        wf_seq(s.remove(k)),
{
    let t = s.remove(k);
    assert forall|i: int| 0 <= i < t.len() implies (#[trigger] t[i]).record.receive > 0 by {
        if i < k {
            assert(t[i] == s[i]);
        } else {
            assert(t[i] == s[i + 1]);
        }
    }
    assert forall|i: int, j: int| 0 <= i < j < t.len() implies !pair_matches(
        t[j],
        t[i].record.maker@,
        t[i].record.seed,
    ) by {
        let i0: int = if i < k { i } else { i + 1 };
        let j0: int = if j < k { j } else { j + 1 };
        assert(t[i] == s[i0]);
        assert(t[j] == s[j0]);
        assert(!pair_matches(s[j0], s[i0].record.maker@, s[i0].record.seed));
    }
}

/// Fulfill and cancel destroy the record and its vault together: once the
/// pair at position `k` is removed, no live record remains for its maker and
/// seed, so a later operation against it fails deterministically.
pub proof fn lemma_destroyed_pair_gone(s: Seq<LiveEscrow>, k: int)
    requires
        wf_seq(s),
        0 <= k < s.len(),
    ensures
        !has_record(s.remove(k), s[k].record.maker@, s[k].record.seed),
{
    let t = s.remove(k);
    assert forall|i: int| 0 <= i < t.len() implies !pair_matches(
        t[i],
        s[k].record.maker@,
        s[k].record.seed,
    ) by {
        let i0: int = if i < k { i } else { i + 1 };
        assert(t[i] == s[i0]);
        if i0 < k {
            assert(!pair_matches(s[k], s[i0].record.maker@, s[i0].record.seed));
        } else {
            assert(!pair_matches(s[i0], s[k].record.maker@, s[k].record.seed));
        }
    }
}

/// Escrows under distinct (maker, seed) pairs do not interfere: when a create
/// appends one new pair, every existing record and vault balance is left
/// exactly as it was, and the new pair is the one appended.
pub proof fn lemma_create_noninterference(pre: Seq<LiveEscrow>, post: Seq<LiveEscrow>, e: LiveEscrow)
    requires
        post == pre.push(e),
    ensures
        post.len() == pre.len() + 1,
        forall|i: int| 0 <= i < pre.len() ==> post[i] == pre[i],
        post[pre.len() as int] == e,
{
}

} // verus!
