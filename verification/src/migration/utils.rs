//! Bookkeeping of a bulk load: how many rows went in, and when the open
//! transaction is committed.
use vstd::prelude::*;

verus! {

/// Rows inserted between two commits of a bulk load.
pub const BATCH_SIZE: u64 = 1_000_000;

/// The count of rows inserted so far by a bulk load of one dump file.
#[derive(Debug)]
pub struct InsertProgress {
    inserted: u64,
}

impl InsertProgress {
    /// The number of rows inserted so far.
    pub closed spec fn spec_inserted(&self) -> nat {
        self.inserted as nat
    }

    /// A load that has inserted nothing yet.
    pub fn new() -> (r: InsertProgress)
        ensures
            r.spec_inserted() == 0,
    {
        InsertProgress { inserted: 0 }
    }

    /// The number of rows inserted so far.
    pub fn inserted(&self) -> (r: u64)
        ensures
            r == self.spec_inserted(),
    {
        self.inserted
    }

    /// Counts one more inserted row and says whether the transaction is to be
    /// committed (and a new one opened) now: after every `BATCH_SIZE` rows.
    /// Rows that fail to insert are not counted.
    pub fn record_inserted(&mut self) -> (commit_now: bool)
        requires
            old(self).spec_inserted() < u64::MAX,
        ensures
            final(self).spec_inserted() == old(self).spec_inserted() + 1,
            commit_now == (final(self).spec_inserted() % (BATCH_SIZE as nat) == 0),
    {
        self.inserted = self.inserted + 1;
        self.inserted % BATCH_SIZE == 0
    }
}

/// The number of commits that a load makes while it inserts `n` rows (the
/// final commit aside).
pub open spec fn commits_while_inserting(n: nat) -> nat
    decreases n,
{
    if n == 0 {
        0
    } else if n % (BATCH_SIZE as nat) == 0 {
        commits_while_inserting((n - 1) as nat) + 1
    } else {
        commits_while_inserting((n - 1) as nat)
    }
}

/// A load that inserts `n` rows commits `n / BATCH_SIZE` times before its
/// final commit: once per full batch.
pub proof fn lemma_commits_per_batch(n: nat)
    ensures
        commits_while_inserting(n) == n / (BATCH_SIZE as nat),
    decreases n,
{
    if n > 0 {
        lemma_commits_per_batch((n - 1) as nat);
        let b = BATCH_SIZE as nat;
        assert(b == 1_000_000);
        assert(n / b == if n % b == 0 {
            (n - 1) as nat / b + 1
        } else {
            (n - 1) as nat / b
        }) by (nonlinear_arith)
            requires
                b == 1_000_000,
                n > 0,
        {
            vstd::arithmetic::div_mod::lemma_fundamental_div_mod(n as int, b as int);
            vstd::arithmetic::div_mod::lemma_fundamental_div_mod((n - 1) as int, b as int);
        }
    }
}

} // verus!
