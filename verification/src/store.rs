//! The statement log store: the persisted, position-keyed record of applied
//! statements, and the contiguity check every read of it must pass.
use vstd::prelude::*;

use crate::errors::RevError;

verus! {

/// One persisted record: a statement and the dense position it was applied at.
#[derive(Debug, Clone, PartialEq, Eq)]
pub struct StatementEntry {
    pub position: u64,
    pub text: String,
}

/// The store invariant: positions form the contiguous range `[0, n)` when the
/// entries are read back in ascending order.
pub open spec fn contiguous(entries: Seq<StatementEntry>) -> bool {
    forall|i: int| 0 <= i < entries.len() ==> #[trigger] entries[i].position == i
}

/// The statement texts of the entries, in position order.
pub open spec fn texts_of(entries: Seq<StatementEntry>) -> Seq<Seq<char>> {
    entries.map_values(|e: StatementEntry| e.text@)
}

/// Checks that entries read back in ascending order are a contiguous,
/// zero-based range and returns their texts in that order; a log that fails
/// the scan has been tampered with and is rejected outright.
pub fn validate_entries(entries: &Vec<StatementEntry>) -> (r: Result<Vec<String>, RevError>)
    ensures
        match r {
            Ok(texts) => contiguous(entries@) && texts.deep_view() == texts_of(entries@),
            Err(e) => e is Discontinuity && !contiguous(entries@),
        },
{
    let n = entries.len();
    let mut i: usize = 0;
    while i < n
        invariant
            i <= n,
            n == entries@.len(),
            forall|j: int| 0 <= j < i ==> #[trigger] entries@[j].position == j,
        decreases n - i,
    {
        if entries[i].position != i as u64 {
            return Err(RevError::Discontinuity);
        }
        i += 1;
    }
    let mut texts: Vec<String> = Vec::new();
    let mut k: usize = 0;
    while k < n
        invariant
            k <= n,
            n == entries@.len(),
            texts@.len() == k,
            forall|j: int| 0 <= j < k ==> #[trigger] texts@[j]@ == entries@[j].text@,
        decreases n - k,
    {
        texts.push(entries[k].text.clone());
        k += 1;
    }
    proof {
        assert(texts.deep_view() =~= texts_of(entries@));
    }
    Ok(texts)
}

/// Law: removing one entry from anywhere but the end of a valid log breaks
/// contiguity, so the very next read of the store reports the tampering
/// before any new statement can be applied.
pub proof fn lemma_gap_breaks_contiguity(entries: Seq<StatementEntry>, k: int)
    requires
        contiguous(entries),
        0 <= k < entries.len() - 1,
    ensures
        !contiguous(entries.remove(k)),
{
    assert(entries.remove(k)[k] == entries[k + 1]);
    assert(entries[k + 1].position == k + 1);
}

} // verus!
