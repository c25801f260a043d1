//! Laws of the voting engine, stated and proved once and for all.

use vstd::prelude::*;
use vstd::set::axiom_set_insert_len;
use crate::engine::ProposalStore;
use crate::proposal::{proposal_ok, status_of, ProposalModel, Status};

verus! {

/// Law: in a well-formed store every proposal's three tallies sum to the
/// number of voters recorded on it, after any sequence of operations.
pub proof fn lemma_tallies_count_voters(s: &ProposalStore)
    requires
        s.wf(),
    ensures
        forall|k: u64|
            s@.dom().contains(k) ==> (#[trigger] s@[k]).approve + s@[k].reject + s@[k].pass
                == s@[k].voted.len(),
{
    assert forall|k: u64| s@.dom().contains(k) implies (#[trigger] s@[k]).approve + s@[k].reject
        + s@[k].pass == s@[k].voted.len() by {
        s.lemma_wf_records(k);
    }
}

/// Law: in a well-formed store no identity appears twice in a proposal's
/// voter list, so no identity can ever have incremented two tallies on the
/// same proposal.
pub proof fn lemma_one_vote_per_identity(s: &ProposalStore, k: u64, i: int, j: int)
    requires
        s.wf(),
        s@.dom().contains(k),
        0 <= i < s@[k].voted.len(),
        0 <= j < s@[k].voted.len(),
        i != j,
    ensures
        s@[k].voted[i] != s@[k].voted[j],
{
    s.lemma_wf_records(k);
}

/// Law: below the five-vote quorum the derived status is always Undecided,
/// whatever the split of the tallies.
pub proof fn lemma_status_below_quorum(m: ProposalModel)
    requires
        m.voted.len() < 5,
    ensures
        status_of(m) == Status::Undecided,
{
}

/// Law: from the quorum on, a record whose approve tally reaches half of
/// the total is always Approved.
pub proof fn lemma_status_majority_approve(m: ProposalModel)
    requires
        proposal_ok(m),
        m.voted.len() >= 5,
        2 * m.approve >= m.voted.len(),
    ensures
        status_of(m) == Status::Approved,
{
}

/// Law: creating a proposal under a fresh key grows the proposal count by
/// exactly one, and overwriting an occupied key leaves the count unchanged.
pub proof fn lemma_create_changes_count(models: Map<u64, ProposalModel>, key: u64, m: ProposalModel)
    requires
        models.dom().finite(),
    ensures
        !models.dom().contains(key) ==> models.insert(key, m).dom().len() == models.dom().len()
            + 1,
        models.dom().contains(key) ==> models.insert(key, m).dom().len() == models.dom().len(),
{
    assert(models.insert(key, m).dom() =~= models.dom().insert(key));
    axiom_set_insert_len(models.dom(), key);
}

} // verus!
