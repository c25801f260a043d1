//! The proposal store and the voting engine that operates on it.
//!
//! Every public operation fetches the current record (if any), validates the
//! caller and the record state, computes the new record and writes it back
//! as a single map operation. The store's view is the map from keys to
//! proposal models; all contracts are stated over that view.

use vstd::prelude::*;
use crate::codec::{decode, encodable, encode, spec_encode};
use crate::identity::Identity;
use crate::proposal::{
    created_model, edited_model, ended_model, proposal_ok, status_of, voted_model, Proposal,
    ProposalModel, Status, VoteChoice, VoteError,
};
use crate::store::{byte_entries, byte_store_get, byte_store_insert, byte_store_len, byte_store_new, ByteStore};

verus! {

/// The ordered mapping from numeric keys to proposal records, backed by
/// durable storage. The ghost `model` is the store's view; well-formedness
/// ties it to the bytes that actually sit in storage.
pub struct ProposalStore {
    bytes: ByteStore,
    model: Ghost<Map<u64, ProposalModel>>,
}

impl View for ProposalStore {
    type V = Map<u64, ProposalModel>;

    closed spec fn view(&self) -> Map<u64, ProposalModel> {
        self.model@
    }
}

impl ProposalStore {
    /// The store invariant: the durable bytes under each key are exactly the
    /// encoding of the model's record there, and every record satisfies the
    /// proposal invariant.
    pub closed spec fn wf(&self) -> bool {
        &&& self.model@.dom() == byte_entries(self.bytes).dom()
        &&& self.model@.dom().finite()
        &&& (forall|k: u64|
            #[trigger] self.model@.dom().contains(k) ==> {
                &&& byte_entries(self.bytes)[k] == spec_encode(self.model@[k])
                &&& proposal_ok(self.model@[k])
                &&& encodable(self.model@[k])
            })
    }

    /// Well-formedness guarantees the proposal invariant of every stored
    /// record.
    pub proof fn lemma_wf_records(&self, k: u64)
        requires
            self.wf(),
            self@.dom().contains(k),
        ensures
            proposal_ok(self@[k]),
    {
    }

    /// An empty store.
    pub fn new() -> (r: ProposalStore)
        ensures
            r.wf(),
            r@ == (Map::<u64, ProposalModel>::empty()),
    {
        ProposalStore { bytes: byte_store_new(), model: Ghost(Map::empty()) }
    }

    /// Looks a proposal up; the result is a copy of the stored record.
    pub fn get_proposal(&self, key: u64) -> (r: Option<Proposal>)
        requires
            self.wf(),
        ensures
            r is Some <==> self@.dom().contains(key),
            r is Some ==> r.unwrap()@ == self@[key] && proposal_ok(self@[key]),
    {
        match byte_store_get(&self.bytes, key) {
            None => None,
            Some(b) => Some(decode(&b, Ghost(self.model@[key]))),
        }
    }

    /// The number of proposals ever created (proposals are never destroyed).
    pub fn get_proposal_count(&self) -> (r: u64)
        requires
            self.wf(),
        ensures
            r as nat == self@.dom().len(),
    {
        byte_store_len(&self.bytes)
    }

    /// Creates (or silently overwrites) the record under `key` with a fresh
    /// proposal owned by the caller, and returns the displaced record, if
    /// any.
    pub fn create_proposal(
        &mut self,
        key: u64,
        description: String,
        is_active: bool,
        caller: &Identity,
    ) -> (r: Option<Proposal>)
        requires
            old(self).wf(),
        ensures
            final(self).wf(),
            final(self)@ == old(self)@.insert(key, created_model(description@, is_active, caller@)),
            r is Some <==> old(self)@.dom().contains(key),
            r is Some ==> r.unwrap()@ == old(self)@[key],
    {
        let value = Proposal {
            description,
            approve: 0,
            reject: 0,
            pass: 0,
            is_active,
            voted: Vec::new(),
            owner: caller.duplicate(),
        };
        proof {
            assert(value@ =~= created_model(description@, is_active, caller@));
        }
        let ghost prev = self.model@;
        let encoded = encode(&value);
        let prev_bytes = byte_store_insert(&mut self.bytes, key, encoded);
        proof {
            self.model@ = self.model@.insert(key, value@);
        }
        match prev_bytes {
            None => None,
            Some(b) => Some(decode(&b, Ghost(prev[key]))),
        }
    }

    /// Replaces description and activity flag; tallies and voter list are
    /// carried over verbatim and the owner is re-stamped to the caller,
    /// which only the owner can reach. Only the record's owner may edit.
    pub fn edit_proposal(
        &mut self,
        key: u64,
        description: String,
        is_active: bool,
        caller: &Identity,
    ) -> (r: Result<(), VoteError>)
        requires
            old(self).wf(),
        ensures
            final(self).wf(),
            !old(self)@.dom().contains(key) ==> r == Err::<(), VoteError>(VoteError::NoProposal)
                && final(self)@ == old(self)@,
            old(self)@.dom().contains(key) && old(self)@[key].owner != caller@ ==> r == Err::<
                (),
                VoteError,
            >(VoteError::Unauthorized) && final(self)@ == old(self)@,
            old(self)@.dom().contains(key) && old(self)@[key].owner == caller@ ==> r == Ok::<
                (),
                VoteError,
            >(()) && final(self)@ == old(self)@.insert(
                key,
                edited_model(old(self)@[key], description@, is_active, caller@),
            ),
    {
        let prev_bytes = byte_store_get(&self.bytes, key);
        match prev_bytes {
            None => Err(VoteError::NoProposal),
            Some(b) => {
                let old_p = decode(&b, Ghost(self.model@[key]));
                if !caller.equals(&old_p.owner) {
                    return Err(VoteError::Unauthorized);
                }
                let value = Proposal {
                    description,
                    approve: old_p.approve,
                    reject: old_p.reject,
                    pass: old_p.pass,
                    is_active,
                    voted: old_p.voted,
                    owner: caller.duplicate(),
                };
                proof {
                    assert(value@ =~= edited_model(
                        old(self)@[key],
                        description@,
                        is_active,
                        caller@,
                    ));
                }
                let encoded = encode(&value);
                let res = byte_store_insert(&mut self.bytes, key, encoded);
                proof {
                    self.model@ = self.model@.insert(key, value@);
                }
                match res {
                    Some(_) => Ok(()),
                    None => Err(VoteError::UpdateError),
                }
            },
        }
    }

    /// Closes the proposal: forces the activity flag off, whatever its
    /// current state. Only the record's owner may close it; a missing key
    /// reports `NoProposal` rather than failing the whole call.
    pub fn end_proposal(&mut self, key: u64, caller: &Identity) -> (r: Result<(), VoteError>)
        requires
            old(self).wf(),
        ensures
            final(self).wf(),
            !old(self)@.dom().contains(key) ==> r == Err::<(), VoteError>(VoteError::NoProposal)
                && final(self)@ == old(self)@,
            old(self)@.dom().contains(key) && old(self)@[key].owner != caller@ ==> r == Err::<
                (),
                VoteError,
            >(VoteError::Unauthorized) && final(self)@ == old(self)@,
            old(self)@.dom().contains(key) && old(self)@[key].owner == caller@ ==> r == Ok::<
                (),
                VoteError,
            >(()) && final(self)@ == old(self)@.insert(key, ended_model(old(self)@[key])),
    {
        let prev_bytes = byte_store_get(&self.bytes, key);
        match prev_bytes {
            None => Err(VoteError::NoProposal),
            Some(b) => {
                let old_p = decode(&b, Ghost(self.model@[key]));
                if !caller.equals(&old_p.owner) {
                    return Err(VoteError::Unauthorized);
                }
                let value = Proposal { is_active: false, ..old_p };
                proof {
                    assert(value@ =~= ended_model(old(self)@[key]));
                }
                let encoded = encode(&value);
                let res = byte_store_insert(&mut self.bytes, key, encoded);
                proof {
                    self.model@ = self.model@.insert(key, value@);
                }
                match res {
                    Some(_) => Ok(()),
                    None => Err(VoteError::UpdateError),
                }
            },
        }
    }

    /// Casts the caller's vote. A repeat voter is turned away with
    /// `AlreadyVoted` before the activity check, so a prior voter on a
    /// closed proposal sees `AlreadyVoted`, not `ProposalNotActive`. A
    /// missing key reports `NoProposal` rather than failing the whole call.
    pub fn vote(&mut self, key: u64, choice: VoteChoice, caller: &Identity) -> (r: Result<
        (),
        VoteError,
    >)
        requires
            old(self).wf(),
            old(self)@.dom().contains(key) ==> old(self)@[key].voted.len() < u32::MAX,
        ensures
            final(self).wf(),
            !old(self)@.dom().contains(key) ==> r == Err::<(), VoteError>(VoteError::NoProposal)
                && final(self)@ == old(self)@,
            old(self)@.dom().contains(key) && old(self)@[key].voted.contains(caller@) ==> r
                == Err::<(), VoteError>(VoteError::AlreadyVoted) && final(self)@ == old(self)@,
            old(self)@.dom().contains(key) && !old(self)@[key].voted.contains(caller@)
                && !old(self)@[key].is_active ==> r == Err::<(), VoteError>(
                VoteError::ProposalNotActive,
            ) && final(self)@ == old(self)@,
            old(self)@.dom().contains(key) && !old(self)@[key].voted.contains(caller@)
                && old(self)@[key].is_active ==> r == Ok::<(), VoteError>(()) && final(self)@
                == old(self)@.insert(key, voted_model(old(self)@[key], choice, caller@)),
    {
        let prev_bytes = byte_store_get(&self.bytes, key);
        match prev_bytes {
            None => Err(VoteError::NoProposal),
            Some(b) => {
                let mut p = decode(&b, Ghost(self.model@[key]));
                if contains_identity(&p.voted, caller) {
                    return Err(VoteError::AlreadyVoted);
                }
                if !p.is_active {
                    return Err(VoteError::ProposalNotActive);
                }
                match choice {
                    VoteChoice::Approve => {
                        p.approve = p.approve + 1;
                    },
                    VoteChoice::Reject => {
                        p.reject = p.reject + 1;
                    },
                    VoteChoice::Pass => {
                        p.pass = p.pass + 1;
                    },
                }
                p.voted.push(caller.duplicate());
                proof {
                    assert(p@ =~= voted_model(old(self)@[key], choice, caller@));
                }
                let encoded = encode(&p);
                let res = byte_store_insert(&mut self.bytes, key, encoded);
                proof {
                    self.model@ = self.model@.insert(key, p@);
                    assert(proposal_ok(p@));
                }
                match res {
                    Some(_) => Ok(()),
                    None => Err(VoteError::VoteFailed),
                }
            },
        }
    }

    /// Derives the proposal's outcome; `None` if the key is absent.
    pub fn get_proposal_status(&self, key: u64) -> (r: Option<Status>)
        requires
            self.wf(),
        ensures
            r is Some <==> self@.dom().contains(key),
            r is Some ==> r.unwrap() == status_of(self@[key]),
    {
        match byte_store_get(&self.bytes, key) {
            None => None,
            Some(b) => {
                let p = decode(&b, Ghost(self.model@[key]));
                if p.voted.len() < 5 {
                    return Some(Status::Undecided);
                }
                let total: u64 = p.approve as u64 + p.reject as u64 + p.pass as u64;
                if 2 * (p.approve as u64) >= total {
                    Some(Status::Approved)
                } else if 2 * (p.reject as u64) >= total {
                    Some(Status::Rejected)
                } else if 2 * (p.pass as u64) >= total {
                    Some(Status::Passed)
                } else {
                    Some(Status::Undecided)
                }
            },
        }
    }
}

/// Whether the identity already appears in the voter list.
fn contains_identity(ids: &Vec<Identity>, x: &Identity) -> (r: bool)
    ensures
        r == crate::proposal::id_views(ids@).contains(x@),
{
    let mut i: usize = 0;
    while i < ids.len()
        invariant
            i <= ids@.len(),
            forall|j: int| 0 <= j < i ==> ids@[j]@ != x@,
        decreases ids@.len() - i,
    {
        if ids[i].equals(x) {
            proof {
                assert(crate::proposal::id_views(ids@)[i as int] == x@);
            }
            return true;
        }
        i += 1;
    }
    proof {
        assert forall|j: int| 0 <= j < ids@.len() implies crate::proposal::id_views(ids@)[j]
            != x@ by {
            assert(ids@[j]@ != x@);
        }
    }
    false
}

} // verus!
