//! The proposal record, its mathematical model, and outcome derivation.

use vstd::prelude::*;
use crate::identity::Identity;

verus! {

/// One of the mutually exclusive ballot options.
#[derive(Clone, Copy, Debug)]
pub enum VoteChoice {
    Approve,
    Reject,
    Pass,
}

/// The closed set of errors that the engine reports.
#[derive(PartialEq, Eq, Structural, Debug)]
pub enum VoteError {
    AlreadyVoted,
    ProposalNotActive,
    Unauthorized,
    NoProposal,
    UpdateError,
    VoteFailed,
}

/// The derived outcome of a proposal.
#[derive(Clone, Copy, PartialEq, Eq, Structural, Debug)]
pub enum Status {
    Undecided,
    Approved,
    Rejected,
    Passed,
}

/// The sole persisted entity: a votable item with description, tallies,
/// activity flag, voter set and owner.
pub struct Proposal {
    pub description: String,
    pub approve: u32,
    pub reject: u32,
    pub pass: u32,
    pub is_active: bool,
    pub voted: Vec<Identity>,
    pub owner: Identity,
}

/// The mathematical model of a proposal record.
#[verifier::ext_equal]
pub struct ProposalModel {
    pub description: Seq<char>,
    pub approve: u32,
    pub reject: u32,
    pub pass: u32,
    pub is_active: bool,
    pub voted: Seq<Seq<u8>>,
    pub owner: Seq<u8>,
}

/// The byte strings of a list of identities.
pub open spec fn id_views(ids: Seq<Identity>) -> Seq<Seq<u8>> {
    ids.map_values(|id: Identity| id@)
}

impl View for Proposal {
    type V = ProposalModel;

    open spec fn view(&self) -> ProposalModel {
        ProposalModel {
            description: self.description@,
            approve: self.approve,
            reject: self.reject,
            pass: self.pass,
            is_active: self.is_active,
            voted: id_views(self.voted@),
            owner: self.owner@,
        }
    }
}

/// The record invariant: the three tallies sum to the number of voters, no
/// identity appears twice, and the voter list stays within the width of one
/// tally counter.
pub open spec fn proposal_ok(m: ProposalModel) -> bool {
    &&& m.approve + m.reject + m.pass == m.voted.len()
    &&& (forall|i: int, j: int|
        0 <= i < m.voted.len() && 0 <= j < m.voted.len() && i != j ==> m.voted[i] != m.voted[j])
    &&& m.voted.len() <= u32::MAX
}

/// A record as `create_proposal` first writes it: zero tallies, no voters,
/// owned by its creator.
pub open spec fn created_model(description: Seq<char>, is_active: bool, owner: Seq<u8>) -> ProposalModel {
    ProposalModel {
        description,
        approve: 0,
        reject: 0,
        pass: 0,
        is_active,
        voted: Seq::empty(),
        owner,
    }
}

/// A record after an owner edit: description and activity flag replaced,
/// owner re-stamped, tallies and voter list carried over verbatim.
pub open spec fn edited_model(
    m: ProposalModel,
    description: Seq<char>,
    is_active: bool,
    owner: Seq<u8>,
) -> ProposalModel {
    ProposalModel { description, is_active, owner, ..m }
}

/// A record after its owner closed it.
pub open spec fn ended_model(m: ProposalModel) -> ProposalModel {
    ProposalModel { is_active: false, ..m }
}

/// A record after a successful vote: the chosen tally is one higher and the
/// voter has been appended to the voter list.
pub open spec fn voted_model(m: ProposalModel, choice: VoteChoice, voter: Seq<u8>) -> ProposalModel {
    let grown = ProposalModel { voted: m.voted.push(voter), ..m };
    match choice {
        VoteChoice::Approve => ProposalModel { approve: (m.approve + 1) as u32, ..grown },
        VoteChoice::Reject => ProposalModel { reject: (m.reject + 1) as u32, ..grown },
        VoteChoice::Pass => ProposalModel { pass: (m.pass + 1) as u32, ..grown },
    }
}

/// The derived outcome. Below the five-vote quorum a proposal is undecided.
/// From the quorum on, an option whose share of the total reaches one half
/// wins, tested in the order approve, reject, pass.
pub open spec fn status_of(m: ProposalModel) -> Status {
    if m.voted.len() < 5 {
        Status::Undecided
    } else {
        let total = m.approve + m.reject + m.pass;
        if 2 * m.approve >= total {
            Status::Approved
        } else if 2 * m.reject >= total {
            Status::Rejected
        } else if 2 * m.pass >= total {
            Status::Passed
        } else {
            Status::Undecided
        }
    }
}

/// The label of each outcome.
pub open spec fn status_label(s: Status) -> Seq<char> {
    match s {
        Status::Undecided => "Undecided"@,
        Status::Approved => "Approved"@,
        Status::Rejected => "Rejected"@,
        Status::Passed => "Passed"@,
    }
}

impl Status {
    /// The outcome's label as text.
    pub fn text(&self) -> (r: &'static str)
        ensures
            r@ == status_label(*self),
    {
        match self {
            Status::Undecided => "Undecided",
            Status::Approved => "Approved",
            Status::Rejected => "Rejected",
            Status::Passed => "Passed",
        }
    }
}

} // verus!
