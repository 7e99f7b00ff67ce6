//! The records kept by the ledger and the keys they are stored under.

use vstd::prelude::*;

verus! {

/// The reward recorded with every vote that is cast.
pub const REWARD_AMOUNT: u64 = 100;

/// The text stored in both text fields of the "not found" proposal.
pub const NOT_FOUND: &'static str = "Not Found";

/// The status of one proposal.
#[derive(Clone, Debug)]
pub struct ProposalStatus {
    pub proposal_id: u64,
    pub title: String,
    pub description: String,
    pub votes_for: u64,
    pub votes_against: u64,
    pub is_active: bool,
}

/// One voter's vote on one proposal.
#[derive(Clone, Copy, Debug, PartialEq, Eq, Structural)]
pub struct Vote {
    pub proposal_id: u64,
    pub voter_id: u64,
    pub in_favor: bool,
    pub reward: u64,
}

/// Storage key of a proposal.
#[derive(Clone, Copy, Debug, PartialEq, Eq, Structural)]
pub enum ProposalBook {
    Proposal(u64),
}

/// Storage key of a vote: proposal id, then voter id.
#[derive(Clone, Copy, Debug, PartialEq, Eq, Structural)]
pub enum VoteBook {
    Vote(u64, u64),
}

/// Why an operation on the ledger was refused.
#[derive(Clone, Copy, Debug, PartialEq, Eq, Structural)]
pub enum GovernanceError {
    /// A vote was cast on a proposal that is closed or does not exist.
    ProposalClosed,
    /// A proposal that is closed or does not exist was closed again.
    AlreadyClosed,
    /// The voter already has a vote on this proposal.
    AlreadyVoted,
}

/// The record that stands for a proposal that was never created.
pub open spec fn is_proposal_not_found(p: ProposalStatus) -> bool {
    &&& p.proposal_id == 0
    &&& p.title@ == NOT_FOUND@
    &&& p.description@ == NOT_FOUND@
    &&& p.votes_for == 0
    &&& p.votes_against == 0
    &&& !p.is_active
}

/// The record that stands for a vote that was never cast.
pub open spec fn vote_not_cast() -> Vote {
    Vote { proposal_id: 0, voter_id: 0, in_favor: false, reward: 0 }
}

/// A vote as it is recorded when it is cast.
pub open spec fn cast_vote(proposal_id: u64, voter_id: u64, in_favor: bool) -> Vote {
    Vote { proposal_id, voter_id, in_favor, reward: REWARD_AMOUNT }
}

impl ProposalStatus {
    /// A freshly created proposal: no votes yet, and active.
    pub fn opened(proposal_id: u64, title: String, description: String) -> (r: ProposalStatus)
        ensures
            r.proposal_id == proposal_id,
            r.title == title,
            r.description == description,
            r.votes_for == 0,
            r.votes_against == 0,
            r.is_active,
    {
        ProposalStatus { proposal_id, title, description, votes_for: 0, votes_against: 0, is_active: true }
    }

    /// The record returned for a proposal id that was never created.
    pub fn not_found() -> (r: ProposalStatus)
        ensures
            is_proposal_not_found(r),
    {
        ProposalStatus {
            proposal_id: 0,
            title: NOT_FOUND.to_owned(),
            description: NOT_FOUND.to_owned(),
            votes_for: 0,
            votes_against: 0,
            is_active: false,
        }
    }

    /// A copy of this record, field for field.
    pub fn copied(&self) -> (r: ProposalStatus)
        ensures
            r == *self,
    {
        ProposalStatus {
            proposal_id: self.proposal_id,
            title: self.title.clone(),
            description: self.description.clone(),
            votes_for: self.votes_for,
            votes_against: self.votes_against,
            is_active: self.is_active,
        }
    }
}

impl Vote {
    /// The record returned for a vote that was never cast.
    pub fn not_cast() -> (r: Vote)
        ensures
            r == vote_not_cast(),
    {
        Vote { proposal_id: 0, voter_id: 0, in_favor: false, reward: 0 }
    }

    /// The vote recorded when `voter_id` votes on `proposal_id`.
    pub fn cast(proposal_id: u64, voter_id: u64, in_favor: bool) -> (r: Vote)
        ensures
            r == cast_vote(proposal_id, voter_id, in_favor),
    {
        Vote { proposal_id, voter_id, in_favor, reward: REWARD_AMOUNT }
    }
}

} // verus!
