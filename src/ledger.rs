//! The abstract state of the ledger and the decisions that each operation
//! makes on it: which request is refused, and what a vote or a closing does
//! to a proposal.

use vstd::prelude::*;
use crate::types::{
    cast_vote, GovernanceError, ProposalStatus, Vote,
};

verus! {

/// What the ledger holds: the last id handed out, the proposals by id and
/// the votes by (proposal id, voter id).
pub struct Ledger {
    pub count: u64,
    pub proposals: Map<u64, ProposalStatus>,
    pub votes: Map<(u64, u64), Vote>,
}

/// A proposal as it is created: no votes, active.
pub open spec fn opened_proposal(id: u64, title: String, description: String) -> ProposalStatus {
    ProposalStatus { proposal_id: id, title, description, votes_for: 0, votes_against: 0, is_active: true }
}

/// Whether one more vote of this kind fits in the proposal's counter.
pub open spec fn has_room(p: ProposalStatus, in_favor: bool) -> bool {
    if in_favor {
        p.votes_for < u64::MAX
    } else {
        p.votes_against < u64::MAX
    }
}

/// The proposal with one more vote for or against.
pub open spec fn tallied(p: ProposalStatus, in_favor: bool) -> ProposalStatus {
    ProposalStatus {
        votes_for: if in_favor { (p.votes_for + 1) as u64 } else { p.votes_for },
        votes_against: if in_favor { p.votes_against } else { (p.votes_against + 1) as u64 },
        ..p
    }
}

/// The proposal, closed.
pub open spec fn closed(p: ProposalStatus) -> ProposalStatus {
    ProposalStatus { is_active: false, ..p }
}

/// Whether a vote on `p` by a voter whose stored vote is `existing` is accepted.
pub open spec fn vote_decision(p: ProposalStatus, existing: Vote) -> Result<(), GovernanceError> {
    if !p.is_active {
        Err(GovernanceError::ProposalClosed)
    } else if existing.reward > 0 {
        Err(GovernanceError::AlreadyVoted)
    } else {
        Ok(())
    }
}

impl Ledger {
    /// The proposal is stored and still active.
    pub open spec fn is_open(self, id: u64) -> bool {
        self.proposals.contains_key(id) && self.proposals[id].is_active
    }

    /// A vote of this voter on this proposal is stored.
    pub open spec fn has_voted(self, proposal_id: u64, voter_id: u64) -> bool {
        self.votes.contains_key((proposal_id, voter_id)) && self.votes[(proposal_id, voter_id)].reward
            > 0
    }

    /// How a vote request is answered.
    pub open spec fn vote_outcome(self, proposal_id: u64, voter_id: u64) -> Result<(), GovernanceError> {
        if !self.is_open(proposal_id) {
            Err(GovernanceError::ProposalClosed)
        } else if self.has_voted(proposal_id, voter_id) {
            Err(GovernanceError::AlreadyVoted)
        } else {
            Ok(())
        }
    }

    /// How a close request is answered.
    pub open spec fn close_outcome(self, id: u64) -> Result<(), GovernanceError> {
        if self.is_open(id) {
            Ok(())
        } else {
            Err(GovernanceError::AlreadyClosed)
        }
    }

    /// No id can be handed out after this one.
    pub open spec fn can_create(self) -> bool {
        self.count < u64::MAX
    }

    /// Accepting a vote on this proposal cannot overflow its counter.
    pub open spec fn can_tally(self, proposal_id: u64, in_favor: bool) -> bool {
        self.proposals.contains_key(proposal_id) ==> has_room(
            self.proposals[proposal_id],
            in_favor,
        )
    }

    /// The state after a proposal is created with the next id.
    pub open spec fn after_create(self, title: String, description: String) -> Ledger {
        let id = (self.count + 1) as u64;
        Ledger {
            count: id,
            proposals: self.proposals.insert(id, opened_proposal(id, title, description)),
            votes: self.votes,
        }
    }

    /// The state after an accepted vote.
    pub open spec fn after_vote(self, proposal_id: u64, voter_id: u64, in_favor: bool) -> Ledger {
        Ledger {
            count: self.count,
            proposals: self.proposals.insert(
                proposal_id,
                tallied(self.proposals[proposal_id], in_favor),
            ),
            votes: self.votes.insert((proposal_id, voter_id), cast_vote(proposal_id, voter_id, in_favor)),
        }
    }

    /// The state after an accepted close.
    pub open spec fn after_close(self, id: u64) -> Ledger {
        Ledger {
            count: self.count,
            proposals: self.proposals.insert(id, closed(self.proposals[id])),
            votes: self.votes,
        }
    }

    /// Ids 1 to `count` are exactly the stored proposals, each stored under
    /// its own id, and each stored vote is a cast vote on a stored proposal
    /// under its own key.
    pub open spec fn wf(self) -> bool {
        &&& forall|id: u64| #[trigger]
            self.proposals.contains_key(id) <==> 1 <= id <= self.count
        &&& forall|id: u64| #[trigger]
            self.proposals.contains_key(id) ==> self.proposals[id].proposal_id == id
        &&& forall|k: (u64, u64)| #[trigger]
            self.votes.contains_key(k) ==> self.votes[k] == cast_vote(
                k.0,
                k.1,
                self.votes[k].in_favor,
            ) && self.proposals.contains_key(k.0)
    }
}

/// The id that follows the stored counter; a counter never set counts as 0.
pub fn next_proposal_id(stored: Option<u64>) -> (r: u64)
    requires
        match stored {
            Some(c) => c < u64::MAX,
            None => true,
        },
    ensures
        r == match stored {
            Some(c) => c + 1,
            None => 1,
        },
{
    match stored {
        Some(c) => c + 1,
        None => 1,
    }
}

/// Decides a vote on `proposal` by a voter whose stored vote (or the
/// "not cast" record) is `existing`: refused if the proposal is not active
/// or the voter has voted, else the proposal with the vote counted.
pub fn tally_vote(proposal: ProposalStatus, existing: &Vote, in_favor: bool) -> (r: Result<
    ProposalStatus,
    GovernanceError,
>)
    requires
        vote_decision(proposal, *existing) is Ok ==> has_room(proposal, in_favor),
    ensures
        match vote_decision(proposal, *existing) {
            Ok(()) => r == Ok::<ProposalStatus, GovernanceError>(tallied(proposal, in_favor)),
            Err(e) => r == Err::<ProposalStatus, GovernanceError>(e),
        },
{
    if !proposal.is_active {
        return Err(GovernanceError::ProposalClosed);
    }
    if existing.reward > 0 {
        return Err(GovernanceError::AlreadyVoted);
    }
    let mut p = proposal;
    if in_favor {
        p.votes_for = p.votes_for + 1;
    } else {
        p.votes_against = p.votes_against + 1;
    }
    Ok(p)
}

/// Decides a close of `proposal`: refused if it is not active, else the
/// proposal closed.
pub fn close_status(proposal: ProposalStatus) -> (r: Result<ProposalStatus, GovernanceError>)
    ensures
        proposal.is_active ==> r == Ok::<ProposalStatus, GovernanceError>(closed(proposal)),
        !proposal.is_active ==> r == Err::<ProposalStatus, GovernanceError>(
            GovernanceError::AlreadyClosed,
        ),
{
    if !proposal.is_active {
        return Err(GovernanceError::AlreadyClosed);
    }
    let mut p = proposal;
    p.is_active = false;
    Ok(p)
}

} // verus!
