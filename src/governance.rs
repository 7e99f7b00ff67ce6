//! The governance service: create, vote on, close and view proposals. Every
//! operation reads what it needs from storage, decides, and writes back.

use vstd::prelude::*;
use crate::ledger::{
    close_status, next_proposal_id, tally_vote, Ledger,
};
use crate::storage::Storage;
use crate::types::{
    cast_vote, is_proposal_not_found, vote_not_cast, GovernanceError, ProposalBook, ProposalStatus, Vote,
    VoteBook,
};

verus! {

/// A governance ledger over its own storage.
pub struct DAOContract {
    storage: Storage,
}

impl View for DAOContract {
    type V = Ledger;

    closed spec fn view(&self) -> Ledger {
        Ledger {
            count: match self.storage.count_slot() {
                Some(c) => c,
                None => 0,
            },
            proposals: Map::new(
                |id: u64| self.storage.proposal_table().contains_key(ProposalBook::Proposal(id)),
                |id: u64| self.storage.proposal_table()[ProposalBook::Proposal(id)],
            ),
            votes: Map::new(
                |k: (u64, u64)| self.storage.vote_table().contains_key(VoteBook::Vote(k.0, k.1)),
                |k: (u64, u64)| self.storage.vote_table()[VoteBook::Vote(k.0, k.1)],
            ),
        }
    }
}

impl DAOContract {
    /// The storage is well formed and the ledger it holds keeps its invariant.
    pub closed spec fn wf(&self) -> bool {
        &&& self.storage.wf()
        &&& self@.wf()
    }

    /// An empty ledger: no proposals, no votes, no id handed out.
    pub fn new() -> (r: DAOContract)
        ensures
            r.wf(),
            r@.count == 0,
            r@.proposals == Map::<u64, ProposalStatus>::empty(),
            r@.votes == Map::<(u64, u64), Vote>::empty(),
    {
        let r = DAOContract { storage: Storage::new() };
        assert(r@.proposals =~= Map::<u64, ProposalStatus>::empty());
        assert(r@.votes =~= Map::<(u64, u64), Vote>::empty());
        r
    }

    /// Reads the counter, advances it and stores the new value.
    fn next_id(&mut self) -> (r: u64)
        requires
            old(self).storage.wf(),
            old(self)@.can_create(),
        ensures
            final(self).storage.wf(),
            r == old(self)@.count + 1,
            final(self)@ == (Ledger { count: r, ..old(self)@ }),
    {
        let id = next_proposal_id(self.storage.get_count());
        self.storage.set_count(id);
        assert(self@.proposals =~= old(self)@.proposals);
        assert(self@.votes =~= old(self)@.votes);
        id
    }

    /// Stores `proposal` under its own id.
    fn save(&mut self, proposal: ProposalStatus)
        requires
            old(self).storage.wf(),
        ensures
            final(self).storage.wf(),
            final(self)@ == (Ledger {
                proposals: old(self)@.proposals.insert(proposal.proposal_id, proposal),
                ..old(self)@
            }),
    {
        let ghost id = proposal.proposal_id;
        self.storage.set_proposal(ProposalBook::Proposal(proposal.proposal_id), proposal);
        assert(self@.proposals =~= old(self)@.proposals.insert(id, proposal));
        assert(self@.votes =~= old(self)@.votes);
    }

    /// Stores the vote of `voter_id` on `proposal_id`.
    fn record(&mut self, proposal_id: u64, voter_id: u64, in_favor: bool)
        requires
            old(self).storage.wf(),
        ensures
            final(self).storage.wf(),
            final(self)@ == (Ledger {
                votes: old(self)@.votes.insert(
                    (proposal_id, voter_id),
                    cast_vote(proposal_id, voter_id, in_favor),
                ),
                ..old(self)@
            }),
    {
        let vote = Vote::cast(proposal_id, voter_id, in_favor);
        self.storage.set_vote(VoteBook::Vote(proposal_id, voter_id), vote);
        assert(self@.proposals =~= old(self)@.proposals);
        assert(self@.votes =~= old(self)@.votes.insert((proposal_id, voter_id), vote));
    }

    /// Creates a proposal with the next id and returns that id.
    pub fn create_proposal(&mut self, title: String, description: String) -> (r: u64)
        requires
            old(self).wf(),
            old(self)@.can_create(),
        ensures
            final(self).wf(),
            r == old(self)@.count + 1,
            final(self)@ == old(self)@.after_create(title, description),
    {
        let id = self.next_id();
        let proposal = ProposalStatus::opened(id, title, description);
        self.save(proposal);
        assert(self@ == old(self)@.after_create(title, description));
        assert forall|k: (u64, u64)| #[trigger]
            self@.votes.contains_key(k) implies self@.proposals.contains_key(k.0) by {
            assert(old(self)@.proposals.contains_key(k.0));
        }
        id
    }

    /// Casts the vote of `voter_id` on `proposal_id`. Refused with
    /// `ProposalClosed` when the proposal is closed or was never created, and
    /// with `AlreadyVoted` when this voter has voted on it; a refused vote
    /// changes nothing. An accepted one adds one to the chosen counter and
    /// records the vote.
    pub fn vote_on_proposal(&mut self, proposal_id: u64, voter_id: u64, in_favor: bool) -> (r: Result<
        (),
        GovernanceError,
    >)
        requires
            old(self).wf(),
            old(self)@.can_tally(proposal_id, in_favor),
        ensures
            final(self).wf(),
            r == old(self)@.vote_outcome(proposal_id, voter_id),
            r is Ok ==> final(self)@ == old(self)@.after_vote(proposal_id, voter_id, in_favor),
            r is Err ==> final(self)@ == old(self)@,
    {
        let proposal = self.view_proposal(proposal_id);
        let existing = self.view_vote(proposal_id, voter_id);
        match tally_vote(proposal, &existing, in_favor) {
            Err(e) => Err(e),
            Ok(updated) => {
                self.record(proposal_id, voter_id, in_favor);
                self.save(updated);
                let ghost l = old(self)@;
                assert(self@ =~= l.after_vote(proposal_id, voter_id, in_favor));
                assert forall|id: u64| #[trigger]
                    self@.proposals.contains_key(id) implies self@.proposals[id].proposal_id == id by {
                    assert(l.proposals.contains_key(id));
                }
                assert forall|k: (u64, u64)| #[trigger] self@.votes.contains_key(k) implies self@.votes[k]
                    == cast_vote(k.0, k.1, self@.votes[k].in_favor) && self@.proposals.contains_key(
                    k.0,
                ) by {
                    if k != (proposal_id, voter_id) {
                        assert(l.votes.contains_key(k));
                    }
                }
                Ok(())
            },
        }
    }

    /// Closes `proposal_id`. Refused with `AlreadyClosed` when the proposal
    /// is closed or was never created, in which case nothing changes.
    pub fn close_proposal(&mut self, proposal_id: u64) -> (r: Result<(), GovernanceError>)
        requires
            old(self).wf(),
        ensures
            final(self).wf(),
            r == old(self)@.close_outcome(proposal_id),
            r is Ok ==> final(self)@ == old(self)@.after_close(proposal_id),
            r is Err ==> final(self)@ == old(self)@,
    {
        let proposal = self.view_proposal(proposal_id);
        match close_status(proposal) {
            Err(e) => Err(e),
            Ok(updated) => {
                self.save(updated);
                let ghost l = old(self)@;
                assert(self@ =~= l.after_close(proposal_id));
                assert forall|id: u64| #[trigger]
                    self@.proposals.contains_key(id) implies self@.proposals[id].proposal_id == id by {
                    assert(l.proposals.contains_key(id));
                }
                Ok(())
            },
        }
    }

    /// The proposal stored under `proposal_id`, or the "not found" record.
    pub fn view_proposal(&self, proposal_id: u64) -> (r: ProposalStatus)
        requires
            self.wf(),
        ensures
            self@.proposals.contains_key(proposal_id) ==> r == self@.proposals[proposal_id],
            !self@.proposals.contains_key(proposal_id) ==> is_proposal_not_found(r),
    {
        match self.storage.get_proposal(&ProposalBook::Proposal(proposal_id)) {
            Some(p) => p,
            None => ProposalStatus::not_found(),
        }
    }

    /// The vote of `voter_id` on `proposal_id`, or the "not cast" record.
    pub fn view_vote(&self, proposal_id: u64, voter_id: u64) -> (r: Vote)
        requires
            self.wf(),
        ensures
            r == (if self@.votes.contains_key((proposal_id, voter_id)) {
                self@.votes[(proposal_id, voter_id)]
            } else {
                vote_not_cast()
            }),
    {
        match self.storage.get_vote(&VoteBook::Vote(proposal_id, voter_id)) {
            Some(v) => v,
            None => Vote::not_cast(),
        }
    }
}

} // verus!
