//! Properties of the ledger that relate several operations, proved over the
//! abstract state that the operations' contracts speak of.

use vstd::prelude::*;
use crate::ledger::{closed, Ledger};
use crate::types::GovernanceError;

verus! {

/// Proposals created one after another, starting from a ledger that has
/// handed out no id, get the ids 1, 2, 3, ... in the order of creation: no
/// gap and no id twice.
pub proof fn lemma_ids_sequential(
    states: Seq<Ledger>,
    titles: Seq<String>,
    descriptions: Seq<String>,
    ids: Seq<u64>,
)
    requires
        titles.len() == ids.len(),
        descriptions.len() == ids.len(),
        states.len() == ids.len() + 1,
        states[0].count == 0,
        forall|i: int|
            0 <= i < ids.len() ==> #[trigger] ids[i] == states[i].count + 1 && states[i + 1]
                == states[i].after_create(titles[i], descriptions[i]),
    ensures
        forall|i: int| 0 <= i < ids.len() ==> #[trigger] ids[i] == i + 1,
        forall|i: int, j: int| 0 <= i < j < ids.len() ==> ids[i] != ids[j],
    decreases ids.len(),
{
    if ids.len() > 0 {
        let n = ids.len() - 1;
        lemma_ids_sequential(
            states.take(n + 1),
            titles.take(n),
            descriptions.take(n),
            ids.take(n),
        );
        assert forall|i: int| 0 <= i < ids.len() implies #[trigger] ids[i] == i + 1 by {
            if i < n {
                assert(ids.take(n)[i] == ids[i]);
            } else {
                assert(ids[n] == states[n].count + 1);
                if n > 0 {
                    assert(ids.take(n)[n - 1] == ids[n - 1]);
                    assert(states[n] == states[n - 1].after_create(
                        titles[n - 1],
                        descriptions[n - 1],
                    ));
                }
            }
        }
    }
}

/// An accepted vote adds one to the counter it is for and leaves the other
/// counter, and the rest of the proposal, as they were.
pub proof fn lemma_vote_tallies(l: Ledger, proposal_id: u64, voter_id: u64, in_favor: bool)
    requires
        l.vote_outcome(proposal_id, voter_id) is Ok,
        l.can_tally(proposal_id, in_favor),
    ensures
        ({
            let before = l.proposals[proposal_id];
            let after = l.after_vote(proposal_id, voter_id, in_favor).proposals[proposal_id];
            &&& in_favor ==> after.votes_for == before.votes_for + 1 && after.votes_against
                == before.votes_against
            &&& !in_favor ==> after.votes_against == before.votes_against + 1 && after.votes_for
                == before.votes_for
            &&& after.proposal_id == before.proposal_id
            &&& after.title == before.title
            &&& after.description == before.description
            &&& after.is_active == before.is_active
        }),
{
}

/// Once a voter's vote on a proposal is accepted, every further vote of that
/// voter on that proposal is refused with `AlreadyVoted`, whichever way it
/// goes (a refused vote changes nothing).
pub proof fn lemma_second_vote_refused(l: Ledger, proposal_id: u64, voter_id: u64, in_favor: bool)
    requires
        l.vote_outcome(proposal_id, voter_id) is Ok,
    ensures
        l.after_vote(proposal_id, voter_id, in_favor).vote_outcome(proposal_id, voter_id) == Err::<
            (),
            GovernanceError,
        >(GovernanceError::AlreadyVoted),
{
}

/// Once a proposal is closed, votes on it are refused with `ProposalClosed`
/// and closing it again is refused with `AlreadyClosed`; closing changes
/// nothing of the proposal but its status.
pub proof fn lemma_closed_is_terminal(l: Ledger, proposal_id: u64, voter_id: u64)
    requires
        l.close_outcome(proposal_id) is Ok,
    ensures
        l.after_close(proposal_id).vote_outcome(proposal_id, voter_id) == Err::<
            (),
            GovernanceError,
        >(GovernanceError::ProposalClosed),
        l.after_close(proposal_id).close_outcome(proposal_id) == Err::<(), GovernanceError>(
            GovernanceError::AlreadyClosed,
        ),
        l.after_close(proposal_id).proposals[proposal_id] == closed(l.proposals[proposal_id]),
{
}

/// A closed proposal stays closed, and stays as it is, whatever is accepted
/// next: a new proposal, a vote, or a close.
pub proof fn lemma_closed_stays_closed(l: Ledger, proposal_id: u64)
    requires
        l.wf(),
        l.proposals.contains_key(proposal_id),
        !l.is_open(proposal_id),
    ensures
        forall|title: String, description: String|
            l.can_create() ==> (#[trigger] l.after_create(title, description)).proposals[proposal_id]
                == l.proposals[proposal_id],
        forall|p: u64, v: u64, f: bool|
            l.vote_outcome(p, v) is Ok ==> (#[trigger] l.after_vote(p, v, f)).proposals[proposal_id]
                == l.proposals[proposal_id],
        forall|c: u64|
            l.close_outcome(c) is Ok ==> (#[trigger] l.after_close(c)).proposals[proposal_id]
                == l.proposals[proposal_id],
{
    assert(1 <= proposal_id <= l.count);
}

/// An id that was never handed out (0, or above the counter) names no
/// proposal, so viewing it gives the "not found" record and votes on it are
/// refused with `ProposalClosed`.
pub proof fn lemma_unknown_id_not_found(l: Ledger, proposal_id: u64, voter_id: u64)
    requires
        l.wf(),
        proposal_id == 0 || proposal_id > l.count,
    ensures
        !l.proposals.contains_key(proposal_id),
        l.vote_outcome(proposal_id, voter_id) == Err::<(), GovernanceError>(
            GovernanceError::ProposalClosed,
        ),
{
}

} // verus!
