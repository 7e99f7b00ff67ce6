//! Key-value storage for the ledger: a counter slot, proposals keyed by
//! `ProposalBook`, and votes keyed by `VoteBook`. A missing key is not an
//! error: `get` returns `None` and callers supply their own default.

use vstd::prelude::*;
use crate::types::{ProposalBook, ProposalStatus, Vote, VoteBook};

verus! {

/// In-memory storage: each table holds one entry per key.
pub struct Storage {
    count: Option<u64>,
    proposals: Vec<(ProposalBook, ProposalStatus)>,
    votes: Vec<(VoteBook, Vote)>,
    proposal_map: Ghost<Map<ProposalBook, ProposalStatus>>,
    vote_map: Ghost<Map<VoteBook, Vote>>,
}

/// Each key occurs in one entry at most, and `map` holds exactly the entries.
pub closed spec fn table_wf<K, V>(entries: Seq<(K, V)>, map: Map<K, V>) -> bool {
    &&& forall|i: int, j: int| 0 <= i < j < entries.len() ==> entries[i].0 != entries[j].0
    &&& forall|i: int|
        0 <= i < entries.len() ==> #[trigger] map.contains_key(entries[i].0) && map[entries[i].0]
            == entries[i].1
    &&& forall|k: K| #[trigger]
        map.contains_key(k) ==> exists|i: int| 0 <= i < entries.len() && entries[i].0 == k
}

impl Storage {
    /// The value in the counter slot, if one was set.
    pub closed spec fn count_slot(&self) -> Option<u64> {
        self.count
    }

    /// The proposals stored, by key.
    pub closed spec fn proposal_table(&self) -> Map<ProposalBook, ProposalStatus> {
        self.proposal_map@
    }

    /// The votes stored, by key.
    pub closed spec fn vote_table(&self) -> Map<VoteBook, Vote> {
        self.vote_map@
    }

    /// Each table is well formed.
    pub closed spec fn wf(&self) -> bool {
        &&& table_wf(self.proposals@, self.proposal_map@)
        &&& table_wf(self.votes@, self.vote_map@)
    }

    /// Storage with nothing in it.
    pub fn new() -> (r: Storage)
        ensures
            r.wf(),
            r.count_slot() is None,
            r.proposal_table() == Map::<ProposalBook, ProposalStatus>::empty(),
            r.vote_table() == Map::<VoteBook, Vote>::empty(),
    {
        Storage {
            count: None,
            proposals: Vec::new(),
            votes: Vec::new(),
            proposal_map: Ghost(Map::empty()),
            vote_map: Ghost(Map::empty()),
        }
    }

    /// Reads the counter slot.
    pub fn get_count(&self) -> (r: Option<u64>)
        ensures
            r == self.count_slot(),
    {
        self.count
    }

    /// Writes the counter slot.
    pub fn set_count(&mut self, value: u64)
        requires
            old(self).wf(),
        ensures
            final(self).wf(),
            final(self).count_slot() == Some(value),
            final(self).proposal_table() == old(self).proposal_table(),
            final(self).vote_table() == old(self).vote_table(),
    {
        self.count = Some(value);
    }

    /// The index of the entry under `key` in the proposal table, if any.
    fn find_proposal(&self, key: &ProposalBook) -> (r: Option<usize>)
        requires
            self.wf(),
        ensures
            match r {
                Some(i) => i < self.proposals@.len() && self.proposals@[i as int].0 == *key,
                None => !self.proposal_table().contains_key(*key),
            },
    {
        let mut i: usize = 0;
        while i < self.proposals.len()
            invariant
                i <= self.proposals@.len(),
                forall|j: int| 0 <= j < i ==> self.proposals@[j].0 != *key,
            decreases self.proposals@.len() - i,
        {
            if self.proposals[i].0 == *key {
                return Some(i);
            }
            i = i + 1;
        }
        None
    }

    /// The index of the entry under `key` in the vote table, if any.
    fn find_vote(&self, key: &VoteBook) -> (r: Option<usize>)
        requires
            self.wf(),
        ensures
            match r {
                Some(i) => i < self.votes@.len() && self.votes@[i as int].0 == *key,
                None => !self.vote_table().contains_key(*key),
            },
    {
        let mut i: usize = 0;
        while i < self.votes.len()
            invariant
                i <= self.votes@.len(),
                forall|j: int| 0 <= j < i ==> self.votes@[j].0 != *key,
            decreases self.votes@.len() - i,
        {
            if self.votes[i].0 == *key {
                return Some(i);
            }
            i = i + 1;
        }
        None
    }

    /// Reads the proposal stored under `key`.
    pub fn get_proposal(&self, key: &ProposalBook) -> (r: Option<ProposalStatus>)
        requires
            self.wf(),
        ensures
            r == (if self.proposal_table().contains_key(*key) {
                Some(self.proposal_table()[*key])
            } else {
                None
            }),
    {
        match self.find_proposal(key) {
            Some(i) => Some(self.proposals[i].1.copied()),
            None => None,
        }
    }

    /// Stores `value` under `key`, replacing what was there.
    pub fn set_proposal(&mut self, key: ProposalBook, value: ProposalStatus)
        requires
            old(self).wf(),
        ensures
            final(self).wf(),
            final(self).count_slot() == old(self).count_slot(),
            final(self).proposal_table() == old(self).proposal_table().insert(key, value),
            final(self).vote_table() == old(self).vote_table(),
    {
        let ghost old_entries = self.proposals@;
        let ghost old_map = self.proposal_map@;
        let found = self.find_proposal(&key);
        match found {
            Some(i) => {
                self.proposals[i] = (key, value);
            },
            None => {
                self.proposals.push((key, value));
            },
        }
        self.proposal_map = Ghost(old_map.insert(key, value));
        let ghost entries = self.proposals@;
        assert forall|j: int|
            0 <= j < entries.len() && entries[j].0 != key implies j < old_entries.len()
                && entries[j] == old_entries[j] by {
            if found is None {
                assert(entries == old_entries.push((key, value)));
            }
        }
        assert forall|j: int| 0 <= j < old_entries.len() && old_entries[j].0 != key implies entries[j]
            == old_entries[j] by {
            if found is None {
                assert(entries == old_entries.push((key, value)));
            }
        }
        assert forall|j: int| 0 <= j < entries.len() && entries[j].0 == key implies entries[j] == (
            key,
            value,
        ) by {
            match found {
                Some(i) => {
                    if j != i {
                        assert(old_entries[j].0 == old_entries[i as int].0);
                    }
                },
                None => {
                    assert(entries == old_entries.push((key, value)));
                    if j < old_entries.len() {
                        assert(old_map.contains_key(old_entries[j].0));
                    }
                },
            }
        }
        assert forall|k: ProposalBook| #[trigger] self.proposal_map@.contains_key(k) implies exists|i: int|
            0 <= i < entries.len() && entries[i].0 == k by {
            if k == key {
                match found {
                    Some(i) => {
                        assert(entries[i as int].0 == k);
                    },
                    None => {
                        assert(entries[old_entries.len() as int].0 == k);
                    },
                }
            } else {
                let i = choose|i: int| 0 <= i < old_entries.len() && old_entries[i].0 == k;
                assert(entries[i].0 == k);
            }
        }
    }

    /// Reads the vote stored under `key`.
    pub fn get_vote(&self, key: &VoteBook) -> (r: Option<Vote>)
        requires
            self.wf(),
        ensures
            r == (if self.vote_table().contains_key(*key) {
                Some(self.vote_table()[*key])
            } else {
                None
            }),
    {
        match self.find_vote(key) {
            Some(i) => Some(self.votes[i].1),
            None => None,
        }
    }

    /// Stores `value` under `key`, replacing what was there.
    pub fn set_vote(&mut self, key: VoteBook, value: Vote)
        requires
            old(self).wf(),
        ensures
            final(self).wf(),
            final(self).count_slot() == old(self).count_slot(),
            final(self).proposal_table() == old(self).proposal_table(),
            final(self).vote_table() == old(self).vote_table().insert(key, value),
    {
        let ghost old_entries = self.votes@;
        let ghost old_map = self.vote_map@;
        let found = self.find_vote(&key);
        match found {
            Some(i) => {
                self.votes[i] = (key, value);
            },
            None => {
                self.votes.push((key, value));
            },
        }
        self.vote_map = Ghost(old_map.insert(key, value));
        let ghost entries = self.votes@;
        assert forall|j: int|
            0 <= j < entries.len() && entries[j].0 != key implies j < old_entries.len()
                && entries[j] == old_entries[j] by {
            if found is None {
                assert(entries == old_entries.push((key, value)));
            }
        }
        assert forall|j: int| 0 <= j < old_entries.len() && old_entries[j].0 != key implies entries[j]
            == old_entries[j] by {
            if found is None {
                assert(entries == old_entries.push((key, value)));
            }
        }
        assert forall|j: int| 0 <= j < entries.len() && entries[j].0 == key implies entries[j] == (
            key,
            value,
        ) by {
            match found {
                Some(i) => {
                    if j != i {
                        assert(old_entries[j].0 == old_entries[i as int].0);
                    }
                },
                None => {
                    assert(entries == old_entries.push((key, value)));
                    if j < old_entries.len() {
                        assert(old_map.contains_key(old_entries[j].0));
                    }
                },
            }
        }
        assert forall|k: VoteBook| #[trigger] self.vote_map@.contains_key(k) implies exists|i: int|
            0 <= i < entries.len() && entries[i].0 == k by {
            if k == key {
                match found {
                    Some(i) => {
                        assert(entries[i as int].0 == k);
                    },
                    None => {
                        assert(entries[old_entries.len() as int].0 == k);
                    },
                }
            } else {
                let i = choose|i: int| 0 <= i < old_entries.len() && old_entries[i].0 == k;
                assert(entries[i].0 == k);
            }
        }
    }
}

} // verus!
