//! A small governance ledger: proposals are created with sequential ids,
//! each voter casts at most one vote per proposal, and a proposal can be
//! closed once, after which it accepts no more votes.

pub mod types;
pub mod storage;
pub mod ledger;
pub mod governance;
pub mod laws;

pub use governance::DAOContract;
pub use ledger::{close_status, next_proposal_id, tally_vote, Ledger};
pub use storage::Storage;
pub use types::{GovernanceError, ProposalBook, ProposalStatus, Vote, VoteBook, REWARD_AMOUNT};
