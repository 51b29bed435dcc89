//! Group accountability with stakes in escrow.
//!
//! Participants stake funds on a shared task. After the deadline they vote
//! on whether the task was done; the tally decides whether each member takes
//! the stake back or all of it goes to a charity.
//!
//! The operations work on two kinds of record, `Task` and `Member`, and on
//! nothing else. They keep no records and move no funds themselves: where
//! funds must move, an operation returns a `Transfer` for its caller to have
//! settled, and a second function takes note of how that went. The operations
//! that depend on the time come in two forms: one that is given the time and
//! one that asks the chain's runtime for it.
//!
//! `protocol` describes a task with all its records and funds as one whole,
//! the `Ledger`, and states what holds of it whatever calls are made.

mod clock;
pub mod disbursement;
pub mod error;
pub mod identity;
pub mod lifecycle;
pub mod membership;
pub mod protocol;
pub mod settlement;
pub mod state;
pub mod tally;
pub mod text;
pub mod voting;

pub use crate::disbursement::{claim_refund, refund_settled};
pub use crate::error::{ErrorCode, Failure, SettlementError};
pub use crate::identity::Identity;
pub use crate::lifecycle::{
    create_task, create_task_at, donation_settled, finalize, finalize_at, Finalization,
};
pub use crate::membership::{
    deposit_settled, join_and_deposit, join_and_deposit_at, submit_proof,
};
pub use crate::settlement::{Authority, Balance, Settlement, Transfer};
pub use crate::state::{Member, Task};
pub use crate::tally::{decide, threshold, Outcome};
pub use crate::voting::{vote, vote_at};
