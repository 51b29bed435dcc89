use crate::disbursement::{claim_refusal, refund_order};
use crate::error::{ErrorCode, SettlementError};
use crate::identity::Identity;
use crate::lifecycle::{donation_order, finalize_refusal};
use crate::membership::{deposit_order, enrolled, join_refusal, proof_refusal};
use crate::settlement::Settlement;
use crate::state::{MemberView, TaskView};
use crate::tally::Outcome;
use crate::voting::vote_refusal;
use vstd::prelude::*;

verus! {

/// One task with all that is kept on its behalf: the task's record, the
/// members' records, each under its owner, and the funds. The operations of
/// the library work on single records; this is the whole that they act on,
/// and the laws of the protocol are stated of it.
pub struct Ledger {
    /// The time of the latest accepted call.
    pub clock: int,
    pub task: TaskView,
    /// The record store: at most one record for each participant.
    pub members: Map<Identity, MemberView>,
    /// What the task's escrow balance holds.
    pub balance: nat,
    /// What the charity has received out of escrow.
    pub donated: nat,
    /// What the members have received back out of escrow.
    pub refunded: nat,
}

/// A call of one of the operations on a task, together with what the
/// settlement layer answers to the order that the call issues, if it gets
/// that far.
pub enum Call {
    Join {
        caller: Identity,
        task_key: Identity,
        email_hash: Seq<char>,
        bump: u8,
        settlement: Settlement,
    },
    SubmitProof { caller: Identity, proof_cid: Seq<char> },
    Vote { caller: Identity, vote_yes: bool },
    Finalize { settlement: Settlement },
    ClaimRefund { caller: Identity, settlement: Settlement },
}

/// Why a call changed nothing.
pub enum Rejection {
    /// The caller has a record for the task already: the store creates none
    /// in its place.
    RecordExists,
    /// The caller has no record for the task.
    NoRecord,
    /// The operation refused.
    Rule(ErrorCode),
    /// The operation's order was not carried out.
    Settlement(SettlementError),
}

/// What the settlement layer answers to an order on the escrow balance: it
/// never pays more than the balance holds, and may refuse for reasons of its
/// own.
pub open spec fn escrow_pays(balance: nat, amount: nat, settlement: Settlement) -> Settlement {
    if balance < amount {
        Err(SettlementError::InsufficientFunds)
    } else {
        settlement
    }
}

impl Ledger {
    /// A task that has just been created: no member, no funds.
    pub open spec fn open(task: TaskView, now: int) -> Ledger {
        Ledger { clock: now, task, members: Map::empty(), balance: 0, donated: 0, refunded: 0 }
    }

    /// The participants whose stake escrow holds, by their records.
    pub open spec fn depositors(self) -> Set<Identity> {
        self.members.dom().filter(|who: Identity| self.members[who].deposited)
    }

    /// The participants who voted yes.
    pub open spec fn yes_voters(self) -> Set<Identity> {
        self.members.dom().filter(
            |who: Identity| self.members[who].voted && self.members[who].vote_yes,
        )
    }

    /// The participants who voted no.
    pub open spec fn no_voters(self) -> Set<Identity> {
        self.members.dom().filter(
            |who: Identity| self.members[who].voted && !self.members[who].vote_yes,
        )
    }

    /// Whether the stakes have gone to the charity.
    pub open spec fn forfeited(self) -> bool {
        self.task.finalized && self.task.outcome() == Outcome::Donate
    }

    /// The state after `call` at time `now`, or why the call changed nothing.
    /// A call is served as the operations serve it: the record store finds or
    /// creates the caller's record, the operation decides, its order is
    /// settled, and only then the records change.
    pub open spec fn step(self, now: int, call: Call) -> Result<Ledger, Rejection> {
        match call {
            Call::Join { caller, task_key, email_hash, bump, settlement } => {
                if self.members.contains_key(caller) {
                    Err(Rejection::RecordExists)
                } else if let Some(error) = join_refusal(self.task, email_hash, now) {
                    Err(Rejection::Rule(error))
                } else if let Err(error) = settlement {
                    Err(Rejection::Settlement(error))
                } else {
                    Ok(
                        Ledger {
                            clock: now,
                            task: self.task.with_deposit(),
                            members: self.members.insert(
                                caller,
                                enrolled(caller, task_key, email_hash, bump).funded(),
                            ),
                            balance: self.balance + deposit_order(self.task, caller).amount,
                            ..self
                        },
                    )
                }
            },
            Call::SubmitProof { caller, proof_cid } => {
                if !self.members.contains_key(caller) {
                    Err(Rejection::NoRecord)
                } else if let Some(error) = proof_refusal(
                    self.task,
                    self.members[caller],
                    proof_cid,
                ) {
                    Err(Rejection::Rule(error))
                } else {
                    Ok(
                        Ledger {
                            clock: now,
                            members: self.members.insert(
                                caller,
                                self.members[caller].with_proof(proof_cid),
                            ),
                            ..self
                        },
                    )
                }
            },
            Call::Vote { caller, vote_yes } => {
                if !self.members.contains_key(caller) {
                    Err(Rejection::NoRecord)
                } else if let Some(error) = vote_refusal(self.task, self.members[caller], now) {
                    Err(Rejection::Rule(error))
                } else {
                    Ok(
                        Ledger {
                            clock: now,
                            task: self.task.with_vote(vote_yes),
                            members: self.members.insert(
                                caller,
                                self.members[caller].with_vote(vote_yes),
                            ),
                            ..self
                        },
                    )
                }
            },
            Call::Finalize { settlement } => {
                if let Some(error) = finalize_refusal(self.task, now) {
                    Err(Rejection::Rule(error))
                } else if self.task.outcome() == Outcome::Refund {
                    Ok(Ledger { clock: now, task: self.task.finalized(), ..self })
                } else if let Err(error) = escrow_pays(
                    self.balance,
                    donation_order(self.task).amount,
                    settlement,
                ) {
                    Err(Rejection::Settlement(error))
                } else {
                    Ok(
                        Ledger {
                            clock: now,
                            task: self.task.finalized(),
                            balance: (self.balance - donation_order(self.task).amount) as nat,
                            donated: self.donated + donation_order(self.task).amount,
                            ..self
                        },
                    )
                }
            },
            Call::ClaimRefund { caller, settlement } => {
                if !self.members.contains_key(caller) {
                    Err(Rejection::NoRecord)
                } else if let Some(error) = claim_refusal(self.task, self.members[caller]) {
                    Err(Rejection::Rule(error))
                } else if let Err(error) = escrow_pays(
                    self.balance,
                    refund_order(self.task, caller).amount,
                    settlement,
                ) {
                    Err(Rejection::Settlement(error))
                } else {
                    Ok(
                        Ledger {
                            clock: now,
                            members: self.members.insert(caller, self.members[caller].repaid()),
                            balance: (self.balance - refund_order(self.task, caller).amount) as nat,
                            refunded: self.refunded + refund_order(self.task, caller).amount,
                            ..self
                        },
                    )
                }
            },
        }
    }
}

} // verus!
