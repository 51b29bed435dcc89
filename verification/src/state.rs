use crate::identity::Identity;
use vstd::prelude::*;

verus! {

/// A shared, staked activity with a deadline and a vote on its outcome.
#[derive(Clone, Debug, PartialEq, Eq)]
pub struct Task {
    /// Who created the task; only this identity's member record carries the proof.
    pub creator: Identity,
    /// What each member stakes, fixed at creation.
    pub stake_per_member: u64,
    /// How many members the task admits, fixed at creation.
    pub required_members: u8,
    /// How many members have joined and deposited.
    pub member_count: u8,
    /// The last moment at which a member may join.
    pub join_window_timestamp: i64,
    /// The moment after which votes are taken and the task can be finalized.
    pub deadline_timestamp: i64,
    /// Who receives the stakes when the vote does not carry a refund.
    pub charity_pubkey: Identity,
    /// Content identifier of the task's description.
    pub description_cid: String,
    pub yes_votes: u8,
    pub no_votes: u8,
    /// Set once, when the outcome is fixed.
    pub finalized: bool,
    /// Sum of all deposits taken into escrow.
    pub total_deposited: u64,
    /// The caller-chosen name under which the task is stored.
    pub task_id: String,
    /// Derivation byte of the task's own address.
    pub bump: u8,
    /// Derivation byte of the escrow's address.
    pub escrow_bump: u8,
}

/// A task as a mathematical value.
pub struct TaskView {
    pub creator: Identity,
    pub stake_per_member: nat,
    pub required_members: nat,
    pub member_count: nat,
    pub join_window_timestamp: int,
    pub deadline_timestamp: int,
    pub charity_pubkey: Identity,
    pub description_cid: Seq<char>,
    pub yes_votes: nat,
    pub no_votes: nat,
    pub finalized: bool,
    pub total_deposited: nat,
    pub task_id: Seq<char>,
    pub bump: u8,
    pub escrow_bump: u8,
}

impl View for Task {
    type V = TaskView;

    open spec fn view(&self) -> TaskView {
        TaskView {
            creator: self.creator,
            stake_per_member: self.stake_per_member as nat,
            required_members: self.required_members as nat,
            member_count: self.member_count as nat,
            join_window_timestamp: self.join_window_timestamp as int,
            deadline_timestamp: self.deadline_timestamp as int,
            charity_pubkey: self.charity_pubkey,
            description_cid: self.description_cid@,
            yes_votes: self.yes_votes as nat,
            no_votes: self.no_votes as nat,
            finalized: self.finalized,
            total_deposited: self.total_deposited as nat,
            task_id: self.task_id@,
            bump: self.bump,
            escrow_bump: self.escrow_bump,
        }
    }
}

/// One participant's enrollment and deposit record for one task.
#[derive(Clone, Debug, PartialEq, Eq)]
pub struct Member {
    /// The participant.
    pub owner: Identity,
    /// The task the record belongs to.
    pub task: Identity,
    /// Commitment to the participant's e-mail address, written once at join.
    pub email_hash: String,
    /// Content identifier of the proof of completion; empty until submitted.
    pub proof_cid: String,
    pub voted: bool,
    pub vote_yes: bool,
    /// Whether escrow holds this member's stake: set by the deposit and
    /// cleared by the refund claim.
    pub deposited: bool,
    /// Derivation byte of the record's address.
    pub bump: u8,
}

/// A member record as a mathematical value.
pub struct MemberView {
    pub owner: Identity,
    pub task: Identity,
    pub email_hash: Seq<char>,
    pub proof_cid: Seq<char>,
    pub voted: bool,
    pub vote_yes: bool,
    pub deposited: bool,
    pub bump: u8,
}

impl View for Member {
    type V = MemberView;

    open spec fn view(&self) -> MemberView {
        MemberView {
            owner: self.owner,
            task: self.task,
            email_hash: self.email_hash@,
            proof_cid: self.proof_cid@,
            voted: self.voted,
            vote_yes: self.vote_yes,
            deposited: self.deposited,
            bump: self.bump,
        }
    }
}

} // verus!
