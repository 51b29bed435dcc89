use anchor_lang::prelude::ProgramError;
use vstd::prelude::*;

verus! {

/// Why an operation was refused. Every refusal leaves the records as they were.
#[derive(Clone, Copy, Debug, PartialEq, Eq, Structural, Hash)]
pub enum ErrorCode {
    InvalidMemberCount,
    InvalidStakeAmount,
    InvalidJoinWindow,
    InvalidDeadline,
    CidTooLong,
    TaskIdTooLong,
    JoinWindowClosed,
    TaskFull,
    EmailHashTooLong,
    OnlyCreatorCanSubmitProof,
    DeadlineNotReached,
    AlreadyVoted,
    MemberNotDeposited,
    AlreadyFinalized,
    NotAllMembersVoted,
    NotFinalized,
    MemberNotVoted,
    NoRefundAvailable,
}

impl ErrorCode {
    /// The text that `message` returns for each error.
    pub open spec fn message_text(self) -> Seq<char> {
        match self {
            ErrorCode::InvalidMemberCount => "Invalid member count"@,
            ErrorCode::InvalidStakeAmount => "Invalid stake amount"@,
            ErrorCode::InvalidJoinWindow => "Invalid join window timestamp"@,
            ErrorCode::InvalidDeadline => "Invalid deadline timestamp"@,
            ErrorCode::CidTooLong => "CID string too long"@,
            ErrorCode::TaskIdTooLong => "Task ID too long"@,
            ErrorCode::JoinWindowClosed => "Join window has closed"@,
            ErrorCode::TaskFull => "Task is already full"@,
            ErrorCode::EmailHashTooLong => "Email hash too long"@,
            ErrorCode::OnlyCreatorCanSubmitProof => "Only task creator can submit proof"@,
            ErrorCode::DeadlineNotReached => "Deadline has not been reached yet"@,
            ErrorCode::AlreadyVoted => "Member has already voted"@,
            ErrorCode::MemberNotDeposited => "Member has not deposited"@,
            ErrorCode::AlreadyFinalized => "Task already finalized"@,
            ErrorCode::NotAllMembersVoted => "Not all members have voted"@,
            ErrorCode::NotFinalized => "Task not finalized yet"@,
            ErrorCode::MemberNotVoted => "Member has not voted"@,
            ErrorCode::NoRefundAvailable => "No refund available - task failed"@,
        }
    }

    /// A short description of the error for people.
    pub fn message(&self) -> (text: &'static str)
        ensures
            text@ == self.message_text(),
    {
        match self {
            ErrorCode::InvalidMemberCount => "Invalid member count",
            ErrorCode::InvalidStakeAmount => "Invalid stake amount",
            ErrorCode::InvalidJoinWindow => "Invalid join window timestamp",
            ErrorCode::InvalidDeadline => "Invalid deadline timestamp",
            ErrorCode::CidTooLong => "CID string too long",
            ErrorCode::TaskIdTooLong => "Task ID too long",
            ErrorCode::JoinWindowClosed => "Join window has closed",
            ErrorCode::TaskFull => "Task is already full",
            ErrorCode::EmailHashTooLong => "Email hash too long",
            ErrorCode::OnlyCreatorCanSubmitProof => "Only task creator can submit proof",
            ErrorCode::DeadlineNotReached => "Deadline has not been reached yet",
            ErrorCode::AlreadyVoted => "Member has already voted",
            ErrorCode::MemberNotDeposited => "Member has not deposited",
            ErrorCode::AlreadyFinalized => "Task already finalized",
            ErrorCode::NotAllMembersVoted => "Not all members have voted",
            ErrorCode::NotFinalized => "Task not finalized yet",
            ErrorCode::MemberNotVoted => "Member has not voted",
            ErrorCode::NoRefundAvailable => "No refund available - task failed",
        }
    }
}

/// Why the settlement layer refused to move funds.
#[derive(Clone, Copy, Debug, PartialEq, Eq, Structural, Hash)]
pub enum SettlementError {
    /// The paying balance holds less than the amount.
    InsufficientFunds,
    /// The authorizer may not spend from the paying balance.
    Unauthorized,
}

/// Why an operation that asks for the time itself did not go through.
#[derive(Debug, PartialEq, Eq)]
pub enum Failure {
    /// The operation was refused for the given reason.
    Rule(ErrorCode),
    /// The current time could not be had, so nothing was decided.
    Clock(ProgramError),
}

} // verus!
