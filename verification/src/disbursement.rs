use crate::error::ErrorCode;
use crate::identity::Identity;
use crate::settlement::{
    task_authority, Authority, AuthorityView, Balance, Settlement, Transfer, TransferView,
};
use crate::state::{Member, MemberView, Task, TaskView};
use crate::tally::{decide, Outcome};
use vstd::prelude::*;

verus! {

/// Why a refund claim is refused, if it is: the first of its conditions that
/// fails. A member who never deposited and one who has been paid back are
/// told the same.
pub open spec fn claim_refusal(task: TaskView, member: MemberView) -> Option<ErrorCode> {
    if !task.finalized {
        Some(ErrorCode::NotFinalized)
    } else if !member.deposited {
        Some(ErrorCode::MemberNotDeposited)
    } else if !member.voted {
        Some(ErrorCode::MemberNotVoted)
    } else if task.outcome() != Outcome::Refund {
        Some(ErrorCode::NoRefundAvailable)
    } else {
        None
    }
}

impl MemberView {
    /// The record once the stake has been paid back.
    pub open spec fn repaid(self) -> MemberView {
        MemberView { deposited: false, ..self }
    }
}

/// The order that pays one stake back: from escrow to the member, on the
/// task's own authority.
pub open spec fn refund_order(task: TaskView, recipient: Identity) -> TransferView {
    TransferView {
        from: Balance::Escrow,
        to: Balance::Wallet(recipient),
        amount: task.stake_per_member,
        authority: AuthorityView::Task(task_authority(task)),
    }
}

/// Claims a member's stake back.
///
/// Refused until the task is finalized, for a member whose stake escrow does
/// not hold (it was never paid in, or it has been paid back), for a member
/// who did not vote, and when the tally did not carry a refund. The outcome
/// is computed from the tally anew. An accepted claim returns the order that
/// pays the stake to the member. Have it settled, then report to
/// `refund_settled`, which closes the claim.
pub fn claim_refund(task: &Task, member: &Member) -> (result: Result<Transfer, ErrorCode>)
    ensures
        (match result {
            Ok(order) => {
                &&& claim_refusal(task@, member@) is None
                &&& order@ == refund_order(task@, member.owner)
            },
            Err(error) => claim_refusal(task@, member@) == Some(error),
        }),
{
    if !task.finalized {
        return Err(ErrorCode::NotFinalized);
    }
    if !member.deposited {
        return Err(ErrorCode::MemberNotDeposited);
    }
    if !member.voted {
        return Err(ErrorCode::MemberNotVoted);
    }
    match decide(task.yes_votes, task.no_votes) {
        Outcome::Donate => Err(ErrorCode::NoRefundAvailable),
        Outcome::Refund => Ok(
            Transfer {
                from: Balance::Escrow,
                to: Balance::Wallet(member.owner),
                amount: task.stake_per_member,
                authority: Authority::Task(task.signer_seeds()),
            },
        ),
    }
}

/// Takes note of how the refund ordered by a claim was settled. If it went
/// through, the member's record no longer counts as funded, which closes the
/// claim for good; if not, the failure is handed on and the record stays as
/// it was.
pub fn refund_settled(member: &mut Member, settlement: Settlement) -> (result: Settlement)
    ensures
        result == settlement,
        (match settlement {
            Ok(()) => final(member)@ == old(member)@.repaid(),
            Err(_) => *final(member) == *old(member),
        }),
{
    if settlement.is_ok() {
        member.deposited = false;
    }
    settlement
}

/// On a finalized task, a member who has been paid back is refused for want
/// of a deposit.
pub proof fn lemma_repaid_member_is_refused(task: TaskView, member: MemberView)
    requires
        task.finalized,
    ensures
        claim_refusal(task, member.repaid()) == Some(ErrorCode::MemberNotDeposited),
{
}

} // verus!
