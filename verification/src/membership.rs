use crate::clock::unix_timestamp;
use crate::error::{ErrorCode, Failure};
use crate::identity::Identity;
use crate::settlement::{Authority, AuthorityView, Balance, Settlement, Transfer, TransferView};
use crate::state::{Member, MemberView, Task, TaskView};
use crate::text::{byte_len, stored_len};
use vstd::prelude::*;

verus! {

/// Why a join is refused at time `now`, if it is: the first of its
/// conditions that fails.
pub open spec fn join_refusal(task: TaskView, email_hash: Seq<char>, now: int) -> Option<
    ErrorCode,
> {
    if now > task.join_window_timestamp {
        Some(ErrorCode::JoinWindowClosed)
    } else if task.member_count >= task.required_members {
        Some(ErrorCode::TaskFull)
    } else if byte_len(email_hash) > 100 {
        Some(ErrorCode::EmailHashTooLong)
    } else {
        None
    }
}

/// The record of a participant who has just enrolled: no proof, no vote, and
/// no deposit yet.
pub open spec fn enrolled(owner: Identity, task: Identity, email_hash: Seq<char>, bump: u8)
    -> MemberView {
    MemberView {
        owner,
        task,
        email_hash,
        proof_cid: Seq::empty(),
        voted: false,
        vote_yes: false,
        deposited: false,
        bump,
    }
}

/// The order by which a participant pays the stake into escrow, on their own
/// authority.
pub open spec fn deposit_order(task: TaskView, payer: Identity) -> TransferView {
    TransferView {
        from: Balance::Wallet(payer),
        to: Balance::Escrow,
        amount: task.stake_per_member,
        authority: AuthorityView::Owner(payer),
    }
}

impl TaskView {
    /// The task after one more member's stake has arrived in escrow.
    pub open spec fn with_deposit(self) -> TaskView {
        TaskView {
            member_count: self.member_count + 1,
            total_deposited: self.total_deposited + self.stake_per_member,
            ..self
        }
    }
}

impl MemberView {
    /// The record once escrow holds the member's stake.
    pub open spec fn funded(self) -> MemberView {
        MemberView { deposited: true, ..self }
    }

    /// The record with the proof of completion attached.
    pub open spec fn with_proof(self, proof_cid: Seq<char>) -> MemberView {
        MemberView { proof_cid, ..self }
    }
}

/// Enrolls `caller` in a task at time `now`.
///
/// Refused once the join window has closed, once the task has all the members
/// it asked for, and for an e-mail hash of more than 100 bytes. Otherwise the
/// caller's record is returned, not yet funded, with the order that pays the
/// stake into escrow. Have the order settled, then report to
/// `deposit_settled`: only that counts the member in.
///
/// `task_key` is the address under which the task is kept and `bump` the
/// derivation byte of the new record's address.
pub fn join_and_deposit_at(
    task: &Task,
    task_key: Identity,
    caller: Identity,
    email_hash: String,
    bump: u8,
    now: i64,
) -> (result: Result<(Member, Transfer), ErrorCode>)
    ensures
        (match result {
            Ok((member, order)) => {
                &&& join_refusal(task@, email_hash@, now as int) is None
                &&& member@ == enrolled(caller, task_key, email_hash@, bump)
                &&& order@ == deposit_order(task@, caller)
            },
            Err(error) => join_refusal(task@, email_hash@, now as int) == Some(error),
        }),
{
    if now > task.join_window_timestamp {
        return Err(ErrorCode::JoinWindowClosed);
    }
    if task.member_count >= task.required_members {
        return Err(ErrorCode::TaskFull);
    }
    if stored_len(&email_hash) > 100 {
        return Err(ErrorCode::EmailHashTooLong);
    }
    let member = Member {
        owner: caller,
        task: task_key,
        email_hash,
        proof_cid: String::new(),
        voted: false,
        vote_yes: false,
        deposited: false,
        bump,
    };
    let order = Transfer {
        from: Balance::Wallet(caller),
        to: Balance::Escrow,
        amount: task.stake_per_member,
        authority: Authority::Owner(caller),
    };
    Ok((member, order))
}

/// Enrolls `caller` in a task now: asks for the current time and goes by
/// `join_and_deposit_at`.
pub fn join_and_deposit(
    task: &Task,
    task_key: Identity,
    caller: Identity,
    email_hash: String,
    bump: u8,
) -> (result: Result<(Member, Transfer), Failure>)
    ensures
        (match result {
            Ok((member, order)) => {
                &&& exists|now: i64| join_refusal(task@, email_hash@, now as int) is None
                &&& member@ == enrolled(caller, task_key, email_hash@, bump)
                &&& order@ == deposit_order(task@, caller)
            },
            Err(Failure::Rule(error)) => exists|now: i64|
                join_refusal(task@, email_hash@, now as int) == Some(error),
            Err(Failure::Clock(_)) => true,
        }),
{
    let now: i64 = match unix_timestamp() {
        Ok(now) => now,
        Err(error) => {
            return Err(Failure::Clock(error));
        },
    };
    match join_and_deposit_at(task, task_key, caller, email_hash, bump, now) {
        Ok(enrollment) => Ok(enrollment),
        Err(error) => Err(Failure::Rule(error)),
    }
}

/// Takes note of how the deposit ordered by a join was settled. If it went
/// through, the member's record is marked funded and the task counts one more
/// member and one more stake; if not, the failure is handed on and both
/// records stay as they were.
///
/// The counters must have room for the new member: this holds after every
/// accepted join whose stake still fits under the largest amount.
pub fn deposit_settled(task: &mut Task, member: &mut Member, settlement: Settlement) -> (result:
    Settlement)
    requires
        settlement is Ok ==> old(task).member_count < u8::MAX,
        settlement is Ok ==> old(task).total_deposited + old(task).stake_per_member <= u64::MAX,
    ensures
        result == settlement,
        (match settlement {
            Ok(()) => {
                &&& final(task)@ == old(task)@.with_deposit()
                &&& final(member)@ == old(member)@.funded()
            },
            Err(_) => *final(task) == *old(task) && *final(member) == *old(member),
        }),
{
    if settlement.is_ok() {
        member.deposited = true;
        task.member_count += 1;
        task.total_deposited += task.stake_per_member;
    }
    settlement
}

/// Why a proof is refused, if it is.
pub open spec fn proof_refusal(task: TaskView, member: MemberView, proof_cid: Seq<char>)
    -> Option<ErrorCode> {
    if byte_len(proof_cid) > 100 {
        Some(ErrorCode::CidTooLong)
    } else if member.owner != task.creator {
        Some(ErrorCode::OnlyCreatorCanSubmitProof)
    } else {
        None
    }
}

/// Attaches the proof of completion to the creator's own member record.
///
/// Refused for an identifier of more than 100 bytes and for the record of
/// anyone but the task's creator. The proof is kept for the voters to look
/// at and decides nothing by itself.
pub fn submit_proof(task: &Task, member: &mut Member, proof_cid: String) -> (result: Result<
    (),
    ErrorCode,
>)
    ensures
        (match result {
            Ok(()) => {
                &&& proof_refusal(task@, old(member)@, proof_cid@) is None
                &&& final(member)@ == old(member)@.with_proof(proof_cid@)
            },
            Err(error) => {
                &&& proof_refusal(task@, old(member)@, proof_cid@) == Some(error)
                &&& *final(member) == *old(member)
            },
        }),
{
    if stored_len(&proof_cid) > 100 {
        return Err(ErrorCode::CidTooLong);
    }
    if member.owner != task.creator {
        return Err(ErrorCode::OnlyCreatorCanSubmitProof);
    }
    member.proof_cid = proof_cid;
    Ok(())
}

} // verus!
