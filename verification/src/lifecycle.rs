use crate::clock::unix_timestamp;
use crate::error::{ErrorCode, Failure};
use crate::identity::Identity;
use crate::settlement::{
    task_authority, Authority, AuthorityView, Balance, Settlement, Transfer, TransferView,
};
use crate::state::{Task, TaskView};
use crate::tally::{decide, outcome_of, Outcome};
use crate::text::{byte_len, stored_len};
use vstd::prelude::*;

verus! {

/// A task as it is at creation: the given terms, no member, no deposit, no
/// vote, not finalized.
pub open spec fn created_task(
    creator: Identity,
    stake_per_member: nat,
    required_members: nat,
    join_window_timestamp: int,
    deadline_timestamp: int,
    charity_pubkey: Identity,
    description_cid: Seq<char>,
    task_id: Seq<char>,
    bump: u8,
    escrow_bump: u8,
) -> TaskView {
    TaskView {
        creator,
        stake_per_member,
        required_members,
        member_count: 0,
        join_window_timestamp,
        deadline_timestamp,
        charity_pubkey,
        description_cid,
        yes_votes: 0,
        no_votes: 0,
        finalized: false,
        total_deposited: 0,
        task_id,
        bump,
        escrow_bump,
    }
}

/// Why a task with the terms of `proposed` cannot be created at time `now`,
/// if it cannot: the first of the conditions on the terms that fails.
pub open spec fn create_refusal(proposed: TaskView, now: int) -> Option<ErrorCode> {
    if proposed.required_members == 0 {
        Some(ErrorCode::InvalidMemberCount)
    } else if proposed.stake_per_member == 0 {
        Some(ErrorCode::InvalidStakeAmount)
    } else if proposed.join_window_timestamp <= now {
        Some(ErrorCode::InvalidJoinWindow)
    } else if proposed.deadline_timestamp <= proposed.join_window_timestamp {
        Some(ErrorCode::InvalidDeadline)
    } else if byte_len(proposed.description_cid) > 100 {
        Some(ErrorCode::CidTooLong)
    } else if byte_len(proposed.task_id) > 50 {
        Some(ErrorCode::TaskIdTooLong)
    } else {
        None
    }
}

/// Creates a task at time `now`.
///
/// The terms are accepted when at least one member is asked for, the stake is
/// positive, the join window closes after `now`, the deadline lies after the
/// join window, the description's identifier takes at most 100 bytes and the
/// task's name at most 50. `bump` and `escrow_bump` are the derivation bytes
/// of the addresses under which the task and its escrow are kept.
pub fn create_task_at(
    creator: Identity,
    stake_per_member: u64,
    required_members: u8,
    join_window_timestamp: i64,
    deadline_timestamp: i64,
    charity_pubkey: Identity,
    description_cid: String,
    task_id: String,
    bump: u8,
    escrow_bump: u8,
    now: i64,
) -> (result: Result<Task, ErrorCode>)
    ensures
        ({
            let proposed = created_task(
                creator,
                stake_per_member as nat,
                required_members as nat,
                join_window_timestamp as int,
                deadline_timestamp as int,
                charity_pubkey,
                description_cid@,
                task_id@,
                bump,
                escrow_bump,
            );
            match result {
                Ok(task) => create_refusal(proposed, now as int) is None && task@ == proposed,
                Err(error) => create_refusal(proposed, now as int) == Some(error),
            }
        }),
        result matches Ok(task) ==> now < task.join_window_timestamp < task.deadline_timestamp,
{
    if required_members == 0 {
        return Err(ErrorCode::InvalidMemberCount);
    }
    if stake_per_member == 0 {
        return Err(ErrorCode::InvalidStakeAmount);
    }
    if join_window_timestamp <= now {
        return Err(ErrorCode::InvalidJoinWindow);
    }
    if deadline_timestamp <= join_window_timestamp {
        return Err(ErrorCode::InvalidDeadline);
    }
    if stored_len(&description_cid) > 100 {
        return Err(ErrorCode::CidTooLong);
    }
    if stored_len(&task_id) > 50 {
        return Err(ErrorCode::TaskIdTooLong);
    }
    Ok(
        Task {
            creator,
            stake_per_member,
            required_members,
            member_count: 0,
            join_window_timestamp,
            deadline_timestamp,
            charity_pubkey,
            description_cid,
            yes_votes: 0,
            no_votes: 0,
            finalized: false,
            total_deposited: 0,
            task_id,
            bump,
            escrow_bump,
        },
    )
}

/// Creates a task now: asks for the current time and goes by
/// `create_task_at`. A member count or a stake of zero is refused before the
/// time is asked for.
pub fn create_task(
    creator: Identity,
    stake_per_member: u64,
    required_members: u8,
    join_window_timestamp: i64,
    deadline_timestamp: i64,
    charity_pubkey: Identity,
    description_cid: String,
    task_id: String,
    bump: u8,
    escrow_bump: u8,
) -> (result: Result<Task, Failure>)
    ensures
        required_members == 0 ==> result == Err::<Task, Failure>(
            Failure::Rule(ErrorCode::InvalidMemberCount),
        ),
        required_members > 0 && stake_per_member == 0 ==> result == Err::<Task, Failure>(
            Failure::Rule(ErrorCode::InvalidStakeAmount),
        ),
        ({
            let proposed = created_task(
                creator,
                stake_per_member as nat,
                required_members as nat,
                join_window_timestamp as int,
                deadline_timestamp as int,
                charity_pubkey,
                description_cid@,
                task_id@,
                bump,
                escrow_bump,
            );
            match result {
                Ok(task) => task@ == proposed && exists|now: i64|
                    create_refusal(proposed, now as int) is None,
                Err(Failure::Rule(error)) => exists|now: i64|
                    create_refusal(proposed, now as int) == Some(error),
                Err(Failure::Clock(_)) => required_members > 0 && stake_per_member > 0,
            }
        }),
{
    let ghost proposed = created_task(
        creator,
        stake_per_member as nat,
        required_members as nat,
        join_window_timestamp as int,
        deadline_timestamp as int,
        charity_pubkey,
        description_cid@,
        task_id@,
        bump,
        escrow_bump,
    );
    if required_members == 0 {
        assert(create_refusal(proposed, 0) == Some(ErrorCode::InvalidMemberCount));
        return Err(Failure::Rule(ErrorCode::InvalidMemberCount));
    }
    if stake_per_member == 0 {
        assert(create_refusal(proposed, 0) == Some(ErrorCode::InvalidStakeAmount));
        return Err(Failure::Rule(ErrorCode::InvalidStakeAmount));
    }
    let now: i64 = match unix_timestamp() {
        Ok(now) => now,
        Err(error) => {
            return Err(Failure::Clock(error));
        },
    };
    match create_task_at(
        creator,
        stake_per_member,
        required_members,
        join_window_timestamp,
        deadline_timestamp,
        charity_pubkey,
        description_cid,
        task_id,
        bump,
        escrow_bump,
        now,
    ) {
        Ok(task) => Ok(task),
        Err(error) => Err(Failure::Rule(error)),
    }
}

/// What a successful `finalize` decided.
#[derive(Clone, Debug, PartialEq, Eq)]
pub enum Finalization {
    /// The vote carried a refund. The task is finalized; each member now
    /// claims their own stake.
    Refund,
    /// The vote did not carry a refund. The order moves all deposits to the
    /// charity; the task is finalized once that order has been settled.
    Donate(Transfer),
}

impl TaskView {
    /// Whether nothing has happened on the task yet: no member, no deposit,
    /// no vote, not finalized.
    pub open spec fn untouched(self) -> bool {
        &&& self.member_count == 0
        &&& self.total_deposited == 0
        &&& self.yes_votes == 0
        &&& self.no_votes == 0
        &&& !self.finalized
    }

    /// The outcome that the task's tally stands for. It is never stored:
    /// whoever needs it computes it again from the tally.
    pub open spec fn outcome(self) -> Outcome {
        outcome_of(self.yes_votes, self.no_votes)
    }

    /// The task with its outcome fixed.
    pub open spec fn finalized(self) -> TaskView {
        TaskView { finalized: true, ..self }
    }
}

/// Why `finalize` is refused at time `now`, if it is: the first of its
/// conditions that the task does not meet.
pub open spec fn finalize_refusal(task: TaskView, now: int) -> Option<ErrorCode> {
    if task.finalized {
        Some(ErrorCode::AlreadyFinalized)
    } else if now <= task.deadline_timestamp {
        Some(ErrorCode::DeadlineNotReached)
    } else if task.yes_votes + task.no_votes != task.member_count {
        Some(ErrorCode::NotAllMembersVoted)
    } else {
        None
    }
}

/// The order that forfeits the stakes: everything deposited goes from escrow
/// to the charity, on the task's own authority.
pub open spec fn donation_order(task: TaskView) -> TransferView {
    TransferView {
        from: Balance::Escrow,
        to: Balance::Wallet(task.charity_pubkey),
        amount: task.total_deposited,
        authority: AuthorityView::Task(task_authority(task)),
    }
}

/// Fixes the outcome of a task at time `now`.
///
/// Refused while the task is already finalized, while the deadline has not
/// passed, and while a member has yet to vote. Otherwise the tally decides.
/// On a refund the task is marked finalized at once. On a donation the task
/// is left as it was and the order for the charity is returned: have it
/// settled, then report to `donation_settled`, which marks the task.
pub fn finalize_at(task: &mut Task, now: i64) -> (result: Result<Finalization, ErrorCode>)
    ensures
        (match result {
            Ok(Finalization::Refund) => {
                &&& finalize_refusal(old(task)@, now as int) is None
                &&& old(task)@.outcome() == Outcome::Refund
                &&& final(task)@ == old(task)@.finalized()
            },
            Ok(Finalization::Donate(order)) => {
                &&& finalize_refusal(old(task)@, now as int) is None
                &&& old(task)@.outcome() == Outcome::Donate
                &&& order@ == donation_order(old(task)@)
                &&& *final(task) == *old(task)
            },
            Err(error) => {
                &&& finalize_refusal(old(task)@, now as int) == Some(error)
                &&& *final(task) == *old(task)
            },
        }),
{
    if task.finalized {
        return Err(ErrorCode::AlreadyFinalized);
    }
    if now <= task.deadline_timestamp {
        return Err(ErrorCode::DeadlineNotReached);
    }
    if task.yes_votes as u16 + task.no_votes as u16 != task.member_count as u16 {
        return Err(ErrorCode::NotAllMembersVoted);
    }
    match decide(task.yes_votes, task.no_votes) {
        Outcome::Refund => {
            task.finalized = true;
            Ok(Finalization::Refund)
        },
        Outcome::Donate => {
            let order = Transfer {
                from: Balance::Escrow,
                to: Balance::Wallet(task.charity_pubkey),
                amount: task.total_deposited,
                authority: Authority::Task(task.signer_seeds()),
            };
            Ok(Finalization::Donate(order))
        },
    }
}

/// Fixes the outcome of a task now: asks for the current time and goes by
/// `finalize_at`. A task that is already finalized is refused before the time
/// is asked for. Where the time cannot be had the task stays as it was.
pub fn finalize(task: &mut Task) -> (result: Result<Finalization, Failure>)
    ensures
        old(task).finalized ==> result == Err::<Finalization, Failure>(
            Failure::Rule(ErrorCode::AlreadyFinalized),
        ),
        (match result {
            Ok(Finalization::Refund) => {
                &&& exists|now: i64| finalize_refusal(old(task)@, now as int) is None
                &&& old(task)@.outcome() == Outcome::Refund
                &&& final(task)@ == old(task)@.finalized()
            },
            Ok(Finalization::Donate(order)) => {
                &&& exists|now: i64| finalize_refusal(old(task)@, now as int) is None
                &&& old(task)@.outcome() == Outcome::Donate
                &&& order@ == donation_order(old(task)@)
                &&& *final(task) == *old(task)
            },
            Err(failure) => {
                &&& failure matches Failure::Rule(error) ==> exists|now: i64|
                    finalize_refusal(old(task)@, now as int) == Some(error)
                &&& failure is Clock ==> !old(task).finalized
                &&& *final(task) == *old(task)
            },
        }),
{
    if task.finalized {
        assert(finalize_refusal(task@, 0) == Some(ErrorCode::AlreadyFinalized));
        return Err(Failure::Rule(ErrorCode::AlreadyFinalized));
    }
    let now: i64 = match unix_timestamp() {
        Ok(now) => now,
        Err(error) => {
            return Err(Failure::Clock(error));
        },
    };
    match finalize_at(task, now) {
        Ok(finalization) => Ok(finalization),
        Err(error) => Err(Failure::Rule(error)),
    }
}

/// Takes note of how the donation ordered by `finalize` was settled. If it
/// went through, the task is marked finalized; if not, the failure is handed
/// on and the task stays as it was, so that `finalize` can be tried again.
pub fn donation_settled(task: &mut Task, settlement: Settlement) -> (result: Settlement)
    ensures
        result == settlement,
        (match settlement {
            Ok(()) => final(task)@ == old(task)@.finalized(),
            Err(_) => *final(task) == *old(task),
        }),
{
    if settlement.is_ok() {
        task.finalized = true;
    }
    settlement
}

/// Terms are accepted only with the join window in the future and the
/// deadline after the join window; terms with either out of order are
/// refused.
pub proof fn lemma_accepted_terms_are_in_order(proposed: TaskView, now: int)
    ensures
        create_refusal(proposed, now) is None ==> now < proposed.join_window_timestamp
            < proposed.deadline_timestamp,
        proposed.join_window_timestamp <= now || proposed.deadline_timestamp
            <= proposed.join_window_timestamp ==> create_refusal(proposed, now) is Some,
{
}

/// While a member has yet to vote, `finalize` is refused, whenever it is
/// tried. Once the deadline has passed, the reason given is the missing
/// vote, unless the task is finalized already.
pub proof fn lemma_partial_tally_is_not_final(task: TaskView, now: int)
    requires
        task.yes_votes + task.no_votes < task.member_count,
    ensures
        finalize_refusal(task, now) is Some,
        !task.finalized && now > task.deadline_timestamp ==> finalize_refusal(task, now) == Some(
            ErrorCode::NotAllMembersVoted,
        ),
{
}

/// A finalized task is refused as already finalized, at any time and
/// whatever its tally.
pub proof fn lemma_finalized_task_refuses(task: TaskView, now: int)
    ensures
        finalize_refusal(task.finalized(), now) == Some(ErrorCode::AlreadyFinalized),
{
}

} // verus!
