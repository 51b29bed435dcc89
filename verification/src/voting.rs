use crate::clock::unix_timestamp;
use crate::error::{ErrorCode, Failure};
use crate::state::{Member, MemberView, Task, TaskView};
use vstd::prelude::*;

verus! {

/// Why a vote is refused at time `now`, if it is: the first of its
/// conditions that fails.
pub open spec fn vote_refusal(task: TaskView, member: MemberView, now: int) -> Option<ErrorCode> {
    if now <= task.deadline_timestamp {
        Some(ErrorCode::DeadlineNotReached)
    } else if member.voted {
        Some(ErrorCode::AlreadyVoted)
    } else if !member.deposited {
        Some(ErrorCode::MemberNotDeposited)
    } else {
        None
    }
}

impl TaskView {
    /// The task with one more vote in its tally.
    pub open spec fn with_vote(self, vote_yes: bool) -> TaskView {
        if vote_yes {
            TaskView { yes_votes: self.yes_votes + 1, ..self }
        } else {
            TaskView { no_votes: self.no_votes + 1, ..self }
        }
    }
}

impl MemberView {
    /// The record after the member's vote.
    pub open spec fn with_vote(self, vote_yes: bool) -> MemberView {
        MemberView { voted: true, vote_yes, ..self }
    }
}

/// Whether the tally's counter for this kind of vote can take one more.
pub open spec fn tally_has_room(task: TaskView, vote_yes: bool) -> bool {
    if vote_yes {
        task.yes_votes < u8::MAX
    } else {
        task.no_votes < u8::MAX
    }
}

/// Casts a member's vote at time `now`.
///
/// Refused until the deadline has passed, for a member who has voted, and
/// for a member whose stake escrow does not hold. An accepted vote is
/// recorded on the member and counted in the task's tally; it cannot be
/// changed or withdrawn.
///
/// The tally must have room for an accepted vote. It always has where the
/// votes counted so far are those of the task's members, as
/// `lemma_tally_has_room` shows.
pub fn vote_at(task: &mut Task, member: &mut Member, vote_yes: bool, now: i64) -> (result: Result<
    (),
    ErrorCode,
>)
    requires
        vote_refusal(old(task)@, old(member)@, now as int) is None ==> tally_has_room(
            old(task)@,
            vote_yes,
        ),
    ensures
        (match result {
            Ok(()) => {
                &&& vote_refusal(old(task)@, old(member)@, now as int) is None
                &&& final(task)@ == old(task)@.with_vote(vote_yes)
                &&& final(member)@ == old(member)@.with_vote(vote_yes)
            },
            Err(error) => {
                &&& vote_refusal(old(task)@, old(member)@, now as int) == Some(error)
                &&& *final(task) == *old(task)
                &&& *final(member) == *old(member)
            },
        }),
{
    if now <= task.deadline_timestamp {
        return Err(ErrorCode::DeadlineNotReached);
    }
    if member.voted {
        return Err(ErrorCode::AlreadyVoted);
    }
    if !member.deposited {
        return Err(ErrorCode::MemberNotDeposited);
    }
    member.voted = true;
    member.vote_yes = vote_yes;
    if vote_yes {
        task.yes_votes += 1;
    } else {
        task.no_votes += 1;
    }
    Ok(())
}

/// Casts a member's vote now: asks for the current time and goes by
/// `vote_at`. Where the time cannot be had both records stay as they were.
pub fn vote(task: &mut Task, member: &mut Member, vote_yes: bool) -> (result: Result<(), Failure>)
    requires
        !old(member).voted && old(member).deposited ==> tally_has_room(old(task)@, vote_yes),
    ensures
        (match result {
            Ok(()) => {
                &&& exists|now: i64| vote_refusal(old(task)@, old(member)@, now as int) is None
                &&& final(task)@ == old(task)@.with_vote(vote_yes)
                &&& final(member)@ == old(member)@.with_vote(vote_yes)
            },
            Err(failure) => {
                &&& failure matches Failure::Rule(error) ==> exists|now: i64|
                    vote_refusal(old(task)@, old(member)@, now as int) == Some(error)
                &&& *final(task) == *old(task)
                &&& *final(member) == *old(member)
            },
        }),
{
    let now: i64 = match unix_timestamp() {
        Ok(now) => now,
        Err(error) => {
            return Err(Failure::Clock(error));
        },
    };
    match vote_at(task, member, vote_yes, now) {
        Ok(()) => Ok(()),
        Err(error) => Err(Failure::Rule(error)),
    }
}

/// Before the deadline has passed, every vote is refused for that reason,
/// whoever casts it.
pub proof fn lemma_vote_waits_for_deadline(task: TaskView, member: MemberView, now: int)
    requires
        now <= task.deadline_timestamp,
    ensures
        vote_refusal(task, member, now) == Some(ErrorCode::DeadlineNotReached),
{
}

/// After the deadline, a participant whose stake escrow does not hold, and
/// who has no vote on record, is refused for want of a deposit.
pub proof fn lemma_vote_needs_deposit(task: TaskView, member: MemberView, now: int)
    requires
        now > task.deadline_timestamp,
        !member.voted,
        !member.deposited,
    ensures
        vote_refusal(task, member, now) == Some(ErrorCode::MemberNotDeposited),
{
}

/// A member votes once: with the vote on record, every further vote after
/// the deadline is refused as already cast.
pub proof fn lemma_one_vote_for_each_member(
    task: TaskView,
    member: MemberView,
    first: bool,
    second: bool,
    later: int,
)
    requires
        later > task.deadline_timestamp,
    ensures
        vote_refusal(task.with_vote(first), member.with_vote(first), later) == Some(
            ErrorCode::AlreadyVoted,
        ),
{
}

} // verus!
