use crate::disbursement::claim_refusal;
use crate::error::ErrorCode;
use crate::identity::Identity;
use crate::lifecycle::create_refusal;
use crate::membership::join_refusal;
use crate::protocol::model::{Call, Ledger, Rejection};
use crate::protocol::validity::{
    lemma_counted_sets, lemma_created_task_is_valid, lemma_step_keeps_valid,
    lemma_tally_short_of,
};
use crate::settlement::Settlement;
use crate::state::TaskView;
use crate::tally::Outcome;
use crate::voting::{tally_has_room, vote_refusal};
use vstd::prelude::*;

verus! {

/// A call and the time at which it arrives.
pub struct Arrival {
    pub at: int,
    pub call: Call,
}

/// Whether the calls arrive one after another, none before `start`.
pub open spec fn in_order(start: int, arrivals: Seq<Arrival>) -> bool {
    forall|i: int, j: int|
        #![trigger arrivals[i], arrivals[j]]
        0 <= i <= j < arrivals.len() ==> start <= arrivals[i].at <= arrivals[j].at
}

impl Ledger {
    /// The state after one call, accepted or not.
    pub open spec fn after(self, now: int, call: Call) -> Ledger {
        match self.step(now, call) {
            Ok(next) => next,
            Err(_) => self,
        }
    }

    /// The state after a run of calls.
    pub open spec fn after_all(self, arrivals: Seq<Arrival>) -> Ledger
        decreases arrivals.len(),
    {
        if arrivals.len() == 0 {
            self
        } else {
            self.after_all(arrivals.drop_last()).after(arrivals.last().at, arrivals.last().call)
        }
    }
}

/// Whatever calls are made on a valid task, in whatever order and by
/// whomever, the task stays valid, as long as time does not run backwards.
pub proof fn lemma_every_run_keeps_valid(start: Ledger, arrivals: Seq<Arrival>)
    requires
        start.valid(),
        in_order(start.clock, arrivals),
    ensures
        start.after_all(arrivals).valid(),
        start.clock <= start.after_all(arrivals).clock,
        arrivals.len() > 0 ==> start.after_all(arrivals).clock <= arrivals.last().at,
    decreases arrivals.len(),
{
    if arrivals.len() > 0 {
        let earlier = arrivals.drop_last();
        lemma_every_run_keeps_valid(start, earlier);
        lemma_step_keeps_valid(start.after_all(earlier), arrivals.last().at, arrivals.last().call);
    }
}

/// From its creation on, whatever calls are made on it, a task is valid.
pub proof fn lemma_task_is_always_valid(task: TaskView, created_at: int, arrivals: Seq<Arrival>)
    requires
        create_refusal(task, created_at) is None,
        task.required_members <= u8::MAX,
        task.untouched(),
        in_order(created_at, arrivals),
    ensures
        Ledger::open(task, created_at).after_all(arrivals).valid(),
{
    lemma_created_task_is_valid(task, created_at);
    lemma_every_run_keeps_valid(Ledger::open(task, created_at), arrivals);
}

/// Every stake that was paid in is in escrow, with the charity, or back with
/// a member: nothing is lost and nothing is paid twice.
pub proof fn lemma_every_stake_is_accounted_for(ledger: Ledger)
    requires
        ledger.valid(),
    ensures
        ledger.balance + ledger.donated + ledger.refunded == ledger.task.total_deposited,
        ledger.task.total_deposited == ledger.task.member_count * ledger.task.stake_per_member,
{
    let stake = ledger.task.stake_per_member as int;
    let count = ledger.task.member_count as int;
    let funded = ledger.depositors().len() as int;
    assert(funded * stake + (count - funded) * stake == count * stake) by (nonlinear_arith);
    if ledger.forfeited() {
        assert(ledger.depositors() =~= ledger.members.dom());
    }
}

/// The tally never counts more votes than the task has members, and the
/// task never has more members than it asked for.
pub proof fn lemma_tally_within_members(ledger: Ledger)
    requires
        ledger.valid(),
    ensures
        ledger.task.yes_votes + ledger.task.no_votes <= ledger.task.member_count,
        ledger.task.member_count <= ledger.task.required_members,
{
    lemma_counted_sets(ledger);
}

/// Until a stake is paid back, the members that the task counts are the
/// participants whose records say that escrow holds their stake.
pub proof fn lemma_members_are_depositors(ledger: Ledger)
    requires
        ledger.valid(),
        ledger.refunded == 0,
    ensures
        ledger.depositors() == ledger.members.dom(),
        ledger.depositors().len() == ledger.task.member_count,
{
    lemma_counted_sets(ledger);
    let stake = ledger.task.stake_per_member as int;
    let count = ledger.task.member_count as int;
    let funded = ledger.depositors().len() as int;
    assert(count == funded) by (nonlinear_arith)
        requires
            (count - funded) * stake == 0,
            stake > 0,
    ;
    vstd::set_lib::lemma_subset_equality(ledger.depositors(), ledger.members.dom());
}

/// Until funds leave escrow, the deposits on the task's record are one stake
/// for each member whose record says that escrow holds their stake, and
/// escrow holds exactly that.
pub proof fn lemma_deposits_match_depositors(ledger: Ledger)
    requires
        ledger.valid(),
        ledger.donated == 0,
        ledger.refunded == 0,
    ensures
        ledger.task.total_deposited == ledger.depositors().len() * ledger.task.stake_per_member,
        ledger.balance == ledger.task.total_deposited,
{
    lemma_every_stake_is_accounted_for(ledger);
    lemma_members_are_depositors(ledger);
}

/// A task that has all its members takes no one else, whoever asks and
/// whenever. While the window is open, a newcomer is told that the task is
/// full.
pub proof fn lemma_full_task_takes_no_one(ledger: Ledger, now: int, join: Call)
    requires
        join is Join,
        ledger.task.member_count >= ledger.task.required_members,
    ensures
        ledger.step(now, join) is Err,
        !ledger.members.contains_key(join->Join_caller) && now <= ledger.task.join_window_timestamp
            ==> ledger.step(now, join) == Err::<Ledger, Rejection>(
            Rejection::Rule(ErrorCode::TaskFull),
        ),
{
}

/// No call removes a member's record.
pub proof fn lemma_records_are_kept(start: Ledger, arrivals: Seq<Arrival>, who: Identity)
    requires
        start.members.contains_key(who),
    ensures
        start.after_all(arrivals).members.contains_key(who),
    decreases arrivals.len(),
{
    if arrivals.len() > 0 {
        lemma_records_are_kept(start, arrivals.drop_last(), who);
    }
}

/// A participant joins a task at most once: after an accepted join, every
/// further join by the same caller is turned away, whatever happened in
/// between.
pub proof fn lemma_one_join_for_each_caller(
    start: Ledger,
    now: int,
    join: Call,
    between: Seq<Arrival>,
    later: int,
    again: Call,
)
    requires
        join is Join,
        again is Join,
        again->Join_caller == join->Join_caller,
        start.step(now, join) is Ok,
    ensures
        start.after(now, join).after_all(between).step(later, again) == Err::<Ledger, Rejection>(
            Rejection::RecordExists,
        ),
{
    lemma_records_are_kept(start.after(now, join), between, join->Join_caller);
}

/// Where a join is accepted, the member count has room for the newcomer: the
/// members so far are fewer than were asked for, and 255 at most can be
/// asked for.
pub proof fn lemma_member_count_has_room(ledger: Ledger, email_hash: Seq<char>, now: int)
    requires
        ledger.valid(),
        join_refusal(ledger.task, email_hash, now) is None,
    ensures
        ledger.task.member_count < u8::MAX,
{
}

/// Where a vote is accepted, the tally has room for it: the votes counted so
/// far are fewer than the members, who are 255 at most.
pub proof fn lemma_tally_has_room(ledger: Ledger, voter: Identity, vote_yes: bool, now: int)
    requires
        ledger.valid(),
        ledger.members.contains_key(voter),
        vote_refusal(ledger.task, ledger.members[voter], now) is None,
    ensures
        tally_has_room(ledger.task, vote_yes),
{
    lemma_tally_short_of(ledger, voter);
}

/// A vote stays on record, and the deadline where it was set.
pub proof fn lemma_votes_are_kept(start: Ledger, arrivals: Seq<Arrival>, who: Identity)
    requires
        start.members.contains_key(who),
        start.members[who].voted,
    ensures
        start.after_all(arrivals).members.contains_key(who),
        start.after_all(arrivals).members[who].voted,
        start.after_all(arrivals).members[who].vote_yes == start.members[who].vote_yes,
        start.after_all(arrivals).task.deadline_timestamp == start.task.deadline_timestamp,
    decreases arrivals.len(),
{
    if arrivals.len() > 0 {
        lemma_votes_are_kept(start, arrivals.drop_last(), who);
    }
}

/// A member votes once: after an accepted vote, every further vote by the
/// same member is refused, whatever happened in between, and cannot change
/// the vote on record.
pub proof fn lemma_one_vote_for_each_voter(
    start: Ledger,
    now: int,
    vote: Call,
    between: Seq<Arrival>,
    later: int,
    again: Call,
)
    requires
        vote is Vote,
        again is Vote,
        again->Vote_caller == vote->Vote_caller,
        start.step(now, vote) is Ok,
    ensures
        start.after(now, vote).after_all(between).step(later, again) is Err,
        later > start.task.deadline_timestamp ==> start.after(now, vote).after_all(between).step(
            later,
            again,
        ) == Err::<Ledger, Rejection>(Rejection::Rule(ErrorCode::AlreadyVoted)),
{
    lemma_votes_are_kept(start.after(now, vote), between, vote->Vote_caller);
}

/// When the vote does not carry a refund, an accepted `finalize` leaves
/// nothing in escrow: all that was deposited is with the charity.
pub proof fn lemma_donation_empties_escrow(ledger: Ledger, now: int, settlement: Settlement)
    requires
        ledger.valid(),
        ledger.task.outcome() == Outcome::Donate,
        ledger.step(now, Call::Finalize { settlement }) is Ok,
    ensures
        ledger.balance == ledger.task.total_deposited,
        ledger.after(now, Call::Finalize { settlement }).balance == 0,
        ledger.after(now, Call::Finalize { settlement }).donated == ledger.donated
            + ledger.task.total_deposited,
        ledger.after(now, Call::Finalize { settlement }).task.finalized,
{
    assert(ledger.depositors() =~= ledger.members.dom());
    let stake = ledger.task.stake_per_member as int;
    let count = ledger.task.member_count as int;
    let funded = ledger.depositors().len() as int;
    assert((count - funded) * stake == 0) by (nonlinear_arith)
        requires
            count == funded,
    ;
    lemma_deposits_match_depositors(ledger);
}

/// A member who may claim is paid: escrow holds the stake of every member
/// with an open claim, so the claim goes through unless the settlement layer
/// refuses for reasons of its own, and it moves exactly one stake.
pub proof fn lemma_open_claim_is_covered(ledger: Ledger, now: int, claimant: Identity)
    requires
        ledger.valid(),
        ledger.members.contains_key(claimant),
        claim_refusal(ledger.task, ledger.members[claimant]) is None,
    ensures
        ledger.balance >= ledger.task.stake_per_member,
        ledger.step(now, Call::ClaimRefund { caller: claimant, settlement: Ok(()) }) is Ok,
        ledger.after(now, Call::ClaimRefund { caller: claimant, settlement: Ok(()) }).balance
            == ledger.balance - ledger.task.stake_per_member,
        ledger.after(now, Call::ClaimRefund { caller: claimant, settlement: Ok(()) }).refunded
            == ledger.refunded + ledger.task.stake_per_member,
{
    let stake = ledger.task.stake_per_member as int;
    let funded = ledger.depositors().len() as int;
    ledger.members.dom().lemma_len_filter(|who: Identity| ledger.members[who].deposited);
    assert(ledger.depositors().contains(claimant));
    assert(funded * stake >= stake) by (nonlinear_arith)
        requires
            funded >= 1,
            stake > 0,
    ;
}

/// Once a member has been paid back, the record says so for good, and the
/// task stays finalized.
pub proof fn lemma_repaid_stays_repaid(start: Ledger, arrivals: Seq<Arrival>, who: Identity)
    requires
        start.members.contains_key(who),
        !start.members[who].deposited,
        start.task.finalized,
    ensures
        start.after_all(arrivals).members.contains_key(who),
        !start.after_all(arrivals).members[who].deposited,
        start.after_all(arrivals).task.finalized,
    decreases arrivals.len(),
{
    if arrivals.len() > 0 {
        lemma_repaid_stays_repaid(start, arrivals.drop_last(), who);
    }
}

/// A stake is paid back once: after an accepted claim, every further claim by
/// the same member is refused, because escrow no longer holds their stake,
/// whatever happened in between.
pub proof fn lemma_one_refund_for_each_member(
    start: Ledger,
    now: int,
    claim: Call,
    between: Seq<Arrival>,
    later: int,
    again: Call,
)
    requires
        claim is ClaimRefund,
        again is ClaimRefund,
        again->ClaimRefund_caller == claim->ClaimRefund_caller,
        start.step(now, claim) is Ok,
    ensures
        start.after(now, claim).after_all(between).step(later, again) == Err::<Ledger, Rejection>(
            Rejection::Rule(ErrorCode::MemberNotDeposited),
        ),
{
    lemma_repaid_stays_repaid(start.after(now, claim), between, claim->ClaimRefund_caller);
}

/// What is fixed with the outcome stays fixed: the flag, the tally, the
/// member count and what the charity received.
pub proof fn lemma_finalized_stays_finalized(start: Ledger, arrivals: Seq<Arrival>)
    requires
        start.valid(),
        start.task.finalized,
        in_order(start.clock, arrivals),
    ensures
        start.after_all(arrivals).task.finalized,
        start.after_all(arrivals).task.yes_votes == start.task.yes_votes,
        start.after_all(arrivals).task.no_votes == start.task.no_votes,
        start.after_all(arrivals).task.member_count == start.task.member_count,
        start.after_all(arrivals).donated == start.donated,
    decreases arrivals.len(),
{
    if arrivals.len() > 0 {
        let earlier = arrivals.drop_last();
        lemma_finalized_stays_finalized(start, earlier);
        lemma_every_run_keeps_valid(start, earlier);
        let before = start.after_all(earlier);
        let last = arrivals.last();
        match last.call {
            Call::Vote { caller, .. } => {
                if before.step(last.at, last.call) is Ok {
                    lemma_tally_short_of(before, caller);
                }
            },
            _ => {},
        }
    }
}

/// A task is finalized once. After an accepted `finalize`, every further one
/// is refused as already finalized, whatever happened in between, and neither
/// the tally nor what the charity received changes any more: no second
/// transfer is made.
pub proof fn lemma_finalize_is_final(
    start: Ledger,
    now: int,
    settlement: Settlement,
    between: Seq<Arrival>,
    later: int,
    again: Settlement,
)
    requires
        start.valid(),
        now >= start.clock,
        in_order(now, between),
        start.step(now, Call::Finalize { settlement }) is Ok,
    ensures
        ({
            let done = start.after(now, Call::Finalize { settlement });
            let after = done.after_all(between);
            &&& after.step(later, Call::Finalize { settlement: again }) == Err::<Ledger, Rejection>(
                Rejection::Rule(ErrorCode::AlreadyFinalized),
            )
            &&& after.donated == done.donated
            &&& after.task.yes_votes == done.task.yes_votes
            &&& after.task.no_votes == done.task.no_votes
        }),
{
    lemma_step_keeps_valid(start, now, Call::Finalize { settlement });
    lemma_finalized_stays_finalized(start.after(now, Call::Finalize { settlement }), between);
}

/// Votes of different members may come in either order: the outcome is the
/// same, whether or not each of them is accepted.
pub proof fn lemma_votes_commute(ledger: Ledger, now: int, one: Call, other: Call)
    requires
        one is Vote,
        other is Vote,
        one->Vote_caller != other->Vote_caller,
    ensures
        ledger.after(now, one).after(now, other) == ledger.after(now, other).after(now, one),
{
    let this_way = ledger.after(now, one).after(now, other);
    let that_way = ledger.after(now, other).after(now, one);
    assert(this_way.members =~= that_way.members);
}

/// Joins of different callers that are both accepted in one order are both
/// accepted in the other, with the same outcome. Where the task has room for
/// one of them only, whoever comes first is taken.
pub proof fn lemma_joins_commute(ledger: Ledger, now: int, one: Call, other: Call)
    requires
        one is Join,
        other is Join,
        one->Join_caller != other->Join_caller,
        ledger.step(now, one) is Ok,
        ledger.after(now, one).step(now, other) is Ok,
    ensures
        ledger.step(now, other) is Ok,
        ledger.after(now, other).step(now, one) is Ok,
        ledger.after(now, one).after(now, other) == ledger.after(now, other).after(now, one),
{
    let this_way = ledger.after(now, one).after(now, other);
    let that_way = ledger.after(now, other).after(now, one);
    assert(this_way.members =~= that_way.members);
}

/// Claims of different members that are both paid in one order are both paid
/// in the other, with the same outcome.
pub proof fn lemma_claims_commute(ledger: Ledger, now: int, one: Call, other: Call)
    requires
        one is ClaimRefund,
        other is ClaimRefund,
        one->ClaimRefund_caller != other->ClaimRefund_caller,
        ledger.step(now, one) is Ok,
        ledger.after(now, one).step(now, other) is Ok,
    ensures
        ledger.step(now, other) is Ok,
        ledger.after(now, other).step(now, one) is Ok,
        ledger.after(now, one).after(now, other) == ledger.after(now, other).after(now, one),
{
    let this_way = ledger.after(now, one).after(now, other);
    let that_way = ledger.after(now, other).after(now, one);
    assert(this_way.members =~= that_way.members);
}

} // verus!
