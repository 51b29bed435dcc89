use crate::identity::Identity;
use crate::lifecycle::create_refusal;
use crate::protocol::model::{Call, Ledger};
use crate::state::TaskView;
use crate::tally::Outcome;
use crate::text::byte_len;
use vstd::prelude::*;

verus! {

impl Ledger {
    /// What holds of each member's record at every moment: it is kept under
    /// its owner, its texts are within their bounds, only the creator's
    /// carries a proof, and a vote is on it only after the deadline.
    pub open spec fn member_is_sound(self, who: Identity) -> bool {
        let member = self.members[who];
        &&& member.owner == who
        &&& byte_len(member.email_hash) <= 100
        &&& byte_len(member.proof_cid) <= 100
        &&& who != self.task.creator ==> member.proof_cid =~= Seq::empty()
        &&& member.vote_yes ==> member.voted
        &&& member.voted ==> self.clock > self.task.deadline_timestamp
    }

    /// What holds of a task and its records and funds at every moment.
    pub open spec fn valid(self) -> bool {
        // The terms are those of an accepted creation.
        &&& 0 < self.task.required_members <= u8::MAX
        &&& 0 < self.task.stake_per_member
        &&& self.task.join_window_timestamp < self.task.deadline_timestamp
        &&& byte_len(self.task.description_cid) <= 100
        &&& byte_len(self.task.task_id) <= 50
        // The records are the members, each under its owner and each as an
        // accepted join, proof and vote leave it.
        &&& self.members.dom().finite()
        &&& forall|who: Identity| #[trigger]
            self.members.contains_key(who) ==> self.member_is_sound(who)
        &&& self.task.member_count == self.members.dom().len()
        &&& self.task.member_count <= self.task.required_members
        // The tally counts the votes on record.
        &&& self.task.yes_votes == self.yes_voters().len()
        &&& self.task.no_votes == self.no_voters().len()
        // Every member paid one stake, and every stake is accounted for.
        &&& self.task.total_deposited == self.task.member_count * self.task.stake_per_member
        &&& self.refunded == (self.task.member_count - self.depositors().len())
            * self.task.stake_per_member
        &&& if self.forfeited() {
            self.balance == 0 && self.donated == self.task.total_deposited
        } else {
            self.balance == self.depositors().len() * self.task.stake_per_member && self.donated
                == 0
        }
        // The outcome is fixed after the deadline, on a full tally, and no
        // stake is paid back before or without a refund.
        &&& self.task.finalized ==> self.clock > self.task.deadline_timestamp
            && self.task.yes_votes + self.task.no_votes == self.task.member_count
        &&& forall|who: Identity| #[trigger]
            self.members.contains_key(who) && !self.members[who].deposited ==> self.task.finalized
                && self.task.outcome() == Outcome::Refund
    }
}

/// The three sets of participants that a valid state counts are finite, and
/// none has more participants than the task has members.
pub proof fn lemma_counted_sets(ledger: Ledger)
    requires
        ledger.members.dom().finite(),
    ensures
        ledger.depositors().finite(),
        ledger.yes_voters().finite(),
        ledger.no_voters().finite(),
        ledger.depositors().len() <= ledger.members.dom().len(),
        ledger.yes_voters().len() + ledger.no_voters().len() <= ledger.members.dom().len(),
        ledger.yes_voters().disjoint(ledger.no_voters()),
{
    let members = ledger.members;
    members.dom().lemma_len_filter(|who: Identity| members[who].deposited);
    members.dom().lemma_len_filter(|who: Identity| members[who].voted && members[who].vote_yes);
    members.dom().lemma_len_filter(|who: Identity| members[who].voted && !members[who].vote_yes);
    let voters = ledger.yes_voters().union(ledger.no_voters());
    vstd::set_lib::lemma_set_disjoint_lens(ledger.yes_voters(), ledger.no_voters());
    vstd::set_lib::lemma_len_subset(voters, members.dom());
}

/// A member who has yet to vote keeps the tally short of the member count.
pub proof fn lemma_tally_short_of(ledger: Ledger, who: Identity)
    requires
        ledger.members.dom().finite(),
        ledger.members.contains_key(who),
        !ledger.members[who].voted,
    ensures
        ledger.yes_voters().len() + ledger.no_voters().len() < ledger.members.dom().len(),
{
    lemma_counted_sets(ledger);
    let voters = ledger.yes_voters().union(ledger.no_voters());
    vstd::set_lib::lemma_set_disjoint_lens(ledger.yes_voters(), ledger.no_voters());
    voters.lemma_subset_not_in_lt(ledger.members.dom(), who);
}

proof fn lemma_join_keeps_valid(pre: Ledger, now: int, call: Call)
    requires
        pre.valid(),
        now >= pre.clock,
        call is Join,
        pre.step(now, call) is Ok,
    ensures
        pre.step(now, call)->Ok_0.valid(),
{
    let post = pre.step(now, call)->Ok_0;
    lemma_counted_sets(pre);
    assert(post.yes_voters() =~= pre.yes_voters());
    assert(post.no_voters() =~= pre.no_voters());
    let stake = pre.task.stake_per_member as int;
    let count = pre.task.member_count as int;
    let funded = pre.depositors().len() as int;
    assert((count + 1) * stake == count * stake + stake) by (nonlinear_arith);
    assert((funded + 1) * stake == funded * stake + stake) by (nonlinear_arith);
    assert(pre.depositors() =~= pre.members.dom());
    assert(post.depositors() =~= post.members.dom());
    assert((count - funded) * stake == 0) by (nonlinear_arith)
        requires
            count == funded,
    ;
    assert(((count + 1) - (funded + 1)) * stake == 0) by (nonlinear_arith)
        requires
            count == funded,
    ;
}

proof fn lemma_proof_keeps_valid(pre: Ledger, now: int, call: Call)
    requires
        pre.valid(),
        now >= pre.clock,
        call is SubmitProof,
        pre.step(now, call) is Ok,
    ensures
        pre.step(now, call)->Ok_0.valid(),
{
    let post = pre.step(now, call)->Ok_0;
    assert(post.depositors() =~= pre.depositors());
    assert(post.yes_voters() =~= pre.yes_voters());
    assert(post.no_voters() =~= pre.no_voters());
}

proof fn lemma_vote_keeps_valid(pre: Ledger, now: int, call: Call)
    requires
        pre.valid(),
        now >= pre.clock,
        call is Vote,
        pre.step(now, call) is Ok,
    ensures
        pre.step(now, call)->Ok_0.valid(),
{
    let post = pre.step(now, call)->Ok_0;
    let caller = call->Vote_caller;
    lemma_counted_sets(pre);
    lemma_tally_short_of(pre, caller);
    assert(post.depositors() =~= pre.depositors());
    if call->Vote_vote_yes {
        assert(post.yes_voters() =~= pre.yes_voters().insert(caller));
        assert(post.no_voters() =~= pre.no_voters());
    } else {
        assert(post.yes_voters() =~= pre.yes_voters());
        assert(post.no_voters() =~= pre.no_voters().insert(caller));
    }
}

proof fn lemma_finalize_keeps_valid(pre: Ledger, now: int, call: Call)
    requires
        pre.valid(),
        now >= pre.clock,
        call is Finalize,
        pre.step(now, call) is Ok,
    ensures
        pre.step(now, call)->Ok_0.valid(),
{
    lemma_counted_sets(pre);
    assert(pre.depositors() =~= pre.members.dom());
}

proof fn lemma_claim_keeps_valid(pre: Ledger, now: int, call: Call)
    requires
        pre.valid(),
        now >= pre.clock,
        call is ClaimRefund,
        pre.step(now, call) is Ok,
    ensures
        pre.step(now, call)->Ok_0.valid(),
{
    let post = pre.step(now, call)->Ok_0;
    let caller = call->ClaimRefund_caller;
    lemma_counted_sets(pre);
    assert(post.depositors() =~= pre.depositors().remove(caller));
    assert(post.yes_voters() =~= pre.yes_voters());
    assert(post.no_voters() =~= pre.no_voters());
    let stake = pre.task.stake_per_member as int;
    let count = pre.task.member_count as int;
    let funded = pre.depositors().len() as int;
    assert((funded - 1) * stake == funded * stake - stake) by (nonlinear_arith);
    assert((count - (funded - 1)) * stake == (count - funded) * stake + stake)
        by (nonlinear_arith);
}

/// An accepted call leaves a valid state valid, whatever the call and
/// whenever it comes, as long as time does not run backwards. A call that is
/// not accepted changes nothing.
pub proof fn lemma_step_keeps_valid(pre: Ledger, now: int, call: Call)
    requires
        pre.valid(),
        now >= pre.clock,
    ensures
        pre.step(now, call) matches Ok(post) ==> post.valid() && post.clock == now,
{
    if pre.step(now, call) is Ok {
        match call {
            Call::Join { .. } => lemma_join_keeps_valid(pre, now, call),
            Call::SubmitProof { .. } => lemma_proof_keeps_valid(pre, now, call),
            Call::Vote { .. } => lemma_vote_keeps_valid(pre, now, call),
            Call::Finalize { .. } => lemma_finalize_keeps_valid(pre, now, call),
            Call::ClaimRefund { .. } => lemma_claim_keeps_valid(pre, now, call),
        }
    }
}

/// A task is valid from its creation on.
pub proof fn lemma_created_task_is_valid(task: TaskView, now: int)
    requires
        create_refusal(task, now) is None,
        task.required_members <= u8::MAX,
        task.untouched(),
    ensures
        Ledger::open(task, now).valid(),
{
    let ledger = Ledger::open(task, now);
    assert(ledger.depositors() =~= Set::empty());
    assert(ledger.yes_voters() =~= Set::empty());
    assert(ledger.no_voters() =~= Set::empty());
}

} // verus!
