use vstd::prelude::*;

verus! {

/// What becomes of the stakes once every member has voted.
#[derive(Clone, Copy, Debug, PartialEq, Eq, Structural, Hash)]
pub enum Outcome {
    /// The members take their stakes back, each by a claim of their own.
    Refund,
    /// The stakes are forfeited to the charity.
    Donate,
}

/// Half of the votes cast, rounded up. The yes-votes must exceed it for a refund.
pub open spec fn majority_threshold(total: nat) -> nat {
    (total + 1) / 2
}

/// The outcome that a tally stands for: a refund when the yes-votes exceed
/// the threshold, a donation otherwise.
pub open spec fn outcome_of(yes_votes: nat, no_votes: nat) -> Outcome {
    if yes_votes > majority_threshold(yes_votes + no_votes) {
        Outcome::Refund
    } else {
        Outcome::Donate
    }
}

/// The threshold that the yes-votes of a tally must exceed.
pub fn threshold(yes_votes: u8, no_votes: u8) -> (threshold: u16)
    ensures
        threshold == majority_threshold((yes_votes + no_votes) as nat),
{
    let total: u16 = yes_votes as u16 + no_votes as u16;
    (total + 1) / 2
}

/// The outcome of a tally.
pub fn decide(yes_votes: u8, no_votes: u8) -> (outcome: Outcome)
    ensures
        outcome == outcome_of(yes_votes as nat, no_votes as nat),
{
    if yes_votes as u16 > threshold(yes_votes, no_votes) {
        Outcome::Refund
    } else {
        Outcome::Donate
    }
}

/// A refund is carried exactly when the yes-votes lead the no-votes by two or
/// more. So a tie is always a donation, and so is a lead of a single vote.
pub proof fn lemma_refund_needs_lead_of_two(yes_votes: nat, no_votes: nat)
    ensures
        outcome_of(yes_votes, no_votes) == Outcome::Refund <==> yes_votes >= no_votes + 2,
{
}

/// A tie goes to the charity.
pub proof fn lemma_tie_donates(votes: nat)
    ensures
        outcome_of(votes, votes) == Outcome::Donate,
{
}

} // verus!
