use smart_deadlines::{
    claim_refund, create_task_at, deposit_settled, donation_settled, finalize_at,
    join_and_deposit_at, refund_settled, submit_proof, vote_at, Authority, Balance, ErrorCode,
    Finalization, Identity, Member, Outcome, Settlement, SettlementError, Task, Transfer,
};
use std::collections::HashMap;

/// Why a call at the desk changed nothing.
#[derive(Debug, PartialEq)]
enum Refused {
    RecordExists,
    NoRecord,
    Rule(ErrorCode),
    Settlement(SettlementError),
}

/// A stand-in for the record store and the settlement layer around one task:
/// it keeps the records, carries out the library's orders on plain balances,
/// and saves records only when a call went through.
struct Desk {
    now: i64,
    task: Task,
    task_key: Identity,
    members: HashMap<Identity, Member>,
    escrow: u64,
    wallets: HashMap<Identity, u64>,
}

fn id(byte: u8) -> Identity {
    Identity::new([byte; 32])
}

fn charity() -> Identity {
    id(99)
}

impl Desk {
    /// A task created at time 1000 by participant 1: join window until
    /// 1010, deadline 1020.
    fn open(stake: u64, required_members: u8) -> Desk {
        let task = create_task_at(
            id(1),
            stake,
            required_members,
            1010,
            1020,
            charity(),
            String::from("bafy-description"),
            String::from("read-a-book"),
            255,
            254,
            1000,
        )
        .unwrap();
        Desk {
            now: 1000,
            task,
            task_key: id(100),
            members: HashMap::new(),
            escrow: 0,
            wallets: HashMap::new(),
        }
    }

    fn fund(&mut self, who: Identity, amount: u64) {
        *self.wallets.entry(who).or_insert(0) += amount;
    }

    fn wallet(&self, who: Identity) -> u64 {
        self.wallets.get(&who).copied().unwrap_or(0)
    }

    fn authorized(&self, order: &Transfer) -> bool {
        match (&order.from, &order.authority) {
            (Balance::Wallet(owner), Authority::Owner(signer)) => owner == signer,
            (Balance::Escrow, Authority::Task(seeds)) => *seeds == self.task.signer_seeds(),
            _ => false,
        }
    }

    fn settle(&mut self, order: &Transfer) -> Settlement {
        if !self.authorized(order) {
            return Err(SettlementError::Unauthorized);
        }
        let available = match order.from {
            Balance::Escrow => self.escrow,
            Balance::Wallet(owner) => self.wallet(owner),
        };
        if available < order.amount {
            return Err(SettlementError::InsufficientFunds);
        }
        match order.from {
            Balance::Escrow => self.escrow -= order.amount,
            Balance::Wallet(owner) => *self.wallets.get_mut(&owner).unwrap() -= order.amount,
        }
        match order.to {
            Balance::Escrow => self.escrow += order.amount,
            Balance::Wallet(owner) => self.fund(owner, order.amount),
        }
        Ok(())
    }

    fn join(&mut self, caller: Identity) -> Result<(), Refused> {
        if self.members.contains_key(&caller) {
            return Err(Refused::RecordExists);
        }
        let (mut member, order) = join_and_deposit_at(
            &self.task,
            self.task_key,
            caller,
            String::from("email-hash"),
            7,
            self.now,
        )
        .map_err(Refused::Rule)?;
        let settlement = self.settle(&order);
        let mut task = self.task.clone();
        deposit_settled(&mut task, &mut member, settlement).map_err(Refused::Settlement)?;
        self.task = task;
        self.members.insert(caller, member);
        Ok(())
    }

    fn submit_proof(&mut self, caller: Identity, proof_cid: &str) -> Result<(), Refused> {
        let member = self.members.get_mut(&caller).ok_or(Refused::NoRecord)?;
        submit_proof(&self.task, member, String::from(proof_cid)).map_err(Refused::Rule)
    }

    fn vote(&mut self, caller: Identity, vote_yes: bool) -> Result<(), Refused> {
        let member = self.members.get_mut(&caller).ok_or(Refused::NoRecord)?;
        vote_at(&mut self.task, member, vote_yes, self.now).map_err(Refused::Rule)
    }

    fn finalize(&mut self) -> Result<Outcome, Refused> {
        let mut task = self.task.clone();
        match finalize_at(&mut task, self.now).map_err(Refused::Rule)? {
            Finalization::Refund => {
                self.task = task;
                Ok(Outcome::Refund)
            }
            Finalization::Donate(order) => {
                let settlement = self.settle(&order);
                donation_settled(&mut task, settlement).map_err(Refused::Settlement)?;
                self.task = task;
                Ok(Outcome::Donate)
            }
        }
    }

    fn claim_refund(&mut self, caller: Identity) -> Result<(), Refused> {
        let mut member = self.members.get(&caller).ok_or(Refused::NoRecord)?.clone();
        let order = claim_refund(&self.task, &member).map_err(Refused::Rule)?;
        let settlement = self.settle(&order);
        refund_settled(&mut member, settlement).map_err(Refused::Settlement)?;
        self.members.insert(caller, member);
        Ok(())
    }

    fn deposited_members(&self) -> u64 {
        self.members.values().filter(|member| member.deposited).count() as u64
    }

    /// What holds at every moment before funds leave escrow.
    fn check_books(&self) {
        assert_eq!(
            self.task.total_deposited,
            self.deposited_members() * self.task.stake_per_member
        );
        assert_eq!(self.escrow, self.task.total_deposited);
        assert_eq!(self.task.member_count as usize, self.members.len());
        assert!(self.task.member_count <= self.task.required_members);
        assert!(self.task.yes_votes + self.task.no_votes <= self.task.member_count);
    }

    /// Opens a task for `yes + no` members with a stake of 100, lets them
    /// all join and vote as asked, and stops after the deadline.
    fn voted(yes: u8, no: u8) -> Desk {
        let mut desk = Desk::open(100, yes + no);
        for member in 0..yes + no {
            desk.fund(id(member + 1), 100);
            desk.join(id(member + 1)).unwrap();
        }
        desk.now = 1021;
        for member in 0..yes + no {
            desk.vote(id(member + 1), member < yes).unwrap();
        }
        assert_eq!((desk.task.yes_votes, desk.task.no_votes), (yes, no));
        desk.check_books();
        desk
    }
}

#[test]
fn two_members_succeed_and_take_their_stakes_back() {
    let mut desk = Desk::open(100, 2);
    assert_eq!(desk.task.join_window_timestamp, desk.now + 10);
    assert_eq!(desk.task.deadline_timestamp, desk.now + 20);
    desk.fund(id(1), 150);
    desk.fund(id(2), 100);

    desk.now = 1003;
    assert_eq!(desk.join(id(1)), Ok(()));
    desk.check_books();
    assert_eq!(desk.join(id(2)), Ok(()));
    desk.check_books();
    assert_eq!(desk.task.total_deposited, 200);
    assert_eq!(desk.task.member_count, 2);
    assert_eq!(desk.escrow, 200);
    assert_eq!((desk.wallet(id(1)), desk.wallet(id(2))), (50, 0));

    assert_eq!(desk.submit_proof(id(1), "bafy-proof"), Ok(()));
    assert_eq!(desk.members[&id(1)].proof_cid, "bafy-proof");

    desk.now = 1021;
    assert_eq!(desk.vote(id(1), true), Ok(()));
    assert_eq!(desk.vote(id(2), true), Ok(()));
    assert_eq!((desk.task.yes_votes, desk.task.no_votes), (2, 0));
    desk.check_books();

    assert_eq!(desk.finalize(), Ok(Outcome::Refund));
    assert!(desk.task.finalized);
    assert_eq!(desk.escrow, 200);

    assert_eq!(desk.claim_refund(id(1)), Ok(()));
    assert_eq!(desk.escrow, 100);
    assert_eq!(desk.claim_refund(id(2)), Ok(()));
    assert_eq!((desk.wallet(id(1)), desk.wallet(id(2))), (150, 100));
    assert_eq!(desk.escrow, 0);
    assert_eq!(desk.wallet(charity()), 0);
}

#[test]
fn tie_of_two_against_two_donates() {
    let mut desk = Desk::voted(2, 2);
    assert_eq!(desk.finalize(), Ok(Outcome::Donate));
}

#[test]
fn three_against_one_refunds() {
    let mut desk = Desk::voted(3, 1);
    assert_eq!(desk.finalize(), Ok(Outcome::Refund));
}

#[test]
fn tie_of_one_against_one_donates() {
    let mut desk = Desk::voted(1, 1);
    assert_eq!(desk.finalize(), Ok(Outcome::Donate));
}

#[test]
fn a_lead_of_one_vote_donates() {
    let mut desk = Desk::voted(2, 1);
    assert_eq!(desk.finalize(), Ok(Outcome::Donate));
    let mut alone = Desk::voted(1, 0);
    assert_eq!(alone.finalize(), Ok(Outcome::Donate));
}

#[test]
fn donation_empties_escrow_into_the_charity() {
    let mut desk = Desk::voted(2, 2);
    desk.fund(charity(), 5);
    let deposited = desk.task.total_deposited;
    assert_eq!(deposited, 400);
    assert_eq!(desk.escrow, 400);
    assert_eq!(desk.finalize(), Ok(Outcome::Donate));
    assert_eq!(desk.escrow, 0);
    assert_eq!(desk.wallet(charity()), 5 + deposited);
    assert!(desk.task.finalized);
    // The members get nothing back.
    for member in 1..=4 {
        assert_eq!(
            desk.claim_refund(id(member)),
            Err(Refused::Rule(ErrorCode::NoRefundAvailable))
        );
        assert_eq!(desk.wallet(id(member)), 0);
    }
}

#[test]
fn finalize_twice_moves_funds_once() {
    let mut desk = Desk::voted(1, 1);
    assert_eq!(desk.finalize(), Ok(Outcome::Donate));
    assert_eq!(desk.wallet(charity()), 200);
    // Even if escrow were filled again, nothing more would leave it.
    desk.escrow = 200;
    assert_eq!(desk.finalize(), Err(Refused::Rule(ErrorCode::AlreadyFinalized)));
    desk.now = 5000;
    assert_eq!(desk.finalize(), Err(Refused::Rule(ErrorCode::AlreadyFinalized)));
    assert_eq!(desk.wallet(charity()), 200);
    assert_eq!(desk.escrow, 200);

    let mut refunding = Desk::voted(2, 0);
    assert_eq!(refunding.finalize(), Ok(Outcome::Refund));
    assert_eq!(
        refunding.finalize(),
        Err(Refused::Rule(ErrorCode::AlreadyFinalized))
    );
    assert_eq!(refunding.escrow, 200);
}

#[test]
fn each_member_claims_once() {
    let mut desk = Desk::voted(3, 1);
    assert_eq!(desk.finalize(), Ok(Outcome::Refund));
    for member in 1..=4 {
        assert_eq!(desk.claim_refund(id(member)), Ok(()));
        assert_eq!(desk.wallet(id(member)), 100);
        assert_eq!(
            desk.claim_refund(id(member)),
            Err(Refused::Rule(ErrorCode::MemberNotDeposited))
        );
        assert_eq!(desk.wallet(id(member)), 100);
        assert_eq!(desk.escrow, 400 - 100 * member as u64);
    }
    assert_eq!(desk.escrow, 0);
    assert_eq!(desk.task.total_deposited, 400);
}

#[test]
fn failed_donation_leaves_the_task_open() {
    let mut desk = Desk::voted(1, 1);
    // Escrow was drained behind the task's back.
    desk.escrow = 50;
    assert_eq!(
        desk.finalize(),
        Err(Refused::Settlement(SettlementError::InsufficientFunds))
    );
    assert!(!desk.task.finalized);
    assert_eq!(desk.wallet(charity()), 0);
    desk.escrow = 200;
    assert_eq!(desk.finalize(), Ok(Outcome::Donate));
    assert_eq!(desk.wallet(charity()), 200);
}

#[test]
fn full_task_takes_no_one_in_any_order() {
    for order in [[1u8, 2, 3], [3, 2, 1], [2, 3, 1]] {
        let mut desk = Desk::open(100, 2);
        for who in order {
            desk.fund(id(who), 100);
        }
        assert_eq!(desk.join(id(order[0])), Ok(()));
        assert_eq!(desk.join(id(order[1])), Ok(()));
        assert_eq!(desk.task.member_count, desk.task.required_members);
        assert_eq!(
            desk.join(id(order[2])),
            Err(Refused::Rule(ErrorCode::TaskFull))
        );
        assert_eq!(desk.wallet(id(order[2])), 100);
        desk.check_books();
    }
}

#[test]
fn a_caller_joins_once() {
    let mut desk = Desk::open(100, 3);
    desk.fund(id(1), 300);
    assert_eq!(desk.join(id(1)), Ok(()));
    assert_eq!(desk.join(id(1)), Err(Refused::RecordExists));
    desk.now = 1010;
    assert_eq!(desk.join(id(1)), Err(Refused::RecordExists));
    assert_eq!(desk.task.member_count, 1);
    assert_eq!(desk.wallet(id(1)), 200);
    desk.check_books();
}

#[test]
fn join_without_funds_changes_nothing() {
    let mut desk = Desk::open(100, 2);
    desk.fund(id(1), 99);
    assert_eq!(
        desk.join(id(1)),
        Err(Refused::Settlement(SettlementError::InsufficientFunds))
    );
    assert!(desk.members.is_empty());
    assert_eq!(desk.task.member_count, 0);
    assert_eq!(desk.task.total_deposited, 0);
    assert_eq!(desk.wallet(id(1)), 99);
    assert_eq!(desk.escrow, 0);
    // With the funds the same caller can still join.
    desk.fund(id(1), 1);
    assert_eq!(desk.join(id(1)), Ok(()));
    desk.check_books();
}

#[test]
fn vote_before_the_deadline_is_refused() {
    let mut desk = Desk::open(100, 2);
    desk.fund(id(1), 100);
    desk.join(id(1)).unwrap();
    for now in [1005, 1010, 1019, 1020] {
        desk.now = now;
        assert_eq!(
            desk.vote(id(1), true),
            Err(Refused::Rule(ErrorCode::DeadlineNotReached))
        );
    }
    desk.check_books();
}

#[test]
fn vote_without_a_record_or_a_deposit_is_refused() {
    let mut desk = Desk::open(100, 2);
    desk.fund(id(1), 100);
    desk.join(id(1)).unwrap();
    desk.now = 1021;
    assert_eq!(desk.vote(id(2), true), Err(Refused::NoRecord));
    let (mut unfunded, _) =
        join_and_deposit_at(&desk.task, desk.task_key, id(2), String::new(), 0, 1005).unwrap();
    let mut task = desk.task.clone();
    assert_eq!(
        vote_at(&mut task, &mut unfunded, true, 1021),
        Err(ErrorCode::MemberNotDeposited)
    );
    assert_eq!(task, desk.task);
}

#[test]
fn finalize_on_a_partial_tally_is_refused() {
    let mut desk = Desk::open(100, 3);
    for who in 1..=3 {
        desk.fund(id(who), 100);
        desk.join(id(who)).unwrap();
    }
    desk.now = 1021;
    assert_eq!(
        desk.finalize(),
        Err(Refused::Rule(ErrorCode::NotAllMembersVoted))
    );
    desk.vote(id(1), true).unwrap();
    assert_eq!(
        desk.finalize(),
        Err(Refused::Rule(ErrorCode::NotAllMembersVoted))
    );
    desk.vote(id(2), true).unwrap();
    assert_eq!(
        desk.finalize(),
        Err(Refused::Rule(ErrorCode::NotAllMembersVoted))
    );
    desk.vote(id(3), true).unwrap();
    assert_eq!(desk.finalize(), Ok(Outcome::Refund));
}

#[test]
fn books_balance_through_a_whole_run() {
    let mut desk = Desk::open(250, 5);
    desk.check_books();
    for who in 1..=5 {
        desk.fund(id(who), 1000);
        desk.now = 1000 + who as i64;
        desk.join(id(who)).unwrap();
        desk.check_books();
        assert_eq!(desk.task.total_deposited, 250 * who as u64);
    }
    desk.now = 1030;
    for who in 1..=5 {
        desk.vote(id(who), who != 3).unwrap();
        desk.check_books();
    }
    assert_eq!(desk.finalize(), Ok(Outcome::Refund));
    desk.check_books();
    let mut paid_back = 0;
    for who in [4u8, 1, 5] {
        desk.claim_refund(id(who)).unwrap();
        paid_back += 250;
        assert_eq!(desk.escrow + paid_back, desk.task.total_deposited);
        assert_eq!(desk.escrow, desk.deposited_members() * 250);
    }
    assert_eq!(desk.escrow, 500);
}

#[test]
fn forged_orders_are_not_what_the_library_issues() {
    let mut desk = Desk::voted(2, 0);
    assert_eq!(desk.finalize(), Ok(Outcome::Refund));
    let order = claim_refund(&desk.task, &desk.members[&id(1)]).unwrap();
    assert!(desk.authorized(&order));
    let forged = Transfer { authority: Authority::Owner(id(1)), ..order };
    assert!(!desk.authorized(&forged));
    assert_eq!(desk.settle(&forged), Err(SettlementError::Unauthorized));
}
