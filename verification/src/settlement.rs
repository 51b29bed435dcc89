use crate::error::SettlementError;
use crate::identity::Identity;
use crate::state::{Task, TaskView};
use crate::text::stored_bytes;
use vstd::prelude::*;
use vstd::string::StrSliceExecFns;

verus! {

/// A balance that a transfer draws on or pays into.
#[derive(Clone, Copy, Debug, PartialEq, Eq)]
pub enum Balance {
    /// The task's own custodial balance, which holds the stakes.
    Escrow,
    /// The balance that the given identity owns.
    Wallet(Identity),
}

/// Who authorizes a transfer.
#[derive(Clone, Debug, PartialEq, Eq)]
pub enum Authority {
    /// The owner of the paying balance, who signed the call.
    Owner(Identity),
    /// The task itself, for payments out of its escrow. The token is derived
    /// from the task's name and is valid for that task's escrow only.
    Task(Vec<Vec<u8>>),
}

/// The byte strings that a list of seeds holds.
pub open spec fn seeds_view(seeds: Seq<Vec<u8>>) -> Seq<Seq<u8>> {
    Seq::new(seeds.len(), |i: int| seeds[i]@)
}

/// An authority as a mathematical value.
pub enum AuthorityView {
    Owner(Identity),
    Task(Seq<Seq<u8>>),
}

impl View for Authority {
    type V = AuthorityView;

    open spec fn view(&self) -> AuthorityView {
        match self {
            Authority::Owner(owner) => AuthorityView::Owner(*owner),
            Authority::Task(seeds) => AuthorityView::Task(seeds_view(seeds@)),
        }
    }
}

/// An order to the settlement layer: move `amount` units from one balance to
/// another. The library only issues orders; the caller has them carried out
/// and reports how that went.
#[derive(Clone, Debug, PartialEq, Eq)]
pub struct Transfer {
    pub from: Balance,
    pub to: Balance,
    pub amount: u64,
    pub authority: Authority,
}

/// A transfer order as a mathematical value.
pub struct TransferView {
    pub from: Balance,
    pub to: Balance,
    pub amount: nat,
    pub authority: AuthorityView,
}

impl View for Transfer {
    type V = TransferView;

    open spec fn view(&self) -> TransferView {
        TransferView {
            from: self.from,
            to: self.to,
            amount: self.amount as nat,
            authority: self.authority@,
        }
    }
}

/// What the settlement layer reported of an order.
pub type Settlement = Result<(), SettlementError>;

/// The token by which a task authorizes payments out of its escrow: the word
/// "task", the task's name, and the derivation byte of its address.
pub open spec fn task_authority(task: TaskView) -> Seq<Seq<u8>> {
    seq![stored_bytes("task"@), stored_bytes(task.task_id), seq![task.bump]]
}

/// The word that opens every task's token, byte by byte.
pub proof fn lemma_task_tag()
    ensures
        stored_bytes("task"@) == seq![0x74u8, 0x61u8, 0x73u8, 0x6bu8],
{
    reveal_strlit("task");
    vstd::utf8::is_ascii_chars_encode_utf8("task"@);
    assert(stored_bytes("task"@) =~= seq![0x74u8, 0x61u8, 0x73u8, 0x6bu8]);
}

impl Task {
    /// The token by which the task authorizes payments out of its escrow.
    pub fn signer_seeds(&self) -> (seeds: Vec<Vec<u8>>)
        ensures
            seeds_view(seeds@) == task_authority(self@),
    {
        let mut seeds: Vec<Vec<u8>> = Vec::new();
        seeds.push("task".as_bytes_vec());
        seeds.push(self.task_id.as_str().as_bytes_vec());
        seeds.push(vec![self.bump]);
        assert(seeds_view(seeds@)[2] =~= seq![self.bump]);
        seeds
    }
}

} // verus!
