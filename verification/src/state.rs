use crate::checkpoints::{
    bit_is_set, confined_below, count_verified, is_confined_below, lemma_popcount_confined,
    popcount, verified_set,
};
use crate::identity::Identity;
use vstd::prelude::*;

verus! {

/// Longest task identifier, in bytes.
pub const MAX_TASK_ID_LEN: usize = 64;

/// Largest number of checkpoints that a task may have.
pub const MAX_CHECKPOINTS: u8 = 10;

/// Where a task stands in its lifecycle.
#[derive(Clone, Copy, Debug, PartialEq, Eq, Structural)]
pub enum TaskStatus {
    /// Funded and waiting for a human.
    Open,
    /// Taken by a human; checkpoints are being verified.
    Claimed,
    /// All checkpoints verified and the escrow released to the human.
    Completed,
    /// Refunded to the agent. No stored record is in this state, because
    /// cancellation removes the record.
    Cancelled,
}

impl TaskStatus {
    /// The number under which the status is persisted.
    pub open spec fn code(self) -> u8 {
        match self {
            TaskStatus::Open => 0,
            TaskStatus::Claimed => 1,
            TaskStatus::Completed => 2,
            TaskStatus::Cancelled => 3,
        }
    }

    /// Neither release nor refund has happened yet: the escrow is still held.
    pub open spec fn is_live(self) -> bool {
        self == TaskStatus::Open || self == TaskStatus::Claimed
    }

    /// The lifecycle permits a task in state `self` to move to `next`.
    pub open spec fn advances_to(self, next: TaskStatus) -> bool {
        match (self, next) {
            (TaskStatus::Open, TaskStatus::Claimed) => true,
            (TaskStatus::Open, TaskStatus::Cancelled) => true,
            (TaskStatus::Claimed, TaskStatus::Completed) => true,
            (TaskStatus::Claimed, TaskStatus::Cancelled) => true,
            _ => false,
        }
    }

    /// The number under which the status is persisted.
    pub fn to_u8(self) -> (r: u8)
        ensures
            r == self.code(),
    {
        match self {
            TaskStatus::Open => 0,
            TaskStatus::Claimed => 1,
            TaskStatus::Completed => 2,
            TaskStatus::Cancelled => 3,
        }
    }

    /// The status persisted as `code`, if there is one.
    pub fn from_u8(code: u8) -> (r: Option<TaskStatus>)
        ensures
            code <= 3 ==> r is Some && r->0.code() == code,
            code > 3 ==> r is None,
    {
        if code == 0 {
            Some(TaskStatus::Open)
        } else if code == 1 {
            Some(TaskStatus::Claimed)
        } else if code == 2 {
            Some(TaskStatus::Completed)
        } else if code == 3 {
            Some(TaskStatus::Cancelled)
        } else {
            None
        }
    }
}

/// The singleton configuration.
#[derive(Clone, Copy, Debug, PartialEq, Eq)]
pub struct Config {
    /// The party that verifies checkpoints and authorizes release.
    pub authority: Identity,
    /// Fee in basis points. Reserved: no operation reads it.
    pub fee_bps: u16,
    /// How many tasks were ever created.
    pub task_count: u64,
}

/// An account of a party: whose it is, and the value it holds.
#[derive(Clone, Copy, Debug, PartialEq, Eq)]
pub struct Wallet {
    /// Whose account it is.
    pub key: Identity,
    /// The value it holds.
    pub balance: u64,
}

/// The record of one task.
#[derive(Clone, Debug, PartialEq, Eq)]
pub struct TaskEscrow {
    /// The task's identifier, fixed at creation.
    pub task_id: String,
    /// The party that funded the task.
    pub agent: Identity,
    /// The party that claimed the task; `None` until someone has.
    pub human: Option<Identity>,
    /// The value held in escrow for the task.
    pub escrow_amount: u64,
    /// Where the task stands in its lifecycle.
    pub status: TaskStatus,
    /// How many checkpoints the task has.
    pub checkpoint_count: u8,
    /// How many of them are verified.
    pub checkpoints_verified: u8,
    /// Bit `i` is set exactly when checkpoint `i` is verified.
    pub verified_bitmap: u16,
    /// Digest supplied at completion; all zero before.
    pub verification_hash: [u8; 32],
    /// When the task was created.
    pub created_at: i64,
    /// When the task was completed; zero before.
    pub completed_at: i64,
}

/// The length in bytes of a task identifier.
pub open spec fn task_id_len(task_id: Seq<char>) -> nat {
    vstd::utf8::encode_utf8(task_id).len()
}

/// The hash of a task that is not completed: 32 zero bytes.
pub open spec fn zero_hash() -> [u8; 32] {
    vstd::array::spec_array_fill_for_copy_type::<u8, 32>(0u8)
}

/// All 32 bytes of `hash` are zero.
pub open spec fn is_zero_hash(hash: [u8; 32]) -> bool {
    forall|i: int| 0 <= i < 32 ==> hash@[i] == 0
}

impl TaskEscrow {
    /// What holds of every stored record, whatever operations led to it.
    pub open spec fn wf(&self) -> bool {
        &&& task_id_len(self.task_id@) <= MAX_TASK_ID_LEN
        &&& self.checkpoint_count <= MAX_CHECKPOINTS
        &&& self.checkpoints_verified <= self.checkpoint_count
        &&& self.checkpoints_verified == popcount(self.verified_bitmap)
        &&& confined_below(self.verified_bitmap, self.checkpoint_count)
        &&& (self.human is None <==> self.status == TaskStatus::Open)
        &&& (self.status.is_live() ==> self.escrow_amount > 0)
        &&& (self.status == TaskStatus::Completed ==> self.escrow_amount == 0)
        &&& (self.status.is_live() ==> self.completed_at == 0 && is_zero_hash(
            self.verification_hash,
        ))
        &&& self.status != TaskStatus::Cancelled
    }

    /// Checkpoint `index` of the task is verified.
    pub open spec fn checkpoint_verified(&self, index: u8) -> bool {
        bit_is_set(self.verified_bitmap, index)
    }

    /// The checkpoints of the task that are verified, by index.
    pub open spec fn verified_checkpoints(&self) -> Set<u8> {
        verified_set(self.verified_bitmap)
    }

    /// As many checkpoints are counted as verified as the task has.
    pub open spec fn fully_verified(&self) -> bool {
        self.checkpoints_verified >= self.checkpoint_count
    }

    /// Whether the record is well formed.
    pub fn is_well_formed(&self) -> (r: bool)
        ensures
            r == self.wf(),
    {
        let live: bool = self.status == TaskStatus::Open || self.status == TaskStatus::Claimed;
        let unclaimed: bool = self.human.is_none();
        let open: bool = self.status == TaskStatus::Open;
        if self.task_id.as_str().as_bytes().len() > MAX_TASK_ID_LEN {
            return false;
        }
        if self.checkpoint_count > MAX_CHECKPOINTS {
            return false;
        }
        if self.checkpoints_verified != count_verified(self.verified_bitmap) {
            return false;
        }
        if !is_confined_below(self.verified_bitmap, self.checkpoint_count) {
            return false;
        }
        proof {
            lemma_popcount_confined(self.verified_bitmap, self.checkpoint_count);
        }
        if unclaimed != open {
            return false;
        }
        if live && self.escrow_amount == 0 {
            return false;
        }
        if self.status == TaskStatus::Completed && self.escrow_amount != 0 {
            return false;
        }
        if live && (self.completed_at != 0 || !hash_is_zero(&self.verification_hash)) {
            return false;
        }
        self.status != TaskStatus::Cancelled
    }
}

/// Whether all 32 bytes of `hash` are zero.
pub fn hash_is_zero(hash: &[u8; 32]) -> (r: bool)
    ensures
        r == is_zero_hash(*hash),
{
    let mut i: usize = 0;
    while i < 32
        invariant
            i <= 32,
            forall|j: int| 0 <= j < i ==> hash@[j] == 0,
        decreases 32 - i,
    {
        if hash[i] != 0 {
            return false;
        }
        i = i + 1;
    }
    true
}

} // verus!
