use crate::checkpoints::lemma_empty_bitmap;
use crate::clock::unix_timestamp;
use crate::custody::{are_on_one_ledger, on_one_ledger, transfer};
use crate::error::{outcome, Failure, VHError};
use crate::state::{
    task_id_len, zero_hash, Config, TaskEscrow, TaskStatus, Wallet, MAX_CHECKPOINTS,
    MAX_TASK_ID_LEN,
};
use vstd::prelude::*;

verus! {

/// What the creation of a task works on.
#[derive(Clone, Debug, PartialEq, Eq)]
pub struct CreateTask {
    /// The stored configuration.
    pub config: Config,
    /// The record stored under the new task's identifier: none yet.
    pub escrow: Option<TaskEscrow>,
    /// The value held in custody under that identifier.
    pub custody: u64,
    /// The caller, who funds the task.
    pub agent: Wallet,
}

impl CreateTask {
    /// Why the creation is refused, if it is. The checks are made in this
    /// order, and the first that fails decides.
    pub open spec fn rejection(
        self,
        task_id: Seq<char>,
        checkpoint_count: u8,
        escrow_amount: u64,
    ) -> Option<VHError> {
        if task_id_len(task_id) > MAX_TASK_ID_LEN {
            Some(VHError::TaskIdTooLong)
        } else if escrow_amount == 0 {
            Some(VHError::ZeroEscrow)
        } else if checkpoint_count > MAX_CHECKPOINTS {
            Some(VHError::CheckpointOutOfBounds)
        } else if self.config.task_count == u64::MAX {
            Some(VHError::Overflow)
        } else {
            None
        }
    }

    /// The context is well formed: the agent's account and custody are of
    /// one ledger.
    pub open spec fn wf(self) -> bool {
        on_one_ledger(self.agent.balance, self.custody)
    }

    /// The agent holds `escrow_amount`.
    pub open spec fn fundable(self, escrow_amount: u64) -> bool {
        self.agent.balance >= escrow_amount
    }

    /// The record of a task just created.
    pub open spec fn new_task(
        self,
        task_id: String,
        checkpoint_count: u8,
        escrow_amount: u64,
        now: i64,
    ) -> TaskEscrow {
        TaskEscrow {
            task_id,
            agent: self.agent.key,
            human: None,
            escrow_amount,
            status: TaskStatus::Open,
            checkpoint_count,
            checkpoints_verified: 0,
            verified_bitmap: 0,
            verification_hash: zero_hash(),
            created_at: now,
            completed_at: 0,
        }
    }

    /// The state after an accepted creation.
    pub open spec fn applied(
        self,
        task_id: String,
        checkpoint_count: u8,
        escrow_amount: u64,
        now: i64,
    ) -> CreateTask {
        CreateTask {
            config: Config { task_count: (self.config.task_count + 1) as u64, ..self.config },
            escrow: Some(self.new_task(task_id, checkpoint_count, escrow_amount, now)),
            custody: (self.custody + escrow_amount) as u64,
            agent: Wallet { balance: (self.agent.balance - escrow_amount) as u64, ..self.agent },
        }
    }

    /// Whether the context is well formed.
    pub fn is_well_formed(&self) -> (r: bool)
        ensures
            r == self.wf(),
    {
        are_on_one_ledger(self.agent.balance, self.custody)
    }

    /// Whether the agent holds `escrow_amount`.
    pub fn is_fundable(&self, escrow_amount: u64) -> (r: bool)
        ensures
            r == self.fundable(escrow_amount),
    {
        self.agent.balance >= escrow_amount
    }

    /// Makes the checks of a creation, changing nothing.
    pub fn check(&self, task_id: &String, checkpoint_count: u8, escrow_amount: u64) -> (r: Result<
        (),
        VHError,
    >)
        ensures
            r == outcome(self.rejection(task_id@, checkpoint_count, escrow_amount)),
    {
        if task_id.as_str().as_bytes().len() > MAX_TASK_ID_LEN {
            Err(VHError::TaskIdTooLong)
        } else if escrow_amount == 0 {
            Err(VHError::ZeroEscrow)
        } else if checkpoint_count > MAX_CHECKPOINTS {
            Err(VHError::CheckpointOutOfBounds)
        } else if self.config.task_count == u64::MAX {
            Err(VHError::Overflow)
        } else {
            Ok(())
        }
    }
}

/// Creates a task at the time that the runtime tells. The checks come
/// first: a creation that they refuse is refused whatever the time. One that
/// they accept takes place as [`handler_at`] says, at the time read, unless
/// the runtime tells none. A creation that does not take place changes
/// nothing.
pub fn handler(
    ctx: &mut CreateTask,
    task_id: String,
    checkpoint_count: u8,
    escrow_amount: u64,
) -> (r: Result<(), Failure>)
    requires
        old(ctx).escrow is None,
        old(ctx).rejection(task_id@, checkpoint_count, escrow_amount) is None ==> old(ctx).wf()
            && old(ctx).fundable(escrow_amount),
    ensures
        old(ctx).rejection(task_id@, checkpoint_count, escrow_amount) matches Some(error) ==> r
            == Err::<(), Failure>(Failure::Refused(error)),
        old(ctx).rejection(task_id@, checkpoint_count, escrow_amount) is None ==> r is Ok
            || r matches Err(Failure::Clock(_)),
        r is Err ==> *final(ctx) == *old(ctx),
        r is Ok ==> (final(ctx).escrow matches Some(task) && *final(ctx) == old(ctx).applied(
            task_id,
            checkpoint_count,
            escrow_amount,
            task.created_at,
        )),
        r is Ok ==> (final(ctx).escrow matches Some(task) && task.status == TaskStatus::Open
            && task.escrow_amount == escrow_amount && task.human is None
            && task.checkpoints_verified == 0 && task.verified_checkpoints() == Set::<u8>::empty()
            && task.wf()),
        r is Ok ==> final(ctx).custody == old(ctx).custody + escrow_amount,
        r is Ok ==> final(ctx).custody + final(ctx).agent.balance == old(ctx).custody + old(
            ctx,
        ).agent.balance,
{
    match ctx.check(&task_id, checkpoint_count, escrow_amount) {
        Err(error) => {
            return Err(Failure::Refused(error));
        },
        Ok(()) => {},
    }
    let now: i64 = match unix_timestamp() {
        Ok(now) => now,
        Err(error) => {
            return Err(Failure::Clock(error));
        },
    };
    match handler_at(ctx, task_id, checkpoint_count, escrow_amount, now) {
        Ok(()) => Ok(()),
        Err(error) => Err(Failure::Refused(error)),
    }
}

/// Creates a task at the time `now`: moves `escrow_amount` from the agent
/// into custody, stores the new record, open and unclaimed, and counts the
/// task. A refused creation changes nothing.
pub fn handler_at(
    ctx: &mut CreateTask,
    task_id: String,
    checkpoint_count: u8,
    escrow_amount: u64,
    now: i64,
) -> (r: Result<(), VHError>)
    requires
        old(ctx).escrow is None,
        old(ctx).rejection(task_id@, checkpoint_count, escrow_amount) is None ==> old(ctx).wf()
            && old(ctx).fundable(escrow_amount),
    ensures
        r == outcome(old(ctx).rejection(task_id@, checkpoint_count, escrow_amount)),
        r is Ok ==> *final(ctx) == old(ctx).applied(task_id, checkpoint_count, escrow_amount, now),
        r is Err ==> *final(ctx) == *old(ctx),
        r is Ok ==> (final(ctx).escrow matches Some(task) && task.status == TaskStatus::Open
            && task.escrow_amount == escrow_amount && task.human is None
            && task.checkpoints_verified == 0 && task.verified_checkpoints() == Set::<u8>::empty()
            && task.wf()),
        r is Ok ==> final(ctx).custody == old(ctx).custody + escrow_amount,
        r is Ok ==> final(ctx).custody + final(ctx).agent.balance == old(ctx).custody + old(
            ctx,
        ).agent.balance,
{
    ctx.check(&task_id, checkpoint_count, escrow_amount)?;
    let task = TaskEscrow {
        task_id,
        agent: ctx.agent.key,
        human: None,
        escrow_amount,
        status: TaskStatus::Open,
        checkpoint_count,
        checkpoints_verified: 0,
        verified_bitmap: 0,
        verification_hash: [0u8;32],
        created_at: now,
        completed_at: 0,
    };
    proof {
        lemma_empty_bitmap();
        assert(task.verified_checkpoints() =~= Set::<u8>::empty());
    }
    let (agent_balance, custody) = transfer(ctx.agent.balance, ctx.custody, escrow_amount);
    ctx.agent.balance = agent_balance;
    ctx.custody = custody;
    ctx.escrow = Some(task);
    ctx.config.task_count = ctx.config.task_count + 1;
    Ok(())
}

} // verus!
