//! An escrow for tasks that a human performs checkpoint by checkpoint.
//!
//! An agent funds a task, a human claims it, the authority verifies its
//! checkpoints one by one and then releases the escrow to the human; until
//! then the authority or the agent may cancel the task, which refunds the
//! agent. Each operation works on a context that holds the records and
//! balances it reads and writes, and either applies all of its effect to
//! that context or refuses and leaves it as it was. Creation and completion
//! record when they took place: they read the time from the runtime, or
//! take it as an argument.

pub mod auth;
pub mod checkpoints;
pub mod clock;
pub mod custody;
pub mod error;
pub mod identity;
pub mod instructions;
pub mod laws;
pub mod state;

use crate::error::{outcome, Failure, VHError};
use crate::instructions::{
    CancelAndRefund, ClaimTask, CompleteAndRelease, CreateTask, Initialize, VerifyCheckpoint,
};
use crate::state::{Config, TaskStatus, MAX_CHECKPOINTS};
use vstd::prelude::*;

verus! {

/// Creates the configuration, with the caller as its authority.
pub fn initialize(ctx: &mut Initialize, fee_bps: u16) -> (r: Result<(), VHError>)
    requires
        old(ctx).config is None,
    ensures
        r is Ok,
        final(ctx).config == Some(
            (Config { authority: old(ctx).authority, fee_bps: fee_bps, task_count: 0 }),
        ),
        final(ctx).authority == old(ctx).authority,
{
    instructions::initialize::handler(ctx, fee_bps)
}

/// The agent creates a task and puts `escrow_amount` into custody for it,
/// at the time that the runtime tells.
pub fn create_task(
    ctx: &mut CreateTask,
    task_id: String,
    checkpoint_count: u8,
    escrow_amount: u64,
) -> (r: Result<(), Failure>)
    requires
        old(ctx).escrow is None,
        old(ctx).rejection(task_id@, checkpoint_count, escrow_amount) is None ==> old(ctx).wf()
            && old(ctx).fundable(escrow_amount),
    ensures
        old(ctx).rejection(task_id@, checkpoint_count, escrow_amount) matches Some(error) ==> r
            == Err::<(), Failure>(Failure::Refused(error)),
        old(ctx).rejection(task_id@, checkpoint_count, escrow_amount) is None ==> r is Ok
            || r matches Err(Failure::Clock(_)),
        r is Err ==> *final(ctx) == *old(ctx),
        r is Ok ==> (final(ctx).escrow matches Some(task) && *final(ctx) == old(ctx).applied(
            task_id,
            checkpoint_count,
            escrow_amount,
            task.created_at,
        )),
        r is Ok ==> (final(ctx).escrow matches Some(task) && task.status == TaskStatus::Open
            && task.escrow_amount == escrow_amount && task.human is None
            && task.checkpoints_verified == 0 && task.verified_checkpoints() == Set::<u8>::empty()
            && task.wf()),
        r is Ok ==> final(ctx).custody == old(ctx).custody + escrow_amount,
        r is Ok ==> final(ctx).custody + final(ctx).agent.balance == old(ctx).custody + old(
            ctx,
        ).agent.balance,
{
    instructions::create_task::handler(ctx, task_id, checkpoint_count, escrow_amount)
}

/// The agent creates a task and puts `escrow_amount` into custody for it,
/// at the time `now`.
pub fn create_task_at(
    ctx: &mut CreateTask,
    task_id: String,
    checkpoint_count: u8,
    escrow_amount: u64,
    now: i64,
) -> (r: Result<(), VHError>)
    requires
        old(ctx).escrow is None,
        old(ctx).rejection(task_id@, checkpoint_count, escrow_amount) is None ==> old(ctx).wf()
            && old(ctx).fundable(escrow_amount),
    ensures
        r == outcome(old(ctx).rejection(task_id@, checkpoint_count, escrow_amount)),
        r is Ok ==> *final(ctx) == old(ctx).applied(task_id, checkpoint_count, escrow_amount, now),
        r is Err ==> *final(ctx) == *old(ctx),
        r is Ok ==> (final(ctx).escrow matches Some(task) && task.status == TaskStatus::Open
            && task.escrow_amount == escrow_amount && task.human is None
            && task.checkpoints_verified == 0 && task.verified_checkpoints() == Set::<u8>::empty()
            && task.wf()),
        r is Ok ==> final(ctx).custody == old(ctx).custody + escrow_amount,
        r is Ok ==> final(ctx).custody + final(ctx).agent.balance == old(ctx).custody + old(
            ctx,
        ).agent.balance,
{
    instructions::create_task::handler_at(ctx, task_id, checkpoint_count, escrow_amount, now)
}

/// A human claims an open task.
pub fn claim_task(ctx: &mut ClaimTask) -> (r: Result<(), VHError>)
    ensures
        r == outcome(old(ctx).rejection()),
        r is Ok ==> *final(ctx) == old(ctx).applied(),
        r is Err ==> *final(ctx) == *old(ctx),
        old(ctx).escrow.wf() ==> final(ctx).escrow.wf(),
{
    instructions::claim_task::handler(ctx)
}

/// The authority verifies one checkpoint of a claimed task.
pub fn verify_checkpoint(ctx: &mut VerifyCheckpoint, checkpoint_index: u8) -> (r: Result<
    (),
    VHError,
>)
    requires
        old(ctx).escrow.checkpoint_count <= MAX_CHECKPOINTS,
    ensures
        r == outcome(old(ctx).rejection(checkpoint_index)),
        r is Ok ==> *final(ctx) == old(ctx).applied(checkpoint_index),
        r is Err ==> *final(ctx) == *old(ctx),
        r is Ok ==> final(ctx).escrow.verified_checkpoints() == old(
            ctx,
        ).escrow.verified_checkpoints().insert(checkpoint_index),
        r is Ok ==> final(ctx).escrow.checkpoints_verified == old(ctx).escrow.checkpoints_verified
            + 1,
        old(ctx).escrow.wf() ==> final(ctx).escrow.wf(),
{
    instructions::verify_checkpoint::handler(ctx, checkpoint_index)
}

/// The authority completes a task and releases its escrow to the human, at
/// the time that the runtime tells.
pub fn complete_and_release(ctx: &mut CompleteAndRelease, verification_hash: [u8; 32]) -> (r:
    Result<(), Failure>)
    requires
        old(ctx).rejection() is None ==> old(ctx).wf(),
    ensures
        old(ctx).rejection() matches Some(error) ==> r == Err::<(), Failure>(
            Failure::Refused(error),
        ),
        old(ctx).rejection() is None ==> r is Ok || r matches Err(Failure::Clock(_)),
        r is Err ==> *final(ctx) == *old(ctx),
        r is Ok ==> *final(ctx) == old(ctx).applied(
            verification_hash,
            final(ctx).escrow.completed_at,
        ),
        r is Ok ==> final(ctx).human.balance == old(ctx).human.balance + old(
            ctx,
        ).escrow.escrow_amount,
        r is Ok ==> final(ctx).custody + final(ctx).human.balance == old(ctx).custody + old(
            ctx,
        ).human.balance,
        old(ctx).escrow.wf() ==> final(ctx).escrow.wf(),
{
    instructions::complete_and_release::handler(ctx, verification_hash)
}

/// The authority completes a task and releases its escrow to the human, at
/// the time `now`.
pub fn complete_and_release_at(
    ctx: &mut CompleteAndRelease,
    verification_hash: [u8; 32],
    now: i64,
) -> (r: Result<(), VHError>)
    requires
        old(ctx).rejection() is None ==> old(ctx).wf(),
    ensures
        r == outcome(old(ctx).rejection()),
        r is Ok ==> *final(ctx) == old(ctx).applied(verification_hash, now),
        r is Err ==> *final(ctx) == *old(ctx),
        r is Ok ==> final(ctx).human.balance == old(ctx).human.balance + old(
            ctx,
        ).escrow.escrow_amount,
        r is Ok ==> final(ctx).custody + final(ctx).human.balance == old(ctx).custody + old(
            ctx,
        ).human.balance,
        old(ctx).escrow.wf() ==> final(ctx).escrow.wf(),
{
    instructions::complete_and_release::handler_at(ctx, verification_hash, now)
}

/// The authority or the agent cancels a task, which refunds the agent.
pub fn cancel_and_refund(ctx: &mut CancelAndRefund) -> (r: Result<(), VHError>)
    requires
        old(ctx).rejection() is None ==> old(ctx).wf(),
    ensures
        r == outcome(old(ctx).rejection()),
        r is Ok ==> *final(ctx) == old(ctx).applied(),
        r is Err ==> *final(ctx) == *old(ctx),
        r is Ok ==> final(ctx).escrow is None && final(ctx).custody == 0,
        r is Ok ==> final(ctx).agent.balance == old(ctx).agent.balance + old(ctx).custody,
        r is Ok ==> final(ctx).custody + final(ctx).agent.balance == old(ctx).custody + old(
            ctx,
        ).agent.balance,
{
    instructions::cancel_and_refund::handler(ctx)
}

} // verus!
