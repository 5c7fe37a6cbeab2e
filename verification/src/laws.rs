use crate::auth::{holds_authority, may_cancel, receives_refund};
use crate::checkpoints::{
    lemma_empty_bitmap, lemma_popcount_confined, lemma_popcount_is_cardinality,
    lemma_popcount_with_bit, lemma_verified_set_with_bit, lemma_with_bit,
    lemma_with_bit_confined, popcount,
};
use crate::error::VHError;
use crate::instructions::cancel_and_refund::CancelAndRefund;
use crate::instructions::claim_task::ClaimTask;
use crate::instructions::complete_and_release::CompleteAndRelease;
use crate::instructions::create_task::CreateTask;
use crate::instructions::verify_checkpoint::VerifyCheckpoint;
use crate::state::{task_id_len, TaskEscrow, TaskStatus, MAX_CHECKPOINTS, MAX_TASK_ID_LEN};
use vstd::prelude::*;

verus! {

/// A creation is accepted exactly when the identifier is within its
/// length, the amount is not zero, the checkpoints are no more than the
/// limit and the count of tasks is not full. The task then created is open,
/// holds exactly the amount given, has the caller as its agent, is claimed
/// by nobody and has no checkpoint verified; its record is well formed.
pub proof fn valid_creation_is_accepted(
    ctx: CreateTask,
    task_id: String,
    checkpoint_count: u8,
    escrow_amount: u64,
    now: i64,
)
    ensures
        ctx.rejection(task_id@, checkpoint_count, escrow_amount) is None <==> task_id_len(task_id@)
            <= MAX_TASK_ID_LEN && escrow_amount > 0 && checkpoint_count <= MAX_CHECKPOINTS
            && ctx.config.task_count < u64::MAX,
        ctx.rejection(task_id@, checkpoint_count, escrow_amount) is None ==> (ctx.applied(
            task_id,
            checkpoint_count,
            escrow_amount,
            now,
        ).escrow matches Some(task) && task.status == TaskStatus::Open && task.escrow_amount
            == escrow_amount && task.human is None && task.checkpoints_verified == 0
            && task.verified_bitmap == 0 && task.verified_checkpoints() == Set::<u8>::empty()
            && task.checkpoint_count == checkpoint_count && task.agent == ctx.agent.key
            && task.task_id == task_id && task.created_at == now && task.wf()),
{
    lemma_empty_bitmap();
    assert(crate::checkpoints::verified_set(0) =~= Set::<u8>::empty());
}

/// Only an open task that nobody holds can be claimed. Any other claim is
/// refused: that of a task which is open or claimed and which a human
/// holds with `AlreadyClaimed`, every other with `InvalidTaskStatus`.
pub proof fn only_open_tasks_are_claimed(ctx: ClaimTask)
    ensures
        ctx.rejection() is None <==> ctx.escrow.status == TaskStatus::Open && ctx.escrow.human
            is None,
        ctx.rejection() == Some(VHError::AlreadyClaimed) <==> ctx.escrow.status.is_live()
            && ctx.escrow.human is Some,
        ctx.rejection() == Some(VHError::InvalidTaskStatus) <==> !ctx.escrow.status.is_live() || (
        ctx.escrow.status == TaskStatus::Claimed && ctx.escrow.human is None),
{
}

/// A task is claimed at most once: after an accepted claim, every further
/// claim of the task, by whomever, is refused with `AlreadyClaimed`.
pub proof fn claim_is_accepted_once(first: ClaimTask, second: ClaimTask)
    requires
        first.rejection() is None,
        second.escrow == first.applied().escrow,
    ensures
        second.rejection() == Some(VHError::AlreadyClaimed),
{
}

/// In a well-formed record the count of verified checkpoints is the number
/// of bits set in the bitmap, which is the number of checkpoints verified,
/// and no more than the task has checkpoints.
pub proof fn verified_count_matches_bitmap(task: TaskEscrow)
    requires
        task.wf(),
    ensures
        task.checkpoints_verified == popcount(task.verified_bitmap),
        task.verified_checkpoints().finite(),
        task.checkpoints_verified == task.verified_checkpoints().len(),
        task.checkpoints_verified <= task.checkpoint_count <= MAX_CHECKPOINTS,
        forall|index: u8| task.checkpoint_verified(index) ==> index < task.checkpoint_count,
{
    lemma_popcount_is_cardinality(task.verified_bitmap);
}

/// A checkpoint that is verified cannot be verified again: the attempt is
/// refused, and where nothing else is wrong with it, with
/// `CheckpointAlreadyVerified`.
pub proof fn verified_checkpoint_is_refused(ctx: VerifyCheckpoint, checkpoint_index: u8)
    requires
        ctx.escrow.checkpoint_verified(checkpoint_index),
    ensures
        ctx.rejection(checkpoint_index) is Some,
        holds_authority(ctx.config, ctx.authority) && ctx.escrow.status == TaskStatus::Claimed
            && checkpoint_index < ctx.escrow.checkpoint_count ==> ctx.rejection(checkpoint_index)
            == Some(VHError::CheckpointAlreadyVerified),
{
}

/// A checkpoint is verified at most once: after an accepted verification,
/// every further verification of that checkpoint is refused, and the
/// authority's with `CheckpointAlreadyVerified`.
pub proof fn verification_is_accepted_once(
    first: VerifyCheckpoint,
    second: VerifyCheckpoint,
    checkpoint_index: u8,
)
    requires
        first.escrow.checkpoint_count <= MAX_CHECKPOINTS,
        first.rejection(checkpoint_index) is None,
        second.escrow == first.applied(checkpoint_index).escrow,
    ensures
        second.rejection(checkpoint_index) is Some,
        holds_authority(second.config, second.authority) ==> second.rejection(checkpoint_index)
            == Some(VHError::CheckpointAlreadyVerified),
{
    lemma_with_bit(first.escrow.verified_bitmap, checkpoint_index, checkpoint_index);
}

/// While a checkpoint of a claimed task is unverified, the authority's
/// attempt to complete the task is refused with `IncompleteCheckpoints`.
pub proof fn completion_needs_every_checkpoint(ctx: CompleteAndRelease)
    requires
        holds_authority(ctx.config, ctx.authority),
        ctx.escrow.status == TaskStatus::Claimed,
        ctx.escrow.checkpoints_verified < ctx.escrow.checkpoint_count,
    ensures
        ctx.rejection() == Some(VHError::IncompleteCheckpoints),
{
}

/// A completion is accepted only when every checkpoint of the task is
/// verified.
pub proof fn completed_task_is_fully_verified(ctx: CompleteAndRelease)
    requires
        ctx.escrow.wf(),
        ctx.rejection() is None,
    ensures
        ctx.escrow.checkpoints_verified == ctx.escrow.checkpoint_count,
        forall|index: u8|
            ctx.escrow.checkpoint_verified(index) <==> index < ctx.escrow.checkpoint_count,
{
    lemma_popcount_confined(ctx.escrow.verified_bitmap, ctx.escrow.checkpoint_count);
}

/// A task that is completed or cancelled cannot be cancelled: the attempt
/// is refused, and that of a caller entitled to cancel, who names the
/// agent as recipient, with `InvalidTaskStatus`.
pub proof fn finished_task_cannot_be_cancelled(ctx: CancelAndRefund)
    requires
        ctx.escrow matches Some(task) ==> task.status == TaskStatus::Completed || task.status
            == TaskStatus::Cancelled,
    ensures
        ctx.rejection() is Some,
        ctx.escrow is None ==> ctx.rejection() == Some(VHError::InvalidTaskStatus),
        ctx.escrow matches Some(task) ==> (may_cancel(ctx.config, task, ctx.signer)
            && receives_refund(task, ctx.agent.key) ==> ctx.rejection() == Some(
            VHError::InvalidTaskStatus,
        )),
{
}

/// A task is cancelled at most once: an accepted cancellation removes the
/// record, and every further cancellation is refused with
/// `InvalidTaskStatus`.
pub proof fn cancellation_is_accepted_once(ctx: CancelAndRefund)
    requires
        ctx.rejection() is None,
    ensures
        ctx.applied().escrow is None,
        ctx.applied().rejection() == Some(VHError::InvalidTaskStatus),
{
}

/// Value is neither made nor lost. An accepted creation moves the escrow
/// from the agent into custody, an accepted completion moves it from
/// custody to the human, and an accepted cancellation moves all that
/// custody holds to the agent: each leaves the sum of the balances it works
/// on as it was. Claim and verification work on no balance.
pub proof fn value_is_conserved(
    create: CreateTask,
    task_id: String,
    checkpoint_count: u8,
    escrow_amount: u64,
    complete: CompleteAndRelease,
    verification_hash: [u8; 32],
    now: i64,
    cancel: CancelAndRefund,
)
    requires
        create.wf(),
        complete.wf(),
        cancel.wf(),
    ensures
        create.rejection(task_id@, checkpoint_count, escrow_amount) is None && create.fundable(
            escrow_amount,
        ) ==> ({
            let after = create.applied(task_id, checkpoint_count, escrow_amount, now);
            &&& after.custody == create.custody + escrow_amount
            &&& after.agent.balance == create.agent.balance - escrow_amount
            &&& after.custody + after.agent.balance == create.custody + create.agent.balance
        }),
        complete.rejection() is None ==> ({
            let after = complete.applied(verification_hash, now);
            &&& after.custody == complete.custody - complete.escrow.escrow_amount
            &&& after.human.balance == complete.human.balance + complete.escrow.escrow_amount
            &&& after.custody + after.human.balance == complete.custody + complete.human.balance
        }),
        cancel.rejection() is None ==> ({
            let after = cancel.applied();
            &&& after.custody == 0
            &&& after.agent.balance == cancel.agent.balance + cancel.custody
            &&& after.custody + after.agent.balance == cancel.custody + cancel.agent.balance
        }),
{
}

/// Custody covers the escrow that a record states: after a creation it
/// holds at least the task's escrow amount, and a completion, which takes
/// that amount out, leaves a record that states none.
pub proof fn custody_covers_escrow(
    create: CreateTask,
    task_id: String,
    checkpoint_count: u8,
    escrow_amount: u64,
    complete: CompleteAndRelease,
    verification_hash: [u8; 32],
    now: i64,
)
    requires
        create.wf(),
        complete.wf(),
    ensures
        create.rejection(task_id@, checkpoint_count, escrow_amount) is None && create.fundable(
            escrow_amount,
        ) ==> ({
            let after = create.applied(task_id, checkpoint_count, escrow_amount, now);
            after.escrow is Some && after.custody >= after.escrow->0.escrow_amount
        }),
        complete.rejection() is None ==> ({
            let after = complete.applied(verification_hash, now);
            after.escrow.escrow_amount == 0 && after.custody == complete.custody
                - complete.escrow.escrow_amount
        }),
{
}

/// The authority's verification of a checkpoint of a claimed task that is
/// not verified yet is accepted: the checkpoint is then verified, one more
/// is counted, and every other checkpoint is as it was.
pub proof fn unverified_checkpoint_is_accepted(ctx: VerifyCheckpoint, checkpoint_index: u8)
    requires
        ctx.escrow.wf(),
        holds_authority(ctx.config, ctx.authority),
        ctx.escrow.status == TaskStatus::Claimed,
        checkpoint_index < ctx.escrow.checkpoint_count,
        !ctx.escrow.checkpoint_verified(checkpoint_index),
    ensures
        ctx.rejection(checkpoint_index) is None,
        ({
            let after = ctx.applied(checkpoint_index).escrow;
            &&& after.verified_checkpoints() == ctx.escrow.verified_checkpoints().insert(
                checkpoint_index,
            )
            &&& after.checkpoints_verified == ctx.escrow.checkpoints_verified + 1
            &&& after.status == TaskStatus::Claimed
            &&& after.wf()
        }),
{
    lemma_popcount_confined(ctx.escrow.verified_bitmap, ctx.escrow.checkpoint_count);
    lemma_with_bit_confined(
        ctx.escrow.verified_bitmap,
        checkpoint_index,
        ctx.escrow.checkpoint_count,
    );
    lemma_verified_set_with_bit(ctx.escrow.verified_bitmap, checkpoint_index);
    lemma_popcount_with_bit(ctx.escrow.verified_bitmap, checkpoint_index);
}

/// The authority's completion of a claimed task whose checkpoints are all
/// verified, to the human who claimed it, is accepted: the task is then
/// completed, its whole escrow has moved from custody to the human, and the
/// record states none and holds the hash and the time.
pub proof fn verified_task_is_released(
    ctx: CompleteAndRelease,
    verification_hash: [u8; 32],
    now: i64,
)
    requires
        ctx.wf(),
        holds_authority(ctx.config, ctx.authority),
        ctx.escrow.status == TaskStatus::Claimed,
        ctx.escrow.checkpoints_verified >= ctx.escrow.checkpoint_count,
        ctx.escrow.human == Some(ctx.human.key),
    ensures
        ctx.rejection() is None,
        ({
            let after = ctx.applied(verification_hash, now);
            &&& after.escrow.status == TaskStatus::Completed
            &&& after.escrow.escrow_amount == 0
            &&& after.escrow.verification_hash == verification_hash
            &&& after.escrow.completed_at == now
            &&& after.human.balance == ctx.human.balance + ctx.escrow.escrow_amount
            &&& after.custody == ctx.custody - ctx.escrow.escrow_amount
            &&& after.custody + after.human.balance == ctx.custody + ctx.human.balance
        }),
{
}

/// The cancellation of an open or a claimed task by the authority or by
/// the task's agent, to the agent, is accepted: the record is then gone,
/// and the agent has received exactly what custody held for the task.
pub proof fn entitled_cancellation_is_accepted(ctx: CancelAndRefund)
    requires
        ctx.wf(),
        ctx.escrow is Some,
        may_cancel(ctx.config, ctx.escrow->0, ctx.signer),
        receives_refund(ctx.escrow->0, ctx.agent.key),
        ctx.escrow->0.status == TaskStatus::Open || ctx.escrow->0.status == TaskStatus::Claimed,
    ensures
        ctx.rejection() is None,
        ctx.applied().escrow is None,
        ctx.applied().custody == 0,
        ctx.applied().agent.balance == ctx.agent.balance + ctx.custody,
        ctx.applied().custody + ctx.applied().agent.balance == ctx.custody + ctx.agent.balance,
{
}

/// Whoever is not entitled to an operation is refused before anything else
/// is looked at: only the authority verifies and completes, and only the
/// authority or the task's agent cancels.
pub proof fn unauthorized_callers_are_refused(
    verify: VerifyCheckpoint,
    checkpoint_index: u8,
    complete: CompleteAndRelease,
    cancel: CancelAndRefund,
)
    ensures
        !holds_authority(verify.config, verify.authority) ==> verify.rejection(checkpoint_index)
            == Some(VHError::UnauthorizedAuthority),
        !holds_authority(complete.config, complete.authority) ==> complete.rejection() == Some(
            VHError::UnauthorizedAuthority,
        ),
        cancel.escrow matches Some(task) ==> (!may_cancel(cancel.config, task, cancel.signer)
            ==> cancel.rejection() == Some(VHError::UnauthorizedAuthority)),
{
}

/// Value leaves custody only for the party it is due to: an accepted
/// completion pays the human who claimed the task, and an accepted
/// cancellation refunds the agent who funded it.
pub proof fn escrow_goes_to_the_rightful_party(
    complete: CompleteAndRelease,
    cancel: CancelAndRefund,
)
    ensures
        complete.rejection() is None ==> complete.escrow.human == Some(complete.human.key)
            && holds_authority(complete.config, complete.authority),
        cancel.rejection() is None ==> (cancel.escrow matches Some(task) && task.agent
            == cancel.agent.key && may_cancel(cancel.config, task, cancel.signer)),
{
}

/// The status of a task moves only along the lifecycle. A claim takes it
/// from open to claimed, a verification leaves it claimed, a completion
/// takes it from claimed to completed, and a cancellation ends an open or a
/// claimed task.
pub proof fn status_only_advances(
    claim: ClaimTask,
    verify: VerifyCheckpoint,
    checkpoint_index: u8,
    complete: CompleteAndRelease,
    verification_hash: [u8; 32],
    now: i64,
    cancel: CancelAndRefund,
)
    ensures
        claim.rejection() is None ==> claim.escrow.status == TaskStatus::Open
            && claim.applied().escrow.status == TaskStatus::Claimed
            && claim.escrow.status.advances_to(claim.applied().escrow.status),
        verify.rejection(checkpoint_index) is None ==> verify.escrow.status == TaskStatus::Claimed
            && verify.applied(checkpoint_index).escrow.status == TaskStatus::Claimed,
        complete.rejection() is None ==> complete.escrow.status == TaskStatus::Claimed
            && complete.applied(verification_hash, now).escrow.status == TaskStatus::Completed
            && complete.escrow.status.advances_to(
            complete.applied(verification_hash, now).escrow.status,
        ),
        cancel.rejection() is None ==> cancel.escrow is Some
            && cancel.escrow->0.status.advances_to(TaskStatus::Cancelled),
{
}

/// Completion is final: a completed task can be neither claimed, nor have a
/// checkpoint verified, nor be completed again, nor be cancelled. A claim
/// is refused with `InvalidTaskStatus`, and so is each of the others where
/// the caller is entitled to it.
pub proof fn completed_is_terminal(
    claim: ClaimTask,
    verify: VerifyCheckpoint,
    checkpoint_index: u8,
    complete: CompleteAndRelease,
    cancel: CancelAndRefund,
)
    ensures
        claim.escrow.status == TaskStatus::Completed ==> claim.rejection() == Some(
            VHError::InvalidTaskStatus,
        ),
        verify.escrow.status == TaskStatus::Completed ==> verify.rejection(checkpoint_index)
            == Some(
            if holds_authority(verify.config, verify.authority) {
                VHError::InvalidTaskStatus
            } else {
                VHError::UnauthorizedAuthority
            },
        ),
        complete.escrow.status == TaskStatus::Completed ==> complete.rejection() == Some(
            if holds_authority(complete.config, complete.authority) {
                VHError::InvalidTaskStatus
            } else {
                VHError::UnauthorizedAuthority
            },
        ),
        cancel.escrow matches Some(task) ==> (task.status == TaskStatus::Completed
            ==> cancel.rejection() == Some(
            if !may_cancel(cancel.config, task, cancel.signer) {
                VHError::UnauthorizedAuthority
            } else if !receives_refund(task, cancel.agent.key) {
                VHError::UnauthorizedAgent
            } else {
                VHError::InvalidTaskStatus
            },
        )),
{
}

/// No operation changes who the authority is, nor the fee. Creation counts
/// the new task; nothing else changes the count.
pub proof fn authority_is_permanent(
    create: CreateTask,
    task_id: String,
    checkpoint_count: u8,
    escrow_amount: u64,
    verify: VerifyCheckpoint,
    checkpoint_index: u8,
    complete: CompleteAndRelease,
    verification_hash: [u8; 32],
    now: i64,
    cancel: CancelAndRefund,
)
    ensures
        create.rejection(task_id@, checkpoint_count, escrow_amount) is None ==> ({
            let after = create.applied(task_id, checkpoint_count, escrow_amount, now).config;
            after.authority == create.config.authority && after.fee_bps == create.config.fee_bps
                && after.task_count == create.config.task_count + 1
        }),
        verify.applied(checkpoint_index).config == verify.config,
        complete.applied(verification_hash, now).config == complete.config,
        cancel.applied().config == cancel.config,
{
}

/// What identifies a task never changes once it is created: its identifier,
/// its agent, the number of its checkpoints and the time of its creation.
pub proof fn task_identity_is_permanent(
    claim: ClaimTask,
    verify: VerifyCheckpoint,
    checkpoint_index: u8,
    complete: CompleteAndRelease,
    verification_hash: [u8; 32],
    now: i64,
)
    ensures
        same_task(claim.escrow, claim.applied().escrow),
        same_task(verify.escrow, verify.applied(checkpoint_index).escrow),
        same_task(complete.escrow, complete.applied(verification_hash, now).escrow),
{
}

/// Two records are of one task: they agree in identifier, agent, number of
/// checkpoints and time of creation.
pub open spec fn same_task(before: TaskEscrow, after: TaskEscrow) -> bool {
    &&& after.task_id == before.task_id
    &&& after.agent == before.agent
    &&& after.checkpoint_count == before.checkpoint_count
    &&& after.created_at == before.created_at
}

} // verus!
