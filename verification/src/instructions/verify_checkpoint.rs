use crate::auth::{holds_authority, is_authority};
use crate::checkpoints::{
    bit_is_set, is_verified, lemma_popcount_confined, lemma_with_bit_confined, mark_verified,
    with_bit,
};
use crate::error::{outcome, VHError};
use crate::identity::Identity;
use crate::state::{Config, TaskEscrow, TaskStatus, MAX_CHECKPOINTS};
use vstd::prelude::*;

verus! {

/// What the verification of a checkpoint works on.
#[derive(Clone, Debug, PartialEq, Eq)]
pub struct VerifyCheckpoint {
    /// The stored configuration.
    pub config: Config,
    /// The record of the task.
    pub escrow: TaskEscrow,
    /// The caller.
    pub authority: Identity,
}

impl VerifyCheckpoint {
    /// Why the verification of checkpoint `checkpoint_index` is refused, if
    /// it is. The checks are made in this order, and the first that fails
    /// decides.
    pub open spec fn rejection(self, checkpoint_index: u8) -> Option<VHError> {
        if !holds_authority(self.config, self.authority) {
            Some(VHError::UnauthorizedAuthority)
        } else if self.escrow.status != TaskStatus::Claimed {
            Some(VHError::InvalidTaskStatus)
        } else if checkpoint_index >= self.escrow.checkpoint_count {
            Some(VHError::CheckpointOutOfBounds)
        } else if bit_is_set(self.escrow.verified_bitmap, checkpoint_index) {
            Some(VHError::CheckpointAlreadyVerified)
        } else if self.escrow.checkpoints_verified == u8::MAX {
            Some(VHError::Overflow)
        } else {
            None
        }
    }

    /// The state after an accepted verification of checkpoint
    /// `checkpoint_index`.
    pub open spec fn applied(self, checkpoint_index: u8) -> VerifyCheckpoint {
        VerifyCheckpoint {
            escrow: TaskEscrow {
                verified_bitmap: with_bit(self.escrow.verified_bitmap, checkpoint_index),
                checkpoints_verified: (self.escrow.checkpoints_verified + 1) as u8,
                ..self.escrow
            },
            ..self
        }
    }

    /// Makes the checks of a verification, changing nothing.
    pub fn check(&self, checkpoint_index: u8) -> (r: Result<(), VHError>)
        requires
            self.escrow.checkpoint_count <= MAX_CHECKPOINTS,
        ensures
            r == outcome(self.rejection(checkpoint_index)),
    {
        if !is_authority(&self.config, &self.authority) {
            Err(VHError::UnauthorizedAuthority)
        } else if self.escrow.status != TaskStatus::Claimed {
            Err(VHError::InvalidTaskStatus)
        } else if checkpoint_index >= self.escrow.checkpoint_count {
            Err(VHError::CheckpointOutOfBounds)
        } else if is_verified(self.escrow.verified_bitmap, checkpoint_index) {
            Err(VHError::CheckpointAlreadyVerified)
        } else if self.escrow.checkpoints_verified == u8::MAX {
            Err(VHError::Overflow)
        } else {
            Ok(())
        }
    }
}

/// Records checkpoint `checkpoint_index` of a claimed task as verified and
/// counts it. Checkpoints may be verified in any order, each once. A refused
/// verification changes nothing.
pub fn handler(ctx: &mut VerifyCheckpoint, checkpoint_index: u8) -> (r: Result<(), VHError>)
    requires
        old(ctx).escrow.checkpoint_count <= MAX_CHECKPOINTS,
    ensures
        r == outcome(old(ctx).rejection(checkpoint_index)),
        r is Ok ==> *final(ctx) == old(ctx).applied(checkpoint_index),
        r is Err ==> *final(ctx) == *old(ctx),
        r is Ok ==> final(ctx).escrow.verified_checkpoints() == old(
            ctx,
        ).escrow.verified_checkpoints().insert(checkpoint_index),
        r is Ok ==> final(ctx).escrow.checkpoints_verified == old(ctx).escrow.checkpoints_verified
            + 1,
        old(ctx).escrow.wf() ==> final(ctx).escrow.wf(),
{
    ctx.check(checkpoint_index)?;
    proof {
        if ctx.escrow.wf() {
            lemma_popcount_confined(ctx.escrow.verified_bitmap, ctx.escrow.checkpoint_count);
            lemma_with_bit_confined(
                ctx.escrow.verified_bitmap,
                checkpoint_index,
                ctx.escrow.checkpoint_count,
            );
        }
    }
    ctx.escrow.verified_bitmap = mark_verified(ctx.escrow.verified_bitmap, checkpoint_index);
    ctx.escrow.checkpoints_verified = ctx.escrow.checkpoints_verified + 1;
    Ok(())
}

} // verus!
