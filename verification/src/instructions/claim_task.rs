use crate::error::{outcome, VHError};
use crate::identity::Identity;
use crate::state::{TaskEscrow, TaskStatus};
use vstd::prelude::*;

verus! {

/// What the claim of a task works on.
#[derive(Clone, Debug, PartialEq, Eq)]
pub struct ClaimTask {
    /// The record of the task.
    pub escrow: TaskEscrow,
    /// The caller, who takes the task.
    pub human: Identity,
}

impl ClaimTask {
    /// Why the claim is refused, if it is. A task that is completed or
    /// cancelled is past claiming: `InvalidTaskStatus`. Of the others, one
    /// that a human holds is `AlreadyClaimed`, whether or not its status
    /// says so, and one that nobody holds but that is not open is again
    /// `InvalidTaskStatus`.
    pub open spec fn rejection(self) -> Option<VHError> {
        if self.escrow.status == TaskStatus::Completed || self.escrow.status
            == TaskStatus::Cancelled {
            Some(VHError::InvalidTaskStatus)
        } else if self.escrow.human is Some {
            Some(VHError::AlreadyClaimed)
        } else if self.escrow.status != TaskStatus::Open {
            Some(VHError::InvalidTaskStatus)
        } else {
            None
        }
    }

    /// The state after an accepted claim.
    pub open spec fn applied(self) -> ClaimTask {
        ClaimTask {
            escrow: TaskEscrow {
                human: Some(self.human),
                status: TaskStatus::Claimed,
                ..self.escrow
            },
            ..self
        }
    }

    /// Makes the checks of a claim, changing nothing.
    pub fn check(&self) -> (r: Result<(), VHError>)
        ensures
            r == outcome(self.rejection()),
    {
        if self.escrow.status == TaskStatus::Completed || self.escrow.status
            == TaskStatus::Cancelled {
            Err(VHError::InvalidTaskStatus)
        } else if self.escrow.human.is_some() {
            Err(VHError::AlreadyClaimed)
        } else if self.escrow.status != TaskStatus::Open {
            Err(VHError::InvalidTaskStatus)
        } else {
            Ok(())
        }
    }
}

/// Assigns an open task to the caller. No value moves. A refused claim
/// changes nothing.
pub fn handler(ctx: &mut ClaimTask) -> (r: Result<(), VHError>)
    ensures
        r == outcome(old(ctx).rejection()),
        r is Ok ==> *final(ctx) == old(ctx).applied(),
        r is Err ==> *final(ctx) == *old(ctx),
        old(ctx).escrow.wf() ==> final(ctx).escrow.wf(),
{
    ctx.check()?;
    ctx.escrow.human = Some(ctx.human);
    ctx.escrow.status = TaskStatus::Claimed;
    Ok(())
}

} // verus!
