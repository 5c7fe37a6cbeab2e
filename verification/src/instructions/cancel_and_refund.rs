use crate::auth::{can_cancel, is_refund_recipient, may_cancel, receives_refund};
use crate::custody::{are_on_one_ledger, on_one_ledger, transfer};
use crate::error::{outcome, VHError};
use crate::identity::Identity;
use crate::state::{Config, TaskEscrow, TaskStatus, Wallet};
use vstd::prelude::*;

verus! {

/// What the cancellation of a task works on.
#[derive(Clone, Debug, PartialEq, Eq)]
pub struct CancelAndRefund {
    /// The stored configuration.
    pub config: Config,
    /// The record stored under the task's identifier. `None` where there is
    /// none: cancellation leaves it so.
    pub escrow: Option<TaskEscrow>,
    /// The value held in custody for the task: the escrow and whatever else
    /// was deposited with the record.
    pub custody: u64,
    /// The account that is to receive the refund.
    pub agent: Wallet,
    /// The caller.
    pub signer: Identity,
}

impl CancelAndRefund {
    /// Why the cancellation is refused, if it is. The checks are made in
    /// this order, and the first that fails decides. Where no record is
    /// stored there is no live task to cancel.
    pub open spec fn rejection(self) -> Option<VHError> {
        match self.escrow {
            None => Some(VHError::InvalidTaskStatus),
            Some(task) => {
                if !may_cancel(self.config, task, self.signer) {
                    Some(VHError::UnauthorizedAuthority)
                } else if !receives_refund(task, self.agent.key) {
                    Some(VHError::UnauthorizedAgent)
                } else if !task.status.is_live() {
                    Some(VHError::InvalidTaskStatus)
                } else {
                    None
                }
            },
        }
    }

    /// The context is well formed: custody and the recipient's account are
    /// of one ledger.
    pub open spec fn wf(self) -> bool {
        on_one_ledger(self.custody, self.agent.balance)
    }

    /// The state after an accepted cancellation.
    pub open spec fn applied(self) -> CancelAndRefund {
        CancelAndRefund {
            escrow: None,
            custody: 0,
            agent: Wallet { balance: (self.agent.balance + self.custody) as u64, ..self.agent },
            ..self
        }
    }

    /// Whether the context is well formed.
    pub fn is_well_formed(&self) -> (r: bool)
        ensures
            r == self.wf(),
    {
        are_on_one_ledger(self.custody, self.agent.balance)
    }

    /// Makes the checks of a cancellation, changing nothing.
    pub fn check(&self) -> (r: Result<(), VHError>)
        ensures
            r == outcome(self.rejection()),
    {
        match &self.escrow {
            None => Err(VHError::InvalidTaskStatus),
            Some(task) => {
                if !can_cancel(&self.config, task, &self.signer) {
                    Err(VHError::UnauthorizedAuthority)
                } else if !is_refund_recipient(task, &self.agent.key) {
                    Err(VHError::UnauthorizedAgent)
                } else if task.status != TaskStatus::Open && task.status != TaskStatus::Claimed {
                    Err(VHError::InvalidTaskStatus)
                } else {
                    Ok(())
                }
            },
        }
    }
}

/// Cancels a task that is open or claimed: refunds all that custody holds
/// for it to the agent who funded it, and removes the record. A refused
/// cancellation changes nothing.
pub fn handler(ctx: &mut CancelAndRefund) -> (r: Result<(), VHError>)
    requires
        old(ctx).rejection() is None ==> old(ctx).wf(),
    ensures
        r == outcome(old(ctx).rejection()),
        r is Ok ==> *final(ctx) == old(ctx).applied(),
        r is Err ==> *final(ctx) == *old(ctx),
        r is Ok ==> final(ctx).escrow is None && final(ctx).custody == 0,
        r is Ok ==> final(ctx).agent.balance == old(ctx).agent.balance + old(ctx).custody,
        r is Ok ==> final(ctx).custody + final(ctx).agent.balance == old(ctx).custody + old(
            ctx,
        ).agent.balance,
{
    ctx.check()?;
    let (custody, agent_balance) = transfer(ctx.custody, ctx.agent.balance, ctx.custody);
    ctx.custody = custody;
    ctx.agent.balance = agent_balance;
    ctx.escrow = None;
    Ok(())
}

} // verus!
