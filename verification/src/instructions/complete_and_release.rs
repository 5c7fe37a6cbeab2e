use crate::auth::{holds_authority, is_authority, is_release_recipient, receives_release};
use crate::clock::unix_timestamp;
use crate::custody::{are_on_one_ledger, on_one_ledger, transfer};
use crate::error::{outcome, Failure, VHError};
use crate::identity::Identity;
use crate::state::{Config, TaskEscrow, TaskStatus, Wallet};
use vstd::prelude::*;

verus! {

/// What the completion of a task works on.
#[derive(Clone, Debug, PartialEq, Eq)]
pub struct CompleteAndRelease {
    /// The stored configuration.
    pub config: Config,
    /// The record of the task.
    pub escrow: TaskEscrow,
    /// The value held in custody for the task.
    pub custody: u64,
    /// The account that is to receive the escrow.
    pub human: Wallet,
    /// The caller.
    pub authority: Identity,
}

impl CompleteAndRelease {
    /// Why the completion is refused, if it is. The checks are made in this
    /// order, and the first that fails decides.
    pub open spec fn rejection(self) -> Option<VHError> {
        if !holds_authority(self.config, self.authority) {
            Some(VHError::UnauthorizedAuthority)
        } else if self.escrow.status != TaskStatus::Claimed {
            Some(VHError::InvalidTaskStatus)
        } else if !self.escrow.fully_verified() {
            Some(VHError::IncompleteCheckpoints)
        } else if !receives_release(self.escrow, self.human.key) {
            Some(VHError::NotClaimed)
        } else {
            None
        }
    }

    /// The context is well formed: custody covers the escrow that the record
    /// states, and custody and the recipient's account are of one ledger.
    pub open spec fn wf(self) -> bool {
        self.custody >= self.escrow.escrow_amount && on_one_ledger(
            self.custody,
            self.human.balance,
        )
    }

    /// The state after an accepted completion.
    pub open spec fn applied(self, verification_hash: [u8; 32], now: i64) -> CompleteAndRelease {
        CompleteAndRelease {
            escrow: TaskEscrow {
                status: TaskStatus::Completed,
                verification_hash,
                completed_at: now,
                escrow_amount: 0,
                ..self.escrow
            },
            custody: (self.custody - self.escrow.escrow_amount) as u64,
            human: Wallet {
                balance: (self.human.balance + self.escrow.escrow_amount) as u64,
                ..self.human
            },
            ..self
        }
    }

    /// Whether the context is well formed.
    pub fn is_well_formed(&self) -> (r: bool)
        ensures
            r == self.wf(),
    {
        self.custody >= self.escrow.escrow_amount && are_on_one_ledger(
            self.custody,
            self.human.balance,
        )
    }

    /// Makes the checks of a completion, changing nothing.
    pub fn check(&self) -> (r: Result<(), VHError>)
        ensures
            r == outcome(self.rejection()),
    {
        if !is_authority(&self.config, &self.authority) {
            Err(VHError::UnauthorizedAuthority)
        } else if self.escrow.status != TaskStatus::Claimed {
            Err(VHError::InvalidTaskStatus)
        } else if self.escrow.checkpoints_verified < self.escrow.checkpoint_count {
            Err(VHError::IncompleteCheckpoints)
        } else if !is_release_recipient(&self.escrow, &self.human.key) {
            Err(VHError::NotClaimed)
        } else {
            Ok(())
        }
    }
}

/// Completes a task at the time that the runtime tells. The checks come
/// first: a completion that they refuse is refused whatever the time. One
/// that they accept takes place as [`handler_at`] says, at the time read,
/// unless the runtime tells none. A completion that does not take place
/// changes nothing.
pub fn handler(ctx: &mut CompleteAndRelease, verification_hash: [u8; 32]) -> (r: Result<
    (),
    Failure,
>)
    requires
        old(ctx).rejection() is None ==> old(ctx).wf(),
    ensures
        old(ctx).rejection() matches Some(error) ==> r == Err::<(), Failure>(
            Failure::Refused(error),
        ),
        old(ctx).rejection() is None ==> r is Ok || r matches Err(Failure::Clock(_)),
        r is Err ==> *final(ctx) == *old(ctx),
        r is Ok ==> *final(ctx) == old(ctx).applied(
            verification_hash,
            final(ctx).escrow.completed_at,
        ),
        r is Ok ==> final(ctx).human.balance == old(ctx).human.balance + old(
            ctx,
        ).escrow.escrow_amount,
        r is Ok ==> final(ctx).custody + final(ctx).human.balance == old(ctx).custody + old(
            ctx,
        ).human.balance,
        old(ctx).escrow.wf() ==> final(ctx).escrow.wf(),
{
    match ctx.check() {
        Err(error) => {
            return Err(Failure::Refused(error));
        },
        Ok(()) => {},
    }
    let now: i64 = match unix_timestamp() {
        Ok(now) => now,
        Err(error) => {
            return Err(Failure::Clock(error));
        },
    };
    match handler_at(ctx, verification_hash, now) {
        Ok(()) => Ok(()),
        Err(error) => Err(Failure::Refused(error)),
    }
}

/// Completes a task at the time `now`: moves the whole escrow from custody
/// to the human who claimed the task, and records the completion with its
/// hash and time. A refused completion changes nothing.
pub fn handler_at(
    ctx: &mut CompleteAndRelease,
    verification_hash: [u8; 32],
    now: i64,
) -> (r: Result<(), VHError>)
    requires
        old(ctx).rejection() is None ==> old(ctx).wf(),
    ensures
        r == outcome(old(ctx).rejection()),
        r is Ok ==> *final(ctx) == old(ctx).applied(verification_hash, now),
        r is Err ==> *final(ctx) == *old(ctx),
        r is Ok ==> final(ctx).human.balance == old(ctx).human.balance + old(
            ctx,
        ).escrow.escrow_amount,
        r is Ok ==> final(ctx).custody + final(ctx).human.balance == old(ctx).custody + old(
            ctx,
        ).human.balance,
        old(ctx).escrow.wf() ==> final(ctx).escrow.wf(),
{
    ctx.check()?;
    let (custody, human_balance) = transfer(
        ctx.custody,
        ctx.human.balance,
        ctx.escrow.escrow_amount,
    );
    ctx.custody = custody;
    ctx.human.balance = human_balance;
    ctx.escrow.status = TaskStatus::Completed;
    ctx.escrow.verification_hash = verification_hash;
    ctx.escrow.completed_at = now;
    ctx.escrow.escrow_amount = 0;
    Ok(())
}

} // verus!
