use anchor_lang::solana_program::program_error::ProgramError;
use vstd::prelude::*;

verus! {

/// Why an operation was refused. A refused operation changes nothing.
#[derive(Clone, Copy, Debug, PartialEq, Eq, Structural)]
pub enum VHError {
    /// The task is not in the lifecycle state that the operation needs.
    InvalidTaskStatus,
    /// A task must hold a non-zero amount in escrow.
    ZeroEscrow,
    /// The task already has a human assigned.
    AlreadyClaimed,
    /// The release recipient is not the human who claimed the task.
    NotClaimed,
    /// A checkpoint count or index lies outside the permitted range.
    CheckpointOutOfBounds,
    /// The checkpoint was verified before.
    CheckpointAlreadyVerified,
    /// Some checkpoint of the task is still unverified.
    IncompleteCheckpoints,
    /// The caller is not entitled to act on the task.
    UnauthorizedAuthority,
    /// The refund recipient is not the agent who funded the task.
    UnauthorizedAgent,
    /// The task identifier is longer than the limit.
    TaskIdTooLong,
    /// A counter would exceed the width of its type.
    Overflow,
}

/// Why an operation that needs the time did not take place.
#[derive(Debug, PartialEq, Eq)]
pub enum Failure {
    /// The operation was refused, for the reason given.
    Refused(VHError),
    /// The runtime told no time; this is the error it gave instead.
    Clock(ProgramError),
}

/// The result of an operation for which the checks gave `rejection`.
pub open spec fn outcome(rejection: Option<VHError>) -> Result<(), VHError> {
    match rejection {
        Some(error) => Err(error),
        None => Ok(()),
    }
}

} // verus!
