use anchor_lang::prelude::ProgramError;
use verify_human::error::{Failure, VHError};
use verify_human::identity::Identity;
use verify_human::instructions::{CompleteAndRelease, CreateTask};
use verify_human::state::{Config, TaskEscrow, TaskStatus, Wallet};
use verify_human::{complete_and_release, create_task};

fn signer(tag: u8) -> Identity {
    Identity { bytes: [tag; 32] }
}

fn vacant() -> CreateTask {
    CreateTask {
        config: Config { authority: signer(9), fee_bps: 0, task_count: 3 },
        escrow: None,
        custody: 10,
        agent: Wallet { key: signer(1), balance: 1_000 },
    }
}

fn verified_task() -> CompleteAndRelease {
    CompleteAndRelease {
        config: Config { authority: signer(9), fee_bps: 0, task_count: 3 },
        escrow: TaskEscrow {
            task_id: "timed".to_string(),
            agent: signer(1),
            human: Some(signer(2)),
            escrow_amount: 600,
            status: TaskStatus::Claimed,
            checkpoint_count: 2,
            checkpoints_verified: 2,
            verified_bitmap: 0b11,
            verification_hash: [0u8; 32],
            created_at: 5,
            completed_at: 0,
        },
        custody: 610,
        human: Wallet { key: signer(2), balance: 0 },
        authority: signer(9),
    }
}

// No test runs inside a runtime, so none is told the time: an operation
// that needs it and is not refused fails with the error of the runtime.

#[test]
fn create_without_a_runtime_fails_on_the_clock_and_changes_nothing() {
    let mut ctx = vacant();
    assert_eq!(
        create_task(&mut ctx, "timed".to_string(), 2, 600),
        Err(Failure::Clock(ProgramError::UnsupportedSysvar))
    );
    assert_eq!(ctx, vacant());
}

#[test]
fn create_is_refused_before_the_clock_is_read() {
    let mut ctx = vacant();
    assert_eq!(
        create_task(&mut ctx, "timed".to_string(), 2, 0),
        Err(Failure::Refused(VHError::ZeroEscrow))
    );
    assert_eq!(
        create_task(&mut ctx, "t".repeat(65), 2, 600),
        Err(Failure::Refused(VHError::TaskIdTooLong))
    );
    assert_eq!(
        create_task(&mut ctx, "timed".to_string(), 11, 600),
        Err(Failure::Refused(VHError::CheckpointOutOfBounds))
    );
    ctx.config.task_count = u64::MAX;
    assert_eq!(
        create_task(&mut ctx, "timed".to_string(), 2, 600),
        Err(Failure::Refused(VHError::Overflow))
    );
    ctx.config.task_count = 3;
    assert_eq!(ctx, vacant());
}

#[test]
fn complete_without_a_runtime_fails_on_the_clock_and_changes_nothing() {
    let mut ctx = verified_task();
    assert_eq!(
        complete_and_release(&mut ctx, [4u8; 32]),
        Err(Failure::Clock(ProgramError::UnsupportedSysvar))
    );
    assert_eq!(ctx, verified_task());
}

#[test]
fn complete_is_refused_before_the_clock_is_read() {
    let mut ctx = verified_task();
    ctx.authority = signer(2);
    assert_eq!(
        complete_and_release(&mut ctx, [4u8; 32]),
        Err(Failure::Refused(VHError::UnauthorizedAuthority))
    );
    ctx.authority = signer(9);
    ctx.escrow.checkpoints_verified = 1;
    ctx.escrow.verified_bitmap = 0b10;
    assert_eq!(
        complete_and_release(&mut ctx, [4u8; 32]),
        Err(Failure::Refused(VHError::IncompleteCheckpoints))
    );
    ctx.escrow.checkpoints_verified = 2;
    ctx.escrow.verified_bitmap = 0b11;
    ctx.human.key = signer(7);
    assert_eq!(
        complete_and_release(&mut ctx, [4u8; 32]),
        Err(Failure::Refused(VHError::NotClaimed))
    );
    ctx.human.key = signer(2);
    assert_eq!(ctx, verified_task());
}
