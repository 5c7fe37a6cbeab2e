use verify_human::error::VHError;
use verify_human::identity::Identity;
use verify_human::instructions::{
    CancelAndRefund, ClaimTask, CompleteAndRelease, CreateTask, Initialize, VerifyCheckpoint,
};
use verify_human::state::{Config, TaskEscrow, TaskStatus, Wallet};
use verify_human::{
    cancel_and_refund, claim_task, complete_and_release_at, create_task_at, initialize,
    verify_checkpoint,
};

fn party(tag: u8) -> Identity {
    Identity { bytes: [tag; 32] }
}

fn authority() -> Identity {
    party(0xA0)
}

fn agent() -> Identity {
    party(0xA1)
}

fn config_after(tasks: u64) -> Config {
    Config { authority: authority(), fee_bps: 0, task_count: tasks }
}

fn created(task_id: &str, checkpoints: u8, amount: u64, funds: u64) -> CreateTask {
    let mut ctx = CreateTask {
        config: config_after(0),
        escrow: None,
        custody: 0,
        agent: Wallet { key: agent(), balance: funds },
    };
    let now = 1_700_000_000;
    assert_eq!(create_task_at(&mut ctx, task_id.to_string(), checkpoints, amount, now), Ok(()));
    ctx
}

fn claimed(task: TaskEscrow, human: Identity) -> TaskEscrow {
    let mut ctx = ClaimTask { escrow: task, human };
    assert_eq!(claim_task(&mut ctx), Ok(()));
    ctx.escrow
}

fn verified(task: TaskEscrow, index: u8) -> TaskEscrow {
    let mut ctx =
        VerifyCheckpoint { config: config_after(1), escrow: task, authority: authority() };
    assert_eq!(verify_checkpoint(&mut ctx, index), Ok(()));
    ctx.escrow
}

#[test]
fn initialize_sets_authority_fee_and_zero_count() {
    let mut ctx = Initialize { config: None, authority: authority() };
    assert_eq!(initialize(&mut ctx, 250), Ok(()));
    assert_eq!(ctx.config, Some(Config { authority: authority(), fee_bps: 250, task_count: 0 }));
    assert_eq!(ctx.authority, authority());
}

#[test]
fn escrow_is_released_after_the_last_checkpoint() {
    let human = party(0xB0);
    let hash = [7u8; 32];

    let ctx = created("t1", 3, 1000, 5000);
    assert_eq!(ctx.custody, 1000);
    assert_eq!(ctx.agent.balance, 4000);
    assert_eq!(ctx.config.task_count, 1);
    let task = ctx.escrow.clone().unwrap();
    assert_eq!(task.status, TaskStatus::Open);
    assert_eq!(task.escrow_amount, 1000);
    assert_eq!(task.human, None);
    assert_eq!(task.checkpoints_verified, 0);
    assert_eq!(task.checkpoint_count, 3);
    assert!(task.is_well_formed());

    let task = claimed(task, human);
    assert_eq!(task.status, TaskStatus::Claimed);
    assert_eq!(task.human, Some(human));

    let task = verified(task, 0);
    let task = verified(task, 1);
    assert_eq!(task.checkpoints_verified, 2);
    assert_eq!(task.verified_bitmap, 0b011);

    let mut early = CompleteAndRelease {
        config: ctx.config,
        escrow: task,
        custody: ctx.custody,
        human: Wallet { key: human, balance: 30 },
        authority: authority(),
    };
    let before = early.clone();
    assert_eq!(
        complete_and_release_at(&mut early, hash, 1_700_000_500),
        Err(VHError::IncompleteCheckpoints)
    );
    assert_eq!(early, before);

    let task = verified(early.escrow, 2);
    assert_eq!(task.checkpoints_verified, 3);
    assert_eq!(task.verified_bitmap, 0b111);
    assert!(task.is_well_formed());

    let mut done = CompleteAndRelease { escrow: task, ..before };
    assert_eq!(complete_and_release_at(&mut done, hash, 1_700_000_900), Ok(()));
    assert_eq!(done.escrow.status, TaskStatus::Completed);
    assert_eq!(done.human.balance, 1030);
    assert_eq!(done.escrow.escrow_amount, 0);
    assert_eq!(done.custody, 0);
    assert_eq!(done.escrow.verification_hash, hash);
    assert_eq!(done.escrow.completed_at, 1_700_000_900);
    assert_eq!(done.escrow.human, Some(human));
    assert!(done.escrow.is_well_formed());
}

#[test]
fn agent_cancels_open_task_and_is_refunded() {
    let ctx = created("t2", 1, 500, 800);
    assert_eq!(ctx.agent.balance, 300);
    let mut cancel = CancelAndRefund {
        config: ctx.config,
        escrow: ctx.escrow.clone(),
        custody: ctx.custody,
        agent: ctx.agent,
        signer: agent(),
    };
    assert_eq!(cancel.escrow.as_ref().unwrap().status, TaskStatus::Open);
    assert_eq!(cancel_and_refund(&mut cancel), Ok(()));
    assert_eq!(cancel.agent.balance, 800);
    assert_eq!(cancel.custody, 0);
    assert_eq!(cancel.escrow, None);
}

#[test]
fn second_claim_is_refused_as_already_claimed() {
    let first = party(0xB1);
    let second = party(0xB2);
    let ctx = created("t3", 2, 100, 100);
    let task = claimed(ctx.escrow.unwrap(), first);
    assert_eq!(task.status, TaskStatus::Claimed);

    let mut again = ClaimTask { escrow: task, human: second };
    let before = again.clone();
    assert_eq!(claim_task(&mut again), Err(VHError::AlreadyClaimed));
    assert_eq!(again, before);
    assert_eq!(again.escrow.human, Some(first));
}

#[test]
fn index_equal_to_count_is_out_of_bounds() {
    let ctx = created("t3", 2, 100, 100);
    let task = claimed(ctx.escrow.unwrap(), party(0xB1));
    let mut verify = VerifyCheckpoint { config: ctx.config, escrow: task, authority: authority() };
    let before = verify.clone();
    assert_eq!(verify_checkpoint(&mut verify, 2), Err(VHError::CheckpointOutOfBounds));
    assert_eq!(verify, before);
}

#[test]
fn checkpoints_are_verified_in_any_order() {
    let ctx = created("any-order", 4, 10, 10);
    let task = claimed(ctx.escrow.unwrap(), party(1));
    let task = verified(task, 3);
    assert_eq!(task.verified_bitmap, 0b1000);
    let task = verified(task, 0);
    assert_eq!(task.verified_bitmap, 0b1001);
    let task = verified(task, 2);
    assert_eq!(task.verified_bitmap, 0b1101);
    assert_eq!(task.checkpoints_verified, 3);
    let task = verified(task, 1);
    assert_eq!(task.verified_bitmap, 0b1111);
    assert_eq!(task.checkpoints_verified, 4);
    assert!(task.is_well_formed());
}

#[test]
fn verified_checkpoint_cannot_be_verified_again() {
    let ctx = created("twice", 3, 10, 10);
    let task = claimed(ctx.escrow.unwrap(), party(1));
    let task = verified(task, 1);
    let mut again = VerifyCheckpoint { config: ctx.config, escrow: task, authority: authority() };
    let before = again.clone();
    assert_eq!(verify_checkpoint(&mut again, 1), Err(VHError::CheckpointAlreadyVerified));
    assert_eq!(again, before);
    assert_eq!(again.escrow.checkpoints_verified, 1);
}

#[test]
fn completion_is_refused_until_the_last_checkpoint() {
    let human = party(3);
    for count in 1u8..=10 {
        let ctx = created("count", count, 77, 77);
        let mut task = claimed(ctx.escrow.unwrap(), human);
        for index in 0..count {
            let mut early = CompleteAndRelease {
                config: ctx.config,
                escrow: task.clone(),
                custody: ctx.custody,
                human: Wallet { key: human, balance: 0 },
                authority: authority(),
            };
            assert_eq!(
                complete_and_release_at(&mut early, [1u8; 32], 5),
                Err(VHError::IncompleteCheckpoints)
            );
            task = verified(task, index);
        }
        assert_eq!(task.checkpoints_verified, count);
        let mut done = CompleteAndRelease {
            config: ctx.config,
            escrow: task,
            custody: ctx.custody,
            human: Wallet { key: human, balance: 0 },
            authority: authority(),
        };
        assert_eq!(complete_and_release_at(&mut done, [1u8; 32], 5), Ok(()));
        assert_eq!(done.human.balance, 77);
    }
}

#[test]
fn task_without_checkpoints_completes_after_claim() {
    let human = party(3);
    let ctx = created("none", 0, 5, 5);
    let task = claimed(ctx.escrow.unwrap(), human);
    let mut done = CompleteAndRelease {
        config: ctx.config,
        escrow: task,
        custody: ctx.custody,
        human: Wallet { key: human, balance: 1 },
        authority: authority(),
    };
    assert_eq!(complete_and_release_at(&mut done, [0u8; 32], 9), Ok(()));
    assert_eq!(done.human.balance, 6);
}

#[test]
fn release_conserves_value_and_leaves_the_deposit() {
    let human = party(4);
    let mut ctx = CreateTask {
        config: config_after(41),
        escrow: None,
        custody: 2_000,
        agent: Wallet { key: agent(), balance: 10_000 },
    };
    assert_eq!(create_task_at(&mut ctx, "deposit".to_string(), 1, 3_000, 50), Ok(()));
    assert_eq!(ctx.custody, 5_000);
    assert_eq!(ctx.agent.balance, 7_000);
    assert_eq!(ctx.config.task_count, 42);
    let task = verified(claimed(ctx.escrow.unwrap(), human), 0);
    let mut done = CompleteAndRelease {
        config: ctx.config,
        escrow: task,
        custody: ctx.custody,
        human: Wallet { key: human, balance: 400 },
        authority: authority(),
    };
    assert_eq!(complete_and_release_at(&mut done, [9u8; 32], 60), Ok(()));
    assert_eq!(done.custody, 2_000);
    assert_eq!(done.human.balance, 3_400);
    assert_eq!(done.custody + done.human.balance, 5_000 + 400);
}

#[test]
fn cancellation_refunds_escrow_and_deposit() {
    let mut ctx = CreateTask {
        config: config_after(0),
        escrow: None,
        custody: 2_000,
        agent: Wallet { key: agent(), balance: 10_000 },
    };
    assert_eq!(create_task_at(&mut ctx, "refund".to_string(), 2, 3_000, 50), Ok(()));
    let task = claimed(ctx.escrow.unwrap(), party(5));
    let mut cancel = CancelAndRefund {
        config: ctx.config,
        escrow: Some(task),
        custody: ctx.custody,
        agent: ctx.agent,
        signer: authority(),
    };
    assert_eq!(cancel_and_refund(&mut cancel), Ok(()));
    assert_eq!(cancel.agent.balance, 12_000);
    assert_eq!(cancel.custody, 0);
    assert_eq!(cancel.escrow, None);
}

#[test]
fn cancelled_task_cannot_be_cancelled_again() {
    let ctx = created("gone", 1, 500, 500);
    let mut cancel = CancelAndRefund {
        config: ctx.config,
        escrow: ctx.escrow,
        custody: ctx.custody,
        agent: ctx.agent,
        signer: agent(),
    };
    assert_eq!(cancel_and_refund(&mut cancel), Ok(()));
    let before = cancel.clone();
    assert_eq!(cancel_and_refund(&mut cancel), Err(VHError::InvalidTaskStatus));
    assert_eq!(cancel, before);
    assert_eq!(cancel.agent.balance, 500);
}

#[test]
fn completed_task_cannot_be_cancelled() {
    let human = party(6);
    let ctx = created("kept", 1, 500, 500);
    let task = verified(claimed(ctx.escrow.unwrap(), human), 0);
    let mut done = CompleteAndRelease {
        config: ctx.config,
        escrow: task,
        custody: ctx.custody,
        human: Wallet { key: human, balance: 0 },
        authority: authority(),
    };
    assert_eq!(complete_and_release_at(&mut done, [2u8; 32], 70), Ok(()));
    for signer in [authority(), agent()] {
        let mut cancel = CancelAndRefund {
            config: done.config,
            escrow: Some(done.escrow.clone()),
            custody: done.custody,
            agent: ctx.agent,
            signer,
        };
        let before = cancel.clone();
        assert_eq!(cancel_and_refund(&mut cancel), Err(VHError::InvalidTaskStatus));
        assert_eq!(cancel, before);
    }
}

#[test]
fn completed_task_accepts_nothing_more() {
    let human = party(6);
    let ctx = created("final", 2, 9, 9);
    let task = verified(verified(claimed(ctx.escrow.unwrap(), human), 0), 1);
    let mut done = CompleteAndRelease {
        config: ctx.config,
        escrow: task,
        custody: ctx.custody,
        human: Wallet { key: human, balance: 0 },
        authority: authority(),
    };
    assert_eq!(complete_and_release_at(&mut done, [2u8; 32], 70), Ok(()));
    let after = done.clone();
    assert_eq!(complete_and_release_at(&mut done, [3u8; 32], 80), Err(VHError::InvalidTaskStatus));
    assert_eq!(done, after);

    let mut claim = ClaimTask { escrow: done.escrow.clone(), human: party(7) };
    assert_eq!(claim_task(&mut claim), Err(VHError::InvalidTaskStatus));
    assert_eq!(claim.escrow, done.escrow);
    let mut verify = VerifyCheckpoint {
        config: done.config,
        escrow: done.escrow.clone(),
        authority: authority(),
    };
    assert_eq!(verify_checkpoint(&mut verify, 0), Err(VHError::InvalidTaskStatus));
}

#[test]
fn count_of_verified_checkpoints_matches_the_bitmap_throughout() {
    let order: [u8; 10] = [7, 2, 9, 0, 4, 1, 8, 3, 6, 5];
    let ctx = created("in-step", 10, 1, 1);
    let mut task = ctx.escrow.unwrap();
    assert_eq!(u32::from(task.checkpoints_verified), task.verified_bitmap.count_ones());
    task = claimed(task, party(8));
    assert_eq!(u32::from(task.checkpoints_verified), task.verified_bitmap.count_ones());
    for (done, index) in order.iter().enumerate() {
        // A refused attempt in between leaves both as they are.
        let mut refused = VerifyCheckpoint {
            config: ctx.config,
            escrow: task.clone(),
            authority: authority(),
        };
        assert_eq!(verify_checkpoint(&mut refused, 10), Err(VHError::CheckpointOutOfBounds));
        assert_eq!(refused.escrow, task);

        task = verified(task, *index);
        assert_eq!(usize::from(task.checkpoints_verified), done + 1);
        assert_eq!(u32::from(task.checkpoints_verified), task.verified_bitmap.count_ones());
        assert!(task.verified_bitmap & (1 << *index) != 0);
        assert!(task.is_well_formed());
    }
    assert_eq!(task.verified_bitmap, 0x03FF);
}
