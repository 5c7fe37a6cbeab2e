pub mod cancel_and_refund;
pub mod claim_task;
pub mod complete_and_release;
pub mod create_task;
pub mod initialize;
pub mod verify_checkpoint;

pub use cancel_and_refund::CancelAndRefund;
pub use claim_task::ClaimTask;
pub use complete_and_release::CompleteAndRelease;
pub use create_task::CreateTask;
pub use initialize::Initialize;
pub use verify_checkpoint::VerifyCheckpoint;
