use crate::identity::Identity;
use crate::state::{Config, TaskEscrow};
use vstd::prelude::*;

verus! {

/// `caller` is the authority that `config` names.
pub open spec fn holds_authority(config: Config, caller: Identity) -> bool {
    caller == config.authority
}

/// `caller` may cancel `task`: the authority may, and so may the agent who
/// funded the task.
pub open spec fn may_cancel(config: Config, task: TaskEscrow, caller: Identity) -> bool {
    caller == config.authority || caller == task.agent
}

/// `recipient` is the agent who funded `task`, to whom a refund goes.
pub open spec fn receives_refund(task: TaskEscrow, recipient: Identity) -> bool {
    recipient == task.agent
}

/// `recipient` is the human who claimed `task`, to whom a release goes.
pub open spec fn receives_release(task: TaskEscrow, recipient: Identity) -> bool {
    task.human == Some(recipient)
}

/// Whether `caller` is the authority that `config` names.
pub fn is_authority(config: &Config, caller: &Identity) -> (r: bool)
    ensures
        r == holds_authority(*config, *caller),
{
    *caller == config.authority
}

/// Whether `caller` may cancel `task`.
pub fn can_cancel(config: &Config, task: &TaskEscrow, caller: &Identity) -> (r: bool)
    ensures
        r == may_cancel(*config, *task, *caller),
{
    *caller == config.authority || *caller == task.agent
}

/// Whether `recipient` is the agent who funded `task`.
pub fn is_refund_recipient(task: &TaskEscrow, recipient: &Identity) -> (r: bool)
    ensures
        r == receives_refund(*task, *recipient),
{
    *recipient == task.agent
}

/// Whether `recipient` is the human who claimed `task`.
pub fn is_release_recipient(task: &TaskEscrow, recipient: &Identity) -> (r: bool)
    ensures
        r == receives_release(*task, *recipient),
{
    match task.human {
        Some(human) => human == *recipient,
        None => false,
    }
}

} // verus!
