use crate::error::VHError;
use crate::identity::Identity;
use crate::state::Config;
use vstd::prelude::*;

verus! {

/// What the creation of the configuration works on.
#[derive(Clone, Debug, PartialEq, Eq)]
pub struct Initialize {
    /// The stored configuration: none yet.
    pub config: Option<Config>,
    /// The caller, who becomes the authority.
    pub authority: Identity,
}

/// Creates the configuration: the caller is the authority, the fee is as
/// given, and no task has been counted.
pub fn handler(ctx: &mut Initialize, fee_bps: u16) -> (r: Result<(), VHError>)
    requires
        old(ctx).config is None,
    ensures
        r is Ok,
        final(ctx).config == Some(
            (Config { authority: old(ctx).authority, fee_bps: fee_bps, task_count: 0 }),
        ),
        final(ctx).authority == old(ctx).authority,
{
    ctx.config = Some(Config { authority: ctx.authority, fee_bps, task_count: 0 });
    Ok(())
}

} // verus!
