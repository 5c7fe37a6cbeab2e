use anchor_lang::prelude::Clock;
use anchor_lang::solana_program::sysvar::Sysvar;
use vstd::prelude::*;

verus! {

/// The error with which the runtime answers a call that it cannot serve.
/// The library hands such an error on and looks at nothing inside it.
#[verifier::external_type_specification]
#[verifier::external_body]
pub struct ExProgramError(anchor_lang::solana_program::program_error::ProgramError);

/// Asks the runtime for the time: calls `Clock::get` and returns the Unix
/// timestamp of the clock it hands back, or else the error it hands back.
/// Nothing is claimed of the result. The time is what the runtime says it
/// is, and where no runtime serves the call, the call fails.
#[verifier::external_body]
pub(crate) fn unix_timestamp() -> (r: Result<
    i64,
    anchor_lang::solana_program::program_error::ProgramError,
>) {
    match Clock::get() {
        Ok(clock) => Ok(clock.unix_timestamp),
        Err(error) => Err(error),
    }
}

} // verus!
