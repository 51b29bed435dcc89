use anchor_lang::prelude::{Clock, ProgramError, SolanaSysvar};
use vstd::prelude::*;

verus! {

/// `ProgramError`, the error with which the chain's runtime refuses a
/// request. Nothing is known of its contents here; it is only handed on.
#[verifier::external_type_specification]
#[verifier::external_body]
pub struct ExProgramError(anchor_lang::prelude::ProgramError);

/// Asks the chain's runtime for the current time, in seconds since the Unix
/// epoch, by `Clock::get`. The answer is the runtime's: nothing is claimed of
/// it, neither that a time comes back nor which.
#[verifier::external_body]
pub(crate) fn unix_timestamp() -> (reading: Result<i64, ProgramError>) {
    match Clock::get() {
        Ok(clock) => Ok(clock.unix_timestamp),
        Err(error) => Err(error),
    }
}

} // verus!
