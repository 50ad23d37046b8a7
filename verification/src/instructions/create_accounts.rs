use vstd::prelude::*;

use crate::error::ErrorCode;

verus! {

/// Creating the pool's token account has no check of its own: the account is
/// set up by the runtime before the instruction runs, and the instruction
/// always succeeds.
pub fn create_accounts_handler() -> (r: Result<(), ErrorCode>)
    ensures
        r is Ok,
{
    Ok(())
}

} // verus!
