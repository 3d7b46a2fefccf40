//! Who signed.

use vstd::prelude::*;
use crate::account::AccountInfo;
use crate::error::ProgramError;

verus! {

/// The account signed the transaction; `MissingRequiredSignature` where it
/// did not.
pub fn is_signer(a: &AccountInfo) -> (r: Result<(), ProgramError>)
    ensures
        a.is_signer ==> r is Ok,
        !a.is_signer ==> r == Err::<(), ProgramError>(ProgramError::MissingRequiredSignature),
{
    match a.is_signer {
        true => Ok(()),
        false => Err(ProgramError::MissingRequiredSignature),
    }
}

} // verus!
