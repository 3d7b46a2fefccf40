//! Mints: the accounts that define an asset.

use vstd::prelude::*;
use solana_program::program_error::ProgramError as HostProgramError;
use solana_program::program_pack::Pack;
use spl_token::state::Mint;
use crate::account::AccountInfo;
use crate::checks::program_id::TOKEN_PROGRAM_ID;
use crate::error::ProgramError;

verus! {

/// What the token program's `Mint::unpack` makes of an account's bytes: that
/// they hold a mint that was set up, or the host's error.
pub uninterp spec fn unpacked_mint(data: Seq<u8>) -> Result<(), ProgramError>;

/// Calls `spl_token::state::Mint::unpack`.
///
/// Trusted: the result tells whether the token program reads a mint from
/// these bytes. The two errors that the call gives are kept apart: bytes that
/// are no mint, and a mint not set up.
#[verifier::external_body]
fn unpack_mint(data: &[u8]) -> (r: Result<(), ProgramError>)
    ensures
        r == unpacked_mint(data@),
{
    match Mint::unpack(data) {
        Ok(_) => Ok(()),
        Err(HostProgramError::UninitializedAccount) => Err(ProgramError::UninitializedAccount),
        Err(_) => Err(ProgramError::InvalidAccountData),
    }
}

/// What [`mint_account_checked`] returns.
pub open spec fn mint_account_checked_spec(actual: &AccountInfo) -> Result<(), ProgramError> {
    if actual.owner@ != TOKEN_PROGRAM_ID@ {
        Err(ProgramError::IllegalOwner)
    } else {
        unpacked_mint(actual.data@)
    }
}

/// The account holds a mint that was set up. Fails with `IllegalOwner` where
/// the account is not the token program's, else with what the token program
/// says of its bytes.
pub fn mint_account_checked(actual: &AccountInfo) -> (r: Result<(), ProgramError>)
    ensures
        r == mint_account_checked_spec(actual),
{
    if actual.owner != crate::checks::program_id::token_program_id() {
        return Err(ProgramError::IllegalOwner);
    }
    unpack_mint(actual.data.as_slice())
}

} // verus!
