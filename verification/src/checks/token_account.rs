//! Token accounts: what the engine reads of them, and the tests they pass.

use vstd::prelude::*;
use solana_program::program_error::ProgramError as HostProgramError;
use solana_program::program_pack::Pack;
use spl_token::state::{Account as HostTokenAccount, AccountState};
use crate::account::AccountInfo;
use crate::address::Address;
use crate::checks::program_id::TOKEN_PROGRAM_ID;
use crate::error::{ProgramError, SimpleDexError};

verus! {

/// The state of a token account.
#[derive(Clone, Copy, Debug, PartialEq, Eq, Structural)]
pub enum TokenAccountState {
    /// Not yet set up.
    Uninitialized,
    /// In use.
    Initialized,
    /// In use, and barred from every transfer.
    Frozen,
}

/// What the engine reads of a token account.
#[derive(Clone, Copy, Debug)]
pub struct TokenAccount {
    /// The asset that the account holds.
    pub mint: Address,
    /// Who may move the balance.
    pub owner: Address,
    /// The balance.
    pub amount: u64,
    pub state: TokenAccountState,
}

impl TokenAccount {
    /// The account is barred from every transfer.
    pub fn is_frozen(&self) -> (r: bool)
        ensures
            r == (self.state == TokenAccountState::Frozen),
    {
        self.state == TokenAccountState::Frozen
    }
}

/// What the token program's `Account::unpack` makes of an account's bytes:
/// the token account that they hold, or the host's error.
pub uninterp spec fn unpacked_token_account(data: Seq<u8>) -> Result<TokenAccount, ProgramError>;

/// Calls `spl_token::state::Account::unpack`.
///
/// Trusted: the result is what the token program reads from these bytes, the
/// fields carried over one for one. The two errors that the call gives are
/// kept apart: bytes that are no token account, and an account not set up.
#[verifier::external_body]
fn unpack_token_account(data: &[u8]) -> (r: Result<TokenAccount, ProgramError>)
    ensures
        r == unpacked_token_account(data@),
{
    match HostTokenAccount::unpack(data) {
        Ok(a) => Ok(TokenAccount {
            mint: Address { bytes: a.mint.to_bytes() },
            owner: Address { bytes: a.owner.to_bytes() },
            amount: a.amount,
            state: match a.state {
                AccountState::Uninitialized => TokenAccountState::Uninitialized,
                AccountState::Initialized => TokenAccountState::Initialized,
                AccountState::Frozen => TokenAccountState::Frozen,
            },
        }),
        Err(HostProgramError::UninitializedAccount) => Err(ProgramError::UninitializedAccount),
        Err(_) => Err(ProgramError::InvalidAccountData),
    }
}

/// What [`token_account_checked`] returns.
pub open spec fn token_account_checked_spec(
    actual: &AccountInfo,
) -> Result<TokenAccount, ProgramError> {
    if actual.owner@ != TOKEN_PROGRAM_ID@ {
        Err(ProgramError::IllegalOwner)
    } else {
        unpacked_token_account(actual.data@)
    }
}

/// The token account that `actual` holds. Fails with `IllegalOwner` where
/// the account is not the token program's, else with what the token program
/// says of its bytes.
pub fn token_account_checked(actual: &AccountInfo) -> (r: Result<TokenAccount, ProgramError>)
    ensures
        r == token_account_checked_spec(actual),
{
    if actual.owner != crate::checks::program_id::token_program_id() {
        return Err(ProgramError::IllegalOwner);
    }
    unpack_token_account(actual.data.as_slice())
}

/// The token account holds the asset expected; `IncorrectMint` where it
/// holds another.
pub fn is_of_mint(
    token_account: &TokenAccount,
    expected_mint: &Address,
) -> (r: Result<(), SimpleDexError>)
    ensures
        token_account.mint@ == expected_mint@ ==> r is Ok,
        token_account.mint@ != expected_mint@ ==> r == Err::<(), SimpleDexError>(
            SimpleDexError::IncorrectMint,
        ),
{
    match token_account.mint == *expected_mint {
        true => Ok(()),
        false => Err(SimpleDexError::IncorrectMint),
    }
}

/// The token account is not frozen; `TokenAccountFrozen` where it is.
pub fn is_not_frozen(token_account: &TokenAccount) -> (r: Result<(), SimpleDexError>)
    ensures
        token_account.state != TokenAccountState::Frozen ==> r is Ok,
        token_account.state == TokenAccountState::Frozen ==> r == Err::<(), SimpleDexError>(
            SimpleDexError::TokenAccountFrozen,
        ),
{
    match token_account.is_frozen() {
        true => Err(SimpleDexError::TokenAccountFrozen),
        false => Ok(()),
    }
}

} // verus!
