//! The tests that accounts pass before an instruction acts on them.

pub mod account_meta;
pub mod mint;
pub mod offer;
pub mod pda;
pub mod program_id;
pub mod token_account;

pub use account_meta::is_signer;
pub use mint::mint_account_checked;
pub use offer::{is_credit_to, is_owner, is_refund_rent_to, is_refund_to};
pub use pda::is_offer_pda;
pub use program_id::{is_ata_program, is_system_program, is_token_program};
pub use token_account::{is_not_frozen, is_of_mint, token_account_checked};

use vstd::prelude::*;
use crate::account::AccountInfo;
use crate::address::Address;

verus! {

/// The account is the one expected; `err` where it is another.
pub fn is_pubkey_matching<E>(actual: &AccountInfo, expected: &Address, err: E) -> (r: Result<(), E>)
    ensures
        actual.key@ == expected@ ==> r is Ok,
        actual.key@ != expected@ ==> r == Err::<(), E>(err),
{
    match actual.key == *expected {
        true => Ok(()),
        false => Err(err),
    }
}

/// The account is not the one excluded; `err` where it is.
pub fn is_not_pubkey<E>(actual: &AccountInfo, not: &Address, err: E) -> (r: Result<(), E>)
    ensures
        actual.key@ != not@ ==> r is Ok,
        actual.key@ == not@ ==> r == Err::<(), E>(err),
{
    match actual.key == *not {
        true => Err(err),
        false => Ok(()),
    }
}

} // verus!
