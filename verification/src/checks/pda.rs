//! The declared address of a new offer, held against the derived one.

use vstd::prelude::*;
use crate::account::AccountInfo;
use crate::address::Address;
use crate::checks::is_pubkey_matching;
use crate::error::{custom, host_error, ProgramError, SimpleDexError};
use crate::pda::{
    found_program_address, offer_seeds, offer_seeds_with_bump, program_address, try_find_offer_pda,
};

verus! {

/// What [`is_offer_pda`] returns for what the host finds: the first of
/// `InternalError` where it finds nothing, `InvalidOfferAccount` where the
/// account is not at the address found, `InvalidOfferBump` where the bump is
/// not the one found.
pub open spec fn is_offer_pda_spec(
    found: Result<(Address, u8), SimpleDexError>,
    actual: &AccountInfo,
    bump: u8,
) -> Result<(), ProgramError> {
    match found {
        Err(e) => Err(custom(e)),
        Ok((found_pubkey, found_bump)) => if actual.key@ != found_pubkey@ {
            Err(custom(SimpleDexError::InvalidOfferAccount))
        } else if bump != found_bump {
            Err(custom(SimpleDexError::InvalidOfferBump))
        } else {
            Ok(())
        },
    }
}

/// Holds the declared account and bump against what the host found.
pub fn check_offer_pda(
    found: Result<(Address, u8), SimpleDexError>,
    actual: &AccountInfo,
    bump: u8,
) -> (r: Result<(), ProgramError>)
    ensures
        r == is_offer_pda_spec(found, actual, bump),
{
    let (found_pubkey, found_bump) = host_error(found)?;
    host_error(is_pubkey_matching(actual, &found_pubkey, SimpleDexError::InvalidOfferAccount))?;
    match bump == found_bump {
        true => Ok(()),
        false => Err(ProgramError::from(SimpleDexError::InvalidOfferBump)),
    }
}

/// The account `actual` and the bump are the ones that the host finds for an
/// offer of `owner` on the two assets with `seed`.
///
/// Where it succeeds, the account's address is the one derived from those
/// fields and the bump.
pub fn is_offer_pda(
    actual: &AccountInfo,
    owner: &AccountInfo,
    offer_mint: &AccountInfo,
    accept_mint: &AccountInfo,
    seed: u16,
    bump: u8,
) -> (r: Result<(), ProgramError>)
    ensures
        match found_program_address(
            offer_seeds(owner.key@, offer_mint.key@, accept_mint.key@, seed),
            crate::ID@,
        ) {
            None => r == Err::<(), ProgramError>(custom(SimpleDexError::InternalError)),
            Some((found_address, found_bump)) => if actual.key@ != found_address {
                r == Err::<(), ProgramError>(custom(SimpleDexError::InvalidOfferAccount))
            } else if bump != found_bump {
                r == Err::<(), ProgramError>(custom(SimpleDexError::InvalidOfferBump))
            } else {
                r is Ok
            },
        },
        r is Ok ==> program_address(
            offer_seeds_with_bump(owner.key@, offer_mint.key@, accept_mint.key@, seed, bump),
            crate::ID@,
        ) == Some(actual.key@),
{
    let found = try_find_offer_pda(&owner.key, &offer_mint.key, &accept_mint.key, seed);
    check_offer_pda(found, actual, bump)
}

} // verus!
