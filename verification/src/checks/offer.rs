//! The accounts that an offer names, held against the ones presented.

use vstd::prelude::*;
use crate::address::Address;
use crate::error::SimpleDexError;
use crate::state::offer::Offer;

verus! {

/// `actual` is the offer's owner; `IncorrectOwner` where it is not.
pub fn is_owner(actual: &Address, offer: &Offer) -> (r: Result<(), SimpleDexError>)
    ensures
        actual@ == offer.owner@ ==> r is Ok,
        actual@ != offer.owner@ ==> r == Err::<(), SimpleDexError>(SimpleDexError::IncorrectOwner),
{
    match *actual == offer.owner {
        true => Ok(()),
        false => Err(SimpleDexError::IncorrectOwner),
    }
}

/// `actual` is where the offer's remainder is refunded; `IncorrectRefundTo`
/// where it is not.
pub fn is_refund_to(actual: &Address, offer: &Offer) -> (r: Result<(), SimpleDexError>)
    ensures
        actual@ == offer.refund_to@ ==> r is Ok,
        actual@ != offer.refund_to@ ==> r == Err::<(), SimpleDexError>(
            SimpleDexError::IncorrectRefundTo,
        ),
{
    match *actual == offer.refund_to {
        true => Ok(()),
        false => Err(SimpleDexError::IncorrectRefundTo),
    }
}

/// `actual` is where the offer's storage deposits are refunded;
/// `IncorrectRefundRentTo` where it is not.
pub fn is_refund_rent_to(actual: &Address, offer: &Offer) -> (r: Result<(), SimpleDexError>)
    ensures
        actual@ == offer.refund_rent_to@ ==> r is Ok,
        actual@ != offer.refund_rent_to@ ==> r == Err::<(), SimpleDexError>(
            SimpleDexError::IncorrectRefundRentTo,
        ),
{
    match *actual == offer.refund_rent_to {
        true => Ok(()),
        false => Err(SimpleDexError::IncorrectRefundRentTo),
    }
}

/// `actual` is where the offer is credited; `IncorrectCreditTo` where it is
/// not.
pub fn is_credit_to(actual: &Address, offer: &Offer) -> (r: Result<(), SimpleDexError>)
    ensures
        actual@ == offer.credit_to@ ==> r is Ok,
        actual@ != offer.credit_to@ ==> r == Err::<(), SimpleDexError>(
            SimpleDexError::IncorrectCreditTo,
        ),
{
    match *actual == offer.credit_to {
        true => Ok(()),
        false => Err(SimpleDexError::IncorrectCreditTo),
    }
}

} // verus!
