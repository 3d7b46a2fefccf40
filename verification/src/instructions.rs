//! The three instructions of the exchange: make an offer, cancel it, match two.

pub mod cancel_offer;
pub mod create_offer;
pub mod match_offers;
pub mod packun;

use vstd::prelude::*;
use crate::instructions::create_offer::CreateOfferArgs;

verus! {

/// An instruction to the exchange.
#[derive(Clone, Copy, Debug, PartialEq, Eq, Structural)]
pub enum SimpleDexInstruction {
    /// Make an offer.
    CreateOffer(CreateOfferArgs),
    /// Cancel an offer and take back what is left of it.
    CancelOffer,
    /// Settle two offers against each other.
    MatchOffers,
}

impl SimpleDexInstruction {
    /// The number of bytes of a packed instruction to make an offer.
    pub const PACKED_LEN_CREATE_OFFER: usize = 20;

    /// The number of bytes of a packed instruction to cancel an offer.
    pub const PACKED_LEN_CANCEL_OFFER: usize = 1;

    /// The number of bytes of a packed instruction to match two offers.
    pub const PACKED_LEN_MATCH_OFFERS: usize = 1;
}

} // verus!
