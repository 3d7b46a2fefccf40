//! The records that the exchange keeps: offers and their escrows.

pub mod holding;
pub mod offer;

pub use holding::HoldingAccount;
pub use offer::{Offer, OfferAccount};
