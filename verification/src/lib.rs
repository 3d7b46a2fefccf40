//! An escrow exchange: offers that lock one asset and ask a minimum of
//! another, the rule that pairs two of them, and what each side is paid.
//!
//! An offer puts a quantity of one asset in escrow and names the least of
//! another asset that its owner accepts for all of it. Anyone may match two
//! offers whose price ranges cross: each side is paid out of the other's
//! escrow, the matcher earns a fee and half of any price improvement, and an
//! offer that is not used up stays open at its old price or a higher one.
//!
//! The library decides and the host acts. Every function here works on
//! accounts as they were read ([`account::AccountInfo`]) and answers with
//! what the host is to do ([`host::HostAction`]) and what the records are to
//! hold; it moves no asset and writes no account itself. Whoever drives it
//! performs the actions in the order given and hands back the accounts as
//! they stand afterwards where a later step reads them.
//!
//! - [`types`], [`fee`]: exact ratios, the fee schedule, and why an escrow
//!   always covers the fee.
//! - [`state`]: the offer, its record and its escrow.
//! - [`instructions`], [`processor`]: making, cancelling and matching offers.
//! - [`packun`]: the packed form of records and instructions.
//! - [`pda`], [`checks`]: derived addresses, and the tests that accounts pass.
//! - [`host`], [`cpi`]: what the host is asked to do, and the instructions to
//!   other programs that carry it out.

pub mod account;
pub mod address;
pub mod checks;
pub mod cpi;
pub mod error;
pub mod fee;
pub mod host;
pub mod instructions;
pub mod packun;
pub mod pda;
pub mod processor;
pub mod state;
pub mod types;

use vstd::prelude::*;
use crate::address::Address;

verus! {

/// The bytes of the address under which the exchange itself is deployed.
pub const ID: [u8; 32] = [
    6, 103, 234, 233, 182, 138, 143, 27, 129, 201, 249, 251, 75, 199, 200, 165,
    156, 203, 44, 221, 103, 250, 237, 3, 203, 255, 24, 96, 75, 152, 192, 24,
];

/// The address under which the exchange itself is deployed.
pub fn id() -> (a: Address)
    ensures
        a@ == ID@,
        a.bytes == ID,
{
    Address::new_from_array(ID)
}

} // verus!
