//! Accounts as the engine sees them.

use vstd::prelude::*;
use crate::address::Address;

verus! {

/// What the engine reads of an account of the host, taken when an
/// instruction starts or after the host did something on its behalf.
#[derive(Debug)]
pub struct AccountInfo {
    /// The account's address.
    pub key: Address,
    /// The program that owns the account.
    pub owner: Address,
    /// The account signed the transaction.
    pub is_signer: bool,
    /// The storage deposit that the account holds.
    pub lamports: u64,
    /// The account's bytes.
    pub data: Vec<u8>,
}

/// An account together with the record read from its bytes.
pub struct Account<'a, T> {
    pub account_info: &'a AccountInfo,
    pub data: T,
}

impl<'a, T> Account<'a, T> {
    /// The account's address.
    pub fn key(&self) -> (key: Address)
        ensures
            key == self.account_info.key,
    {
        self.account_info.key
    }
}

} // verus!
