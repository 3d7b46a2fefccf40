//! The escrow of an offer: the token account that the host associates with
//! the offer's address and the asset offered.

use vstd::prelude::*;
use crate::account::{Account, AccountInfo};
use crate::address::Address;
use crate::checks::program_id::ATA_PROGRAM_ID;
use crate::checks::token_account::{token_account_checked, token_account_checked_spec, TokenAccount};
use crate::error::{custom, host_error, ProgramError, SimpleDexError};
use crate::fee::{calc_fee, initial_escrow};
use crate::host::{HostAction, PdaSigner};
use crate::pda::{find_holding_address, found_program_address, holding_seeds};
use crate::state::offer::{Offer, OfferAccount};

verus! {

/// An offer's escrow: the account, and the token account read from it.
pub type HoldingAccount<'a> = Account<'a, TokenAccount>;

/// The escrow expected for an offer is the account presented.
pub open spec fn is_ata_of_spec(expected: Option<Address>, actual: &AccountInfo) -> bool {
    expected is Some && expected->0@ == actual.key@
}

/// What [`HoldingAccount::load_checked`] reads for the offer at `offer` with
/// the asset `offer_mint`.
pub open spec fn holding_load_checked_spec(
    holding_account: &AccountInfo,
    offer: Seq<u8>,
    offer_mint: Seq<u8>,
) -> Result<TokenAccount, ProgramError> {
    match token_account_checked_spec(holding_account) {
        Err(e) => Err(e),
        Ok(data) => match found_program_address(holding_seeds(offer, offer_mint), ATA_PROGRAM_ID@) {
            Some((expected, _)) if expected == holding_account.key@ => Ok(data),
            _ => Err(custom(SimpleDexError::InvalidHoldingAccount)),
        },
    }
}

/// What [`HoldingAccount::reload`] reads for the escrow at `holding` from
/// the account `account_info`.
pub open spec fn reload_spec(
    holding: Address,
    account_info: &AccountInfo,
) -> Result<TokenAccount, ProgramError> {
    if account_info.key@ != holding@ {
        Err(custom(SimpleDexError::InvalidHoldingAccount))
    } else {
        token_account_checked_spec(account_info)
    }
}

/// What funds the escrow of a new offer: the offering and the fee on it are
/// paid into the escrow on the owner's authority, unless the two together
/// do not fit in 64 bits.
pub open spec fn funding_spec(
    holding: Address,
    owner: Address,
    pay_from: Address,
    offering: u64,
) -> Result<HostAction, ProgramError> {
    if initial_escrow(offering as nat) <= u64::MAX {
        Ok(
            HostAction::TokenTransfer {
                source: pay_from,
                destination: holding,
                authority: owner,
                amount: initial_escrow(offering as nat) as u64,
                derived_from: None,
            },
        )
    } else {
        Err(custom(SimpleDexError::NumericalError))
    }
}

impl<'a> Account<'a, TokenAccount> {
    /// What the host is asked to do so that the escrow of the offer at
    /// `offer_acc` exists for the asset `offer_mint`, paid for by `payer`.
    pub fn create_to(
        payer: &AccountInfo,
        offer_acc: &AccountInfo,
        offer_mint: &AccountInfo,
    ) -> (action: HostAction)
        ensures
            action == (HostAction::CreateAssociatedTokenAccount {
                payer: payer.key,
                wallet: offer_acc.key,
                mint: offer_mint.key,
            }),
    {
        HostAction::CreateAssociatedTokenAccount {
            payer: payer.key,
            wallet: offer_acc.key,
            mint: offer_mint.key,
        }
    }

    /// The escrow that the host made, read from the account as it stands
    /// after that. Fails where the account holds no token account.
    pub fn created(
        new_holding_account: &'a AccountInfo,
    ) -> (r: Result<HoldingAccount<'a>, ProgramError>)
        ensures
            match token_account_checked_spec(new_holding_account) {
                Ok(data) => r is Ok && r->Ok_0.account_info == new_holding_account && r->Ok_0.data
                    == data,
                Err(e) => r is Err && r->Err_0 == e,
            },
    {
        let data = token_account_checked(new_holding_account)?;
        Ok(Account { account_info: new_holding_account, data })
    }

    /// The escrow of the offer, read from `holding_account`. Fails where the
    /// account holds no token account, and with `InvalidHoldingAccount` where
    /// it is not the account that the host associates with the offer's
    /// address and the asset offered.
    pub fn load_checked(
        holding_account: &'a AccountInfo,
        offer_account: &OfferAccount,
    ) -> (r: Result<HoldingAccount<'a>, ProgramError>)
        ensures
            match holding_load_checked_spec(
                holding_account,
                offer_account.account_info.key@,
                offer_account.data.offer_mint@,
            ) {
                Ok(data) => r is Ok && r->Ok_0.account_info == holding_account && r->Ok_0.data
                    == data,
                Err(e) => r is Err && r->Err_0 == e,
            },
    {
        let data = token_account_checked(holding_account)?;
        let res = Account { account_info: holding_account, data };
        let expected = find_holding_address(
            &offer_account.account_info.key,
            &offer_account.data.offer_mint,
        );
        host_error(res.is_ata_of(expected))?;
        Ok(res)
    }

    /// Holds the escrow against the address expected for it:
    /// `InvalidHoldingAccount` where none is expected or it is another.
    pub fn is_ata_of(&self, expected: Option<Address>) -> (r: Result<(), SimpleDexError>)
        ensures
            is_ata_of_spec(expected, self.account_info) ==> r is Ok,
            !is_ata_of_spec(expected, self.account_info) ==> r == Err::<(), SimpleDexError>(
                SimpleDexError::InvalidHoldingAccount,
            ),
    {
        match expected {
            Some(address) => match address == self.account_info.key {
                true => Ok(()),
                false => Err(SimpleDexError::InvalidHoldingAccount),
            },
            None => Err(SimpleDexError::InvalidHoldingAccount),
        }
    }

    /// What funds the escrow at `holding` of a new offer: the offering and
    /// the fee on it, from `pay_from` on the owner's authority. Fails with
    /// `NumericalError` where the two together do not fit in 64 bits.
    pub fn funding(
        holding: &AccountInfo,
        owner: &AccountInfo,
        pay_from: &AccountInfo,
        offer: &Offer,
    ) -> (r: Result<HostAction, ProgramError>)
        ensures
            r == funding_spec(holding.key, owner.key, pay_from.key, offer.offering),
    {
        let fee = host_error(calc_fee(offer.offering))?;
        let amt = match offer.offering.checked_add(fee) {
            Some(sum) => sum,
            None => {
                return Err(ProgramError::from(SimpleDexError::NumericalError));
            },
        };
        Ok(
            HostAction::TokenTransfer {
                source: pay_from.key,
                destination: holding.key,
                authority: owner.key,
                amount: amt,
                derived_from: None,
            },
        )
    }

    /// What funds this escrow for a new offer: see [`HoldingAccount::funding`].
    pub fn receive_holding_tokens(
        &self,
        owner: &AccountInfo,
        pay_from: &AccountInfo,
        offer: &Offer,
    ) -> (r: Result<HostAction, ProgramError>)
        ensures
            r == funding_spec(self.account_info.key, owner.key, pay_from.key, offer.offering),
    {
        Self::funding(self.account_info, owner, pay_from, offer)
    }

    /// What pays `amt` out of the escrow to `to`, on the authority of the
    /// offer.
    pub fn transfer(&self, offer: &OfferAccount, to: &AccountInfo, amt: u64) -> (action: HostAction)
        ensures
            action == (HostAction::TokenTransfer {
                source: self.account_info.key,
                destination: to.key,
                authority: offer.account_info.key,
                amount: amt,
                derived_from: Some(PdaSigner::of_spec(&offer.data)),
            }),
    {
        HostAction::TokenTransfer {
            source: self.account_info.key,
            destination: to.key,
            authority: offer.account_info.key,
            amount: amt,
            derived_from: Some(PdaSigner::of(&offer.data)),
        }
    }

    /// What closes the escrow: its whole balance is paid to `refund_to`,
    /// then the account is closed and its storage deposit goes to
    /// `refund_rent_to`.
    pub fn close(
        self,
        offer: &OfferAccount,
        refund_to: &AccountInfo,
        refund_rent_to: &AccountInfo,
    ) -> (actions: (HostAction, HostAction))
        ensures
            actions.0 == (HostAction::TokenTransfer {
                source: self.account_info.key,
                destination: refund_to.key,
                authority: offer.account_info.key,
                amount: self.data.amount,
                derived_from: Some(PdaSigner::of_spec(&offer.data)),
            }),
            actions.1 == (HostAction::CloseTokenAccount {
                account: self.account_info.key,
                destination: refund_rent_to.key,
                authority: offer.account_info.key,
                signer: PdaSigner::of_spec(&offer.data),
            }),
    {
        let refund = self.transfer(offer, refund_to, self.data.amount);
        let close = HostAction::CloseTokenAccount {
            account: self.account_info.key,
            destination: refund_rent_to.key,
            authority: offer.account_info.key,
            signer: PdaSigner::of(&offer.data),
        };
        (refund, close)
    }

    /// The escrow read again from its own account as it stands now. Fails
    /// with `InvalidHoldingAccount` where `account_info` is another account
    /// than the one that the escrow was read from, else where the account
    /// holds no token account.
    pub fn reload(
        self,
        account_info: &'a AccountInfo,
    ) -> (r: Result<HoldingAccount<'a>, ProgramError>)
        ensures
            match reload_spec(self.account_info.key, account_info) {
                Ok(data) => r is Ok && r->Ok_0.account_info == account_info && r->Ok_0.data
                    == data,
                Err(e) => r is Err && r->Err_0 == e,
            },
    {
        if account_info.key != self.account_info.key {
            return Err(ProgramError::from(SimpleDexError::InvalidHoldingAccount));
        }
        let data = token_account_checked(account_info)?;
        Ok(Account { account_info, data })
    }
}

} // verus!
