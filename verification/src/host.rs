//! What the exchange asks of the host, and what a client sends to the
//! exchange. The instructions that carry the actions out are in
//! [`crate::cpi`].

use vstd::prelude::*;
use crate::address::Address;
use crate::pda::{offer_pda_seeds_with_bump, offer_seeds_with_bump};
use crate::state::offer::Offer;

verus! {

/// The fields from which an offer's address is derived. The host lets the
/// exchange act for that address when it is shown them.
#[derive(Clone, Copy, Debug, PartialEq, Eq)]
pub struct PdaSigner {
    pub owner: Address,
    pub offer_mint: Address,
    pub accept_mint: Address,
    pub seed: u16,
    pub bump: u8,
}

impl PdaSigner {
    /// The fields of `offer` from which its address is derived.
    pub open spec fn of_spec(offer: &Offer) -> PdaSigner {
        PdaSigner {
            owner: offer.owner,
            offer_mint: offer.offer_mint,
            accept_mint: offer.accept_mint,
            seed: offer.seed,
            bump: offer.bump,
        }
    }

    /// The seeds that the fields give, the bump last: what the host is
    /// shown so that it lets the exchange act for the offer's address.
    pub fn seeds(&self) -> (seeds: Vec<Vec<u8>>)
        ensures
            seeds.deep_view() == offer_seeds_with_bump(
                self.owner@,
                self.offer_mint@,
                self.accept_mint@,
                self.seed,
                self.bump,
            ),
    {
        offer_pda_seeds_with_bump(
            &self.owner,
            &self.offer_mint,
            &self.accept_mint,
            self.seed,
            self.bump,
        )
    }

    /// The fields of `offer` from which its address is derived.
    pub fn of(offer: &Offer) -> (signer: PdaSigner)
        ensures
            signer == Self::of_spec(offer),
    {
        PdaSigner {
            owner: offer.owner,
            offer_mint: offer.offer_mint,
            accept_mint: offer.accept_mint,
            seed: offer.seed,
            bump: offer.bump,
        }
    }
}

/// One thing that the exchange asks the host to do on its behalf.
#[derive(Clone, Copy, Debug, PartialEq, Eq)]
pub enum HostAction {
    /// Make the token account that the host associates with `wallet` and
    /// `mint`, paid for by `payer`.
    CreateAssociatedTokenAccount { payer: Address, wallet: Address, mint: Address },
    /// Move `amount` of a token from `source` to `destination`. `authority`
    /// is the owner of `source`: it signed the transaction itself, or it is
    /// an offer's address and `derived_from` holds the fields that derive it.
    TokenTransfer {
        source: Address,
        destination: Address,
        authority: Address,
        amount: u64,
        derived_from: Option<PdaSigner>,
    },
    /// Close the token account `account` and send its storage deposit to
    /// `destination`, on the authority of the offer that `signer` derives.
    CloseTokenAccount {
        account: Address,
        destination: Address,
        authority: Address,
        signer: PdaSigner,
    },
    /// Move `lamports` of storage deposit from `from` to `to`.
    SystemTransfer { from: Address, to: Address, lamports: u64 },
    /// Give `account` room for `space` bytes.
    Allocate { account: Address, space: u64, signer: PdaSigner },
    /// Make `owner` the program that owns `account`.
    Assign { account: Address, owner: Address, signer: PdaSigner },
    /// Make the account `to`, with `lamports` from `from`, room for `space`
    /// bytes, and `owner` as the program that owns it.
    CreateAccount {
        from: Address,
        to: Address,
        lamports: u64,
        space: u64,
        owner: Address,
        signer: PdaSigner,
    },
}

/// An account named in an instruction to a program.
#[derive(Clone, Copy, Debug, PartialEq, Eq)]
pub struct AccountMeta {
    pub pubkey: Address,
    /// The account must sign the transaction.
    pub is_signer: bool,
    /// The program may change the account.
    pub is_writable: bool,
}

impl AccountMeta {
    /// An account that the program may change.
    pub fn new(pubkey: Address, is_signer: bool) -> (meta: AccountMeta)
        ensures
            meta == (AccountMeta { pubkey, is_signer, is_writable: true }),
    {
        AccountMeta { pubkey, is_signer, is_writable: true }
    }

    /// An account that the program only reads.
    pub fn new_readonly(pubkey: Address, is_signer: bool) -> (meta: AccountMeta)
        ensures
            meta == (AccountMeta { pubkey, is_signer, is_writable: false }),
    {
        AccountMeta { pubkey, is_signer, is_writable: false }
    }
}

/// An instruction to a program.
#[derive(Debug)]
pub struct Instruction {
    /// The program addressed.
    pub program_id: Address,
    /// The accounts that the program is given, in the order it expects.
    pub accounts: Vec<AccountMeta>,
    /// The packed instruction.
    pub data: Vec<u8>,
}

/// What an [`Instruction`] stands for.
pub struct InstructionView {
    pub program_id: Seq<u8>,
    pub accounts: Seq<AccountMeta>,
    pub data: Seq<u8>,
}

impl View for Instruction {
    type V = InstructionView;

    open spec fn view(&self) -> InstructionView {
        InstructionView {
            program_id: self.program_id@,
            accounts: self.accounts@,
            data: self.data@,
        }
    }
}

impl HostAction {
    /// The fields that derive the address on whose authority the action is
    /// taken, where that is an offer's address.
    pub open spec fn signer_spec(self) -> Option<PdaSigner> {
        match self {
            HostAction::CreateAssociatedTokenAccount { .. } => None,
            HostAction::TokenTransfer { derived_from, .. } => derived_from,
            HostAction::CloseTokenAccount { signer, .. } => Some(signer),
            HostAction::SystemTransfer { .. } => None,
            HostAction::Allocate { signer, .. } => Some(signer),
            HostAction::Assign { signer, .. } => Some(signer),
            HostAction::CreateAccount { signer, .. } => Some(signer),
        }
    }

    /// The fields that derive the address on whose authority the action is
    /// taken, where that is an offer's address. The host is shown the seeds
    /// that they give, bump included, when it is asked for the action.
    pub fn signer(&self) -> (signer: Option<PdaSigner>)
        ensures
            signer == self.signer_spec(),
    {
        match self {
            HostAction::CreateAssociatedTokenAccount { .. } => None,
            HostAction::TokenTransfer { derived_from, .. } => *derived_from,
            HostAction::CloseTokenAccount { signer, .. } => Some(*signer),
            HostAction::SystemTransfer { .. } => None,
            HostAction::Allocate { signer, .. } => Some(*signer),
            HostAction::Assign { signer, .. } => Some(*signer),
            HostAction::CreateAccount { signer, .. } => Some(*signer),
        }
    }
}

} // verus!
