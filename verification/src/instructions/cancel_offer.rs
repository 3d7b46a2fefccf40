//! Cancelling an offer: what is left in escrow goes back, the storage
//! deposits are refunded, and the record is wiped.

use vstd::prelude::*;
use crate::account::AccountInfo;
use crate::address::Address;
use crate::checks::{is_owner, is_refund_rent_to, is_refund_to, is_signer, is_token_program};
use crate::checks::program_id::{TOKEN_PROGRAM_ID, token_program_id};
use crate::checks::token_account::TokenAccount;
use crate::error::{custom, host_error, ProgramError, SimpleDexError};
use crate::host::{AccountMeta, HostAction, Instruction, PdaSigner};
use crate::instructions::SimpleDexInstruction;
use crate::packun::SerializePacked;
use crate::pda::{find_offer_addresses, offer_addresses};
use crate::state::holding::{holding_load_checked_spec, HoldingAccount};
use crate::state::offer::{lemma_wiped_record_is_unreadable, load_checked_spec, Offer, OfferAccount};

verus! {

/// The number of accounts that cancelling takes: the owner, the offer's
/// record, its escrow, where the remainder is refunded, where the storage
/// deposits are refunded, and the token program.
pub const CANCEL_ACCOUNTS: usize = 6;

/// A cancellation that passed every test.
pub struct CancelPlan<'a> {
    /// The record to be closed with [`OfferAccount::close`] once the host
    /// has done the two things asked of it.
    pub offer: OfferAccount<'a>,
    /// Pays all that the escrow holds to where the remainder is refunded.
    pub refund: HostAction,
    /// Closes the escrow; its storage deposit goes to where deposits are
    /// refunded.
    pub close_holding: HostAction,
}

/// The offer and the escrow that a cancellation acts on, or the first test
/// that it fails.
pub open spec fn process_cancel_spec(
    accounts: Seq<AccountInfo>,
) -> Result<(Offer, TokenAccount), ProgramError> {
    if accounts.len() < CANCEL_ACCOUNTS {
        Err(ProgramError::NotEnoughAccountKeys)
    } else {
        let owner = &accounts[0];
        let offer = &accounts[1];
        let holding = &accounts[2];
        let refund_to = &accounts[3];
        let refund_rent_to = &accounts[4];
        let token_prog = &accounts[5];
        match load_checked_spec(offer) {
            Err(e) => Err(e),
            Ok(data) => match holding_load_checked_spec(holding, offer.key@, data.offer_mint@) {
                Err(e) => Err(e),
                Ok(held) => if !owner.is_signer {
                    Err(ProgramError::MissingRequiredSignature)
                } else if owner.key@ != data.owner@ {
                    Err(custom(SimpleDexError::IncorrectOwner))
                } else if refund_to.key@ != data.refund_to@ {
                    Err(custom(SimpleDexError::IncorrectRefundTo))
                } else if refund_rent_to.key@ != data.refund_rent_to@ {
                    Err(custom(SimpleDexError::IncorrectRefundRentTo))
                } else if token_prog.key@ != TOKEN_PROGRAM_ID@ {
                    Err(ProgramError::IncorrectProgramId)
                } else {
                    Ok((data, held))
                },
            },
        }
    }
}

/// The plan is the one for cancelling the offer `data` with `held` in
/// escrow: it holds the record read, and asks the host to pay the whole
/// escrow to where the remainder is refunded and then to close the escrow.
pub open spec fn is_cancel_plan(
    accounts: Seq<AccountInfo>,
    data: Offer,
    held: TokenAccount,
    plan: CancelPlan,
) -> bool {
    &&& plan.offer.account_info == &accounts[1]
    &&& plan.offer.data == data
    &&& plan.refund == (HostAction::TokenTransfer {
        source: accounts[2].key,
        destination: accounts[3].key,
        authority: accounts[1].key,
        amount: held.amount,
        derived_from: Some(PdaSigner::of_spec(&data)),
    })
    &&& plan.close_holding == (HostAction::CloseTokenAccount {
        account: accounts[2].key,
        destination: accounts[4].key,
        authority: accounts[1].key,
        signer: PdaSigner::of_spec(&data),
    })
}

/// What [`process_cancel`] returns: the first test failed, or the plan.
pub open spec fn process_cancel_result(
    accounts: Seq<AccountInfo>,
    r: Result<CancelPlan, ProgramError>,
) -> bool {
    match process_cancel_spec(accounts) {
        Err(e) => r is Err && r->Err_0 == e,
        Ok((data, held)) => r is Ok && is_cancel_plan(accounts, data, held, r->Ok_0),
    }
}

/// Tests a cancellation and says what the host is to do for it. Only the
/// owner cancels, and only into the accounts that the offer names. All that
/// the escrow holds is refunded: there is no cancelling in part.
pub fn process_cancel<'a>(accounts: &'a [AccountInfo]) -> (r: Result<CancelPlan<'a>, ProgramError>)
    ensures
        process_cancel_result(accounts@, r),
{
    if accounts.len() < CANCEL_ACCOUNTS {
        return Err(ProgramError::NotEnoughAccountKeys);
    }
    let owner = &accounts[0];
    let offer = &accounts[1];
    let holding = &accounts[2];
    let refund_to = &accounts[3];
    let refund_rent_to = &accounts[4];
    let token_prog = &accounts[5];

    let offer_acc = OfferAccount::load_checked(offer)?;
    let holding_acc = HoldingAccount::load_checked(holding, &offer_acc)?;

    is_signer(owner)?;
    host_error(is_owner(&owner.key, &offer_acc.data))?;
    host_error(is_refund_to(&refund_to.key, &offer_acc.data))?;
    host_error(is_refund_rent_to(&refund_rent_to.key, &offer_acc.data))?;
    is_token_program(token_prog)?;

    let (refund, close_holding) = holding_acc.close(&offer_acc, refund_to, refund_rent_to);
    Ok(CancelPlan { offer: offer_acc, refund, close_holding })
}

/// A closed offer cannot be cancelled: where the record's bytes are wiped,
/// the cancellation fails, with `UninitializedAccount` where the account
/// still has a record's length and `InvalidAccountData` where it has not.
pub proof fn lemma_cancel_of_closed_offer_fails(accounts: Seq<AccountInfo>)
    requires
        accounts.len() >= CANCEL_ACCOUNTS,
        forall|i: int| 0 <= i < accounts[1].data@.len() ==> accounts[1].data@[i] == 0,
    ensures
        process_cancel_spec(accounts) == Err::<(Offer, TokenAccount), ProgramError>(
            Offer::unpack_spec(accounts[1].data@)->Err_0,
        ),
        Offer::unpack_spec(accounts[1].data@)->Err_0 == ProgramError::UninitializedAccount
            || Offer::unpack_spec(accounts[1].data@)->Err_0 == ProgramError::InvalidAccountData,
{
    lemma_wiped_record_is_unreadable(accounts[1].data@);
}

/// The accounts of an instruction to cancel an offer, in the order in which
/// the exchange reads them. The owner signs; all but the owner and the token
/// program are changed.
pub open spec fn cancel_offer_accounts(
    offer: &Offer,
    offer_pubkey: Address,
    holding: Address,
) -> Seq<AccountMeta> {
    seq![
        AccountMeta { pubkey: offer.owner, is_signer: true, is_writable: false },
        AccountMeta { pubkey: offer_pubkey, is_signer: false, is_writable: true },
        AccountMeta { pubkey: holding, is_signer: false, is_writable: true },
        AccountMeta { pubkey: offer.refund_to, is_signer: false, is_writable: true },
        AccountMeta { pubkey: offer.refund_rent_to, is_signer: false, is_writable: true },
        AccountMeta {
            pubkey: Address { bytes: TOKEN_PROGRAM_ID },
            is_signer: false,
            is_writable: false,
        },
    ]
}

/// The instruction that cancels the offer whose record is at `offer_pubkey`
/// and whose escrow is at `holding`.
pub fn cancel_offer_instruction(
    offer: &Offer,
    offer_pubkey: Address,
    holding: Address,
) -> (ix: Instruction)
    ensures
        ix.program_id@ == crate::ID@,
        ix.accounts@ == cancel_offer_accounts(offer, offer_pubkey, holding),
        ix.data@ == SimpleDexInstruction::CancelOffer.packed(),
{
    let mut accounts: Vec<AccountMeta> = Vec::new();
    accounts.push(AccountMeta::new_readonly(offer.owner, true));
    accounts.push(AccountMeta::new(offer_pubkey, false));
    accounts.push(AccountMeta::new(holding, false));
    accounts.push(AccountMeta::new(offer.refund_to, false));
    accounts.push(AccountMeta::new(offer.refund_rent_to, false));
    accounts.push(AccountMeta::new_readonly(token_program_id(), false));
    assert(accounts@ =~= cancel_offer_accounts(offer, offer_pubkey, holding));
    let data = crate::instructions::packun::pack_instruction(&SimpleDexInstruction::CancelOffer);
    Instruction { program_id: crate::id(), accounts, data }
}

/// The instruction by which a client cancels an offer. Fails with
/// `InvalidSeeds` where the host derives no address from the offer's fields,
/// and with `InvalidHoldingAccount` where it finds none for the escrow.
pub fn cancel_offer(offer: &Offer) -> (r: Result<Instruction, ProgramError>)
    ensures
        match offer_addresses(offer) {
            Err(e) => r is Err && r->Err_0 == e,
            Ok((offer_pubkey, holding)) => {
                &&& r is Ok
                &&& r->Ok_0.program_id@ == crate::ID@
                &&& r->Ok_0.accounts@.len() == CANCEL_ACCOUNTS
                &&& r->Ok_0.accounts@[1].pubkey@ == offer_pubkey
                &&& r->Ok_0.accounts@[2].pubkey@ == holding
                &&& r->Ok_0.accounts@ == cancel_offer_accounts(
                    offer,
                    r->Ok_0.accounts@[1].pubkey,
                    r->Ok_0.accounts@[2].pubkey,
                )
                &&& r->Ok_0.data@ == SimpleDexInstruction::CancelOffer.packed()
            },
        },
{
    let (offer_pubkey, holding) = find_offer_addresses(offer)?;
    Ok(cancel_offer_instruction(offer, offer_pubkey, holding))
}

} // verus!
