//! Making an offer: the record and its escrow are made at their derived
//! addresses, and the escrow is funded with the offering and the fee on it.

use vstd::prelude::*;
use crate::account::AccountInfo;
use crate::address::Address;
use crate::checks::{
    is_ata_program, is_not_frozen, is_not_pubkey, is_of_mint, is_offer_pda, is_signer,
    is_system_program, is_token_program, mint_account_checked, token_account_checked,
};
use crate::checks::mint::mint_account_checked_spec;
use crate::checks::program_id::{
    ATA_PROGRAM_ID, ata_program_id, RENT_SYSVAR_ID, rent_sysvar_id, SYSTEM_PROGRAM_ID,
    system_program_id, TOKEN_PROGRAM_ID, token_program_id,
};
use crate::checks::token_account::{token_account_checked_spec, TokenAccountState};
use crate::error::{custom, host_error, ProgramError, SimpleDexError};
use crate::fee::initial_escrow;
use crate::host::{AccountMeta, HostAction, Instruction, PdaSigner};
use crate::instructions::SimpleDexInstruction;
use crate::packun::SerializePacked;
use crate::pda::{
    find_holding_address, found_program_address, holding_seeds, offer_seeds, offer_seeds_with_bump,
    program_address, try_find_offer_pda,
};
use crate::state::holding::HoldingAccount;
use crate::state::offer::{create_pda_account_spec, CreatedOffer, Offer, OFFER_LEN, OfferAccount};

verus! {

/// What the maker of an offer chooses.
#[derive(Clone, Copy, Debug, PartialEq, Eq, Structural)]
pub struct CreateOfferArgs {
    /// The bump of the record's derived address.
    pub bump: u8,
    /// Tells apart the offers of one owner on one pair of assets.
    pub seed: u16,
    /// The quantity put in escrow.
    pub offering: u64,
    /// The least accepted for all of it.
    pub accept_at_least: u64,
}

/// The number of accounts that making an offer takes: who pays for storage,
/// the owner, where the offering is paid from, the record, the escrow, where
/// the remainder is refunded, where the offer is credited, where the storage
/// deposits are refunded, the asset offered, the asset asked, the token
/// program, the associated-token program, the system program, and the
/// host's rent schedule.
pub const CREATE_ACCOUNTS: usize = 14;

/// A new offer that passed every test.
pub struct CreateOfferPlan<'a> {
    /// Makes the escrow. Once the host has done so, the escrow is read with
    /// [`HoldingAccount::created`].
    pub create_holding: HostAction,
    /// The offer, what makes room for its record, and the record's bytes.
    pub created: CreatedOffer<'a>,
    /// Funds the escrow, once the record is written: the offering and the
    /// fee on it are paid in on the owner's authority.
    pub fund_holding: HostAction,
}

/// The first test that a new offer fails before the host finds its address,
/// if it fails one: the two token accounts and the two assets must be what
/// they are said to be, and the payer and the owner must have signed.
pub open spec fn create_offer_preconditions(accounts: Seq<AccountInfo>) -> Option<ProgramError> {
    if token_account_checked_spec(&accounts[5]) is Err {
        Some(token_account_checked_spec(&accounts[5])->Err_0)
    } else if token_account_checked_spec(&accounts[6]) is Err {
        Some(token_account_checked_spec(&accounts[6])->Err_0)
    } else if mint_account_checked_spec(&accounts[9]) is Err {
        Some(mint_account_checked_spec(&accounts[9])->Err_0)
    } else if mint_account_checked_spec(&accounts[8]) is Err {
        Some(mint_account_checked_spec(&accounts[8])->Err_0)
    } else if !accounts[0].is_signer {
        Some(ProgramError::MissingRequiredSignature)
    } else if !accounts[1].is_signer {
        Some(ProgramError::MissingRequiredSignature)
    } else {
        None
    }
}

/// The first test that a new offer fails on its record's address, if it
/// fails one: the host must find an address for the owner, the two assets
/// and the seed; the record must be declared there, with the bump found.
pub open spec fn create_offer_address_failure(
    accounts: Seq<AccountInfo>,
    args: CreateOfferArgs,
) -> Option<ProgramError> {
    match found_program_address(
        offer_seeds(accounts[1].key@, accounts[8].key@, accounts[9].key@, args.seed),
        crate::ID@,
    ) {
        None => Some(custom(SimpleDexError::InternalError)),
        Some((found_address, found_bump)) => if accounts[3].key@ != found_address {
            Some(custom(SimpleDexError::InvalidOfferAccount))
        } else if args.bump != found_bump {
            Some(custom(SimpleDexError::InvalidOfferBump))
        } else {
            None
        },
    }
}

/// The first test that a new offer fails on the accounts it names, if it
/// fails one. Where the remainder is refunded must hold the asset offered,
/// must not be frozen, and must not be the escrow. Where the offer is
/// credited must hold the asset asked and must not be frozen. Where the
/// storage deposits are refunded must be neither the record nor the escrow.
/// The three programs must be the ones expected, and the escrow must be
/// declared at the address that the host associates with the record and the
/// asset offered.
pub open spec fn create_offer_target_failure(accounts: Seq<AccountInfo>) -> Option<ProgramError> {
    let refund_to = token_account_checked_spec(&accounts[5])->Ok_0;
    let credit_to = token_account_checked_spec(&accounts[6])->Ok_0;
    if refund_to.mint@ != accounts[8].key@ {
        Some(custom(SimpleDexError::IncorrectMint))
    } else if refund_to.state == TokenAccountState::Frozen {
        Some(custom(SimpleDexError::TokenAccountFrozen))
    } else if accounts[5].key@ == accounts[4].key@ {
        Some(custom(SimpleDexError::RefundingToOfferAccounts))
    } else if credit_to.mint@ != accounts[9].key@ {
        Some(custom(SimpleDexError::IncorrectMint))
    } else if credit_to.state == TokenAccountState::Frozen {
        Some(custom(SimpleDexError::TokenAccountFrozen))
    } else if accounts[7].key@ == accounts[3].key@ {
        Some(custom(SimpleDexError::RefundingToOfferAccounts))
    } else if accounts[7].key@ == accounts[4].key@ {
        Some(custom(SimpleDexError::RefundingToOfferAccounts))
    } else if accounts[10].key@ != TOKEN_PROGRAM_ID@ {
        Some(ProgramError::IncorrectProgramId)
    } else if accounts[11].key@ != ATA_PROGRAM_ID@ {
        Some(ProgramError::IncorrectProgramId)
    } else if accounts[12].key@ != SYSTEM_PROGRAM_ID@ {
        Some(ProgramError::IncorrectProgramId)
    } else {
        match found_program_address(
            holding_seeds(accounts[3].key@, accounts[8].key@),
            ATA_PROGRAM_ID@,
        ) {
            Some((expected, _)) if expected == accounts[4].key@ => None,
            _ => Some(custom(SimpleDexError::InvalidHoldingAccount)),
        }
    }
}

/// The first test that a new offer fails, if it fails one. The last of them
/// is that the offering and the fee on it fit together in 64 bits.
pub open spec fn process_create_offer_failure(
    accounts: Seq<AccountInfo>,
    args: CreateOfferArgs,
) -> Option<ProgramError> {
    if accounts.len() < CREATE_ACCOUNTS {
        Some(ProgramError::NotEnoughAccountKeys)
    } else if create_offer_preconditions(accounts) is Some {
        create_offer_preconditions(accounts)
    } else if create_offer_address_failure(accounts, args) is Some {
        create_offer_address_failure(accounts, args)
    } else if create_offer_target_failure(accounts) is Some {
        create_offer_target_failure(accounts)
    } else if initial_escrow(args.offering as nat) > u64::MAX {
        Some(custom(SimpleDexError::NumericalError))
    } else {
        None
    }
}

/// The offer that a successful creation records.
pub open spec fn new_offer(accounts: Seq<AccountInfo>, args: CreateOfferArgs, slot: u64) -> Offer {
    Offer {
        slot,
        offering: args.offering,
        accept_at_least: args.accept_at_least,
        seed: args.seed,
        bump: args.bump,
        owner: accounts[1].key,
        offer_mint: accounts[8].key,
        accept_mint: accounts[9].key,
        refund_to: accounts[5].key,
        credit_to: accounts[6].key,
        refund_rent_to: accounts[7].key,
    }
}

/// The plan is the one for the new offer: it asks the host to make the
/// escrow for the record's address and the asset offered, holds the offer
/// with `slot` as its sequence marker, asks the host to make room for the
/// record, holds the record's bytes, and asks the host to pay the offering
/// and the fee on it into the escrow.
pub open spec fn is_create_offer_plan(
    accounts: Seq<AccountInfo>,
    args: CreateOfferArgs,
    slot: u64,
    rent_minimum: u64,
    plan: CreateOfferPlan,
) -> bool {
    &&& plan.create_holding == (HostAction::CreateAssociatedTokenAccount {
        payer: accounts[0].key,
        wallet: accounts[3].key,
        mint: accounts[8].key,
    })
    &&& plan.created.account.account_info == &accounts[3]
    &&& plan.created.account.data == new_offer(accounts, args, slot)
    &&& plan.created.allocation@ == create_pda_account_spec(
        OFFER_LEN,
        accounts[0].key,
        accounts[3].key,
        accounts[3].lamports,
        PdaSigner::of_spec(&new_offer(accounts, args, slot)),
        rent_minimum,
    )
    &&& plan.created.record@ == new_offer(accounts, args, slot).packed() + seq![0u8, 0u8]
    &&& plan.fund_holding == (HostAction::TokenTransfer {
        source: accounts[2].key,
        destination: accounts[4].key,
        authority: accounts[1].key,
        amount: initial_escrow(args.offering as nat) as u64,
        derived_from: None,
    })
}

/// What [`process_create_offer`] returns: the first test failed, or the plan.
pub open spec fn process_create_offer_result(
    accounts: Seq<AccountInfo>,
    args: CreateOfferArgs,
    slot: u64,
    rent_minimum: u64,
    r: Result<CreateOfferPlan, ProgramError>,
) -> bool {
    match process_create_offer_failure(accounts, args) {
        Some(e) => r is Err && r->Err_0 == e,
        None => r is Ok && is_create_offer_plan(accounts, args, slot, rent_minimum, r->Ok_0),
    }
}

/// Tests a new offer and says what the host is to do for it, in this order:
/// make the escrow, make room for the record, write the record, fund the
/// escrow. `slot` is the host's clock, which becomes the offer's sequence
/// marker, and `rent_minimum` the deposit that frees an account of a
/// record's length of rent.
///
/// Where it succeeds, the record's address is the one derived from the
/// offer's own fields, so that the record can be read again once written.
pub fn process_create_offer<'a>(
    accounts: &'a [AccountInfo],
    args: CreateOfferArgs,
    slot: u64,
    rent_minimum: u64,
) -> (r: Result<CreateOfferPlan<'a>, ProgramError>)
    ensures
        process_create_offer_result(accounts@, args, slot, rent_minimum, r),
        r is Ok ==> program_address(
            offer_seeds_with_bump(
                accounts@[1].key@,
                accounts@[8].key@,
                accounts@[9].key@,
                args.seed,
                args.bump,
            ),
            crate::ID@,
        ) == Some(accounts@[3].key@),
{
    if accounts.len() < CREATE_ACCOUNTS {
        return Err(ProgramError::NotEnoughAccountKeys);
    }
    let payer = &accounts[0];
    let owner = &accounts[1];
    let pay_from = &accounts[2];
    let offer = &accounts[3];
    let holding = &accounts[4];
    let refund_to = &accounts[5];
    let credit_to = &accounts[6];
    let refund_rent_to = &accounts[7];
    let offer_mint = &accounts[8];
    let accept_mint = &accounts[9];
    let token_prog = &accounts[10];
    let ata_prog = &accounts[11];
    let sys_prog = &accounts[12];

    let refund_to_token_acc = token_account_checked(refund_to)?;
    let credit_to_token_acc = token_account_checked(credit_to)?;
    // a mint that unpacks was set up
    mint_account_checked(accept_mint)?;
    mint_account_checked(offer_mint)?;

    is_signer(payer)?;
    is_signer(owner)?;

    // the token program itself refuses a payment from an account of another
    // asset, so where the offering is paid from is not tested here
    is_offer_pda(offer, owner, offer_mint, accept_mint, args.seed, args.bump)?;

    host_error(is_of_mint(&refund_to_token_acc, &offer_mint.key))?;
    host_error(is_not_frozen(&refund_to_token_acc))?;
    host_error(is_not_pubkey(refund_to, &holding.key, SimpleDexError::RefundingToOfferAccounts))?;

    host_error(is_of_mint(&credit_to_token_acc, &accept_mint.key))?;
    host_error(is_not_frozen(&credit_to_token_acc))?;

    host_error(
        is_not_pubkey(refund_rent_to, &offer.key, SimpleDexError::RefundingToOfferAccounts),
    )?;
    host_error(
        is_not_pubkey(refund_rent_to, &holding.key, SimpleDexError::RefundingToOfferAccounts),
    )?;

    is_token_program(token_prog)?;
    is_ata_program(ata_prog)?;
    is_system_program(sys_prog)?;
    // the last account is the host's rent schedule, which the making of the
    // escrow names; the associated-token program itself refuses another

    match find_holding_address(&offer.key, &offer_mint.key) {
        Some(expected) => {
            if expected != holding.key {
                return Err(ProgramError::from(SimpleDexError::InvalidHoldingAccount));
            }
        },
        None => {
            return Err(ProgramError::from(SimpleDexError::InvalidHoldingAccount));
        },
    }

    let create_holding = HoldingAccount::create_to(payer, offer, offer_mint);
    let created = OfferAccount::create_to(
        offer,
        payer,
        slot,
        rent_minimum,
        args.offering,
        args.accept_at_least,
        args.seed,
        args.bump,
        &owner.key,
        &offer_mint.key,
        &accept_mint.key,
        &refund_to.key,
        &credit_to.key,
        &refund_rent_to.key,
    );
    let fund_holding = HoldingAccount::funding(holding, owner, pay_from, &created.account.data)?;
    Ok(CreateOfferPlan { create_holding, created, fund_holding })
}

/// The accounts of an instruction to make an offer, in the order in which
/// the exchange reads them. The payer and the owner sign; the payer, where
/// the offering is paid from, the record and the escrow are changed.
pub open spec fn create_offer_accounts(
    payer: Address,
    owner: Address,
    pay_from: Address,
    offer: Address,
    holding: Address,
    refund_to: Address,
    credit_to: Address,
    refund_rent_to: Address,
    offer_mint: Address,
    accept_mint: Address,
) -> Seq<AccountMeta> {
    seq![
        AccountMeta { pubkey: payer, is_signer: true, is_writable: true },
        AccountMeta { pubkey: owner, is_signer: true, is_writable: false },
        AccountMeta { pubkey: pay_from, is_signer: false, is_writable: true },
        AccountMeta { pubkey: offer, is_signer: false, is_writable: true },
        AccountMeta { pubkey: holding, is_signer: false, is_writable: true },
        AccountMeta { pubkey: refund_to, is_signer: false, is_writable: false },
        AccountMeta { pubkey: credit_to, is_signer: false, is_writable: false },
        AccountMeta { pubkey: refund_rent_to, is_signer: false, is_writable: false },
        AccountMeta { pubkey: offer_mint, is_signer: false, is_writable: false },
        AccountMeta { pubkey: accept_mint, is_signer: false, is_writable: false },
        AccountMeta {
            pubkey: Address { bytes: TOKEN_PROGRAM_ID },
            is_signer: false,
            is_writable: false,
        },
        AccountMeta {
            pubkey: Address { bytes: ATA_PROGRAM_ID },
            is_signer: false,
            is_writable: false,
        },
        AccountMeta {
            pubkey: Address { bytes: SYSTEM_PROGRAM_ID },
            is_signer: false,
            is_writable: false,
        },
        AccountMeta {
            pubkey: Address { bytes: RENT_SYSVAR_ID },
            is_signer: false,
            is_writable: false,
        },
    ]
}

/// The instruction that makes an offer at the address `offer`, found with
/// `bump`, with its escrow at `holding`.
pub fn create_offer_instruction(
    offer: Address,
    bump: u8,
    holding: Address,
    payer: &Address,
    owner: &Address,
    pay_from: &Address,
    refund_to: &Address,
    credit_to: &Address,
    refund_rent_to: &Address,
    offer_mint: &Address,
    accept_mint: &Address,
    seed: u16,
    offering: u64,
    accept_at_least: u64,
) -> (ix: Instruction)
    ensures
        ix.program_id@ == crate::ID@,
        ix.accounts@ == create_offer_accounts(
            *payer,
            *owner,
            *pay_from,
            offer,
            holding,
            *refund_to,
            *credit_to,
            *refund_rent_to,
            *offer_mint,
            *accept_mint,
        ),
        ix.data@ == SimpleDexInstruction::CreateOffer(
            CreateOfferArgs { bump, seed, offering, accept_at_least },
        ).packed(),
{
    let mut accounts: Vec<AccountMeta> = Vec::new();
    accounts.push(AccountMeta::new(*payer, true));
    accounts.push(AccountMeta::new_readonly(*owner, true));
    accounts.push(AccountMeta::new(*pay_from, false));
    accounts.push(AccountMeta::new(offer, false));
    accounts.push(AccountMeta::new(holding, false));
    accounts.push(AccountMeta::new_readonly(*refund_to, false));
    accounts.push(AccountMeta::new_readonly(*credit_to, false));
    accounts.push(AccountMeta::new_readonly(*refund_rent_to, false));
    accounts.push(AccountMeta::new_readonly(*offer_mint, false));
    accounts.push(AccountMeta::new_readonly(*accept_mint, false));
    accounts.push(AccountMeta::new_readonly(token_program_id(), false));
    accounts.push(AccountMeta::new_readonly(ata_program_id(), false));
    accounts.push(AccountMeta::new_readonly(system_program_id(), false));
    accounts.push(AccountMeta::new_readonly(rent_sysvar_id(), false));
    assert(accounts@ =~= create_offer_accounts(
        *payer,
        *owner,
        *pay_from,
        offer,
        holding,
        *refund_to,
        *credit_to,
        *refund_rent_to,
        *offer_mint,
        *accept_mint,
    ));
    let instruction = SimpleDexInstruction::CreateOffer(
        CreateOfferArgs { bump, seed, offering, accept_at_least },
    );
    let data = crate::instructions::packun::pack_instruction(&instruction);
    Instruction { program_id: crate::id(), accounts, data }
}

/// The instruction by which a client makes an offer. Fails with
/// `InternalError` where the host finds no address for the record, and with
/// `InvalidHoldingAccount` where it finds none for the escrow.
pub fn create_offer(
    payer: &Address,
    owner: &Address,
    pay_from: &Address,
    refund_to: &Address,
    credit_to: &Address,
    refund_rent_to: &Address,
    offer_mint: &Address,
    accept_mint: &Address,
    seed: u16,
    offering: u64,
    accept_at_least: u64,
) -> (r: Result<Instruction, ProgramError>)
    ensures
        match found_program_address(
            offer_seeds(owner@, offer_mint@, accept_mint@, seed),
            crate::ID@,
        ) {
            None => r is Err && r->Err_0 == custom(SimpleDexError::InternalError),
            Some((offer, bump)) => match found_program_address(
                holding_seeds(offer, offer_mint@),
                ATA_PROGRAM_ID@,
            ) {
                None => r is Err && r->Err_0 == custom(SimpleDexError::InvalidHoldingAccount),
                Some((holding, _)) => {
                    &&& r is Ok
                    &&& r->Ok_0.program_id@ == crate::ID@
                    &&& r->Ok_0.accounts@.len() == CREATE_ACCOUNTS
                    &&& r->Ok_0.accounts@[3].pubkey@ == offer
                    &&& r->Ok_0.accounts@[4].pubkey@ == holding
                    &&& r->Ok_0.accounts@ == create_offer_accounts(
                        *payer,
                        *owner,
                        *pay_from,
                        r->Ok_0.accounts@[3].pubkey,
                        r->Ok_0.accounts@[4].pubkey,
                        *refund_to,
                        *credit_to,
                        *refund_rent_to,
                        *offer_mint,
                        *accept_mint,
                    )
                    &&& r->Ok_0.data@ == SimpleDexInstruction::CreateOffer(
                        CreateOfferArgs { bump, seed, offering, accept_at_least },
                    ).packed()
                },
            },
        },
{
    let (offer, bump) = host_error(try_find_offer_pda(owner, offer_mint, accept_mint, seed))?;
    let holding = match find_holding_address(&offer, offer_mint) {
        Some(holding) => holding,
        None => {
            return Err(ProgramError::from(SimpleDexError::InvalidHoldingAccount));
        },
    };
    Ok(
        create_offer_instruction(
            offer,
            bump,
            holding,
            payer,
            owner,
            pay_from,
            refund_to,
            credit_to,
            refund_rent_to,
            offer_mint,
            accept_mint,
            seed,
            offering,
            accept_at_least,
        ),
    )
}

} // verus!
