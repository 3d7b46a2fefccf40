//! The instructions to other programs that carry out what the exchange asks
//! of the host.
//!
//! Each is built by the program that it is sent to: the token program, the
//! associated-token program, the system program. The functions that build
//! them are trusted here; what they build is stated in full.

use vstd::prelude::*;
use solana_program::pubkey::Pubkey;
use solana_program::system_instruction;
use crate::address::{address_of, lemma_address_by_bytes, lemma_address_of, Address};
use crate::checks::program_id::{
    ATA_PROGRAM_ID, RENT_SYSVAR_ID, SYSTEM_PROGRAM_ID, TOKEN_PROGRAM_ID,
};
use crate::error::{custom, ProgramError, SimpleDexError};
use crate::host::{AccountMeta, HostAction, Instruction, InstructionView};
use crate::packun::u64_to_le;
use crate::pda::{find_holding_address, found_program_address, holding_address, holding_seeds};

verus! {

/// An account that the instruction's program may change.
pub open spec fn writable(pubkey: Address, is_signer: bool) -> AccountMeta {
    AccountMeta { pubkey, is_signer, is_writable: true }
}

/// An account that the instruction's program only reads.
pub open spec fn readonly(pubkey: Address, is_signer: bool) -> AccountMeta {
    AccountMeta { pubkey, is_signer, is_writable: false }
}

/// The instruction to the token program that moves `amount` from `source`
/// to `destination`. The authority signs. The data are the tag 3 and the
/// amount, low byte first.
pub open spec fn token_transfer_instruction(
    source: Address,
    destination: Address,
    authority: Address,
    amount: u64,
) -> InstructionView {
    InstructionView {
        program_id: TOKEN_PROGRAM_ID@,
        accounts: seq![
            writable(source, false),
            writable(destination, false),
            readonly(authority, true),
        ],
        data: seq![3u8] + u64_to_le(amount),
    }
}

/// The instruction to the token program that closes `account` and sends its
/// storage deposit to `destination`. The owner signs. The data are the tag 9.
pub open spec fn token_close_account_instruction(
    account: Address,
    destination: Address,
    owner: Address,
) -> InstructionView {
    InstructionView {
        program_id: TOKEN_PROGRAM_ID@,
        accounts: seq![
            writable(account, false),
            writable(destination, false),
            readonly(owner, true),
        ],
        data: seq![9u8],
    }
}

/// The instruction to the associated-token program that makes, at
/// `associated`, the token account of `wallet` for `mint`, paid for by
/// `funding`, which signs. It names the system program, the token program
/// and the host's rent schedule behind them, and carries no data.
pub open spec fn create_associated_token_account_instruction(
    funding: Address,
    associated: Address,
    wallet: Address,
    mint: Address,
) -> InstructionView {
    InstructionView {
        program_id: ATA_PROGRAM_ID@,
        accounts: seq![
            writable(funding, true),
            writable(associated, false),
            readonly(wallet, false),
            readonly(mint, false),
            readonly(Address { bytes: SYSTEM_PROGRAM_ID }, false),
            readonly(Address { bytes: TOKEN_PROGRAM_ID }, false),
            readonly(Address { bytes: RENT_SYSVAR_ID }, false),
        ],
        data: Seq::<u8>::empty(),
    }
}

/// The instruction to the system program that moves `lamports` from `from`,
/// which signs, to `to`. The data are the tag 2 in four bytes and the
/// quantity in eight, each low byte first.
pub open spec fn system_transfer_instruction(
    from: Address,
    to: Address,
    lamports: u64,
) -> InstructionView {
    InstructionView {
        program_id: SYSTEM_PROGRAM_ID@,
        accounts: seq![writable(from, true), writable(to, false)],
        data: seq![2u8, 0u8, 0u8, 0u8] + u64_to_le(lamports),
    }
}

/// The instruction to the system program that gives `account`, which
/// signs, room for `space` bytes. The data are the tag 8 in four bytes and
/// the number of bytes in eight, each low byte first.
pub open spec fn system_allocate_instruction(account: Address, space: u64) -> InstructionView {
    InstructionView {
        program_id: SYSTEM_PROGRAM_ID@,
        accounts: seq![writable(account, true)],
        data: seq![8u8, 0u8, 0u8, 0u8] + u64_to_le(space),
    }
}

/// The instruction to the system program that hands `account`, which
/// signs, to the program `owner`. The data are the tag 1 in four bytes, low
/// byte first, and the owner's address.
pub open spec fn system_assign_instruction(account: Address, owner: Address) -> InstructionView {
    InstructionView {
        program_id: SYSTEM_PROGRAM_ID@,
        accounts: seq![writable(account, true)],
        data: seq![1u8, 0u8, 0u8, 0u8] + owner@,
    }
}

/// The instruction to the system program that makes the account `to` with
/// `lamports` from `from`, room for `space` bytes, and `owner` as the
/// program that owns it. Both accounts sign. The data are the tag 0 in four
/// bytes, the deposit and the number of bytes in eight each, all low byte
/// first, and the owner's address.
pub open spec fn system_create_account_instruction(
    from: Address,
    to: Address,
    lamports: u64,
    space: u64,
    owner: Address,
) -> InstructionView {
    InstructionView {
        program_id: SYSTEM_PROGRAM_ID@,
        accounts: seq![writable(from, true), writable(to, true)],
        data: seq![0u8, 0u8, 0u8, 0u8] + u64_to_le(lamports) + u64_to_le(space) + owner@,
    }
}

/// What a result that holds an instruction stands for.
pub open spec fn built(
    r: Result<Instruction, ProgramError>,
) -> Result<InstructionView, ProgramError> {
    match r {
        Ok(ix) => Ok(ix@),
        Err(e) => Err(e),
    }
}

/// Calls `spl_token::instruction::transfer`, for the token program itself
/// and an owner that is no multisignature account.
///
/// Trusted: the call succeeds, since the program named is the token
/// program itself, and builds [`token_transfer_instruction`].
#[verifier::external_body]
fn token_transfer(
    source: &Address,
    destination: &Address,
    authority: &Address,
    amount: u64,
) -> (r: Result<Instruction, ProgramError>)
    ensures
        r is Ok,
        r->Ok_0@ == token_transfer_instruction(*source, *destination, *authority, amount),
{
    let (s, d) = (Pubkey::new_from_array(source.bytes), Pubkey::new_from_array(destination.bytes));
    let a = Pubkey::new_from_array(authority.bytes);
    match spl_token::instruction::transfer(&spl_token::id(), &s, &d, &a, &[], amount) {
        Ok(ix) => Ok(Instruction {
            program_id: Address { bytes: ix.program_id.to_bytes() },
            accounts: ix.accounts.iter().map(|m| AccountMeta {
                pubkey: Address { bytes: m.pubkey.to_bytes() },
                is_signer: m.is_signer,
                is_writable: m.is_writable,
            }).collect(),
            data: ix.data,
        }),
        Err(_) => Err(ProgramError::IncorrectProgramId),
    }
}

/// Calls `spl_token::instruction::close_account`, for the token program
/// itself and an owner that is no multisignature account.
///
/// Trusted: the call succeeds, since the program named is the token
/// program itself, and builds [`token_close_account_instruction`].
#[verifier::external_body]
fn token_close_account(
    account: &Address,
    destination: &Address,
    owner: &Address,
) -> (r: Result<Instruction, ProgramError>)
    ensures
        r is Ok,
        r->Ok_0@ == token_close_account_instruction(*account, *destination, *owner),
{
    let (a, d) = (Pubkey::new_from_array(account.bytes), Pubkey::new_from_array(destination.bytes));
    let o = Pubkey::new_from_array(owner.bytes);
    match spl_token::instruction::close_account(&spl_token::id(), &a, &d, &o, &[]) {
        Ok(ix) => Ok(Instruction {
            program_id: Address { bytes: ix.program_id.to_bytes() },
            accounts: ix.accounts.iter().map(|m| AccountMeta {
                pubkey: Address { bytes: m.pubkey.to_bytes() },
                is_signer: m.is_signer,
                is_writable: m.is_writable,
            }).collect(),
            data: ix.data,
        }),
        Err(_) => Err(ProgramError::IncorrectProgramId),
    }
}

/// Calls `spl_associated_token_account::create_associated_token_account`.
///
/// Trusted: the call builds [`create_associated_token_account_instruction`]
/// for the address that the host finds for the wallet and the mint. The
/// call does not return where the host finds none: that is left out.
#[allow(deprecated)]
#[verifier::external_body]
fn create_associated_token_account(
    funding: &Address,
    wallet: &Address,
    mint: &Address,
) -> (ix: Instruction)
    requires
        found_program_address(holding_seeds(wallet@, mint@), ATA_PROGRAM_ID@) is Some,
    ensures
        ix.accounts@.len() == 7,
        Some(ix.accounts@[1].pubkey@) == holding_address(wallet@, mint@),
        ix@ == create_associated_token_account_instruction(
            *funding,
            ix.accounts@[1].pubkey,
            *wallet,
            *mint,
        ),
{
    let (f, w) = (Pubkey::new_from_array(funding.bytes), Pubkey::new_from_array(wallet.bytes));
    let m = Pubkey::new_from_array(mint.bytes);
    let ix = spl_associated_token_account::create_associated_token_account(&f, &w, &m);
    Instruction {
        program_id: Address { bytes: ix.program_id.to_bytes() },
        accounts: ix.accounts.iter().map(|m| AccountMeta {
            pubkey: Address { bytes: m.pubkey.to_bytes() },
            is_signer: m.is_signer,
            is_writable: m.is_writable,
        }).collect(),
        data: ix.data,
    }
}

/// Calls `solana_program::system_instruction::transfer`.
///
/// Trusted: the call builds [`system_transfer_instruction`].
#[verifier::external_body]
fn system_transfer(from: &Address, to: &Address, lamports: u64) -> (ix: Instruction)
    ensures
        ix@ == system_transfer_instruction(*from, *to, lamports),
{
    let (f, t) = (Pubkey::new_from_array(from.bytes), Pubkey::new_from_array(to.bytes));
    let ix = system_instruction::transfer(&f, &t, lamports);
    Instruction {
        program_id: Address { bytes: ix.program_id.to_bytes() },
        accounts: ix.accounts.iter().map(|m| AccountMeta {
            pubkey: Address { bytes: m.pubkey.to_bytes() },
            is_signer: m.is_signer,
            is_writable: m.is_writable,
        }).collect(),
        data: ix.data,
    }
}

/// Calls `solana_program::system_instruction::allocate`.
///
/// Trusted: the call builds [`system_allocate_instruction`].
#[verifier::external_body]
fn system_allocate(account: &Address, space: u64) -> (ix: Instruction)
    ensures
        ix@ == system_allocate_instruction(*account, space),
{
    let ix = system_instruction::allocate(&Pubkey::new_from_array(account.bytes), space);
    Instruction {
        program_id: Address { bytes: ix.program_id.to_bytes() },
        accounts: ix.accounts.iter().map(|m| AccountMeta {
            pubkey: Address { bytes: m.pubkey.to_bytes() },
            is_signer: m.is_signer,
            is_writable: m.is_writable,
        }).collect(),
        data: ix.data,
    }
}

/// Calls `solana_program::system_instruction::assign`.
///
/// Trusted: the call builds [`system_assign_instruction`].
#[verifier::external_body]
fn system_assign(account: &Address, owner: &Address) -> (ix: Instruction)
    ensures
        ix@ == system_assign_instruction(*account, *owner),
{
    let (a, o) = (Pubkey::new_from_array(account.bytes), Pubkey::new_from_array(owner.bytes));
    let ix = system_instruction::assign(&a, &o);
    Instruction {
        program_id: Address { bytes: ix.program_id.to_bytes() },
        accounts: ix.accounts.iter().map(|m| AccountMeta {
            pubkey: Address { bytes: m.pubkey.to_bytes() },
            is_signer: m.is_signer,
            is_writable: m.is_writable,
        }).collect(),
        data: ix.data,
    }
}

/// Calls `solana_program::system_instruction::create_account`.
///
/// Trusted: the call builds [`system_create_account_instruction`].
#[verifier::external_body]
fn system_create_account(
    from: &Address,
    to: &Address,
    lamports: u64,
    space: u64,
    owner: &Address,
) -> (ix: Instruction)
    ensures
        ix@ == system_create_account_instruction(*from, *to, lamports, space, *owner),
{
    let (f, t) = (Pubkey::new_from_array(from.bytes), Pubkey::new_from_array(to.bytes));
    let o = Pubkey::new_from_array(owner.bytes);
    let ix = system_instruction::create_account(&f, &t, lamports, space, &o);
    Instruction {
        program_id: Address { bytes: ix.program_id.to_bytes() },
        accounts: ix.accounts.iter().map(|m| AccountMeta {
            pubkey: Address { bytes: m.pubkey.to_bytes() },
            is_signer: m.is_signer,
            is_writable: m.is_writable,
        }).collect(),
        data: ix.data,
    }
}

/// The instruction that carries out an action. Every action has one, but
/// the making of an escrow where the host finds no address for it: that
/// fails with `InvalidHoldingAccount`.
pub open spec fn instruction_spec(action: HostAction) -> Result<InstructionView, ProgramError> {
    match action {
        HostAction::CreateAssociatedTokenAccount { payer, wallet, mint } => {
            match holding_address(wallet@, mint@) {
                Some(holding) => Ok(
                    create_associated_token_account_instruction(
                        payer,
                        address_of(holding),
                        wallet,
                        mint,
                    ),
                ),
                None => Err(custom(SimpleDexError::InvalidHoldingAccount)),
            }
        },
        HostAction::TokenTransfer { source, destination, authority, amount, .. } => Ok(
            token_transfer_instruction(source, destination, authority, amount),
        ),
        HostAction::CloseTokenAccount { account, destination, authority, .. } => Ok(
            token_close_account_instruction(account, destination, authority),
        ),
        HostAction::SystemTransfer { from, to, lamports } => Ok(
            system_transfer_instruction(from, to, lamports),
        ),
        HostAction::Allocate { account, space, .. } => Ok(
            system_allocate_instruction(account, space),
        ),
        HostAction::Assign { account, owner, .. } => Ok(system_assign_instruction(account, owner)),
        HostAction::CreateAccount { from, to, lamports, space, owner, .. } => Ok(
            system_create_account_instruction(from, to, lamports, space, owner),
        ),
    }
}

/// The instruction that carries out an action. The host is asked for it
/// with the seeds that [`HostAction::signer`] gives, where it gives any.
pub fn instruction(action: &HostAction) -> (r: Result<Instruction, ProgramError>)
    ensures
        built(r) == instruction_spec(*action),
{
    match action {
        HostAction::CreateAssociatedTokenAccount { payer, wallet, mint } => {
            match find_holding_address(wallet, mint) {
                Some(holding) => {
                    let ix = create_associated_token_account(payer, wallet, mint);
                    proof {
                        lemma_address_by_bytes(ix.accounts@[1].pubkey, holding);
                        lemma_address_of(holding);
                    }
                    Ok(ix)
                },
                None => Err(ProgramError::from(SimpleDexError::InvalidHoldingAccount)),
            }
        },
        HostAction::TokenTransfer { source, destination, authority, amount, .. } => {
            token_transfer(source, destination, authority, *amount)
        },
        HostAction::CloseTokenAccount { account, destination, authority, .. } => {
            token_close_account(account, destination, authority)
        },
        HostAction::SystemTransfer { from, to, lamports } => Ok(
            system_transfer(from, to, *lamports),
        ),
        HostAction::Allocate { account, space, .. } => Ok(system_allocate(account, *space)),
        HostAction::Assign { account, owner, .. } => Ok(system_assign(account, owner)),
        HostAction::CreateAccount { from, to, lamports, space, owner, .. } => Ok(
            system_create_account(from, to, *lamports, *space, owner),
        ),
    }
}

} // verus!
