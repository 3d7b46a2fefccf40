use std::str::FromStr;

use simpledex::address::Address;
use simpledex::checks::program_id::{
    ata_program_id, rent_sysvar_id, system_program_id, token_program_id,
};
use simpledex::error::ProgramError;
use simpledex::pda::{
    find_holding_address, offer_pda_seeds, offer_pda_seeds_with_bump, try_create_offer_pda,
    try_find_offer_pda,
};
use solana_program::pubkey::Pubkey;

fn address(tag: u8) -> Address {
    Address::new_from_array([tag; 32])
}

fn key(a: &Address) -> Pubkey {
    Pubkey::new_from_array(a.bytes)
}

#[test]
fn exchange_address_is_the_declared_one() {
    let declared = Pubkey::from_str("S1MPKsrdak3rGKeHMpbfcBm6VhJTKekBzbQH9g1b9hy").unwrap();
    assert_eq!(simpledex::id().bytes, declared.to_bytes());
    assert_eq!(simpledex::ID, declared.to_bytes());
}

#[test]
fn program_addresses_are_the_hosts() {
    assert_eq!(token_program_id().bytes, spl_token::id().to_bytes());
    assert_eq!(ata_program_id().bytes, spl_associated_token_account::id().to_bytes());
    assert_eq!(system_program_id().bytes, solana_program::system_program::id().to_bytes());
    assert_eq!(rent_sysvar_id().bytes, solana_program::sysvar::rent::id().to_bytes());
}

#[test]
fn offer_seeds_are_owner_mints_and_seed() {
    let seeds = offer_pda_seeds(&address(1), &address(2), &address(3), 0x0a0b);
    assert_eq!(seeds, vec![vec![1u8; 32], vec![2u8; 32], vec![3u8; 32], vec![0x0b, 0x0a]]);
    let with_bump = offer_pda_seeds_with_bump(&address(1), &address(2), &address(3), 0x0a0b, 250);
    assert_eq!(
        with_bump,
        vec![vec![1u8; 32], vec![2u8; 32], vec![3u8; 32], vec![0x0b, 0x0a], vec![250]]
    );
}

#[test]
fn offer_address_is_found_as_the_host_finds_it() {
    let (owner, offer_mint, accept_mint) = (address(11), address(12), address(13));
    for seed in [0u16, 1, 513, u16::MAX] {
        let (found, bump) = try_find_offer_pda(&owner, &offer_mint, &accept_mint, seed).unwrap();
        let (expected, expected_bump) = Pubkey::find_program_address(
            &[&[11u8; 32], &[12u8; 32], &[13u8; 32], &seed.to_le_bytes()],
            &key(&simpledex::id()),
        );
        assert_eq!(found.bytes, expected.to_bytes());
        assert_eq!(bump, expected_bump);
        assert_ne!(found.bytes, owner.bytes);
    }
}

#[test]
fn found_offer_address_is_derived_from_the_found_bump() {
    let (owner, offer_mint, accept_mint) = (address(21), address(22), address(23));
    let (found, bump) = try_find_offer_pda(&owner, &offer_mint, &accept_mint, 7).unwrap();
    let derived = try_create_offer_pda(&owner, &offer_mint, &accept_mint, 7, bump).unwrap();
    assert_eq!(derived, found);
    // another seed gives another address
    let (other, _) = try_find_offer_pda(&owner, &offer_mint, &accept_mint, 8).unwrap();
    assert_ne!(other, found);
}

#[test]
fn offer_address_is_derived_as_the_host_derives_it() {
    let (owner, offer_mint, accept_mint) = (address(31), address(32), address(33));
    let mut rejected = 0;
    for bump in 0u8..=255 {
        let expected = Pubkey::create_program_address(
            &[&[31u8; 32], &[32u8; 32], &[33u8; 32], &[5, 0], &[bump]],
            &key(&simpledex::id()),
        );
        match try_create_offer_pda(&owner, &offer_mint, &accept_mint, 5, bump) {
            Ok(derived) => assert_eq!(derived.bytes, expected.unwrap().to_bytes()),
            Err(e) => {
                assert_eq!(e, ProgramError::InvalidSeeds);
                assert!(expected.is_err());
                rejected += 1;
            }
        }
    }
    // about half of all bumps give a point on the curve, which is no address
    assert!(rejected > 0);
}

#[test]
fn holding_address_is_the_associated_token_address() {
    for (offer, mint) in [(address(41), address(42)), (address(0), address(255))] {
        let found = find_holding_address(&offer, &mint).unwrap();
        let expected =
            spl_associated_token_account::get_associated_token_address(&key(&offer), &key(&mint));
        assert_eq!(found.bytes, expected.to_bytes());
    }
}

#[test]
fn addresses_compare_by_their_bytes() {
    assert_eq!(address(1), address(1));
    assert_ne!(address(1), address(2));
    let mut bytes = [1u8; 32];
    bytes[31] = 2;
    assert_ne!(address(1), Address::new_from_array(bytes));
}
