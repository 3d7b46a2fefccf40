//! Derived addresses: where an offer's record and its escrow live.
//!
//! A record's address is derived by the host's rule from the owner, the two
//! assets, the seed and a bump, under the exchange's own address. The rule
//! itself is the host's: the two functions that apply it are trusted here,
//! and what they return is known only by name.

use vstd::prelude::*;
use solana_program::pubkey::Pubkey;
use crate::address::Address;
use crate::checks::program_id::{ATA_PROGRAM_ID, ata_program_id, TOKEN_PROGRAM_ID, token_program_id};
use crate::error::{custom, ProgramError, SimpleDexError};
use crate::packun::u16_to_le;
use crate::state::offer::Offer;

verus! {

/// The most seeds that an address can be derived from.
pub const MAX_SEEDS: usize = 16;

/// The most bytes that a seed can have.
pub const MAX_SEED_LEN: usize = 32;

/// What the host's `Pubkey::create_program_address` makes of the seeds and
/// the program's address: the derived address, or nothing where it rejects
/// the seeds.
pub uninterp spec fn program_address(seeds: Seq<Seq<u8>>, program_id: Seq<u8>) -> Option<Seq<u8>>;

/// What the host's `Pubkey::try_find_program_address` makes of the seeds and
/// the program's address: a derived address and the bump that gives it, or
/// nothing where it finds none.
pub uninterp spec fn found_program_address(
    seeds: Seq<Seq<u8>>,
    program_id: Seq<u8>,
) -> Option<(Seq<u8>, u8)>;

/// The seeds are few and short enough for the host to derive an address.
pub open spec fn seeds_in_bounds(seeds: Seq<Seq<u8>>) -> bool {
    &&& seeds.len() <= MAX_SEEDS
    &&& forall|i: int| 0 <= i < seeds.len() ==> (#[trigger] seeds[i]).len() <= MAX_SEED_LEN
}

/// Calls `solana_program::pubkey::Pubkey::create_program_address`.
///
/// Trusted: the result is what the host derives from these seeds under this
/// program, and is absent exactly where the host answers `InvalidSeeds`. With
/// the seeds within bounds the host gives no other error.
#[verifier::external_body]
fn create_program_address(seeds: &Vec<Vec<u8>>, program_id: &Address) -> (r: Option<Address>)
    requires
        seeds_in_bounds(seeds.deep_view()),
    ensures
        match r {
            Some(address) => program_address(seeds.deep_view(), program_id@) == Some(address@),
            None => program_address(seeds.deep_view(), program_id@) is None,
        },
{
    let parts: Vec<&[u8]> = seeds.iter().map(|seed| seed.as_slice()).collect();
    match Pubkey::create_program_address(&parts, &Pubkey::new_from_array(program_id.bytes)) {
        Ok(key) => Some(Address { bytes: key.to_bytes() }),
        Err(_) => None,
    }
}

/// Calls `solana_program::pubkey::Pubkey::try_find_program_address`.
///
/// Trusted: the result is what the host finds for these seeds under this
/// program. Where it finds an address and a bump, that address is the one
/// derived from the seeds with the bump as one more seed behind them.
#[verifier::external_body]
fn find_program_address(seeds: &Vec<Vec<u8>>, program_id: &Address) -> (r: Option<(Address, u8)>)
    ensures
        match r {
            Some((address, bump)) => {
                &&& found_program_address(seeds.deep_view(), program_id@) == Some((address@, bump))
                &&& program_address(seeds.deep_view().push(seq![bump]), program_id@) == Some(
                    address@,
                )
            },
            None => found_program_address(seeds.deep_view(), program_id@) is None,
        },
{
    let parts: Vec<&[u8]> = seeds.iter().map(|seed| seed.as_slice()).collect();
    match Pubkey::try_find_program_address(&parts, &Pubkey::new_from_array(program_id.bytes)) {
        Some((key, bump)) => Some((Address { bytes: key.to_bytes() }, bump)),
        None => None,
    }
}

/// The seeds of an offer's address, without the bump: the owner, the asset
/// offered, the asset asked, and the two bytes of the seed, low byte first.
pub open spec fn offer_seeds(
    owner: Seq<u8>,
    offer_mint: Seq<u8>,
    accept_mint: Seq<u8>,
    seed: u16,
) -> Seq<Seq<u8>> {
    seq![owner, offer_mint, accept_mint, u16_to_le(seed)]
}

/// The seeds of an offer's address, with the bump as the last of them.
pub open spec fn offer_seeds_with_bump(
    owner: Seq<u8>,
    offer_mint: Seq<u8>,
    accept_mint: Seq<u8>,
    seed: u16,
    bump: u8,
) -> Seq<Seq<u8>> {
    offer_seeds(owner, offer_mint, accept_mint, seed).push(seq![bump])
}

/// The seeds of an offer's address, without the bump.
pub fn offer_pda_seeds(
    owner: &Address,
    offer_mint: &Address,
    accept_mint: &Address,
    seed: u16,
) -> (seeds: Vec<Vec<u8>>)
    ensures
        seeds.deep_view() == offer_seeds(owner@, offer_mint@, accept_mint@, seed),
        seeds_in_bounds(seeds.deep_view()),
        seeds@.len() == 4,
{
    let mut seed_bytes: Vec<u8> = Vec::new();
    seed_bytes.push((seed % 0x100) as u8);
    seed_bytes.push((seed / 0x100) as u8);
    assert(seed_bytes@ =~= u16_to_le(seed));
    let mut seeds: Vec<Vec<u8>> = Vec::new();
    seeds.push(owner.to_vec());
    seeds.push(offer_mint.to_vec());
    seeds.push(accept_mint.to_vec());
    seeds.push(seed_bytes);
    assert(seeds.deep_view() =~= offer_seeds(owner@, offer_mint@, accept_mint@, seed)) by {
        assert(seeds@[0].deep_view() =~= owner@);
        assert(seeds@[1].deep_view() =~= offer_mint@);
        assert(seeds@[2].deep_view() =~= accept_mint@);
        assert(seeds@[3].deep_view() =~= u16_to_le(seed));
    }
    seeds
}

/// The seeds of an offer's address, with the bump as the last of them.
pub fn offer_pda_seeds_with_bump(
    owner: &Address,
    offer_mint: &Address,
    accept_mint: &Address,
    seed: u16,
    bump: u8,
) -> (seeds: Vec<Vec<u8>>)
    ensures
        seeds.deep_view() == offer_seeds_with_bump(owner@, offer_mint@, accept_mint@, seed, bump),
        seeds_in_bounds(seeds.deep_view()),
{
    let mut seeds = offer_pda_seeds(owner, offer_mint, accept_mint, seed);
    let ghost without = seeds.deep_view();
    let mut bump_bytes: Vec<u8> = Vec::new();
    bump_bytes.push(bump);
    seeds.push(bump_bytes);
    assert(seeds.deep_view() =~= without.push(seq![bump])) by {
        assert(seeds@[4].deep_view() =~= seq![bump]);
        assert forall|i: int| 0 <= i < 4 implies seeds.deep_view()[i] == without[i] by {}
    }
    seeds
}

/// What [`try_find_offer_pda`] returns for what the host finds.
pub open spec fn found_offer_pda(
    found: Option<(Seq<u8>, u8)>,
    r: Result<(Address, u8), SimpleDexError>,
) -> bool {
    match found {
        Some((address, bump)) => r is Ok && r->Ok_0.0@ == address && r->Ok_0.1 == bump,
        None => r == Err::<(Address, u8), SimpleDexError>(SimpleDexError::InternalError),
    }
}

/// The address and bump that the host finds for an offer of `owner` on the
/// two assets with `seed`; `InternalError` where it finds none.
///
/// The address found is the one derived from the same fields and the bump
/// found: a record made there is at the address that its own fields give.
pub fn try_find_offer_pda(
    owner: &Address,
    offer_mint: &Address,
    accept_mint: &Address,
    seed: u16,
) -> (r: Result<(Address, u8), SimpleDexError>)
    ensures
        found_offer_pda(
            found_program_address(offer_seeds(owner@, offer_mint@, accept_mint@, seed), crate::ID@),
            r,
        ),
        r is Ok ==> program_address(
            offer_seeds_with_bump(owner@, offer_mint@, accept_mint@, seed, r->Ok_0.1),
            crate::ID@,
        ) == Some(r->Ok_0.0@),
{
    let seeds = offer_pda_seeds(owner, offer_mint, accept_mint, seed);
    match find_program_address(&seeds, &crate::id()) {
        Some(found) => Ok(found),
        None => Err(SimpleDexError::InternalError),
    }
}

/// What [`try_create_offer_pda`] returns for what the host derives.
pub open spec fn created_offer_pda(
    derived: Option<Seq<u8>>,
    r: Result<Address, ProgramError>,
) -> bool {
    match derived {
        Some(address) => r is Ok && r->Ok_0@ == address,
        None => r == Err::<Address, ProgramError>(ProgramError::InvalidSeeds),
    }
}

/// The address that the host derives for an offer of `owner` on the two
/// assets with `seed` and `bump`; `InvalidSeeds` where it rejects them.
pub fn try_create_offer_pda(
    owner: &Address,
    offer_mint: &Address,
    accept_mint: &Address,
    seed: u16,
    bump: u8,
) -> (r: Result<Address, ProgramError>)
    ensures
        created_offer_pda(
            program_address(
                offer_seeds_with_bump(owner@, offer_mint@, accept_mint@, seed, bump),
                crate::ID@,
            ),
            r,
        ),
{
    let seeds = offer_pda_seeds_with_bump(owner, offer_mint, accept_mint, seed, bump);
    match create_program_address(&seeds, &crate::id()) {
        Some(address) => Ok(address),
        None => Err(ProgramError::InvalidSeeds),
    }
}

/// The seeds of the escrow's address: the offer's address, the token
/// program's, and the asset's.
pub open spec fn holding_seeds(offer: Seq<u8>, mint: Seq<u8>) -> Seq<Seq<u8>> {
    seq![offer, TOKEN_PROGRAM_ID@, mint]
}

/// The address of the escrow of the offer at `offer` for the asset `mint`:
/// the token account that the host associates with the two, which is the
/// address found for [`holding_seeds`] under the associated-token program.
/// Nothing where the host finds none.
pub open spec fn holding_address(offer: Seq<u8>, mint: Seq<u8>) -> Option<Seq<u8>> {
    match found_program_address(holding_seeds(offer, mint), ATA_PROGRAM_ID@) {
        Some((address, _)) => Some(address),
        None => None,
    }
}

/// The address of the escrow of the offer at `offer` for the asset `mint`,
/// or nothing where the host finds none: see [`holding_address`].
pub fn find_holding_address(offer: &Address, mint: &Address) -> (r: Option<Address>)
    ensures
        match holding_address(offer@, mint@) {
            Some(address) => r is Some && r->0@ == address,
            None => r is None,
        },
{
    let mut seeds: Vec<Vec<u8>> = Vec::new();
    seeds.push(offer.to_vec());
    seeds.push(token_program_id().to_vec());
    seeds.push(mint.to_vec());
    assert(seeds.deep_view() =~= holding_seeds(offer@, mint@)) by {
        assert(seeds@[0].deep_view() =~= offer@);
        assert(seeds@[1].deep_view() =~= TOKEN_PROGRAM_ID@);
        assert(seeds@[2].deep_view() =~= mint@);
    }
    match find_program_address(&seeds, &ata_program_id()) {
        Some((address, _)) => Some(address),
        None => None,
    }
}

/// The address of an offer's record and of its escrow, as the host gives
/// them for the offer's fields; or the failure to find them.
pub open spec fn offer_addresses(offer: &Offer) -> Result<(Seq<u8>, Seq<u8>), ProgramError> {
    match program_address(
        offer_seeds_with_bump(
            offer.owner@,
            offer.offer_mint@,
            offer.accept_mint@,
            offer.seed,
            offer.bump,
        ),
        crate::ID@,
    ) {
        None => Err(ProgramError::InvalidSeeds),
        Some(offer_pubkey) => match found_program_address(
            holding_seeds(offer_pubkey, offer.offer_mint@),
            ATA_PROGRAM_ID@,
        ) {
            None => Err(custom(SimpleDexError::InvalidHoldingAccount)),
            Some((holding, _)) => Ok((offer_pubkey, holding)),
        },
    }
}

/// The address of an offer's record and of its escrow. Fails with
/// `InvalidSeeds` where the host derives no address from the offer's fields,
/// and with `InvalidHoldingAccount` where it finds none for the escrow.
pub fn find_offer_addresses(offer: &Offer) -> (r: Result<(Address, Address), ProgramError>)
    ensures
        match offer_addresses(offer) {
            Err(e) => r is Err && r->Err_0 == e,
            Ok((offer_pubkey, holding)) => r is Ok && r->Ok_0.0@ == offer_pubkey && r->Ok_0.1@
                == holding,
        },
{
    let offer_pubkey = try_create_offer_pda(
        &offer.owner,
        &offer.offer_mint,
        &offer.accept_mint,
        offer.seed,
        offer.bump,
    )?;
    match find_holding_address(&offer_pubkey, &offer.offer_mint) {
        Some(holding) => Ok((offer_pubkey, holding)),
        None => Err(ProgramError::from(SimpleDexError::InvalidHoldingAccount)),
    }
}

} // verus!
