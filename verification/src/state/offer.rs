//! The offer: a quantity of one asset in escrow, and the least of another
//! asset that its owner accepts for all of it.

use vstd::prelude::*;
use crate::account::{Account, AccountInfo};
use crate::address::{Address, address_of, lemma_address_of, lemma_address_of_bytes};
use crate::error::{custom, host_error, ProgramError, SimpleDexError};
use crate::host::{HostAction, PdaSigner};
use crate::packun::{
    Cursor, CursorView, DeserializePacked, lemma_u16_le_bytes_round_trip, lemma_u16_le_round_trip,
    lemma_u64_le_bytes_round_trip, lemma_u64_le_round_trip, lemma_written_joined, SerializePacked,
    u16_from_le, u16_to_le, u64_from_le, u64_to_le,
};
use crate::pda::{offer_seeds_with_bump, program_address, try_create_offer_pda};
use crate::types::{
    lemma_mul_div_ceil_bounds, lemma_mul_div_ceil_is_least, lemma_mul_div_floor_bounds,
    mul_div_ceil, mul_div_floor, OfferSeq, Ratio,
};

verus! {

/// A resting offer.
#[derive(Clone, Copy, Debug)]
pub struct Offer {
    /// The host's clock when the offer was made; zero in a record that was
    /// never written.
    pub slot: u64,
    /// What is left in escrow of the asset offered.
    pub offering: u64,
    /// The least of the asset asked that the owner accepts for all that is left.
    pub accept_at_least: u64,
    /// Tells apart the offers of one owner on one pair of assets.
    pub seed: u16,
    /// The bump found when the record's address was derived.
    pub bump: u8,
    pub owner: Address,
    /// The asset offered.
    pub offer_mint: Address,
    /// The asset asked.
    pub accept_mint: Address,
    /// Where what is left of the offering goes when the offer closes.
    pub refund_to: Address,
    /// Where the asset asked is received.
    pub credit_to: Address,
    /// Where the storage deposits go when the offer closes.
    pub refund_rent_to: Address,
}

impl Default for Offer {
    /// An offer with every field zero: a record that was never written.
    fn default() -> (offer: Offer)
        ensures
            offer.slot == 0 && offer.offering == 0 && offer.accept_at_least == 0,
            offer.seed == 0 && offer.bump == 0,
            offer.owner@ == Seq::new(32, |i: int| 0u8),
            offer.offer_mint == offer.owner && offer.accept_mint == offer.owner,
            offer.refund_to == offer.owner && offer.credit_to == offer.owner,
            offer.refund_rent_to == offer.owner,
    {
        let zero = Address::default();
        Offer {
            slot: 0,
            offering: 0,
            accept_at_least: 0,
            seed: 0,
            bump: 0,
            owner: zero,
            offer_mint: zero,
            accept_mint: zero,
            refund_to: zero,
            credit_to: zero,
            refund_rent_to: zero,
        }
    }
}

impl Offer {
    /// The price ranges of the two offers cross: what they offer, multiplied,
    /// is no less than what they ask, multiplied.
    pub open spec fn crosses(a: &Offer, b: &Offer) -> bool {
        a.offering * b.offering >= a.accept_at_least * b.accept_at_least
    }

    /// How this offer stands to the other in time: the one with the lower
    /// sequence marker was made first.
    pub open spec fn standing_to(&self, other: &Offer) -> OfferSeq {
        if self.slot == other.slot {
            OfferSeq::Neither
        } else if self.slot < other.slot {
            OfferSeq::Maker
        } else {
            OfferSeq::Taker
        }
    }

    /// The offer still trades: something is left, and something is asked.
    pub open spec fn is_open(&self) -> bool {
        self.offering > 0 && self.accept_at_least > 0
    }

    /// What each of two crossing offers gives to the other. Where each can
    /// pay all that the other asks, both give all they have. Where only one
    /// can, the other gives all it has and gets exactly what it asks.
    pub open spec fn fill_amounts(a: &Offer, b: &Offer) -> (u64, u64) {
        if a.offering >= b.accept_at_least && b.offering >= a.accept_at_least {
            (a.offering, b.offering)
        } else if a.offering >= b.accept_at_least {
            (b.accept_at_least, b.offering)
        } else {
            (a.offering, a.accept_at_least)
        }
    }

    /// What [`Offer::try_match`] returns.
    pub open spec fn try_match_spec(a: &Offer, b: &Offer) -> Result<(u64, u64), SimpleDexError> {
        if Self::crosses(a, b) {
            Ok(Self::fill_amounts(a, b))
        } else {
            Err(SimpleDexError::OffersDontMatch)
        }
    }

    /// The least that the offer accepts for `to_pay` of what it offers: its
    /// whole asking for all that is left or more, else the same share of the
    /// asking as `to_pay` is of the offering, rounded up.
    pub open spec fn min_acceptable_for(&self, to_pay: u64) -> nat {
        if to_pay >= self.offering {
            self.accept_at_least as nat
        } else {
            mul_div_ceil(to_pay as nat, self.accept_at_least as nat, self.offering as nat)
        }
    }

    /// The most that the offer pays for `to_accept` of what it asks: all that
    /// is left for its whole asking or more, else the same share of the
    /// offering as `to_accept` is of the asking, rounded down.
    pub open spec fn max_payable_for(&self, to_accept: u64) -> nat {
        if to_accept >= self.accept_at_least {
            self.offering as nat
        } else {
            mul_div_floor(to_accept as nat, self.offering as nat, self.accept_at_least as nat)
        }
    }

    /// The offer after it gave `amount_given`: the offering is less by that,
    /// and the asking is scaled with it, rounded up.
    pub open spec fn after_fill(self, amount_given: u64) -> Offer {
        let new_offering = (self.offering - amount_given) as u64;
        Offer {
            offering: new_offering,
            accept_at_least: mul_div_ceil(
                self.accept_at_least as nat,
                new_offering as nat,
                self.offering as nat,
            ) as u64,
            ..self
        }
    }

    /// What [`Offer::update_offer_matched`] returns.
    pub open spec fn update_offer_matched_spec(
        self,
        amount_given: u64,
    ) -> Result<Offer, SimpleDexError> {
        if self.offering > 0 && amount_given <= self.offering {
            Ok(self.after_fill(amount_given))
        } else {
            Err(SimpleDexError::InternalError)
        }
    }

    /// Pairs two offers. Where their price ranges cross, the result is what
    /// `a` gives and what `b` gives; where they do not, `OffersDontMatch`.
    pub fn try_match(a: &Offer, b: &Offer) -> (r: Result<(u64, u64), SimpleDexError>)
        ensures
            r == Self::try_match_spec(a, b),
            r is Ok <==> Self::crosses(a, b),
            r is Ok ==> r->Ok_0.0 <= a.offering && r->Ok_0.1 <= b.offering,
    {
        if !Self::is_match(a, b) {
            return Err(SimpleDexError::OffersDontMatch);
        }
        let a_can_fill_b = a.offering >= b.accept_at_least;
        let b_can_fill_a = b.offering >= a.accept_at_least;
        let (amt_a_gives, amt_b_gives) = match (a_can_fill_b, b_can_fill_a) {
            (true, true) => (a.offering, b.offering),
            (true, false) => (b.accept_at_least, b.offering),
            (false, true) => (a.offering, a.accept_at_least),
            (false, false) => {
                proof {
                    lemma_crossing_offers_can_fill(*a, *b);
                }
                return Err(SimpleDexError::InternalError);
            },
        };
        Ok((amt_a_gives, amt_b_gives))
    }

    /// The crossing test, on 128-bit products.
    fn is_match(a: &Offer, b: &Offer) -> (r: bool)
        ensures
            r == Self::crosses(a, b),
    {
        assert(a.offering * b.offering <= 0xffff_ffff_ffff_ffff * 0xffff_ffff_ffff_ffff)
            by (nonlinear_arith)
            requires
                a.offering <= 0xffff_ffff_ffff_ffff,
                b.offering <= 0xffff_ffff_ffff_ffff,
        ;
        assert(a.accept_at_least * b.accept_at_least <= 0xffff_ffff_ffff_ffff
            * 0xffff_ffff_ffff_ffff) by (nonlinear_arith)
            requires
                a.accept_at_least <= 0xffff_ffff_ffff_ffff,
                b.accept_at_least <= 0xffff_ffff_ffff_ffff,
        ;
        (a.offering as u128) * (b.offering as u128) >= (a.accept_at_least as u128) * (
        b.accept_at_least as u128)
    }

    /// Nothing is left to trade: the offering or the asking is zero.
    pub fn is_closed(&self) -> (r: bool)
        ensures
            r == !self.is_open(),
    {
        self.offering == 0 || self.accept_at_least == 0
    }

    /// The record was written: its sequence marker is not zero.
    pub fn is_initialized(&self) -> (r: bool)
        ensures
            r == (self.slot != 0),
    {
        self.slot != 0
    }

    /// How this offer stands to the other in time, by their sequence markers.
    pub fn relationship_with(&self, other: &Offer) -> (r: OfferSeq)
        ensures
            r == self.standing_to(other),
    {
        if self.slot == other.slot {
            OfferSeq::Neither
        } else if self.slot < other.slot {
            OfferSeq::Maker
        } else {
            OfferSeq::Taker
        }
    }

    /// The least that the offer accepts for `to_pay` of what it offers. It
    /// never fails, and is never more than the whole asking.
    pub fn min_willing_to_receive_for(&self, to_pay: u64) -> (r: Result<u64, SimpleDexError>)
        ensures
            r == Ok::<u64, SimpleDexError>(self.min_acceptable_for(to_pay) as u64),
            self.min_acceptable_for(to_pay) <= self.accept_at_least,
    {
        if to_pay >= self.offering {
            return Ok(self.accept_at_least);
        }
        let proportion = Ratio::new(to_pay, self.offering)?;
        proof {
            lemma_share_rounded_up_within(
                to_pay as nat,
                self.accept_at_least as nat,
                self.offering as nat,
            );
        }
        proportion.apply_ceil(self.accept_at_least)
    }

    /// The most that the offer pays for `to_accept` of what it asks. It never
    /// fails, and is never more than the whole offering.
    pub fn max_willing_to_pay_for(&self, to_accept: u64) -> (r: Result<u64, SimpleDexError>)
        ensures
            r == Ok::<u64, SimpleDexError>(self.max_payable_for(to_accept) as u64),
            self.max_payable_for(to_accept) <= self.offering,
    {
        if to_accept >= self.accept_at_least {
            return Ok(self.offering);
        }
        let proportion = Ratio::new(to_accept, self.accept_at_least)?;
        proof {
            lemma_share_rounded_down_within(
                to_accept as nat,
                self.offering as nat,
                self.accept_at_least as nat,
            );
        }
        proportion.apply_floor(self.offering)
    }

    /// The offer after it gave `amount_given`. Fails with `InternalError`
    /// where nothing was left to give, or more was given than was left.
    ///
    /// The asking is rounded up, so that what is left is never priced lower
    /// than the offer was: see [`lemma_fill_never_lowers_price`].
    pub fn update_offer_matched(self, amount_given: u64) -> (r: Result<Offer, SimpleDexError>)
        ensures
            r == self.update_offer_matched_spec(amount_given),
    {
        let accept_over_offer = match Ratio::new(self.accept_at_least, self.offering) {
            Ok(ratio) => ratio,
            Err(e) => {
                return Err(e);
            },
        };
        let new_offering = match self.offering.checked_sub(amount_given) {
            Some(left) => left,
            None => {
                return Err(SimpleDexError::InternalError);
            },
        };
        proof {
            lemma_fill_never_lowers_price(self, amount_given);
        }
        // round towards the higher price
        let new_accept_at_least = match accept_over_offer.apply_ceil(new_offering) {
            Ok(asking) => asking,
            Err(e) => {
                return Err(e);
            },
        };
        let mut after = self;
        after.offering = new_offering;
        after.accept_at_least = new_accept_at_least;
        Ok(after)
    }
}

/// A fill never lowers the price. After an offer gave part of what it had,
/// its asking is to what is left as the old asking was to the old offering,
/// or higher: `new asking * old offering >= old asking * new offering`. The
/// new asking is the least for which that holds, and no more than the old.
pub proof fn lemma_fill_never_lowers_price(offer: Offer, amount_given: u64)
    requires
        offer.offering > 0,
        amount_given <= offer.offering,
    ensures
        ({
            let after = offer.after_fill(amount_given);
            &&& after.offering == offer.offering - amount_given
            &&& after.accept_at_least == mul_div_ceil(
                offer.accept_at_least as nat,
                after.offering as nat,
                offer.offering as nat,
            )
            &&& after.accept_at_least <= offer.accept_at_least
            &&& after.accept_at_least * offer.offering >= offer.accept_at_least * after.offering
            &&& after.accept_at_least * offer.offering < offer.accept_at_least * after.offering
                + offer.offering
        }),
{
    let new_offering = (offer.offering - amount_given) as nat;
    lemma_share_rounded_up_within(
        new_offering,
        offer.accept_at_least as nat,
        offer.offering as nat,
    );
    assert(offer.accept_at_least as nat * new_offering == new_offering
        * offer.accept_at_least as nat) by (nonlinear_arith);
    lemma_mul_div_ceil_bounds(offer.accept_at_least as nat, new_offering, offer.offering as nat);
}

/// The number of bytes of an offer's record.
pub const OFFER_LEN: usize = 221;

/// The number of bytes of a record that the fields of an offer fill, from
/// the start; the rest is never written.
pub const OFFER_FIELDS_LEN: usize = 219;

impl Offer {
    /// The number of bytes of an offer's record.
    pub const LEN: usize = OFFER_LEN;

    /// The bytes that the fields fill in a record: each field in the order
    /// of declaration, integers with the low byte first.
    pub open spec fn packed(&self) -> Seq<u8> {
        u64_to_le(self.slot) + u64_to_le(self.offering) + u64_to_le(self.accept_at_least)
            + u16_to_le(self.seed) + seq![self.bump] + self.owner@ + self.offer_mint@
            + self.accept_mint@ + self.refund_to@ + self.credit_to@ + self.refund_rent_to@
    }

    /// The offer whose fields fill the first bytes of `bytes`.
    pub open spec fn unpacked(bytes: Seq<u8>) -> Offer {
        Offer {
            slot: u64_from_le(bytes.subrange(0, 8)),
            offering: u64_from_le(bytes.subrange(8, 16)),
            accept_at_least: u64_from_le(bytes.subrange(16, 24)),
            seed: u16_from_le(bytes.subrange(24, 26)),
            bump: bytes[26],
            owner: address_of(bytes.subrange(27, 59)),
            offer_mint: address_of(bytes.subrange(59, 91)),
            accept_mint: address_of(bytes.subrange(91, 123)),
            refund_to: address_of(bytes.subrange(123, 155)),
            credit_to: address_of(bytes.subrange(155, 187)),
            refund_rent_to: address_of(bytes.subrange(187, 219)),
        }
    }

    /// What [`Offer::unpack`] returns: the offer that the bytes hold, where
    /// they are a record's length and the record was written.
    pub open spec fn unpack_spec(input: Seq<u8>) -> Result<Offer, ProgramError> {
        if input.len() != OFFER_LEN {
            Err(ProgramError::InvalidAccountData)
        } else if Self::unpacked(input).slot == 0 {
            Err(ProgramError::UninitializedAccount)
        } else {
            Ok(Self::unpacked(input))
        }
    }

    /// Writes the fields over the start of `dst` and leaves the rest of it.
    pub fn pack_into_slice(&self, dst: &mut Vec<u8>)
        requires
            old(dst)@.len() >= OFFER_FIELDS_LEN,
        ensures
            final(dst)@ == self.packed() + old(dst)@.skip(OFFER_FIELDS_LEN as int),
    {
        let mut taken: Vec<u8> = Vec::new();
        core::mem::swap(dst, &mut taken);
        let ghost start = CursorView { bytes: taken@, pos: 0 };
        let mut writer = Cursor::new(taken);
        proof {
            lemma_u64_le_round_trip(self.slot);
            lemma_u64_le_round_trip(self.offering);
            lemma_u64_le_round_trip(self.accept_at_least);
            lemma_u16_le_round_trip(self.seed);
        }
        let ghost to_slot = u64_to_le(self.slot);
        let ghost to_offering = to_slot + u64_to_le(self.offering);
        let ghost to_asking = to_offering + u64_to_le(self.accept_at_least);
        let ghost to_seed = to_asking + u16_to_le(self.seed);
        let ghost to_bump = to_seed + seq![self.bump];
        let ghost to_owner = to_bump + self.owner@;
        let ghost to_offer_mint = to_owner + self.offer_mint@;
        let ghost to_accept_mint = to_offer_mint + self.accept_mint@;
        let ghost to_refund_to = to_accept_mint + self.refund_to@;
        let ghost to_credit_to = to_refund_to + self.credit_to@;
        let ghost to_end = to_credit_to + self.refund_rent_to@;
        self.slot.write_bytes(&mut writer).unwrap();
        proof {
            lemma_written_joined(start, to_slot, u64_to_le(self.offering));
        }
        self.offering.write_bytes(&mut writer).unwrap();
        proof {
            lemma_written_joined(start, to_offering, u64_to_le(self.accept_at_least));
        }
        self.accept_at_least.write_bytes(&mut writer).unwrap();
        proof {
            lemma_written_joined(start, to_asking, u16_to_le(self.seed));
        }
        self.seed.write_bytes(&mut writer).unwrap();
        proof {
            lemma_written_joined(start, to_seed, seq![self.bump]);
        }
        self.bump.write_bytes(&mut writer).unwrap();
        proof {
            lemma_written_joined(start, to_bump, self.owner@);
        }
        self.owner.write_bytes(&mut writer).unwrap();
        proof {
            lemma_written_joined(start, to_owner, self.offer_mint@);
        }
        self.offer_mint.write_bytes(&mut writer).unwrap();
        proof {
            lemma_written_joined(start, to_offer_mint, self.accept_mint@);
        }
        self.accept_mint.write_bytes(&mut writer).unwrap();
        proof {
            lemma_written_joined(start, to_accept_mint, self.refund_to@);
        }
        self.refund_to.write_bytes(&mut writer).unwrap();
        proof {
            lemma_written_joined(start, to_refund_to, self.credit_to@);
        }
        self.credit_to.write_bytes(&mut writer).unwrap();
        proof {
            lemma_written_joined(start, to_credit_to, self.refund_rent_to@);
        }
        self.refund_rent_to.write_bytes(&mut writer).unwrap();
        assert(writer@ == start.written(to_end));
        assert(to_end == self.packed());
        assert(to_end.len() == OFFER_FIELDS_LEN);
        *dst = writer.into_inner();
        assert(dst@ =~= self.packed() + start.bytes.skip(OFFER_FIELDS_LEN as int));
    }

    /// Reads the fields from the start of `src`. Fails with the host's form
    /// of `PackunError` where `src` is shorter than the fields.
    pub fn unpack_from_slice(src: &[u8]) -> (r: Result<Offer, ProgramError>)
        ensures
            src@.len() >= OFFER_FIELDS_LEN ==> r == Ok::<Offer, ProgramError>(
                Self::unpacked(src@),
            ),
            src@.len() < OFFER_FIELDS_LEN ==> r == Err::<Offer, ProgramError>(
                custom(SimpleDexError::PackunError),
            ),
    {
        let mut reader = src;
        let ghost all = src@;
        let slot = host_error(u64::read_bytes(&mut reader))?;
        assert(reader@ == all.skip(8));
        assert(all.take(8) =~= all.subrange(0, 8));
        let offering = host_error(u64::read_bytes(&mut reader))?;
        assert(reader@ =~= all.skip(16));
        let accept_at_least = host_error(u64::read_bytes(&mut reader))?;
        assert(reader@ =~= all.skip(24));
        let seed = host_error(u16::read_bytes(&mut reader))?;
        assert(reader@ =~= all.skip(26));
        let bump = host_error(u8::read_bytes(&mut reader))?;
        assert(reader@ =~= all.skip(27));
        let owner = host_error(Address::read_bytes(&mut reader))?;
        assert(reader@ =~= all.skip(59));
        let offer_mint = host_error(Address::read_bytes(&mut reader))?;
        assert(reader@ =~= all.skip(91));
        let accept_mint = host_error(Address::read_bytes(&mut reader))?;
        assert(reader@ =~= all.skip(123));
        let refund_to = host_error(Address::read_bytes(&mut reader))?;
        assert(reader@ =~= all.skip(155));
        let credit_to = host_error(Address::read_bytes(&mut reader))?;
        assert(reader@ =~= all.skip(187));
        let refund_rent_to = host_error(Address::read_bytes(&mut reader))?;
        proof {
            assert(all.skip(27).take(32) =~= all.subrange(27, 59));
            assert(all.skip(59).take(32) =~= all.subrange(59, 91));
            assert(all.skip(91).take(32) =~= all.subrange(91, 123));
            assert(all.skip(123).take(32) =~= all.subrange(123, 155));
            assert(all.skip(155).take(32) =~= all.subrange(155, 187));
            assert(all.skip(187).take(32) =~= all.subrange(187, 219));
        }
        Ok(
            Offer {
                slot,
                offering,
                accept_at_least,
                seed,
                bump,
                owner,
                offer_mint,
                accept_mint,
                refund_to,
                credit_to,
                refund_rent_to,
            },
        )
    }

    /// Writes the offer into a record. Fails with `InvalidAccountData`, and
    /// writes nothing, where `dst` has not a record's length.
    pub fn pack(src: Offer, dst: &mut Vec<u8>) -> (r: Result<(), ProgramError>)
        ensures
            old(dst)@.len() == OFFER_LEN ==> r is Ok && final(dst)@ == src.packed() + old(
                dst,
            )@.skip(OFFER_FIELDS_LEN as int),
            old(dst)@.len() != OFFER_LEN ==> r == Err::<(), ProgramError>(
                ProgramError::InvalidAccountData,
            ) && final(dst)@ == old(dst)@,
    {
        if dst.len() != Self::LEN {
            return Err(ProgramError::InvalidAccountData);
        }
        src.pack_into_slice(dst);
        Ok(())
    }

    /// Reads an offer from a record. Fails with `InvalidAccountData` where
    /// `input` has not a record's length, and with `UninitializedAccount`
    /// where the record was never written or was wiped.
    pub fn unpack(input: &[u8]) -> (r: Result<Offer, ProgramError>)
        ensures
            r == Self::unpack_spec(input@),
    {
        if input.len() != Self::LEN {
            return Err(ProgramError::InvalidAccountData);
        }
        let value = Self::unpack_from_slice(input)?;
        if value.is_initialized() {
            Ok(value)
        } else {
            Err(ProgramError::UninitializedAccount)
        }
    }
}

/// An offer's record: the account that holds it, and the offer read from it.
pub type OfferAccount<'a> = Account<'a, Offer>;

/// What it takes to make an offer's record.
pub struct CreatedOffer<'a> {
    /// The account that will hold the record, and the offer to be written.
    pub account: OfferAccount<'a>,
    /// What the host is asked to do, in this order, so that the account can
    /// hold the record.
    pub allocation: Vec<HostAction>,
    /// The bytes of the account once the offer is written into it.
    pub record: Vec<u8>,
}

/// What is left of an offer's record after it was closed.
pub struct ClosedOffer {
    /// The storage deposit of the account that the record's deposit went to.
    pub refund_rent_to_lamports: u64,
    /// The storage deposit of the record's account: nothing.
    pub lamports: u64,
    /// The bytes of the record's account: as many as before, all zero.
    pub data: Vec<u8>,
}

/// The least storage deposit of a new account: what the host asks for an
/// account that pays no rent, and at least one lamport.
pub open spec fn required_balance(rent_minimum: u64) -> u64 {
    if rent_minimum >= 1 {
        rent_minimum
    } else {
        1
    }
}

/// What [`create_pda_account`] asks of the host. An account that holds no
/// deposit yet is made in one step. One that holds some is topped up to the
/// required deposit where it holds less, then given room, then handed to the
/// exchange.
pub open spec fn create_pda_account_spec(
    space: usize,
    payer: Address,
    new_pda_account: Address,
    lamports: u64,
    signer: PdaSigner,
    rent_minimum: u64,
) -> Seq<HostAction> {
    let owner = Address { bytes: crate::ID };
    if lamports > 0 {
        let give_room = seq![
            HostAction::Allocate { account: new_pda_account, space: space as u64, signer },
            HostAction::Assign { account: new_pda_account, owner, signer },
        ];
        if required_balance(rent_minimum) > lamports {
            seq![
                HostAction::SystemTransfer {
                    from: payer,
                    to: new_pda_account,
                    lamports: (required_balance(rent_minimum) - lamports) as u64,
                },
            ] + give_room
        } else {
            give_room
        }
    } else {
        seq![
            HostAction::CreateAccount {
                from: payer,
                to: new_pda_account,
                lamports: required_balance(rent_minimum),
                space: space as u64,
                owner,
                signer,
            },
        ]
    }
}

/// What the host is asked to do so that the account at a derived address
/// exists, has room for `space` bytes, holds the deposit that frees it of
/// rent, and belongs to the exchange. `rent_minimum` is that deposit as the
/// host states it for `space` bytes.
pub fn create_pda_account(
    space: usize,
    payer: &AccountInfo,
    new_pda_account: &AccountInfo,
    signer: PdaSigner,
    rent_minimum: u64,
) -> (actions: Vec<HostAction>)
    ensures
        actions@ == create_pda_account_spec(
            space,
            payer.key,
            new_pda_account.key,
            new_pda_account.lamports,
            signer,
            rent_minimum,
        ),
{
    let owner = crate::id();
    let required_balance: u64 = if rent_minimum >= 1 {
        rent_minimum
    } else {
        1
    };
    let mut actions: Vec<HostAction> = Vec::new();
    if new_pda_account.lamports > 0 {
        let required_lamports = required_balance.saturating_sub(new_pda_account.lamports);
        if required_lamports > 0 {
            actions.push(
                HostAction::SystemTransfer {
                    from: payer.key,
                    to: new_pda_account.key,
                    lamports: required_lamports,
                },
            );
        }
        actions.push(
            HostAction::Allocate { account: new_pda_account.key, space: space as u64, signer },
        );
        actions.push(HostAction::Assign { account: new_pda_account.key, owner, signer });
    } else {
        actions.push(
            HostAction::CreateAccount {
                from: payer.key,
                to: new_pda_account.key,
                lamports: required_balance,
                space: space as u64,
                owner,
                signer,
            },
        );
    }
    assert(actions@ =~= create_pda_account_spec(
        space,
        payer.key,
        new_pda_account.key,
        new_pda_account.lamports,
        signer,
        rent_minimum,
    ));
    actions
}

/// A copy of the bytes.
pub fn copy_bytes(src: &[u8]) -> (copy: Vec<u8>)
    ensures
        copy@ == src@,
{
    let mut copy: Vec<u8> = Vec::new();
    let mut i: usize = 0;
    while i < src.len()
        invariant
            i <= src@.len(),
            copy@ == src@.take(i as int),
        decreases src@.len() - i,
    {
        copy.push(src[i]);
        assert(src@.take(i + 1) =~= src@.take(i as int).push(src@[i as int]));
        i += 1;
    }
    assert(src@.take(src@.len() as int) =~= src@);
    copy
}

/// What [`OfferAccount::load_checked`] returns for what the host derives
/// from the record's own fields.
pub open spec fn load_checked_spec(offer_account: &AccountInfo) -> Result<Offer, ProgramError> {
    match Offer::unpack_spec(offer_account.data@) {
        Err(e) => Err(e),
        Ok(data) => match program_address(
            offer_seeds_with_bump(
                data.owner@,
                data.offer_mint@,
                data.accept_mint@,
                data.seed,
                data.bump,
            ),
            crate::ID@,
        ) {
            None => Err(ProgramError::InvalidSeeds),
            Some(expected) => if expected != offer_account.key@ {
                Err(custom(SimpleDexError::IncorrectOfferAccount))
            } else {
                Ok(data)
            },
        },
    }
}

impl<'a> Account<'a, Offer> {
    /// The new offer, what the host is asked to do so that `new_offer_account`
    /// can hold it, and the bytes that the account holds once it is written.
    /// `slot` is the host's clock, and `rent_minimum` the deposit that frees
    /// an account of a record's length of rent.
    pub fn create_to(
        new_offer_account: &'a AccountInfo,
        payer: &AccountInfo,
        slot: u64,
        rent_minimum: u64,
        offering: u64,
        accept_at_least: u64,
        seed: u16,
        bump: u8,
        owner: &Address,
        offer_mint: &Address,
        accept_mint: &Address,
        refund_to: &Address,
        credit_to: &Address,
        refund_rent_to: &Address,
    ) -> (created: CreatedOffer<'a>)
        ensures
            created.account.account_info == new_offer_account,
            created.account.data == (Offer {
                slot,
                offering,
                accept_at_least,
                seed,
                bump,
                owner: *owner,
                offer_mint: *offer_mint,
                accept_mint: *accept_mint,
                refund_to: *refund_to,
                credit_to: *credit_to,
                refund_rent_to: *refund_rent_to,
            }),
            created.allocation@ == create_pda_account_spec(
                OFFER_LEN,
                payer.key,
                new_offer_account.key,
                new_offer_account.lamports,
                PdaSigner::of_spec(&created.account.data),
                rent_minimum,
            ),
            created.record@ == created.account.data.packed() + seq![0u8, 0u8],
    {
        let res = Offer {
            slot,
            offering,
            accept_at_least,
            seed,
            bump,
            owner: *owner,
            offer_mint: *offer_mint,
            accept_mint: *accept_mint,
            refund_to: *refund_to,
            credit_to: *credit_to,
            refund_rent_to: *refund_rent_to,
        };
        let allocation = create_pda_account(
            Offer::LEN,
            payer,
            new_offer_account,
            PdaSigner::of(&res),
            rent_minimum,
        );
        let mut record = crate::packun::Cursor::zeroed(Offer::LEN).into_inner();
        res.pack_into_slice(&mut record);
        assert(record@ =~= res.packed() + seq![0u8, 0u8]) by {
            lemma_offer_round_trip(res, seq![0u8, 0u8]);
        }
        let account = Account { account_info: new_offer_account, data: res };
        CreatedOffer { account, allocation, record }
    }

    /// Holds the address that the host derived from a record's fields against
    /// the account that the record was read from.
    pub fn check_address(
        offer_account: &'a AccountInfo,
        data: Offer,
        expected_pda: Result<Address, ProgramError>,
    ) -> (r: Result<OfferAccount<'a>, ProgramError>)
        ensures
            match expected_pda {
                Err(e) => r is Err && r->Err_0 == e,
                Ok(expected) => if expected@ != offer_account.key@ {
                    r is Err && r->Err_0 == custom(SimpleDexError::IncorrectOfferAccount)
                } else {
                    r is Ok && r->Ok_0.account_info == offer_account && r->Ok_0.data == data
                },
            },
    {
        let expected = expected_pda?;
        if expected != offer_account.key {
            return Err(ProgramError::from(SimpleDexError::IncorrectOfferAccount));
        }
        Ok(Account { account_info: offer_account, data })
    }

    /// The offer that the account holds. Fails where the bytes are no
    /// written record, and with `IncorrectOfferAccount` where the account is
    /// not at the address derived from the record's own fields.
    pub fn load_checked(
        offer_account: &'a AccountInfo,
    ) -> (r: Result<OfferAccount<'a>, ProgramError>)
        ensures
            match load_checked_spec(offer_account) {
                Ok(data) => r is Ok && r->Ok_0.account_info == offer_account && r->Ok_0.data
                    == data,
                Err(e) => r is Err && r->Err_0 == e,
            },
    {
        let data = Offer::unpack(offer_account.data.as_slice())?;
        let expected_pda = try_create_offer_pda(
            &data.owner,
            &data.offer_mint,
            &data.accept_mint,
            data.seed,
            data.bump,
        );
        Self::check_address(offer_account, data, expected_pda)
    }

    /// Closes the record: its whole storage deposit goes to `refund_rent_to`,
    /// and its bytes are wiped, so that no offer can be read from them again.
    /// Fails, and closes nothing, with `IncorrectRefundRentTo` where
    /// `refund_rent_to` is not the account that the offer records for its
    /// deposits, and with `InternalError` where the deposits together do not
    /// fit in 64 bits.
    pub fn close(self, refund_rent_to: &AccountInfo) -> (r: Result<ClosedOffer, SimpleDexError>)
        ensures
            match r {
                Ok(closed) => {
                    &&& refund_rent_to.key@ == self.data.refund_rent_to@
                    &&& closed.refund_rent_to_lamports == refund_rent_to.lamports
                        + self.account_info.lamports
                    &&& closed.lamports == 0
                    &&& closed.data@ == Seq::new(self.account_info.data@.len(), |i: int| 0u8)
                    &&& Offer::unpack_spec(closed.data@) is Err
                },
                Err(e) => if refund_rent_to.key@ != self.data.refund_rent_to@ {
                    e == SimpleDexError::IncorrectRefundRentTo
                } else {
                    &&& refund_rent_to.lamports + self.account_info.lamports > u64::MAX
                    &&& e == SimpleDexError::InternalError
                },
            },
    {
        if refund_rent_to.key != self.data.refund_rent_to {
            return Err(SimpleDexError::IncorrectRefundRentTo);
        }
        let refund_rent_to_lamports = match refund_rent_to.lamports.checked_add(
            self.account_info.lamports,
        ) {
            Some(sum) => sum,
            None => {
                return Err(SimpleDexError::InternalError);
            },
        };
        let data = crate::packun::Cursor::zeroed(self.account_info.data.len()).into_inner();
        proof {
            lemma_wiped_record_is_unreadable(data@);
        }
        Ok(ClosedOffer { refund_rent_to_lamports, lamports: 0, data })
    }

    /// The bytes of the account once the offer is written back into it.
    /// Fails with `InvalidAccountData` where the account has not a record's
    /// length.
    pub fn save(self) -> (r: Result<Vec<u8>, ProgramError>)
        ensures
            self.account_info.data@.len() == OFFER_LEN ==> r is Ok && r->Ok_0@
                == self.data.packed() + self.account_info.data@.skip(OFFER_FIELDS_LEN as int),
            self.account_info.data@.len() != OFFER_LEN ==> r is Err && r->Err_0
                == ProgramError::InvalidAccountData,
    {
        let mut record = copy_bytes(self.account_info.data.as_slice());
        Offer::pack(self.data, &mut record)?;
        Ok(record)
    }
}

/// An offer is read back from the record it was written into, whatever
/// stands behind its fields.
pub proof fn lemma_offer_round_trip(offer: Offer, rest: Seq<u8>)
    ensures
        offer.packed().len() == OFFER_FIELDS_LEN,
        Offer::unpacked(offer.packed() + rest) == offer,
{
    let bytes = offer.packed() + rest;
    lemma_u64_le_round_trip(offer.slot);
    lemma_u64_le_round_trip(offer.offering);
    lemma_u64_le_round_trip(offer.accept_at_least);
    lemma_u16_le_round_trip(offer.seed);
    assert(bytes.subrange(0, 8) =~= u64_to_le(offer.slot));
    assert(bytes.subrange(8, 16) =~= u64_to_le(offer.offering));
    assert(bytes.subrange(16, 24) =~= u64_to_le(offer.accept_at_least));
    assert(bytes.subrange(24, 26) =~= u16_to_le(offer.seed));
    assert(bytes[26] == offer.bump);
    assert(bytes.subrange(27, 59) =~= offer.owner@);
    assert(bytes.subrange(59, 91) =~= offer.offer_mint@);
    assert(bytes.subrange(91, 123) =~= offer.accept_mint@);
    assert(bytes.subrange(123, 155) =~= offer.refund_to@);
    assert(bytes.subrange(155, 187) =~= offer.credit_to@);
    assert(bytes.subrange(187, 219) =~= offer.refund_rent_to@);
    lemma_address_of(offer.owner);
    lemma_address_of(offer.offer_mint);
    lemma_address_of(offer.accept_mint);
    lemma_address_of(offer.refund_to);
    lemma_address_of(offer.credit_to);
    lemma_address_of(offer.refund_rent_to);
}

/// The fields read from a record are written back as the bytes they were
/// read from.
pub proof fn lemma_record_round_trip(bytes: Seq<u8>)
    requires
        bytes.len() >= OFFER_FIELDS_LEN,
    ensures
        Offer::unpacked(bytes).packed() == bytes.take(OFFER_FIELDS_LEN as int),
{
    let offer = Offer::unpacked(bytes);
    lemma_u64_le_bytes_round_trip(bytes.subrange(0, 8));
    lemma_u64_le_bytes_round_trip(bytes.subrange(8, 16));
    lemma_u64_le_bytes_round_trip(bytes.subrange(16, 24));
    lemma_u16_le_bytes_round_trip(bytes.subrange(24, 26));
    lemma_address_of_bytes(bytes.subrange(27, 59));
    lemma_address_of_bytes(bytes.subrange(59, 91));
    lemma_address_of_bytes(bytes.subrange(91, 123));
    lemma_address_of_bytes(bytes.subrange(123, 155));
    lemma_address_of_bytes(bytes.subrange(155, 187));
    lemma_address_of_bytes(bytes.subrange(187, 219));
    assert(bytes.subrange(27, 59).take(32) =~= bytes.subrange(27, 59));
    assert(bytes.subrange(59, 91).take(32) =~= bytes.subrange(59, 91));
    assert(bytes.subrange(91, 123).take(32) =~= bytes.subrange(91, 123));
    assert(bytes.subrange(123, 155).take(32) =~= bytes.subrange(123, 155));
    assert(bytes.subrange(155, 187).take(32) =~= bytes.subrange(155, 187));
    assert(bytes.subrange(187, 219).take(32) =~= bytes.subrange(187, 219));
    assert(offer.packed() =~= bytes.take(OFFER_FIELDS_LEN as int));
}

/// A record that was written and is read again gives the offer that was
/// written, unless the offer's sequence marker is zero.
pub proof fn lemma_written_record_reads_back(offer: Offer, before: Seq<u8>)
    requires
        before.len() == OFFER_LEN,
    ensures
        Offer::unpack_spec(offer.packed() + before.skip(OFFER_FIELDS_LEN as int)) == if offer.slot
            != 0 {
            Ok::<Offer, ProgramError>(offer)
        } else {
            Err::<Offer, ProgramError>(ProgramError::UninitializedAccount)
        },
{
    lemma_offer_round_trip(offer, before.skip(OFFER_FIELDS_LEN as int));
}

/// A wiped record cannot be read: bytes that are all zero give no offer,
/// whatever their number.
pub proof fn lemma_wiped_record_is_unreadable(bytes: Seq<u8>)
    requires
        forall|i: int| 0 <= i < bytes.len() ==> bytes[i] == 0,
    ensures
        Offer::unpack_spec(bytes) is Err,
        bytes.len() == OFFER_LEN ==> Offer::unpack_spec(bytes) == Err::<Offer, ProgramError>(
            ProgramError::UninitializedAccount,
        ),
        bytes.len() != OFFER_LEN ==> Offer::unpack_spec(bytes) == Err::<Offer, ProgramError>(
            ProgramError::InvalidAccountData,
        ),
{
}

/// Of two offers whose price ranges cross, at least one can pay all that the
/// other asks.
pub proof fn lemma_crossing_offers_can_fill(a: Offer, b: Offer)
    requires
        Offer::crosses(&a, &b),
    ensures
        a.offering >= b.accept_at_least || b.offering >= a.accept_at_least,
{
    if a.offering < b.accept_at_least && b.offering < a.accept_at_least {
        assert(a.offering * b.offering < a.accept_at_least * b.accept_at_least)
            by (nonlinear_arith)
            requires
                0 <= a.offering < b.accept_at_least,
                0 <= b.offering < a.accept_at_least,
        ;
    }
}

/// A share `part / whole` of a quantity, rounded up, is no more than the
/// quantity, for a part no greater than the whole.
pub proof fn lemma_share_rounded_up_within(part: nat, quantity: nat, whole: nat)
    requires
        whole > 0,
        part <= whole,
    ensures
        mul_div_ceil(part, quantity, whole) <= quantity,
{
    assert(part * quantity <= quantity * whole) by (nonlinear_arith)
        requires
            part <= whole,
    ;
    lemma_mul_div_ceil_is_least(part, quantity, whole, quantity);
}

/// A share `part / whole` of a quantity, rounded down, is no more than the
/// quantity, for a part no greater than the whole.
pub proof fn lemma_share_rounded_down_within(part: nat, quantity: nat, whole: nat)
    requires
        whole > 0,
        part <= whole,
    ensures
        mul_div_floor(part, quantity, whole) <= quantity,
{
    lemma_mul_div_floor_bounds(part, quantity, whole);
    let f = mul_div_floor(part, quantity, whole);
    if f > quantity {
        assert(f * whole >= (quantity + 1) * whole) by (nonlinear_arith)
            requires
                f >= quantity + 1,
                whole > 0,
        ;
        assert((quantity + 1) * whole > part * quantity) by (nonlinear_arith)
            requires
                part <= whole,
                whole > 0,
        ;
    }
}

} // verus!
