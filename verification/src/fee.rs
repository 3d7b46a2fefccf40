//! The fee schedule, and why an offer's escrow always covers it.

use vstd::prelude::*;
use crate::error::SimpleDexError;
use crate::types::{mul_div_floor, OfferSeq, Ratio};

verus! {

/// The share of a price improvement that goes to the matcher: one part in this many.
pub const MATCHER_EXCESS_BONUS_DIVISOR: u64 = 2;

/// The fee on a quantity given, in basis points.
pub const TAKER_FEE_BPS: u64 = 10;

/// The number of basis points in the whole.
pub const BPS_BASE: u64 = 10_000;

/// The fee on a quantity given: ten basis points of it, rounded down.
pub open spec fn fee_of(amount_given: nat) -> nat {
    mul_div_floor(TAKER_FEE_BPS as nat, amount_given, BPS_BASE as nat)
}

/// The fee on a quantity given: ten basis points of it, rounded down. It
/// never fails: the fee is no more than the quantity.
pub fn calc_fee(amount_given: u64) -> (r: Result<u64, SimpleDexError>)
    ensures
        r == Ok::<u64, SimpleDexError>(fee_of(amount_given as nat) as u64),
{
    let fee_ratio = Ratio::new_unchecked(TAKER_FEE_BPS, BPS_BASE);
    proof {
        lemma_fee_at_most_a_thousandth(amount_given as nat);
    }
    fee_ratio.apply_floor(amount_given)
}

/// The fee is a thousandth of the quantity, rounded down.
pub proof fn lemma_fee_at_most_a_thousandth(amount_given: nat)
    ensures
        fee_of(amount_given) == amount_given / 1000,
        fee_of(amount_given) <= amount_given,
{
}

/// Splitting a quantity never raises the fee: the fees on two parts are
/// together no more than the fee on their sum.
pub proof fn lemma_fee_superadditive(x: nat, y: nat)
    ensures
        fee_of(x) + fee_of(y) <= fee_of(x + y),
{
    lemma_fee_at_most_a_thousandth(x);
    lemma_fee_at_most_a_thousandth(y);
    lemma_fee_at_most_a_thousandth(x + y);
}

/// The fee that an offer owes on what it gives in a match, by how it stands
/// to the other offer in time: the whole fee where it was made last, none
/// where it was made first, and half the fee where both carry the same
/// sequence marker.
pub open spec fn fee_owed(amount_given: nat, standing: OfferSeq) -> nat {
    match standing {
        OfferSeq::Maker => 0,
        OfferSeq::Taker => fee_of(amount_given),
        OfferSeq::Neither => fee_of(amount_given) / 2,
    }
}

/// Half the fee on a quantity is the fee on half the quantity.
pub proof fn lemma_half_fee_is_fee_on_half(amount_given: nat)
    ensures
        fee_of(amount_given) / 2 == fee_of(amount_given / 2),
{
    lemma_fee_at_most_a_thousandth(amount_given);
    lemma_fee_at_most_a_thousandth(amount_given / 2);
}

/// What an offer's escrow holds when the offer is made: the offering and the
/// fee on it.
pub open spec fn initial_escrow(offering: nat) -> int {
    (offering + fee_of(offering)) as int
}

/// One fill of an offer: the quantity that the offer gave, and how it stood
/// in time to the offer it was matched with.
pub struct Fill {
    pub amount: nat,
    pub standing: OfferSeq,
}

/// What is left of an offering after a run of fills.
pub open spec fn remaining_after(offering: int, fills: Seq<Fill>) -> int
    decreases fills.len(),
{
    if fills.len() == 0 {
        offering
    } else {
        remaining_after(offering, fills.drop_last()) - fills.last().amount
    }
}

/// What is left in the escrow after a run of fills: each takes out what
/// the offer gave and the fee that the offer owed on it.
pub open spec fn escrow_after(escrow: int, fills: Seq<Fill>) -> int
    decreases fills.len(),
{
    if fills.len() == 0 {
        escrow
    } else {
        escrow_after(escrow, fills.drop_last()) - fills.last().amount - fee_owed(
            fills.last().amount,
            fills.last().standing,
        )
    }
}

/// Each fill takes no more than what is left of the offering when it comes.
pub open spec fn fills_allowed(offering: nat, fills: Seq<Fill>) -> bool
    decreases fills.len(),
{
    fills.len() == 0 || {
        &&& fills_allowed(offering, fills.drop_last())
        &&& fills.last().amount <= remaining_after(offering as int, fills.drop_last())
    }
}

/// An escrow that starts as the offering and the fee on it stays, after any
/// run of allowed fills, at or above what is left of the offering and the fee
/// on that: the next fill, up to the whole remainder, is always covered.
pub proof fn lemma_escrow_covers_remainder(offering: nat, fills: Seq<Fill>)
    requires
        fills_allowed(offering, fills),
    ensures
        0 <= remaining_after(offering as int, fills),
        escrow_after(initial_escrow(offering), fills) >= remaining_after(offering as int, fills)
            + fee_of(remaining_after(offering as int, fills) as nat),
    decreases fills.len(),
{
    if fills.len() > 0 {
        let before = fills.drop_last();
        lemma_escrow_covers_remainder(offering, before);
        let left = remaining_after(offering as int, before) as nat;
        let taken = fills.last().amount;
        lemma_fee_superadditive(taken, (left - taken) as nat);
        lemma_fee_at_most_a_thousandth(taken);
    }
}

/// Every beginning of an allowed run of fills is an allowed run.
pub proof fn lemma_fills_allowed_prefix(offering: nat, fills: Seq<Fill>, k: int)
    requires
        fills_allowed(offering, fills),
        0 <= k <= fills.len(),
    ensures
        fills_allowed(offering, fills.take(k)),
    decreases fills.len(),
{
    if k == fills.len() {
        assert(fills.take(k) =~= fills);
    } else {
        assert(fills.drop_last().take(k) =~= fills.take(k));
        lemma_fills_allowed_prefix(offering, fills.drop_last(), k);
    }
}

/// Fee sufficiency: from an escrow of the offering and the fee on it, through
/// any run of fills that each take no more than what is left, the escrow
/// pays what each fill gives and the fee owed on it and never goes below
/// zero, whatever the point at which one stops.
pub proof fn lemma_fee_sufficiency(offering: nat, fills: Seq<Fill>)
    requires
        fills_allowed(offering, fills),
    ensures
        forall|k: int|
            0 <= k <= fills.len() ==> 0 <= #[trigger] escrow_after(
                initial_escrow(offering),
                fills.take(k),
            ),
{
    assert forall|k: int| 0 <= k <= fills.len() implies 0 <= #[trigger] escrow_after(
        initial_escrow(offering),
        fills.take(k),
    ) by {
        lemma_fills_allowed_prefix(offering, fills, k);
        lemma_escrow_covers_remainder(offering, fills.take(k));
    }
}

} // verus!
