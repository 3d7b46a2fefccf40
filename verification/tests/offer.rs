use simpledex::address::Address;
use simpledex::error::SimpleDexError;
use simpledex::fee::calc_fee;
use simpledex::instructions::match_offers::Receipt;
use simpledex::state::Offer;
use simpledex::types::OfferSeq;

fn address(tag: u8) -> Address {
    Address::new_from_array([tag; 32])
}

fn offer(slot: u64, offering: u64, accept_at_least: u64) -> Offer {
    Offer {
        slot,
        offering,
        accept_at_least,
        seed: 0,
        bump: 255,
        owner: address(1),
        offer_mint: address(2),
        accept_mint: address(3),
        refund_to: address(4),
        credit_to: address(5),
        refund_rent_to: address(6),
    }
}

#[test]
fn state_test_struct_packing() {
    assert_eq!(224, std::mem::size_of::<Offer>());
}

#[test]
fn offer_test_struct_packing() {
    assert_eq!(224, std::mem::size_of::<Offer>());
}

#[test]
fn exact_match_fills_both_sides() {
    let a = offer(1, 900_000, 99_000);
    let b = offer(2, 99_000, 900_000);
    assert_eq!(Offer::try_match(&a, &b), Ok((900_000, 99_000)));
    let receipt = Receipt::calc(900_000, 99_000, &a, &b).unwrap();
    assert_eq!(receipt.a_to_b, 900_000);
    assert_eq!(receipt.b_to_a, 99_000);
    // b was made last and pays the fee on what it gives
    assert_eq!(receipt.a_to_matcher, 0);
    assert_eq!(receipt.b_to_matcher, 99);
    assert!(a.update_offer_matched(900_000).unwrap().is_closed());
    assert!(b.update_offer_matched(99_000).unwrap().is_closed());
}

#[test]
fn offers_that_do_not_cross_do_not_match() {
    let a = offer(1, 100, 11);
    let b = offer(2, 10, 100);
    // 100 * 10 < 11 * 100
    assert_eq!(Offer::try_match(&a, &b), Err(SimpleDexError::OffersDontMatch));
    assert_eq!(Offer::try_match(&b, &a), Err(SimpleDexError::OffersDontMatch));
}

#[test]
fn crossing_is_tested_on_wide_products() {
    let a = offer(1, u64::MAX, u64::MAX);
    let b = offer(2, u64::MAX, u64::MAX);
    assert_eq!(Offer::try_match(&a, &b), Ok((u64::MAX, u64::MAX)));
    let c = offer(3, u64::MAX - 1, u64::MAX);
    // (2^64 - 2) * (2^64 - 1) < (2^64 - 1)^2
    assert_eq!(Offer::try_match(&c, &b), Err(SimpleDexError::OffersDontMatch));
}

#[test]
fn only_one_side_can_fill() {
    // a can pay all that b asks; b cannot pay all that a asks
    let a = offer(1, 100, 50);
    let b = offer(2, 20, 30);
    assert_eq!(Offer::try_match(&a, &b), Ok((30, 20)));
    assert_eq!(Offer::try_match(&b, &a), Ok((20, 30)));
}

#[test]
fn partial_fill_keeps_the_price() {
    let a = offer(1, 100, 10);
    let after = a.update_offer_matched(40).unwrap();
    assert_eq!(after.offering, 60);
    assert_eq!(after.accept_at_least, 6);
    assert!(!after.is_closed());
    assert_eq!(after.slot, a.slot);
    assert_eq!(after.owner.bytes, a.owner.bytes);
}

#[test]
fn partial_fill_rounds_the_asking_up() {
    let a = offer(1, 100, 10);
    let after = a.update_offer_matched(45).unwrap();
    assert_eq!(after.offering, 55);
    // 10 * 55 / 100 = 5.5
    assert_eq!(after.accept_at_least, 6);
    let b = offer(1, 3, 1);
    let after = b.update_offer_matched(2).unwrap();
    assert_eq!((after.offering, after.accept_at_least), (1, 1));
}

#[test]
fn fill_of_more_than_is_left_is_refused() {
    let a = offer(1, 100, 10);
    assert!(matches!(a.update_offer_matched(101), Err(SimpleDexError::InternalError)));
    let empty = offer(1, 0, 10);
    assert!(matches!(empty.update_offer_matched(0), Err(SimpleDexError::InternalError)));
}

#[test]
fn closed_when_nothing_is_left_or_nothing_is_asked() {
    assert!(offer(1, 0, 5).is_closed());
    assert!(offer(1, 5, 0).is_closed());
    assert!(!offer(1, 5, 5).is_closed());
    assert!(offer(1, 100, 10).update_offer_matched(100).unwrap().is_closed());
}

#[test]
fn offers_are_ordered_by_their_slots() {
    assert_eq!(offer(1, 1, 1).relationship_with(&offer(2, 1, 1)), OfferSeq::Maker);
    assert_eq!(offer(2, 1, 1).relationship_with(&offer(1, 1, 1)), OfferSeq::Taker);
    assert_eq!(offer(2, 1, 1).relationship_with(&offer(2, 1, 1)), OfferSeq::Neither);
}

#[test]
fn least_accepted_is_the_share_rounded_up() {
    let a = offer(1, 100, 10);
    assert_eq!(a.min_willing_to_receive_for(100), Ok(10));
    assert_eq!(a.min_willing_to_receive_for(250), Ok(10));
    assert_eq!(a.min_willing_to_receive_for(40), Ok(4));
    assert_eq!(a.min_willing_to_receive_for(41), Ok(5));
    assert_eq!(a.min_willing_to_receive_for(0), Ok(0));
    assert_eq!(offer(1, 0, 7).min_willing_to_receive_for(0), Ok(7));
}

#[test]
fn most_paid_is_the_share_rounded_down() {
    let a = offer(1, 100, 10);
    assert_eq!(a.max_willing_to_pay_for(10), Ok(100));
    assert_eq!(a.max_willing_to_pay_for(11), Ok(100));
    assert_eq!(a.max_willing_to_pay_for(3), Ok(30));
    let b = offer(1, 10, 3);
    // 10 * 2 / 3 = 6.66
    assert_eq!(b.max_willing_to_pay_for(2), Ok(6));
}

#[test]
fn taker_pays_the_fee() {
    let a = offer(7, 10_000, 5_000);
    let b = offer(3, 5_000, 10_000);
    let receipt = Receipt::calc(10_000, 5_000, &a, &b).unwrap();
    assert_eq!(
        receipt,
        Receipt { a_to_b: 10_000, b_to_a: 5_000, a_to_matcher: 10, b_to_matcher: 0 }
    );
}

#[test]
fn equal_slots_split_the_fee() {
    let a = offer(3, 10_000, 5_000);
    let b = offer(3, 5_000, 10_000);
    let receipt = Receipt::calc(10_000, 5_000, &a, &b).unwrap();
    assert_eq!(
        receipt,
        Receipt { a_to_b: 10_000, b_to_a: 5_000, a_to_matcher: 5, b_to_matcher: 2 }
    );
}

#[test]
fn price_improvement_is_shared_with_the_matcher() {
    // a asks 50 for 100, b asks 80 for 100: both fill, each beyond its asking
    let a = offer(1, 100, 50);
    let b = offer(2, 100, 80);
    let (amt_a, amt_b) = Offer::try_match(&a, &b).unwrap();
    assert_eq!((amt_a, amt_b), (100, 100));
    let receipt = Receipt::calc(amt_a, amt_b, &a, &b).unwrap();
    // a gives 100 where b asks 80: excess 20, bonus 10
    assert_eq!(receipt.a_to_b, 90);
    assert_eq!(receipt.a_to_matcher, 10);
    // b gives 100 where a asks 50: excess 50, bonus 25; fee on 100 is 0
    assert_eq!(receipt.b_to_a, 75);
    assert_eq!(receipt.b_to_matcher, 25);
    // each counterparty gets at least what it asks
    assert!(receipt.a_to_b >= b.min_willing_to_receive_for(amt_b).unwrap());
    assert!(receipt.b_to_a >= a.min_willing_to_receive_for(amt_a).unwrap());
    // what leaves each escrow is what is given and the fee
    assert_eq!(receipt.a_to_b + receipt.a_to_matcher, amt_a);
    assert_eq!(receipt.b_to_a + receipt.b_to_matcher, amt_b + calc_fee(amt_b).unwrap());
}

#[test]
fn receipt_on_the_largest_quantities_does_not_overflow() {
    let a = offer(2, u64::MAX, 1);
    let b = offer(1, u64::MAX, 1);
    let receipt = Receipt::calc(u64::MAX, u64::MAX, &a, &b).unwrap();
    let bonus = (u64::MAX - 1) / 2;
    assert_eq!(receipt.a_to_b, u64::MAX - bonus);
    assert_eq!(receipt.b_to_a, u64::MAX - bonus);
    assert_eq!(receipt.a_to_matcher, u64::MAX / 1000 + bonus);
    assert_eq!(receipt.b_to_matcher, bonus);
}

#[test]
fn escrow_covers_every_later_fill() {
    // an escrow of the offering and the fee on it pays any run of fills
    let offering: u64 = 10_999;
    let mut escrow = offering + calc_fee(offering).unwrap();
    assert_eq!(escrow, 11_009);
    let mut left = offering;
    for take in [999u64, 1_000, 1, 4_999, 4_000] {
        assert!(take <= left);
        let fee = calc_fee(take).unwrap();
        assert!(take + fee <= escrow);
        escrow -= take + fee;
        left -= take;
        assert!(escrow >= left + calc_fee(left).unwrap());
    }
    assert_eq!(left, 0);
    assert_eq!(escrow, 1);
}

#[test]
fn fees_on_parts_are_no_more_than_the_fee_on_the_whole() {
    for (x, y) in [(999u64, 1u64), (500, 500), (1_000, 1_000), (1_999, 1), (0, 12_345)] {
        assert!(calc_fee(x).unwrap() + calc_fee(y).unwrap() <= calc_fee(x + y).unwrap());
    }
}

#[test]
fn offer_with_nothing_left_is_never_settled() {
    // a gives nothing and asks 5; b asks nothing and has 3: the ranges cross
    let a = offer(1, 0, 5);
    let b = offer(2, 3, 0);
    assert_eq!(Offer::try_match(&a, &b), Ok((0, 3)));
    let receipt = Receipt::calc(0, 3, &a, &b).unwrap();
    // a would be paid less than it asks
    assert_eq!(receipt.b_to_a, 3);
    assert_eq!(a.min_willing_to_receive_for(0), Ok(5));
    // but an offer that has nothing left cannot be brought up to date
    assert!(matches!(a.update_offer_matched(0), Err(SimpleDexError::InternalError)));
}
