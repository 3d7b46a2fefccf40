//! Matching two offers: what each side is paid, and what becomes of each offer.

use vstd::prelude::*;
use crate::account::AccountInfo;
use crate::address::Address;
use crate::checks::{is_credit_to, is_refund_rent_to, is_refund_to, is_token_program};
use crate::checks::program_id::{TOKEN_PROGRAM_ID, token_program_id};
use crate::checks::token_account::TokenAccount;
use crate::error::{custom, host_error, ProgramError, SimpleDexError};
use crate::fee::{
    calc_fee, fee_of, fee_owed, lemma_fee_at_most_a_thousandth, MATCHER_EXCESS_BONUS_DIVISOR,
};
use crate::host::{AccountMeta, HostAction, Instruction, PdaSigner};
use crate::instructions::SimpleDexInstruction;
use crate::packun::SerializePacked;
use crate::pda::{find_offer_addresses, offer_addresses};
use crate::state::holding::{holding_load_checked_spec, reload_spec, HoldingAccount};
use crate::state::offer::{
    lemma_crossing_offers_can_fill, lemma_wiped_record_is_unreadable, load_checked_spec, Offer,
    OFFER_FIELDS_LEN, OFFER_LEN, OfferAccount,
};
use crate::types::{lemma_mul_div_ceil_is_least, OfferSeq};

verus! {

/// The four payments of a match.
#[derive(Clone, Copy, Debug, PartialEq, Eq, Structural)]
pub struct Receipt {
    /// From the escrow of `a` to where `b` is credited.
    pub a_to_b: u64,
    /// From the escrow of `b` to where `a` is credited.
    pub b_to_a: u64,
    /// From the escrow of `a` to the matcher.
    pub a_to_matcher: u64,
    /// From the escrow of `b` to the matcher.
    pub b_to_matcher: u64,
}

/// The fee that each side of a match pays on what it gives: see
/// [`fee_owed`].
pub open spec fn fee_split(a: &Offer, b: &Offer, amt_a_gives: u64, amt_b_gives: u64) -> (nat, nat) {
    (
        fee_owed(amt_a_gives as nat, a.standing_to(b)),
        fee_owed(amt_b_gives as nat, b.standing_to(a)),
    )
}

/// What a side gives beyond the least that the other side accepts for what
/// that one gives in return; zero where it gives no more than that.
pub open spec fn excess(amt_given: u64, receiver: &Offer, amt_returned: u64) -> nat {
    let least = receiver.min_acceptable_for(amt_returned);
    if amt_given >= least {
        (amt_given - least) as nat
    } else {
        0
    }
}

/// The matcher's share of what a side gives beyond the least accepted.
pub open spec fn bonus(amt_given: u64, receiver: &Offer, amt_returned: u64) -> nat {
    excess(amt_given, receiver, amt_returned) / (MATCHER_EXCESS_BONUS_DIVISOR as nat)
}

impl Receipt {
    /// The payments of a match in which `a` gives `amt_a_gives` and `b` gives
    /// `amt_b_gives`. Each side's counterparty gets what the side gives less
    /// the bonus; the matcher gets the side's fee and the bonus.
    pub open spec fn calc_spec(
        amt_a_gives: u64,
        amt_b_gives: u64,
        offering_a: &Offer,
        offering_b: &Offer,
    ) -> Receipt {
        let fees = fee_split(offering_a, offering_b, amt_a_gives, amt_b_gives);
        let bonus_a = bonus(amt_a_gives, offering_b, amt_b_gives);
        let bonus_b = bonus(amt_b_gives, offering_a, amt_a_gives);
        Receipt {
            a_to_b: (amt_a_gives - bonus_a) as u64,
            b_to_a: (amt_b_gives - bonus_b) as u64,
            a_to_matcher: (fees.0 + bonus_a) as u64,
            b_to_matcher: (fees.1 + bonus_b) as u64,
        }
    }

    /// The payments of a match in which `a` gives `amt_a_gives` and `b` gives
    /// `amt_b_gives`. It never fails: a fee and a bonus are together no more
    /// than the quantity they are taken on. What leaves each escrow is what
    /// the offer gives and the fee that it owes.
    pub fn calc(
        amt_a_gives: u64,
        amt_b_gives: u64,
        offering_a: &Offer,
        offering_b: &Offer,
    ) -> (r: Result<Receipt, SimpleDexError>)
        ensures
            r == Ok::<Receipt, SimpleDexError>(
                Self::calc_spec(amt_a_gives, amt_b_gives, offering_a, offering_b),
            ),
            r->Ok_0.a_to_b + r->Ok_0.a_to_matcher == amt_a_gives + fee_owed(
                amt_a_gives as nat,
                offering_a.standing_to(offering_b),
            ),
            r->Ok_0.b_to_a + r->Ok_0.b_to_matcher == amt_b_gives + fee_owed(
                amt_b_gives as nat,
                offering_b.standing_to(offering_a),
            ),
    {
        proof {
            lemma_fee_at_most_a_thousandth(amt_a_gives as nat);
            lemma_fee_at_most_a_thousandth(amt_b_gives as nat);
        }
        let fee_a = calc_fee(amt_a_gives)?;
        let fee_b = calc_fee(amt_b_gives)?;
        let (fee_a_pays, fee_b_pays): (u64, u64) = match offering_a.relationship_with(offering_b) {
            OfferSeq::Maker => (0, fee_b),
            OfferSeq::Taker => (fee_a, 0),
            OfferSeq::Neither => (fee_a / 2, fee_b / 2),
        };

        let excess_a = amt_a_gives.saturating_sub(
            offering_b.min_willing_to_receive_for(amt_b_gives)?,
        );
        let excess_b = amt_b_gives.saturating_sub(
            offering_a.min_willing_to_receive_for(amt_a_gives)?,
        );
        let bonus_a = excess_a / MATCHER_EXCESS_BONUS_DIVISOR;
        let bonus_b = excess_b / MATCHER_EXCESS_BONUS_DIVISOR;

        // a bonus is at most half of what is given
        let a_to_b = amt_a_gives - bonus_a;
        let b_to_a = amt_b_gives - bonus_b;

        let a_to_matcher = match fee_a_pays.checked_add(bonus_a) {
            Some(sum) => sum,
            None => {
                return Err(SimpleDexError::NumericalError);
            },
        };
        let b_to_matcher = match fee_b_pays.checked_add(bonus_b) {
            Some(sum) => sum,
            None => {
                return Err(SimpleDexError::NumericalError);
            },
        };

        Ok(Receipt { a_to_b, b_to_a, a_to_matcher, b_to_matcher })
    }
}

/// An offer that has nothing left asks no more than the other offers. It
/// holds of every open offer. An offer of which it does not hold gives
/// nothing and asks more than the other has: no payment can meet its asking.
pub open spec fn asks_within(a: &Offer, b: &Offer) -> bool {
    a.offering > 0 || a.accept_at_least <= b.offering
}

/// What two crossing offers give each other is, on each side, at least what
/// the receiving offer accepts for what it gives in return.
pub proof fn lemma_fill_amounts_meet_minimum(a: Offer, b: Offer)
    requires
        Offer::crosses(&a, &b),
        asks_within(&a, &b),
        asks_within(&b, &a),
    ensures
        ({
            let (amt_a, amt_b) = Offer::fill_amounts(&a, &b);
            &&& amt_a >= b.min_acceptable_for(amt_b)
            &&& amt_b >= a.min_acceptable_for(amt_a)
        }),
{
    let (amt_a, amt_b) = Offer::fill_amounts(&a, &b);
    lemma_crossing_offers_can_fill(a, b);
    if a.offering >= b.accept_at_least && b.offering >= a.accept_at_least {
    } else if a.offering >= b.accept_at_least {
        // b gives all it has and gets what it asks; a gives part
        if amt_a < a.offering {
            assert(amt_a as nat * a.accept_at_least as nat <= b.offering as nat
                * a.offering as nat) by (nonlinear_arith)
                requires
                    a.offering * b.offering >= a.accept_at_least * b.accept_at_least,
                    amt_a == b.accept_at_least,
            ;
            lemma_mul_div_ceil_is_least(
                amt_a as nat,
                a.accept_at_least as nat,
                a.offering as nat,
                b.offering as nat,
            );
        } else {
            assert(a.offering == 0 ==> a.accept_at_least <= b.offering);
            if a.offering > 0 {
                assert(b.offering >= a.accept_at_least) by (nonlinear_arith)
                    requires
                        a.offering * b.offering >= a.accept_at_least * b.accept_at_least,
                        b.accept_at_least == a.offering,
                        a.offering > 0,
                ;
            }
        }
    } else {
        if amt_b < b.offering {
            assert(amt_b as nat * b.accept_at_least as nat <= a.offering as nat
                * b.offering as nat) by (nonlinear_arith)
                requires
                    a.offering * b.offering >= a.accept_at_least * b.accept_at_least,
                    amt_b == a.accept_at_least,
            ;
            lemma_mul_div_ceil_is_least(
                amt_b as nat,
                b.accept_at_least as nat,
                b.offering as nat,
                a.offering as nat,
            );
        } else {
            if b.offering > 0 {
                assert(a.offering >= b.accept_at_least) by (nonlinear_arith)
                    requires
                        a.offering * b.offering >= a.accept_at_least * b.accept_at_least,
                        a.accept_at_least == b.offering,
                        b.offering > 0,
                ;
            }
        }
    }
}

/// Conservation: neither offer gives more than it has, and what leaves an
/// escrow in a match is what its offer gives and the fee that its side
/// owes, no more and no less; the counterparty and the matcher share it. The
/// two payments are together exactly what the offer gives on a side that
/// owes no fee, and only there.
pub proof fn lemma_receipt_conserves(a: Offer, b: Offer)
    requires
        Offer::crosses(&a, &b),
    ensures
        ({
            let (amt_a, amt_b) = Offer::fill_amounts(&a, &b);
            let receipt = Receipt::calc_spec(amt_a, amt_b, &a, &b);
            let fees = fee_split(&a, &b, amt_a, amt_b);
            &&& amt_a <= a.offering
            &&& amt_b <= b.offering
            &&& receipt.a_to_b + receipt.a_to_matcher == amt_a + fees.0
            &&& receipt.b_to_a + receipt.b_to_matcher == amt_b + fees.1
            &&& fees.0 <= fee_of(amt_a as nat)
            &&& fees.1 <= fee_of(amt_b as nat)
            &&& fees.0 == 0 <==> receipt.a_to_b + receipt.a_to_matcher == amt_a
            &&& fees.1 == 0 <==> receipt.b_to_a + receipt.b_to_matcher == amt_b
        }),
{
    let (amt_a, amt_b) = Offer::fill_amounts(&a, &b);
    lemma_crossing_offers_can_fill(a, b);
    lemma_fee_at_most_a_thousandth(amt_a as nat);
    lemma_fee_at_most_a_thousandth(amt_b as nat);
}

/// The least-price guarantee: in a match of two crossing offers, an offer is
/// paid at least what it accepts for what it gives, unless it has nothing
/// left and asks more than the other offers; then, and only then, it is
/// paid less. Two open offers are always paid what they accept.
pub proof fn lemma_receipt_pays_minimum(a: Offer, b: Offer)
    requires
        Offer::crosses(&a, &b),
    ensures
        ({
            let (amt_a, amt_b) = Offer::fill_amounts(&a, &b);
            let receipt = Receipt::calc_spec(amt_a, amt_b, &a, &b);
            &&& asks_within(&b, &a) <==> receipt.a_to_b >= b.min_acceptable_for(amt_b)
            &&& asks_within(&a, &b) <==> receipt.b_to_a >= a.min_acceptable_for(amt_a)
            &&& a.is_open() ==> asks_within(&a, &b)
            &&& b.is_open() ==> asks_within(&b, &a)
        }),
{
    let (amt_a, amt_b) = Offer::fill_amounts(&a, &b);
    lemma_fee_at_most_a_thousandth(amt_a as nat);
    lemma_fee_at_most_a_thousandth(amt_b as nat);
    lemma_crossing_offers_can_fill(a, b);
    if asks_within(&a, &b) && asks_within(&b, &a) {
        lemma_fill_amounts_meet_minimum(a, b);
    } else if !asks_within(&a, &b) {
        // a gives nothing and asks more than b has, so that b asks nothing
        assert(b.accept_at_least == 0) by (nonlinear_arith)
            requires
                a.offering * b.offering >= a.accept_at_least * b.accept_at_least,
                a.offering == 0,
                a.accept_at_least > 0,
                b.accept_at_least >= 0,
        ;
    } else {
        assert(a.accept_at_least == 0) by (nonlinear_arith)
            requires
                a.offering * b.offering >= a.accept_at_least * b.accept_at_least,
                b.offering == 0,
                b.accept_at_least > 0,
                a.accept_at_least >= 0,
        ;
    }
}

/// The number of accounts that matching takes. For each offer: its record,
/// its escrow, where it is credited, where its remainder is refunded and
/// where its storage deposits are refunded; then the matcher's account for
/// each of the two assets, and the token program.
pub const MATCH_ACCOUNTS: usize = 13;

/// What becomes of an offer after a match.
pub enum OfferUpdate<'a> {
    /// The offer stays open. `record` holds the bytes of its account with
    /// the offer as it now stands written into them.
    Saved { record: Vec<u8> },
    /// The offer is closed. Once the payments of the match are made,
    /// [`close_offer_accounts`] says how the escrow is emptied and closed;
    /// after that the record is closed with [`OfferAccount::close`].
    Closed { offer: OfferAccount<'a>, holding: HoldingAccount<'a> },
}

/// A match that passed every test.
pub struct MatchPlan<'a> {
    /// The first offer as it stood before the match.
    pub offering_a: Offer,
    /// The second offer as it stood before the match.
    pub offering_b: Offer,
    /// What `a` gives.
    pub amt_a_gives: u64,
    /// What `b` gives.
    pub amt_b_gives: u64,
    /// The four payments.
    pub receipt: Receipt,
    /// Pays `receipt.a_to_b` from the escrow of `a` to where `b` is credited.
    pub pay_b: HostAction,
    /// Pays `receipt.a_to_matcher` from the escrow of `a` to the matcher.
    pub pay_matcher_a: HostAction,
    /// Pays `receipt.b_to_a` from the escrow of `b` to where `a` is credited.
    pub pay_a: HostAction,
    /// Pays `receipt.b_to_matcher` from the escrow of `b` to the matcher.
    pub pay_matcher_b: HostAction,
    /// What becomes of `a` once the payments are made.
    pub update_a: OfferUpdate<'a>,
    /// What becomes of `b` once the payments are made.
    pub update_b: OfferUpdate<'a>,
}

/// What the tests of a match read: the two offers and their escrows.
pub struct MatchedAccounts {
    pub offering_a: Offer,
    pub holding_a: TokenAccount,
    pub offering_b: Offer,
    pub holding_b: TokenAccount,
}

/// The offers and escrows that a match acts on, or the first test that it
/// fails before the offers are paired.
pub open spec fn match_accounts_spec(
    accounts: Seq<AccountInfo>,
) -> Result<MatchedAccounts, ProgramError> {
    if accounts.len() < MATCH_ACCOUNTS {
        Err(ProgramError::NotEnoughAccountKeys)
    } else {
        match load_checked_spec(&accounts[0]) {
            Err(e) => Err(e),
            Ok(a) => match holding_load_checked_spec(
                &accounts[1],
                accounts[0].key@,
                a.offer_mint@,
            ) {
                Err(e) => Err(e),
                Ok(held_a) => match load_checked_spec(&accounts[2]) {
                    Err(e) => Err(e),
                    Ok(b) => match holding_load_checked_spec(
                        &accounts[3],
                        accounts[2].key@,
                        b.offer_mint@,
                    ) {
                        Err(e) => Err(e),
                        Ok(held_b) => if accounts[4].key@ != a.credit_to@ {
                            Err(custom(SimpleDexError::IncorrectCreditTo))
                        } else if accounts[5].key@ != a.refund_to@ {
                            Err(custom(SimpleDexError::IncorrectRefundTo))
                        } else if accounts[6].key@ != a.refund_rent_to@ {
                            Err(custom(SimpleDexError::IncorrectRefundRentTo))
                        } else if accounts[7].key@ != b.credit_to@ {
                            Err(custom(SimpleDexError::IncorrectCreditTo))
                        } else if accounts[8].key@ != b.refund_to@ {
                            Err(custom(SimpleDexError::IncorrectRefundTo))
                        } else if accounts[9].key@ != b.refund_rent_to@ {
                            Err(custom(SimpleDexError::IncorrectRefundRentTo))
                        } else if accounts[12].key@ != TOKEN_PROGRAM_ID@ {
                            Err(ProgramError::IncorrectProgramId)
                        } else {
                            Ok(
                                MatchedAccounts {
                                    offering_a: a,
                                    holding_a: held_a,
                                    offering_b: b,
                                    holding_b: held_b,
                                },
                            )
                        },
                    },
                },
            },
        }
    }
}

/// What a match settles.
pub struct Settlement {
    /// What `a` gives and what `b` gives.
    pub amounts: (u64, u64),
    /// The four payments.
    pub receipt: Receipt,
    /// The first offer after it gave its part.
    pub after_a: Offer,
    /// The second offer after it gave its part.
    pub after_b: Offer,
}

/// What a match of two offers settles. Fails with `OffersDontMatch` where
/// their price ranges do not cross, and with `InternalError` where one of
/// them has nothing left to give.
pub open spec fn settle_spec(a: &Offer, b: &Offer) -> Result<Settlement, SimpleDexError> {
    match Offer::try_match_spec(a, b) {
        Err(e) => Err(e),
        Ok(amounts) => match a.update_offer_matched_spec(amounts.0) {
            Err(e) => Err(e),
            Ok(after_a) => match b.update_offer_matched_spec(amounts.1) {
                Err(e) => Err(e),
                Ok(after_b) => Ok(
                    Settlement {
                        amounts,
                        receipt: Receipt::calc_spec(amounts.0, amounts.1, a, b),
                        after_a,
                        after_b,
                    },
                ),
            },
        },
    }
}

/// A match that is settled pays each offer at least what it accepts for
/// what it gives, takes from neither more than it has, and leaves each
/// with what it had less what it gave, at its old price or a higher one.
pub proof fn lemma_settlement_is_fair(a: Offer, b: Offer)
    requires
        settle_spec(&a, &b) is Ok,
    ensures
        ({
            let settled = settle_spec(&a, &b)->Ok_0;
            let (amt_a, amt_b) = settled.amounts;
            &&& Offer::crosses(&a, &b)
            &&& amt_a <= a.offering && amt_b <= b.offering
            &&& settled.receipt.a_to_b >= b.min_acceptable_for(amt_b)
            &&& settled.receipt.b_to_a >= a.min_acceptable_for(amt_a)
            &&& settled.receipt.a_to_b + settled.receipt.a_to_matcher == amt_a + fee_owed(
                amt_a as nat,
                a.standing_to(&b),
            )
            &&& settled.receipt.b_to_a + settled.receipt.b_to_matcher == amt_b + fee_owed(
                amt_b as nat,
                b.standing_to(&a),
            )
            &&& settled.after_a.offering == a.offering - amt_a
            &&& settled.after_b.offering == b.offering - amt_b
            &&& settled.after_a.accept_at_least * a.offering >= a.accept_at_least
                * settled.after_a.offering
            &&& settled.after_b.accept_at_least * b.offering >= b.accept_at_least
                * settled.after_b.offering
        }),
{
    let settled = settle_spec(&a, &b)->Ok_0;
    lemma_receipt_conserves(a, b);
    lemma_receipt_pays_minimum(a, b);
    crate::state::offer::lemma_fill_never_lowers_price(a, settled.amounts.0);
    crate::state::offer::lemma_fill_never_lowers_price(b, settled.amounts.1);
}

/// What a match reads and settles, or the first test that it fails.
pub open spec fn process_match_offers_spec(
    accounts: Seq<AccountInfo>,
) -> Result<(MatchedAccounts, Settlement), ProgramError> {
    match match_accounts_spec(accounts) {
        Err(e) => Err(e),
        Ok(read) => match settle_spec(&read.offering_a, &read.offering_b) {
            Err(e) => Err(custom(e)),
            Ok(settled) => Ok((read, settled)),
        },
    }
}

/// A payment out of the escrow at `holding` of the offer at `offer`.
pub open spec fn payment(
    holding: &AccountInfo,
    offer: &AccountInfo,
    data: &Offer,
    to: &AccountInfo,
    amount: u64,
) -> HostAction {
    HostAction::TokenTransfer {
        source: holding.key,
        destination: to.key,
        authority: offer.key,
        amount,
        derived_from: Some(PdaSigner::of_spec(data)),
    }
}

/// The update is the one for an offer that now stands as `after`, with its
/// record in `offer_account` and its escrow in `holding_account`. An offer
/// that has something left to give and still asks something is written back
/// over the fields of its record; any other is closed.
pub open spec fn is_update(
    offer_account: &AccountInfo,
    holding_account: &AccountInfo,
    held: TokenAccount,
    after: Offer,
    update: OfferUpdate,
) -> bool {
    if after.is_open() {
        &&& update is Saved
        &&& update->record@ == after.packed() + offer_account.data@.skip(OFFER_FIELDS_LEN as int)
    } else {
        &&& update is Closed
        &&& update->offer.account_info == offer_account
        &&& update->offer.data == after
        &&& update->holding.account_info == holding_account
        &&& update->holding.data == held
    }
}

/// The plan is the one for the match that was read and settled: it asks the
/// host for the four payments of the receipt, each out of the giving
/// offer's escrow, and says what becomes of each offer.
pub open spec fn is_match_plan(
    accounts: Seq<AccountInfo>,
    read: MatchedAccounts,
    settled: Settlement,
    plan: MatchPlan,
) -> bool {
    &&& plan.offering_a == read.offering_a
    &&& plan.offering_b == read.offering_b
    &&& plan.amt_a_gives == settled.amounts.0
    &&& plan.amt_b_gives == settled.amounts.1
    &&& plan.receipt == settled.receipt
    &&& plan.pay_b == payment(
        &accounts[1],
        &accounts[0],
        &read.offering_a,
        &accounts[7],
        settled.receipt.a_to_b,
    )
    &&& plan.pay_matcher_a == payment(
        &accounts[1],
        &accounts[0],
        &read.offering_a,
        &accounts[10],
        settled.receipt.a_to_matcher,
    )
    &&& plan.pay_a == payment(
        &accounts[3],
        &accounts[2],
        &read.offering_b,
        &accounts[4],
        settled.receipt.b_to_a,
    )
    &&& plan.pay_matcher_b == payment(
        &accounts[3],
        &accounts[2],
        &read.offering_b,
        &accounts[11],
        settled.receipt.b_to_matcher,
    )
    &&& is_update(&accounts[0], &accounts[1], read.holding_a, settled.after_a, plan.update_a)
    &&& is_update(&accounts[2], &accounts[3], read.holding_b, settled.after_b, plan.update_b)
}

/// What [`process_match_offers`] returns: the first test failed, or the plan.
pub open spec fn process_match_offers_result(
    accounts: Seq<AccountInfo>,
    r: Result<MatchPlan, ProgramError>,
) -> bool {
    match process_match_offers_spec(accounts) {
        Err(e) => r is Err && r->Err_0 == e,
        Ok((read, settled)) => r is Ok && is_match_plan(accounts, read, settled, r->Ok_0),
    }
}

/// Tests a match of two offers and says what the host is to do for it. The
/// whole receipt, and what becomes of each offer, is computed from the
/// offers as they stand before anything is paid. Each offer stays open or is
/// closed by itself: one may close while the other stays.
pub fn process_match_offers<'a>(
    accounts: &'a [AccountInfo],
) -> (r: Result<MatchPlan<'a>, ProgramError>)
    ensures
        process_match_offers_result(accounts@, r),
{
    if accounts.len() < MATCH_ACCOUNTS {
        return Err(ProgramError::NotEnoughAccountKeys);
    }
    let offering_a = &accounts[0];
    let holding_a = &accounts[1];
    let offering_b = &accounts[2];
    let holding_b = &accounts[3];
    let credit_to_a = &accounts[4];
    let refund_to_a = &accounts[5];
    let refund_rent_to_a = &accounts[6];
    let credit_to_b = &accounts[7];
    let refund_to_b = &accounts[8];
    let refund_rent_to_b = &accounts[9];
    let matcher_a = &accounts[10];
    let matcher_b = &accounts[11];
    let token_prog = &accounts[12];

    let offering_a_acc = OfferAccount::load_checked(offering_a)?;
    let holding_a_acc = HoldingAccount::load_checked(holding_a, &offering_a_acc)?;
    let offering_b_acc = OfferAccount::load_checked(offering_b)?;
    let holding_b_acc = HoldingAccount::load_checked(holding_b, &offering_b_acc)?;

    // the token program itself refuses a payment between accounts of
    // different assets, the matcher's accounts included
    host_error(is_credit_to(&credit_to_a.key, &offering_a_acc.data))?;
    host_error(is_refund_to(&refund_to_a.key, &offering_a_acc.data))?;
    host_error(is_refund_rent_to(&refund_rent_to_a.key, &offering_a_acc.data))?;

    host_error(is_credit_to(&credit_to_b.key, &offering_b_acc.data))?;
    host_error(is_refund_to(&refund_to_b.key, &offering_b_acc.data))?;
    host_error(is_refund_rent_to(&refund_rent_to_b.key, &offering_b_acc.data))?;

    is_token_program(token_prog)?;

    let (amt_a_gives, amt_b_gives) = host_error(
        Offer::try_match(&offering_a_acc.data, &offering_b_acc.data),
    )?;
    let receipt = host_error(
        Receipt::calc(amt_a_gives, amt_b_gives, &offering_a_acc.data, &offering_b_acc.data),
    )?;

    let pay_b = holding_a_acc.transfer(&offering_a_acc, credit_to_b, receipt.a_to_b);
    let pay_matcher_a = holding_a_acc.transfer(&offering_a_acc, matcher_a, receipt.a_to_matcher);
    let pay_a = holding_b_acc.transfer(&offering_b_acc, credit_to_a, receipt.b_to_a);
    let pay_matcher_b = holding_b_acc.transfer(&offering_b_acc, matcher_b, receipt.b_to_matcher);

    let before_a = offering_a_acc.data;
    let before_b = offering_b_acc.data;
    let update_a = update_offer_accounts(offering_a_acc, holding_a_acc, amt_a_gives)?;
    let update_b = update_offer_accounts(offering_b_acc, holding_b_acc, amt_b_gives)?;

    Ok(
        MatchPlan {
            offering_a: before_a,
            offering_b: before_b,
            amt_a_gives,
            amt_b_gives,
            receipt,
            pay_b,
            pay_matcher_a,
            pay_a,
            pay_matcher_b,
            update_a,
            update_b,
        },
    )
}

/// What becomes of an offer that gave `amount_given` in a match. An offer
/// that has something left to give and still asks something is written
/// back. One that has not is closed. Fails with `InternalError` where the
/// offer had nothing left to give or gave more than it had, and with
/// `InvalidAccountData` where the record's account has not a record's
/// length.
pub fn update_offer_accounts<'a>(
    offer_acc: OfferAccount<'a>,
    holding_acc: HoldingAccount<'a>,
    amount_given: u64,
) -> (r: Result<OfferUpdate<'a>, ProgramError>)
    ensures
        match offer_acc.data.update_offer_matched_spec(amount_given) {
            Err(e) => r is Err && r->Err_0 == custom(e),
            Ok(after) => if after.is_open() && offer_acc.account_info.data@.len() != OFFER_LEN {
                r is Err && r->Err_0 == ProgramError::InvalidAccountData
            } else {
                r is Ok && is_update(
                    offer_acc.account_info,
                    holding_acc.account_info,
                    holding_acc.data,
                    after,
                    r->Ok_0,
                )
            },
        },
{
    let mut offer_acc = offer_acc;
    offer_acc.data = host_error(offer_acc.data.update_offer_matched(amount_given))?;
    match offer_acc.data.is_closed() {
        true => Ok(OfferUpdate::Closed { offer: offer_acc, holding: holding_acc }),
        false => {
            let record = offer_acc.save()?;
            Ok(OfferUpdate::Saved { record })
        },
    }
}

/// What [`close_offer_accounts`] returns. The accounts presented must be
/// the ones that the offer records for its remainder and for its deposits,
/// and the escrow must be read again from its own account. Then all that
/// the escrow holds is paid to where the offer's remainder is refunded, and
/// the escrow is closed with its deposit going to where the offer's
/// deposits are refunded.
pub open spec fn close_offer_accounts_spec(
    offer_account: &AccountInfo,
    offer: Offer,
    holding: Address,
    holding_now: &AccountInfo,
    refund_to: &AccountInfo,
    refund_rent_to: &AccountInfo,
) -> Result<(HostAction, HostAction), ProgramError> {
    if refund_to.key@ != offer.refund_to@ {
        Err(custom(SimpleDexError::IncorrectRefundTo))
    } else if refund_rent_to.key@ != offer.refund_rent_to@ {
        Err(custom(SimpleDexError::IncorrectRefundRentTo))
    } else {
        match reload_spec(holding, holding_now) {
            Err(e) => Err(e),
            Ok(held) => Ok(
                (
                    HostAction::TokenTransfer {
                        source: holding,
                        destination: offer.refund_to,
                        authority: offer_account.key,
                        amount: held.amount,
                        derived_from: Some(PdaSigner::of_spec(&offer)),
                    },
                    HostAction::CloseTokenAccount {
                        account: holding,
                        destination: offer.refund_rent_to,
                        authority: offer_account.key,
                        signer: PdaSigner::of_spec(&offer),
                    },
                ),
            ),
        }
    }
}

/// What the host is asked to do for an offer that a match closed, once the
/// payments of the match are made: `holding_now` is the escrow's account as
/// it stands then. All that the escrow still holds goes to where the offer
/// records that its remainder is refunded, and the escrow's storage deposit
/// to where it records that its deposits are refunded. After that the
/// record is closed with [`OfferAccount::close`], which sends the record's
/// deposit to the same account.
pub fn close_offer_accounts<'a>(
    offer_acc: &OfferAccount,
    holding_acc: HoldingAccount<'a>,
    holding_now: &'a AccountInfo,
    refund_to: &AccountInfo,
    refund_rent_to: &AccountInfo,
) -> (r: Result<(HostAction, HostAction), ProgramError>)
    ensures
        r == close_offer_accounts_spec(
            offer_acc.account_info,
            offer_acc.data,
            holding_acc.account_info.key,
            holding_now,
            refund_to,
            refund_rent_to,
        ),
{
    host_error(is_refund_to(&refund_to.key, &offer_acc.data))?;
    host_error(is_refund_rent_to(&refund_rent_to.key, &offer_acc.data))?;
    let holding = holding_acc.key();
    let holding_acc = holding_acc.reload(holding_now)?;
    proof {
        crate::address::lemma_address_by_bytes(refund_to.key, offer_acc.data.refund_to);
        crate::address::lemma_address_by_bytes(refund_rent_to.key, offer_acc.data.refund_rent_to);
        crate::address::lemma_address_by_bytes(holding_now.key, holding);
    }
    Ok(holding_acc.close(offer_acc, refund_to, refund_rent_to))
}

/// A closed offer cannot be matched: where the record of either offer is
/// wiped, the match fails. Where it is the first offer's, the failure is
/// `UninitializedAccount` for an account that still has a record's length,
/// and `InvalidAccountData` for one that has not.
pub proof fn lemma_match_of_closed_offer_fails(accounts: Seq<AccountInfo>, wiped: int)
    requires
        accounts.len() >= MATCH_ACCOUNTS,
        wiped == 0 || wiped == 2,
        forall|i: int| 0 <= i < accounts[wiped].data@.len() ==> accounts[wiped].data@[i] == 0,
    ensures
        process_match_offers_spec(accounts) is Err,
        wiped == 0 ==> process_match_offers_spec(accounts)->Err_0 == Offer::unpack_spec(
            accounts[0].data@,
        )->Err_0,
        Offer::unpack_spec(accounts[wiped].data@) is Err,
        Offer::unpack_spec(accounts[wiped].data@)->Err_0 == ProgramError::UninitializedAccount
            || Offer::unpack_spec(accounts[wiped].data@)->Err_0
            == ProgramError::InvalidAccountData,
{
    lemma_wiped_record_is_unreadable(accounts[wiped].data@);
}

/// The accounts of an instruction to match two offers, in the order in
/// which the exchange reads them. Nobody signs; all but the token program
/// are changed.
pub open spec fn match_offers_accounts(
    offering_a: &Offer,
    offering_a_pubkey: Address,
    holding_a: Address,
    offering_b: &Offer,
    offering_b_pubkey: Address,
    holding_b: Address,
    matcher_a: Address,
    matcher_b: Address,
) -> Seq<AccountMeta> {
    seq![
        AccountMeta { pubkey: offering_a_pubkey, is_signer: false, is_writable: true },
        AccountMeta { pubkey: holding_a, is_signer: false, is_writable: true },
        AccountMeta { pubkey: offering_b_pubkey, is_signer: false, is_writable: true },
        AccountMeta { pubkey: holding_b, is_signer: false, is_writable: true },
        AccountMeta { pubkey: offering_a.credit_to, is_signer: false, is_writable: true },
        AccountMeta { pubkey: offering_a.refund_to, is_signer: false, is_writable: true },
        AccountMeta { pubkey: offering_a.refund_rent_to, is_signer: false, is_writable: true },
        AccountMeta { pubkey: offering_b.credit_to, is_signer: false, is_writable: true },
        AccountMeta { pubkey: offering_b.refund_to, is_signer: false, is_writable: true },
        AccountMeta { pubkey: offering_b.refund_rent_to, is_signer: false, is_writable: true },
        AccountMeta { pubkey: matcher_a, is_signer: false, is_writable: true },
        AccountMeta { pubkey: matcher_b, is_signer: false, is_writable: true },
        AccountMeta {
            pubkey: Address { bytes: TOKEN_PROGRAM_ID },
            is_signer: false,
            is_writable: false,
        },
    ]
}

/// The instruction that matches the offers whose records and escrows are at
/// the given addresses.
pub fn match_offers_instruction(
    offering_a: &Offer,
    offering_a_pubkey: Address,
    holding_a: Address,
    offering_b: &Offer,
    offering_b_pubkey: Address,
    holding_b: Address,
    matcher_a: &Address,
    matcher_b: &Address,
) -> (ix: Instruction)
    ensures
        ix.program_id@ == crate::ID@,
        ix.accounts@ == match_offers_accounts(
            offering_a,
            offering_a_pubkey,
            holding_a,
            offering_b,
            offering_b_pubkey,
            holding_b,
            *matcher_a,
            *matcher_b,
        ),
        ix.data@ == SimpleDexInstruction::MatchOffers.packed(),
{
    let mut accounts: Vec<AccountMeta> = Vec::new();
    accounts.push(AccountMeta::new(offering_a_pubkey, false));
    accounts.push(AccountMeta::new(holding_a, false));
    accounts.push(AccountMeta::new(offering_b_pubkey, false));
    accounts.push(AccountMeta::new(holding_b, false));
    accounts.push(AccountMeta::new(offering_a.credit_to, false));
    accounts.push(AccountMeta::new(offering_a.refund_to, false));
    accounts.push(AccountMeta::new(offering_a.refund_rent_to, false));
    accounts.push(AccountMeta::new(offering_b.credit_to, false));
    accounts.push(AccountMeta::new(offering_b.refund_to, false));
    accounts.push(AccountMeta::new(offering_b.refund_rent_to, false));
    accounts.push(AccountMeta::new(*matcher_a, false));
    accounts.push(AccountMeta::new(*matcher_b, false));
    accounts.push(AccountMeta::new_readonly(token_program_id(), false));
    assert(accounts@ =~= match_offers_accounts(
        offering_a,
        offering_a_pubkey,
        holding_a,
        offering_b,
        offering_b_pubkey,
        holding_b,
        *matcher_a,
        *matcher_b,
    ));
    let data = crate::instructions::packun::pack_instruction(&SimpleDexInstruction::MatchOffers);
    Instruction { program_id: crate::id(), accounts, data }
}

/// The instruction by which a matcher settles two offers against each
/// other; `matcher_a` and `matcher_b` are where the matcher is paid in the
/// asset of each. Fails where the host gives no address for the record or
/// the escrow of either offer, the first offer's failure first.
pub fn match_offers(
    offering_a: &Offer,
    offering_b: &Offer,
    matcher_a: &Address,
    matcher_b: &Address,
) -> (r: Result<Instruction, ProgramError>)
    ensures
        match offer_addresses(offering_a) {
            Err(e) => r is Err && r->Err_0 == e,
            Ok((offering_a_pubkey, holding_a)) => match offer_addresses(offering_b) {
                Err(e) => r is Err && r->Err_0 == e,
                Ok((offering_b_pubkey, holding_b)) => {
                    &&& r is Ok
                    &&& r->Ok_0.program_id@ == crate::ID@
                    &&& r->Ok_0.accounts@.len() == MATCH_ACCOUNTS
                    &&& r->Ok_0.accounts@[0].pubkey@ == offering_a_pubkey
                    &&& r->Ok_0.accounts@[1].pubkey@ == holding_a
                    &&& r->Ok_0.accounts@[2].pubkey@ == offering_b_pubkey
                    &&& r->Ok_0.accounts@[3].pubkey@ == holding_b
                    &&& r->Ok_0.accounts@ == match_offers_accounts(
                        offering_a,
                        r->Ok_0.accounts@[0].pubkey,
                        r->Ok_0.accounts@[1].pubkey,
                        offering_b,
                        r->Ok_0.accounts@[2].pubkey,
                        r->Ok_0.accounts@[3].pubkey,
                        *matcher_a,
                        *matcher_b,
                    )
                    &&& r->Ok_0.data@ == SimpleDexInstruction::MatchOffers.packed()
                },
            },
        },
{
    let (offering_a_pubkey, holding_a) = find_offer_addresses(offering_a)?;
    let (offering_b_pubkey, holding_b) = find_offer_addresses(offering_b)?;
    Ok(
        match_offers_instruction(
            offering_a,
            offering_a_pubkey,
            holding_a,
            offering_b,
            offering_b_pubkey,
            holding_b,
            matcher_a,
            matcher_b,
        ),
    )
}

} // verus!
