//! Exact ratios of quantities, and the order in which two offers were made.

use vstd::prelude::*;
use crate::error::SimpleDexError;

verus! {

/// `n * a / d` rounded down, for a positive `d`.
pub open spec fn mul_div_floor(n: nat, a: nat, d: nat) -> nat {
    (n * a) / d
}

/// `n * a / d` rounded up, for a positive `d`.
pub open spec fn mul_div_ceil(n: nat, a: nat, d: nat) -> nat {
    (n * a + (d - 1)) as nat / d
}

/// The rounded-down quotient is the greatest `q` with `q * d <= n * a`.
pub proof fn lemma_mul_div_floor_bounds(n: nat, a: nat, d: nat)
    requires
        d > 0,
    ensures
        mul_div_floor(n, a, d) * d <= n * a,
        n * a < (mul_div_floor(n, a, d) + 1) * d,
{
    let x = n * a;
    assert(x == d * (x / d) + x % d && 0 <= x % d < d) by {
        vstd::arithmetic::div_mod::lemma_fundamental_div_mod(x as int, d as int);
    }
    assert((x / d) * d == d * (x / d)) by (nonlinear_arith);
    assert((x / d + 1) * d == d * (x / d) + d) by (nonlinear_arith);
}

/// The rounded-up quotient is the least `q` with `n * a <= q * d`.
pub proof fn lemma_mul_div_ceil_bounds(n: nat, a: nat, d: nat)
    requires
        d > 0,
    ensures
        n * a <= mul_div_ceil(n, a, d) * d,
        mul_div_ceil(n, a, d) * d < n * a + d,
{
    let x = n * a;
    let y = (x + (d - 1)) as nat;
    assert(y == d * (y / d) + y % d && 0 <= y % d < d) by {
        vstd::arithmetic::div_mod::lemma_fundamental_div_mod(y as int, d as int);
    }
    assert((y / d) * d == d * (y / d)) by (nonlinear_arith);
}

/// Any `q` with `n * a <= q * d` is at least the rounded-up quotient.
pub proof fn lemma_mul_div_ceil_is_least(n: nat, a: nat, d: nat, q: nat)
    requires
        d > 0,
        n * a <= q * d,
    ensures
        mul_div_ceil(n, a, d) <= q,
{
    lemma_mul_div_ceil_bounds(n, a, d);
    let c = mul_div_ceil(n, a, d);
    if c > q {
        assert(c * d >= (q + 1) * d) by (nonlinear_arith)
            requires
                c >= q + 1,
                d > 0,
        ;
        assert((q + 1) * d == q * d + d) by (nonlinear_arith);
    }
}

/// Any `q` with `q * d <= n * a` is at most the rounded-down quotient.
pub proof fn lemma_mul_div_floor_is_greatest(n: nat, a: nat, d: nat, q: nat)
    requires
        d > 0,
        q * d <= n * a,
    ensures
        q <= mul_div_floor(n, a, d),
{
    lemma_mul_div_floor_bounds(n, a, d);
    let f = mul_div_floor(n, a, d);
    if q > f {
        assert(q * d >= (f + 1) * d) by (nonlinear_arith)
            requires
                q >= f + 1,
                d > 0,
        ;
    }
}

/// A ratio of two quantities, applied to a third without loss: the product is
/// formed in 128 bits before it is divided.
#[derive(Clone, Copy, Debug)]
pub struct Ratio {
    num: u64,
    denom: u64,
}

impl View for Ratio {
    type V = (nat, nat);

    /// Numerator and denominator.
    closed spec fn view(&self) -> (nat, nat) {
        (self.num as nat, self.denom as nat)
    }
}

impl Ratio {
    /// The ratio can be applied: its denominator is not zero.
    pub open spec fn wf(&self) -> bool {
        self@.1 > 0
    }

    /// `num * token_amt / denom`, rounded down.
    pub open spec fn floor_of(&self, token_amt: u64) -> nat {
        mul_div_floor(self@.0, token_amt as nat, self@.1)
    }

    /// `num * token_amt / denom`, rounded up.
    pub open spec fn ceil_of(&self, token_amt: u64) -> nat {
        mul_div_ceil(self@.0, token_amt as nat, self@.1)
    }

    /// What [`Ratio::apply_floor`] returns.
    pub open spec fn apply_floor_spec(&self, token_amt: u64) -> Result<u64, SimpleDexError> {
        if self.wf() && self.floor_of(token_amt) <= u64::MAX {
            Ok(self.floor_of(token_amt) as u64)
        } else {
            Err(SimpleDexError::InternalError)
        }
    }

    /// What [`Ratio::apply_ceil`] returns.
    pub open spec fn apply_ceil_spec(&self, token_amt: u64) -> Result<u64, SimpleDexError> {
        if self.wf() && self.ceil_of(token_amt) <= u64::MAX {
            Ok(self.ceil_of(token_amt) as u64)
        } else {
            Err(SimpleDexError::InternalError)
        }
    }

    /// The ratio `num / denom`, or `InternalError` for a zero denominator.
    pub fn new(num: u64, denom: u64) -> (r: Result<Ratio, SimpleDexError>)
        ensures
            match r {
                Ok(ratio) => denom != 0 && ratio@ == (num as nat, denom as nat),
                Err(e) => denom == 0 && e == SimpleDexError::InternalError,
            },
    {
        if denom == 0 {
            return Err(SimpleDexError::InternalError);
        }
        Ok(Self::new_unchecked(num, denom))
    }

    /// The ratio `num / denom`, whatever the denominator. One with a zero
    /// denominator can be built and fails when it is applied.
    pub fn new_unchecked(num: u64, denom: u64) -> (r: Ratio)
        ensures
            r@ == (num as nat, denom as nat),
    {
        Ratio { num, denom }
    }

    /// `num * token_amt / denom`, rounded down. Fails with `InternalError`
    /// where the denominator is zero or the quotient does not fit in 64 bits.
    pub fn apply_floor(&self, token_amt: u64) -> (r: Result<u64, SimpleDexError>)
        ensures
            r == self.apply_floor_spec(token_amt),
    {
        if self.denom == 0 {
            return Err(SimpleDexError::InternalError);
        }
        let product: u128 = self.product(token_amt);
        let quotient: u128 = product / (self.denom as u128);
        if quotient > u64::MAX as u128 {
            return Err(SimpleDexError::InternalError);
        }
        Ok(quotient as u64)
    }

    /// `num * token_amt / denom`, rounded up. Fails with `InternalError`
    /// where the denominator is zero or the quotient does not fit in 64 bits.
    pub fn apply_ceil(&self, token_amt: u64) -> (r: Result<u64, SimpleDexError>)
        ensures
            r == self.apply_ceil_spec(token_amt),
    {
        if self.denom == 0 {
            return Err(SimpleDexError::InternalError);
        }
        let product: u128 = self.product(token_amt);
        let raised: u128 = product + (self.denom as u128 - 1);
        let quotient: u128 = raised / (self.denom as u128);
        if quotient > u64::MAX as u128 {
            return Err(SimpleDexError::InternalError);
        }
        Ok(quotient as u64)
    }

    /// `num * token_amt`, which always fits in 128 bits.
    fn product(&self, token_amt: u64) -> (p: u128)
        ensures
            p == self@.0 * (token_amt as nat),
            p <= 0xffff_ffff_ffff_fffe_0000_0000_0000_0001,
    {
        assert(self.num * token_amt <= 0xffff_ffff_ffff_ffff * 0xffff_ffff_ffff_ffff)
            by (nonlinear_arith)
            requires
                self.num <= 0xffff_ffff_ffff_ffff,
                token_amt <= 0xffff_ffff_ffff_ffff,
        ;
        (self.num as u128) * (token_amt as u128)
    }
}

/// How an offer stands to another in time.
#[derive(Clone, Copy, Debug, PartialEq, Eq, Structural)]
pub enum OfferSeq {
    /// It was made first.
    Maker,
    /// It was made last.
    Taker,
    /// Both carry the same sequence marker.
    Neither,
}

} // verus!
