//! Unsigned 256-bit amounts, as a token contract reports them.
//!
//! An amount is held as four 64-bit limbs, least significant first, which is
//! the layout of `alloy::primitives::U256`. Its meaning in contracts is the
//! natural number `RawAmount::value`. Multiplication and exponentiation are
//! done by `U256`; what is assumed of those two calls is stated on the two
//! private functions at the end of this file.

use alloy::primitives::U256;
use vstd::arithmetic::power::pow;
use vstd::prelude::*;

verus! {

/// The weight of the second limb, `2^64`.
pub open spec fn limb_base() -> nat {
    0x1_0000_0000_0000_0000
}

/// The first number that no amount can hold, `2^256`.
pub open spec fn word_limit() -> nat {
    0x1_0000_0000_0000_0000_0000_0000_0000_0000_0000_0000_0000_0000_0000_0000_0000_0000nat
}

/// The number that four limbs stand for, least significant limb first.
pub open spec fn limbs_value(limbs: Seq<u64>) -> nat
    recommends
        limbs.len() == 4,
{
    limbs[0] as nat + limb_base() * (limbs[1] as nat + limb_base() * (limbs[2] as nat + limb_base()
        * (limbs[3] as nat)))
}

/// Ten to the power `e`.
pub open spec fn pow10(e: nat) -> nat
    decreases e,
{
    if e == 0 {
        1
    } else {
        10 * pow10((e - 1) as nat)
    }
}

/// `pow10` is vstd's `pow` at base ten.
pub proof fn lemma_pow10_is_pow(e: nat)
    ensures
        pow10(e) == pow(10, e),
    decreases e,
{
    reveal(pow);
    if e > 0 {
        lemma_pow10_is_pow((e - 1) as nat);
    }
}

/// Every power of ten is at least one.
pub proof fn lemma_pow10_positive(e: nat)
    ensures
        pow10(e) >= 1,
    decreases e,
{
    if e > 0 {
        lemma_pow10_positive((e - 1) as nat);
    }
}

/// A larger exponent gives a power of ten that is no smaller.
pub proof fn lemma_pow10_monotone(a: nat, b: nat)
    requires
        a <= b,
    ensures
        pow10(a) <= pow10(b),
    decreases b,
{
    if a < b {
        lemma_pow10_monotone(a, (b - 1) as nat);
    }
}

/// `10^77` is the largest power of ten below `2^256`.
pub proof fn lemma_pow10_fits(e: nat)
    ensures
        e <= 77 <==> pow10(e) < word_limit(),
{
    assert(pow10(77) == 100000000000000000000000000000000000000000000000000000000000000000000000000000nat) by {
        reveal_with_fuel(pow10, 40);
        assert(pow10(39) == 1000000000000000000000000000000000000000nat);
    }
    assert(pow10(78) == 10 * pow10(77));
    if e <= 77 {
        lemma_pow10_monotone(e, 77);
    } else {
        lemma_pow10_monotone(78, e);
    }
}

/// An unsigned integer below `2^256`.
#[derive(Clone, Copy, Debug, PartialEq, Eq)]
pub struct RawAmount {
    /// The limbs, least significant first.
    pub limbs: [u64; 4],
}

impl RawAmount {
    /// The number that this amount stands for.
    pub open spec fn value(self) -> nat {
        limbs_value(self.limbs@)
    }

    /// The amount whose limbs are given, least significant first.
    pub fn from_limbs(limbs: [u64; 4]) -> (r: Self)
        ensures
            r.limbs == limbs,
            r.value() == limbs_value(limbs@),
    {
        RawAmount { limbs }
    }

    /// The amount zero.
    pub fn zero() -> (r: Self)
        ensures
            r.value() == 0,
    {
        RawAmount { limbs: [0, 0, 0, 0] }
    }

    /// The amount one.
    pub fn one() -> (r: Self)
        ensures
            r.value() == 1,
    {
        RawAmount { limbs: [1, 0, 0, 0] }
    }

    /// The amount that a 64-bit number stands for.
    pub fn from_u64(v: u64) -> (r: Self)
        ensures
            r.value() == v,
    {
        RawAmount { limbs: [v, 0, 0, 0] }
    }

    /// The amount that a 128-bit number stands for.
    pub fn from_u128(v: u128) -> (r: Self)
        ensures
            r.value() == v,
    {
        let low: u64 = (v & 0xffff_ffff_ffff_ffff) as u64;
        let high: u64 = (v >> 64) as u64;
        assert(v == (v & 0xffff_ffff_ffff_ffff) + 0x1_0000_0000_0000_0000 * (v >> 64)
            && (v & 0xffff_ffff_ffff_ffff) <= 0xffff_ffff_ffff_ffff
            && (v >> 64) <= 0xffff_ffff_ffff_ffff) by (bit_vector);
        RawAmount { limbs: [low, high, 0, 0] }
    }

    /// The amount as a 128-bit number, where it is small enough for one.
    pub fn to_u128(&self) -> (r: Option<u128>)
        ensures
            self.value() <= u128::MAX ==> r == Some(self.value() as u128),
            self.value() > u128::MAX ==> r is None,
    {
        if self.limbs[2] == 0 && self.limbs[3] == 0 {
            let low: u128 = self.limbs[0] as u128;
            let high: u128 = self.limbs[1] as u128;
            assert(high * 0x1_0000_0000_0000_0000 == limb_base() * self.limbs[1] as nat)
                by (nonlinear_arith)
                requires
                    high == self.limbs[1],
            ;
            Some(low + high * 0x1_0000_0000_0000_0000)
        } else {
            proof {
                RawAmount::lemma_high_limbs(self.limbs@);
            }
            None
        }
    }

    /// Whether the amount is zero.
    pub fn is_zero(&self) -> (b: bool)
        ensures
            b == (self.value() == 0),
    {
        proof {
            RawAmount::lemma_zero_limbs(self.limbs@);
        }
        self.limbs[0] == 0 && self.limbs[1] == 0 && self.limbs[2] == 0 && self.limbs[3] == 0
    }

    /// The product of two amounts, where it is below `2^256`.
    pub fn checked_mul(&self, rhs: &RawAmount) -> (r: Option<RawAmount>)
        ensures
            self.value() * rhs.value() < word_limit() ==> r is Some && r->0.value() == self.value()
                * rhs.value(),
            self.value() * rhs.value() >= word_limit() ==> r is None,
    {
        match limbs_checked_mul(self.limbs, rhs.limbs) {
            Some(limbs) => Some(RawAmount { limbs }),
            None => None,
        }
    }

    /// Ten to the power `decimals`, where it is below `2^256`: the raw amount
    /// of one whole unit of a token with that many decimals.
    pub fn pow10(decimals: u8) -> (r: Option<RawAmount>)
        ensures
            decimals <= 77 ==> r is Some && r->0.value() == pow10(decimals as nat),
            decimals > 77 ==> r is None,
    {
        let base = RawAmount::from_u64(10);
        let exp = RawAmount::from_u64(decimals as u64);
        proof {
            lemma_pow10_is_pow(decimals as nat);
            lemma_pow10_fits(decimals as nat);
        }
        match limbs_checked_pow(base.limbs, exp.limbs) {
            Some(limbs) => Some(RawAmount { limbs }),
            None => None,
        }
    }

    /// An amount is zero exactly when each of its limbs is.
    proof fn lemma_zero_limbs(limbs: Seq<u64>)
        ensures
            limbs_value(limbs) == 0 <==> (limbs[0] == 0 && limbs[1] == 0 && limbs[2] == 0
                && limbs[3] == 0),
    {
        let b = limb_base();
        let inner2 = limbs[2] as nat + b * (limbs[3] as nat);
        let inner1 = limbs[1] as nat + b * inner2;
        assert(b * (limbs[3] as nat) >= limbs[3] as nat) by (nonlinear_arith)
            requires
                b >= 1,
        ;
        assert(b * inner2 >= inner2) by (nonlinear_arith)
            requires
                b >= 1,
        ;
        assert(b * inner1 >= inner1) by (nonlinear_arith)
            requires
                b >= 1,
        ;
    }

    /// An amount with a bit set in its upper half is above every 128-bit
    /// number.
    proof fn lemma_high_limbs(limbs: Seq<u64>)
        requires
            limbs[2] != 0 || limbs[3] != 0,
        ensures
            limbs_value(limbs) > u128::MAX,
    {
        let b = limb_base();
        let inner2 = limbs[2] as nat + b * (limbs[3] as nat);
        let inner1 = limbs[1] as nat + b * inner2;
        assert(b * (limbs[3] as nat) >= limbs[3] as nat) by (nonlinear_arith)
            requires
                b >= 1,
        ;
        assert(inner2 >= 1);
        assert(b * inner2 >= b) by (nonlinear_arith)
            requires
                inner2 >= 1,
        ;
        assert(b * inner1 >= b * b) by (nonlinear_arith)
            requires
                inner1 >= b,
        ;
        assert(b * b == 0x1_0000_0000_0000_0000_0000_0000_0000_0000nat);
    }
}

/// `Uint::checked_mul` of ruint, on `U256` values given and returned by their
/// limbs (`from_limbs`, `into_limbs`). Assumed: the call returns the product
/// where the product is below `2^256`, and `None` where it is not.
#[verifier::external_body]
fn limbs_checked_mul(a: [u64; 4], b: [u64; 4]) -> (r: Option<[u64; 4]>)
    ensures
        limbs_value(a@) * limbs_value(b@) < word_limit() ==> r is Some && limbs_value(r->0@)
            == limbs_value(a@) * limbs_value(b@),
        limbs_value(a@) * limbs_value(b@) >= word_limit() ==> r is None,
{
    U256::from_limbs(a).checked_mul(U256::from_limbs(b)).map(U256::into_limbs)
}

/// `Uint::checked_pow` of ruint, on `U256` values given and returned by their
/// limbs. Assumed: the call returns `base` raised to `exp` where that power is
/// below `2^256`, and `None` where it is not.
#[verifier::external_body]
fn limbs_checked_pow(base: [u64; 4], exp: [u64; 4]) -> (r: Option<[u64; 4]>)
    ensures
        pow(limbs_value(base@) as int, limbs_value(exp@)) < word_limit() ==> r is Some
            && limbs_value(r->0@) == pow(limbs_value(base@) as int, limbs_value(exp@)),
        pow(limbs_value(base@) as int, limbs_value(exp@)) >= word_limit() ==> r is None,
{
    U256::from_limbs(base).checked_pow(U256::from_limbs(exp)).map(U256::into_limbs)
}

} // verus!
