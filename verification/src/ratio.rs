//! Exact non-negative rational values.
//!
//! Prices and balances are quotients of 256-bit amounts. They are kept as the
//! two amounts, so that nothing is rounded before a value leaves the library.

use crate::amount::{word_limit, RawAmount};
use vstd::prelude::*;

verus! {

/// A non-negative rational number: a numerator over a denominator that is
/// not zero.
#[derive(Clone, Copy, Debug, PartialEq, Eq)]
pub struct Ratio {
    num: RawAmount,
    den: RawAmount,
}

impl Ratio {
    /// The numerator.
    pub closed spec fn numer(self) -> nat {
        self.num.value()
    }

    /// The denominator.
    pub closed spec fn denom(self) -> nat {
        self.den.value()
    }

    /// A ratio is well formed when its denominator is not zero. Every ratio
    /// that executable code holds is.
    #[verifier::type_invariant]
    pub closed spec fn wf(self) -> bool {
        self.den.value() > 0
    }

    /// Whether two ratios stand for the same rational number.
    pub open spec fn same_number(self, other: Ratio) -> bool {
        self.numer() * other.denom() == other.numer() * self.denom()
    }

    /// The denominator of a well-formed ratio is positive.
    pub proof fn lemma_wf(self)
        requires
            self.wf(),
        ensures
            self.denom() > 0,
    {
    }

    /// The ratio `num / den`, unless `den` is zero.
    pub fn new(num: RawAmount, den: RawAmount) -> (r: Option<Ratio>)
        ensures
            den.value() == 0 <==> r is None,
            r matches Some(q) ==> q.wf() && q.numer() == num.value() && q.denom() == den.value(),
    {
        if den.is_zero() {
            None
        } else {
            Some(Ratio { num, den })
        }
    }

    /// The ratio zero, as `0 / 1`.
    pub fn zero() -> (r: Ratio)
        ensures
            r.wf(),
            r.numer() == 0,
            r.denom() == 1,
    {
        Ratio { num: RawAmount::zero(), den: RawAmount::one() }
    }

    /// The whole number `n`, as `n / 1`.
    pub fn whole(n: RawAmount) -> (r: Ratio)
        ensures
            r.wf(),
            r.numer() == n.value(),
            r.denom() == 1,
    {
        Ratio { num: n, den: RawAmount::one() }
    }

    /// The numerator.
    pub fn numerator(&self) -> (n: RawAmount)
        ensures
            n.value() == self.numer(),
    {
        self.num
    }

    /// The denominator, which is not zero.
    pub fn denominator(&self) -> (d: RawAmount)
        ensures
            d.value() == self.denom(),
            self.wf(),
            d.value() > 0,
    {
        proof {
            use_type_invariant(self);
        }
        self.den
    }

    /// Whether the ratio is above zero.
    pub fn is_positive(&self) -> (b: bool)
        ensures
            b == (self.numer() > 0),
    {
        !self.num.is_zero()
    }

    /// The product of two ratios, numerator by numerator and denominator by
    /// denominator, where both products are below `2^256`.
    pub fn checked_mul(&self, rhs: &Ratio) -> (r: Option<Ratio>)
        ensures
            r is Some <==> self.numer() * rhs.numer() < word_limit() && self.denom() * rhs.denom()
                < word_limit(),
            r matches Some(p) ==> p.wf() && p.numer() == self.numer() * rhs.numer() && p.denom()
                == self.denom() * rhs.denom(),
    {
        proof {
            use_type_invariant(self);
            use_type_invariant(rhs);
            assert(self.den.value() * rhs.den.value() > 0) by (nonlinear_arith)
                requires
                    self.den.value() > 0,
                    rhs.den.value() > 0,
            ;
        }
        match self.num.checked_mul(&rhs.num) {
            None => None,
            Some(num) => match self.den.checked_mul(&rhs.den) {
                None => None,
                Some(den) => Some(Ratio { num, den }),
            },
        }
    }
}

} // verus!
