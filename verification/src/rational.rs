//! Exact nonnegative rational numbers.
//!
//! Derived prices (midprice, microprice) are quotients of integer products,
//! so they are represented exactly as a numerator over a positive
//! denominator instead of being rounded into a machine integer.

use vstd::prelude::*;

verus! {

use vstd::arithmetic::div_mod::{
    lemma_fundamental_div_mod, lemma_fundamental_div_mod_converse_div,
    lemma_fundamental_div_mod_converse_mod,
};
use vstd::arithmetic::mul::{lemma_mul_inequality, lemma_mul_strict_inequality};

/// An exact nonnegative rational number `num / den`.
///
/// The fraction is not necessarily in lowest terms; all claims about it are
/// stated about its value `num / den`, via cross-multiplication.
#[derive(Clone, Copy, Debug, PartialEq, Eq, Structural)]
pub struct Rational {
    pub num: u128,
    pub den: u128,
}

impl Rational {
    /// A rational is well formed when its denominator is positive.
    pub open spec fn wf(self) -> bool {
        self.den > 0
    }

    /// The value `num / den` equals the integer `v`.
    pub open spec fn eq_int(self, v: int) -> bool {
        self.num == v * self.den
    }

    /// The value `num / den` equals the fraction `n / d`.
    pub open spec fn eq_frac(self, n: int, d: int) -> bool {
        self.num * d == n * self.den
    }

    /// The value `num / den` is at least the integer `v`.
    pub open spec fn geq_int(self, v: int) -> bool {
        self.num >= v * self.den
    }

    /// The value `num / den` is at most the integer `v`.
    pub open spec fn leq_int(self, v: int) -> bool {
        self.num <= v * self.den
    }

    /// Decides whether this rational equals the integer `v`.
    pub fn equals_int(&self, v: u64) -> (r: bool)
        requires
            self.wf(),
        ensures
            r == self.eq_int(v as int),
    {
        let q: u128 = self.num / self.den;
        let rem: u128 = self.num % self.den;
        proof {
            lemma_fundamental_div_mod(self.num as int, self.den as int);
            if q == v as u128 && rem == 0 {
                assert(self.num == (v as int) * self.den) by {
                    assert(self.num == self.den * (v as int));
                    lemma_mul_is_commutative(self.den as int, v as int);
                }
            }
            if self.num == (v as int) * self.den {
                lemma_fundamental_div_mod_converse_div(
                    self.num as int, self.den as int, v as int, 0);
                lemma_fundamental_div_mod_converse_mod(
                    self.num as int, self.den as int, v as int, 0);
            }
        }
        q == v as u128 && rem == 0
    }

    /// Decides whether this rational is at least the integer `v`.
    pub fn at_least_int(&self, v: u64) -> (r: bool)
        requires
            self.wf(),
        ensures
            r == self.geq_int(v as int),
    {
        let q: u128 = self.num / self.den;
        proof {
            lemma_fundamental_div_mod(self.num as int, self.den as int);
            if q >= v as u128 {
                lemma_mul_inequality(v as int, q as int, self.den as int);
                assert((v as int) * self.den <= (q as int) * self.den);
                lemma_mul_is_commutative(q as int, self.den as int);
            } else {
                lemma_mul_inequality(q as int + 1, v as int, self.den as int);
                lemma_mul_is_distributive(self.den as int, q as int, 1);
                lemma_mul_is_commutative(q as int, self.den as int);
                lemma_mul_is_commutative(q as int + 1, self.den as int);
            }
        }
        q >= v as u128
    }

    /// Decides whether this rational is at most the integer `v`.
    pub fn at_most_int(&self, v: u64) -> (r: bool)
        requires
            self.wf(),
        ensures
            r == self.leq_int(v as int),
    {
        let q: u128 = self.num / self.den;
        let rem: u128 = self.num % self.den;
        proof {
            lemma_fundamental_div_mod(self.num as int, self.den as int);
            if q < v as u128 {
                lemma_mul_inequality(q as int + 1, v as int, self.den as int);
                lemma_mul_is_distributive(self.den as int, q as int, 1);
                lemma_mul_is_commutative(q as int, self.den as int);
                lemma_mul_is_commutative(q as int + 1, self.den as int);
            } else if q > v as u128 {
                lemma_mul_strict_inequality(v as int, q as int, self.den as int);
                lemma_mul_is_commutative(q as int, self.den as int);
            } else {
                lemma_mul_is_commutative(q as int, self.den as int);
            }
        }
        q < v as u128 || (q == v as u128 && rem == 0)
    }
}

/// `x * y == y * x`, stated here so callers need one import.
proof fn lemma_mul_is_commutative(x: int, y: int)
    ensures
        x * y == y * x,
{
}

/// `x * (y + z) == x * y + x * z`.
proof fn lemma_mul_is_distributive(x: int, y: int, z: int)
    by (nonlinear_arith)
    ensures
        x * (y + z) == x * y + x * z,
{
}

} // verus!
