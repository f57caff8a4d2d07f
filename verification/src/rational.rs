//! Exact rational numbers: the element type of the dual-number algebra.
//!
//! A [`Rational`] holds a numerator and a positive denominator, both
//! `i128`, and is not reduced: each operation states its result exactly,
//! component by component, over the ghost model [`Rat`].  Two rationals
//! denote the same number when they cross-multiply equally, which
//! [`rat_eqv`] captures.
//!
//! Fixed-width integers bound what the components can hold, so each
//! operation carries a `*_fits` precondition saying that the exact result's
//! components stay representable.

use vstd::prelude::*;

verus! {

/// Mathematical model of a rational number: an integer numerator over a
/// positive integer denominator, not necessarily reduced.
pub ghost struct Rat {
    pub num: int,
    pub den: int,
}

impl Rat {
    /// A model is well formed when its denominator is positive.
    pub open spec fn wf(self) -> bool {
        self.den > 0
    }
}

/// Does a mathematical integer fit in `i128`?
pub open spec fn in_i128(x: int) -> bool {
    i128::MIN <= x <= i128::MAX
}

/// The rational denoted by integer `n`.
pub open spec fn rat_int(n: int) -> Rat {
    Rat { num: n, den: 1 }
}

/// Do `a` and `b` denote the same number?  (Cross multiplication.)
pub open spec fn rat_eqv(a: Rat, b: Rat) -> bool {
    a.num * b.den == b.num * a.den
}

/// Exact negation.
pub open spec fn rat_neg(a: Rat) -> Rat {
    Rat { num: -a.num, den: a.den }
}

/// Exact sum: `a/b + c/d == (a*d + c*b) / (b*d)`.
pub open spec fn rat_add(a: Rat, b: Rat) -> Rat {
    Rat { num: a.num * b.den + b.num * a.den, den: a.den * b.den }
}

/// Exact difference: `a/b - c/d == (a*d - c*b) / (b*d)`.
pub open spec fn rat_sub(a: Rat, b: Rat) -> Rat {
    Rat { num: a.num * b.den - b.num * a.den, den: a.den * b.den }
}

/// Exact product: numerators and denominators multiply.
pub open spec fn rat_mul(a: Rat, b: Rat) -> Rat {
    Rat { num: a.num * b.num, den: a.den * b.den }
}

/// Exact quotient `a / b` for `b.num != 0`, with the sign moved into the
/// numerator so that the denominator stays positive.
pub open spec fn rat_div(a: Rat, b: Rat) -> Rat {
    if b.num > 0 {
        Rat { num: a.num * b.den, den: a.den * b.num }
    } else {
        Rat { num: -(a.num * b.den), den: -(a.den * b.num) }
    }
}

/// Exact `k`-th power, as `k` repeated multiplications by `r` starting
/// from one.
pub open spec fn rat_pow(r: Rat, k: nat) -> Rat
    decreases k,
{
    if k == 0 {
        rat_int(1)
    } else {
        rat_mul(rat_pow(r, (k - 1) as nat), r)
    }
}

/// Every multiplication on the way to `rat_pow(r, k)` stays
/// representable.
pub open spec fn pow_fits(r: Rat, k: nat) -> bool
    decreases k,
{
    if k == 0 {
        true
    } else {
        pow_fits(r, (k - 1) as nat) && mul_fits(rat_pow(r, (k - 1) as nat), r)
    }
}

/// `pow_fits(r, k)` covers every step below `k`: the `j`-th multiplication
/// fits for each `j < k`.
pub proof fn lemma_pow_fits_unfold(r: Rat, k: nat, j: nat)
    requires
        pow_fits(r, k),
        j < k,
    ensures
        mul_fits(rat_pow(r, j), r),
    decreases k,
{
    if j + 1 < k {
        lemma_pow_fits_unfold(r, (k - 1) as nat, j);
    }
}

/// Both components of `r` are bounded by `m` in magnitude, the
/// denominator positive.
pub open spec fn rat_bounded(r: Rat, m: int) -> bool {
    &&& -m <= r.num <= m
    &&& 0 < r.den <= m
}

/// The components of `rat_neg(a)` stay representable.
pub open spec fn neg_fits(a: Rat) -> bool {
    in_i128(-a.num)
}

/// The components of `rat_add(a, b)` (and of each partial product) stay
/// representable.
pub open spec fn add_fits(a: Rat, b: Rat) -> bool {
    &&& in_i128(a.num * b.den)
    &&& in_i128(b.num * a.den)
    &&& in_i128(a.num * b.den + b.num * a.den)
    &&& in_i128(a.den * b.den)
}

/// The components of `rat_sub(a, b)` (and of each partial product) stay
/// representable.
pub open spec fn sub_fits(a: Rat, b: Rat) -> bool {
    &&& in_i128(a.num * b.den)
    &&& in_i128(b.num * a.den)
    &&& in_i128(a.num * b.den - b.num * a.den)
    &&& in_i128(a.den * b.den)
}

/// The components of `rat_mul(a, b)` stay representable.
pub open spec fn mul_fits(a: Rat, b: Rat) -> bool {
    &&& in_i128(a.num * b.num)
    &&& in_i128(a.den * b.den)
}

/// The components of `rat_div(a, b)` stay representable, for either sign
/// of `b`.
pub open spec fn div_fits(a: Rat, b: Rat) -> bool {
    &&& in_i128(a.num * b.den)
    &&& in_i128(-(a.num * b.den))
    &&& in_i128(a.den * b.num)
    &&& in_i128(-(a.den * b.num))
}

/// An exact rational number.  The denominator is kept positive; results
/// are not reduced.
#[derive(Clone, Copy, Debug, PartialEq, Eq, Structural)]
pub struct Rational {
    num: i128,
    den: i128,
}

impl View for Rational {
    type V = Rat;

    closed spec fn view(&self) -> Rat {
        Rat { num: self.num as int, den: self.den as int }
    }
}

impl Rational {
    /// Is the denominator positive?
    pub open spec fn wf(self) -> bool {
        self@.wf()
    }

    /// The rational `num / den`.  The sign of the denominator is folded
    /// into the numerator.
    pub fn new(num: i128, den: i128) -> (r: Rational)
        requires
            den != 0,
            num != i128::MIN,
            den != i128::MIN,
        ensures
            r.wf(),
            den > 0 ==> r@ == (Rat { num: num as int, den: den as int }),
            den < 0 ==> r@ == (Rat { num: -(num as int), den: -(den as int) }),
    {
        if den > 0 {
            Rational { num, den }
        } else {
            Rational { num: -num, den: -den }
        }
    }

    /// The rational denoting the integer `n`.
    pub fn from_int(n: i128) -> (r: Rational)
        ensures
            r.wf(),
            r@ == rat_int(n as int),
    {
        Rational { num: n, den: 1 }
    }

    /// The numerator, exactly as stored.
    pub fn numerator(&self) -> (n: i128)
        ensures
            n as int == self@.num,
    {
        self.num
    }

    /// The denominator, exactly as stored.
    pub fn denominator(&self) -> (d: i128)
        ensures
            d as int == self@.den,
    {
        self.den
    }

    /// Exact negation.
    pub fn neg(self) -> (r: Rational)
        requires
            self.wf(),
            neg_fits(self@),
        ensures
            r.wf(),
            r@ == rat_neg(self@),
    {
        Rational { num: -self.num, den: self.den }
    }

    /// Exact sum.
    pub fn add(self, rhs: Rational) -> (r: Rational)
        requires
            self.wf(),
            rhs.wf(),
            add_fits(self@, rhs@),
        ensures
            r.wf(),
            r@ == rat_add(self@, rhs@),
    {
        proof {
            assert(self@.den * rhs@.den > 0) by (nonlinear_arith)
                requires
                    self@.den > 0,
                    rhs@.den > 0,
            ;
        }
        Rational { num: self.num * rhs.den + rhs.num * self.den, den: self.den * rhs.den }
    }

    /// Exact difference.
    pub fn sub(self, rhs: Rational) -> (r: Rational)
        requires
            self.wf(),
            rhs.wf(),
            sub_fits(self@, rhs@),
        ensures
            r.wf(),
            r@ == rat_sub(self@, rhs@),
    {
        proof {
            assert(self@.den * rhs@.den > 0) by (nonlinear_arith)
                requires
                    self@.den > 0,
                    rhs@.den > 0,
            ;
        }
        Rational { num: self.num * rhs.den - rhs.num * self.den, den: self.den * rhs.den }
    }

    /// Exact product.
    pub fn mul(self, rhs: Rational) -> (r: Rational)
        requires
            self.wf(),
            rhs.wf(),
            mul_fits(self@, rhs@),
        ensures
            r.wf(),
            r@ == rat_mul(self@, rhs@),
    {
        proof {
            assert(self@.den * rhs@.den > 0) by (nonlinear_arith)
                requires
                    self@.den > 0,
                    rhs@.den > 0,
            ;
        }
        Rational { num: self.num * rhs.num, den: self.den * rhs.den }
    }

    /// Exact quotient.  The divisor must denote a nonzero number: exact
    /// rationals have no value standing for infinity.
    pub fn div(self, rhs: Rational) -> (r: Rational)
        requires
            self.wf(),
            rhs.wf(),
            rhs@.num != 0,
            div_fits(self@, rhs@),
        ensures
            r.wf(),
            r@ == rat_div(self@, rhs@),
    {
        if rhs.num > 0 {
            proof {
                assert(self@.den * rhs@.num > 0) by (nonlinear_arith)
                    requires
                        self@.den > 0,
                        rhs@.num > 0,
                ;
            }
            Rational { num: self.num * rhs.den, den: self.den * rhs.num }
        } else {
            proof {
                assert(self@.den * rhs@.num < 0) by (nonlinear_arith)
                    requires
                        self@.den > 0,
                        rhs@.num < 0,
                ;
            }
            Rational { num: -(self.num * rhs.den), den: -(self.den * rhs.num) }
        }
    }

    /// Exact `k`-th power, by repeated multiplication.
    pub fn pow_nat(self, k: u32) -> (r: Rational)
        requires
            self.wf(),
            pow_fits(self@, k as nat),
        ensures
            r.wf(),
            r@ == rat_pow(self@, k as nat),
    {
        let mut acc = Rational::from_int(1);
        let mut i: u32 = 0;
        while i < k
            invariant
                i <= k,
                self.wf(),
                acc.wf(),
                pow_fits(self@, k as nat),
                acc@ == rat_pow(self@, i as nat),
            decreases k - i,
        {
            proof {
                lemma_pow_fits_unfold(self@, k as nat, i as nat);
            }
            acc = acc.mul(self);
            i = i + 1;
        }
        acc
    }

    /// Do `self` and `rhs` denote the same number?
    pub fn eqv(&self, rhs: &Rational) -> (r: bool)
        requires
            self.wf(),
            rhs.wf(),
            in_i128(self@.num * rhs@.den),
            in_i128(rhs@.num * self@.den),
        ensures
            r == rat_eqv(self@, rhs@),
    {
        self.num * rhs.den == rhs.num * self.den
    }
}

} // verus!
