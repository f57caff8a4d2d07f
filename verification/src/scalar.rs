//! Scalar dual numbers: one value and one derivative channel.
//!
//! A [`Dual`] seeded from a plain value has derivative one, which marks it
//! as the independent variable.  Every operation returns a fresh dual
//! number whose derivative follows the corresponding rule of calculus,
//! stated exactly over the ghost model [`DualModel`].
//!
//! A value meant to stay fixed must enter through the constant-interaction
//! operations ([`Dual::add_const`] and friends), never through
//! [`Dual::new`]: the constructor always seeds the derivative to one, so
//! wrapping a constant with it silently yields a derivative of one where
//! zero was meant.  That convention is the caller's responsibility.

use vstd::prelude::*;

use crate::rational::{
    add_fits, div_fits, mul_fits, neg_fits, pow_fits, rat_add, rat_bounded, rat_div, rat_int,
    rat_mul, rat_neg, rat_pow, rat_sub, sub_fits, Rat, Rational,
};

verus! {

/// Mathematical model of a scalar dual number: the value `x` and the
/// derivative `dx` of the computation that produced it.
pub ghost struct DualModel {
    pub x: Rat,
    pub dx: Rat,
}

impl DualModel {
    /// Both components have positive denominators.
    pub open spec fn wf(self) -> bool {
        self.x.wf() && self.dx.wf()
    }
}

/// Seeding: the value is taken as the independent variable, so its
/// derivative is one.
pub open spec fn dual_new(c: Rat) -> DualModel {
    DualModel { x: c, dx: rat_int(1) }
}

/// Negation: both components flip sign.
pub open spec fn dual_neg(a: DualModel) -> DualModel {
    DualModel { x: rat_neg(a.x), dx: rat_neg(a.dx) }
}

/// Sum rule: values add, derivatives add.
pub open spec fn dual_add(a: DualModel, b: DualModel) -> DualModel {
    DualModel { x: rat_add(a.x, b.x), dx: rat_add(a.dx, b.dx) }
}

/// Difference rule: values subtract, derivatives subtract.
pub open spec fn dual_sub(a: DualModel, b: DualModel) -> DualModel {
    DualModel { x: rat_sub(a.x, b.x), dx: rat_sub(a.dx, b.dx) }
}

/// Product rule: `(a*b)' == a*b' + b*a'`.
pub open spec fn dual_mul(a: DualModel, b: DualModel) -> DualModel {
    DualModel {
        x: rat_mul(a.x, b.x),
        dx: rat_add(rat_mul(a.x, b.dx), rat_mul(b.x, a.dx)),
    }
}

/// Division: the value divides; the derivative is
/// `(a*b' + b*a') / b^2`.  Note the sum where the textbook quotient rule
/// has a difference: this is the rule this algebra defines, kept as is.
pub open spec fn dual_div(a: DualModel, b: DualModel) -> DualModel {
    DualModel {
        x: rat_div(a.x, b.x),
        dx: rat_div(rat_add(rat_mul(a.x, b.dx), rat_mul(b.x, a.dx)), rat_mul(b.x, b.x)),
    }
}

/// A constant added on the right: the constant contributes no derivative.
pub open spec fn dual_add_const(a: DualModel, c: Rat) -> DualModel {
    DualModel { x: rat_add(a.x, c), dx: a.dx }
}

/// A constant added on the left: the constant contributes no derivative.
pub open spec fn dual_const_add(c: Rat, a: DualModel) -> DualModel {
    DualModel { x: rat_add(c, a.x), dx: a.dx }
}

/// A constant multiple on the right: both components scale.
pub open spec fn dual_mul_const(a: DualModel, c: Rat) -> DualModel {
    DualModel { x: rat_mul(a.x, c), dx: rat_mul(a.dx, c) }
}

/// A constant multiple on the left: both components scale.
pub open spec fn dual_const_mul(c: Rat, a: DualModel) -> DualModel {
    DualModel { x: rat_mul(c, a.x), dx: rat_mul(c, a.dx) }
}

/// Chain rule: for a function with value `fx` and slope `fdx` at `a.x`,
/// the result has value `fx` and derivative `fdx * a.dx`.
pub open spec fn dual_chain(a: DualModel, fx: Rat, fdx: Rat) -> DualModel {
    DualModel { x: fx, dx: rat_mul(fdx, a.dx) }
}

/// Power rule for a constant natural exponent: the value is raised to the
/// `k`-th power and the derivative is `k * x^(k-1) * dx`.  For `k == 0`
/// the result is the constant one with derivative zero.
pub open spec fn dual_pow(a: DualModel, k: nat) -> DualModel {
    if k == 0 {
        DualModel { x: rat_int(1), dx: rat_int(0) }
    } else {
        DualModel {
            x: rat_pow(a.x, k),
            dx: rat_mul(rat_mul(rat_int(k as int), rat_pow(a.x, (k - 1) as nat)), a.dx),
        }
    }
}

/// The components of `dual_pow(a, k)`, intermediate powers included, stay
/// representable.
pub open spec fn dual_pow_fits(a: DualModel, k: nat) -> bool {
    &&& pow_fits(a.x, k)
    &&& (k > 0 ==> mul_fits(rat_int(k as int), rat_pow(a.x, (k - 1) as nat)))
    &&& (k > 0 ==> mul_fits(
        rat_mul(rat_int(k as int), rat_pow(a.x, (k - 1) as nat)),
        a.dx,
    ))
}

/// The components of `dual_neg(a)` stay representable.
pub open spec fn dual_neg_fits(a: DualModel) -> bool {
    neg_fits(a.x) && neg_fits(a.dx)
}

/// The components of `dual_add(a, b)` stay representable.
pub open spec fn dual_add_fits(a: DualModel, b: DualModel) -> bool {
    add_fits(a.x, b.x) && add_fits(a.dx, b.dx)
}

/// The components of `dual_sub(a, b)` stay representable.
pub open spec fn dual_sub_fits(a: DualModel, b: DualModel) -> bool {
    sub_fits(a.x, b.x) && sub_fits(a.dx, b.dx)
}

/// The components of `dual_mul(a, b)`, partial products included, stay
/// representable.
pub open spec fn dual_mul_fits(a: DualModel, b: DualModel) -> bool {
    &&& mul_fits(a.x, b.x)
    &&& mul_fits(a.x, b.dx)
    &&& mul_fits(b.x, a.dx)
    &&& add_fits(rat_mul(a.x, b.dx), rat_mul(b.x, a.dx))
}

/// The components of `dual_div(a, b)`, intermediate values included, stay
/// representable.
pub open spec fn dual_div_fits(a: DualModel, b: DualModel) -> bool {
    &&& div_fits(a.x, b.x)
    &&& mul_fits(a.x, b.dx)
    &&& mul_fits(b.x, a.dx)
    &&& add_fits(rat_mul(a.x, b.dx), rat_mul(b.x, a.dx))
    &&& mul_fits(b.x, b.x)
    &&& div_fits(rat_add(rat_mul(a.x, b.dx), rat_mul(b.x, a.dx)), rat_mul(b.x, b.x))
}

/// The components of `dual_mul_const(a, c)` stay representable.
pub open spec fn dual_mul_const_fits(a: DualModel, c: Rat) -> bool {
    mul_fits(a.x, c) && mul_fits(a.dx, c)
}

/// The components of `dual_const_mul(c, a)` stay representable.
pub open spec fn dual_const_mul_fits(c: Rat, a: DualModel) -> bool {
    mul_fits(c, a.x) && mul_fits(c, a.dx)
}

/// The derivative of `dual_chain(a, fx, fdx)` stays representable.
pub open spec fn dual_chain_fits(a: DualModel, fdx: Rat) -> bool {
    mul_fits(fdx, a.dx)
}

/// Both components of the dual value are bounded by `m`.
pub open spec fn dual_bounded(a: DualModel, m: int) -> bool {
    rat_bounded(a.x, m) && rat_bounded(a.dx, m)
}

/// `|x * y| <= bx * by` whenever `|x| <= bx` and `|y| <= by`.
proof fn lemma_abs_mul(x: int, y: int, bx: int, by: int)
    by (nonlinear_arith)
    requires
        0 <= bx,
        0 <= by,
        -bx <= x <= bx,
        -by <= y <= by,
    ensures
        -(bx * by) <= x * y <= bx * by,
{
}

/// A product of positives is positive and bounded by the product of the
/// bounds.
proof fn lemma_pos_mul(x: int, y: int, bx: int, by: int)
    by (nonlinear_arith)
    requires
        0 < x <= bx,
        0 < y <= by,
    ensures
        0 < x * y <= bx * by,
{
}

/// Operands whose components stay within `2^20` in magnitude satisfy
/// every binary operation's representability precondition, division's
/// nested intermediates included.  A convenience for callers: the raw
/// `*_fits` preconditions remain the general gates.
pub proof fn lemma_bounded_fits(a: DualModel, b: DualModel)
    requires
        dual_bounded(a, 0x100000),
        dual_bounded(b, 0x100000),
    ensures
        dual_neg_fits(a),
        dual_neg_fits(b),
        dual_add_fits(a, b),
        dual_sub_fits(a, b),
        dual_mul_fits(a, b),
        dual_div_fits(a, b),
{
    lemma_abs_mul(a.x.num, b.x.den, 0x100000, 0x100000);
    lemma_abs_mul(b.x.num, a.x.den, 0x100000, 0x100000);
    lemma_pos_mul(a.x.den, b.x.den, 0x100000, 0x100000);
    lemma_abs_mul(a.dx.num, b.dx.den, 0x100000, 0x100000);
    lemma_abs_mul(b.dx.num, a.dx.den, 0x100000, 0x100000);
    lemma_pos_mul(a.dx.den, b.dx.den, 0x100000, 0x100000);
    lemma_abs_mul(a.x.num, b.x.num, 0x100000, 0x100000);
    lemma_abs_mul(a.x.num, b.dx.num, 0x100000, 0x100000);
    lemma_pos_mul(a.x.den, b.dx.den, 0x100000, 0x100000);
    lemma_abs_mul(b.x.num, a.dx.num, 0x100000, 0x100000);
    lemma_pos_mul(b.x.den, a.dx.den, 0x100000, 0x100000);
    lemma_abs_mul(a.x.den, b.x.num, 0x100000, 0x100000);
    lemma_abs_mul(b.x.num, b.x.num, 0x100000, 0x100000);
    lemma_pos_mul(b.x.den, b.x.den, 0x100000, 0x100000);
    let p = rat_mul(a.x, b.dx);
    let q = rat_mul(b.x, a.dx);
    lemma_abs_mul(p.num, q.den, 0x10000000000, 0x10000000000);
    lemma_abs_mul(q.num, p.den, 0x10000000000, 0x10000000000);
    lemma_pos_mul(p.den, q.den, 0x10000000000, 0x10000000000);
    let s = rat_add(p, q);
    let t = rat_mul(b.x, b.x);
    lemma_abs_mul(s.num, t.den, 0x200000000000000000000, 0x10000000000);
    lemma_abs_mul(s.den, t.num, 0x100000000000000000000, 0x10000000000);
}

/// A scalar dual number: a value and the derivative, with respect to the
/// seeded independent variable, of the computation that produced it.
#[derive(Clone, Copy, Debug, PartialEq, Eq, Structural)]
pub struct Dual {
    x: Rational,
    dx: Rational,
}

impl View for Dual {
    type V = DualModel;

    closed spec fn view(&self) -> DualModel {
        DualModel { x: self.x@, dx: self.dx@ }
    }
}

impl Dual {
    /// Both components are well formed.
    pub open spec fn wf(self) -> bool {
        self@.wf()
    }

    /// Seed a dual number from a plain value, declaring it the independent
    /// variable: the derivative starts at one.
    pub fn new(val: Rational) -> (r: Dual)
        requires
            val.wf(),
        ensures
            r.wf(),
            r@ == dual_new(val@),
    {
        Dual { x: val, dx: Rational::from_int(1) }
    }

    /// The value, as a copy.
    pub fn value(&self) -> (v: Rational)
        ensures
            v@ == self@.x,
    {
        self.x
    }

    /// The derivative, as a copy.
    pub fn derivative(&self) -> (d: Rational)
        ensures
            d@ == self@.dx,
    {
        self.dx
    }

    /// Negation.
    pub fn neg(self) -> (r: Dual)
        requires
            self.wf(),
            dual_neg_fits(self@),
        ensures
            r.wf(),
            r@ == dual_neg(self@),
    {
        Dual { x: self.x.neg(), dx: self.dx.neg() }
    }

    /// Sum rule.
    pub fn add(self, rhs: Dual) -> (r: Dual)
        requires
            self.wf(),
            rhs.wf(),
            dual_add_fits(self@, rhs@),
        ensures
            r.wf(),
            r@ == dual_add(self@, rhs@),
    {
        Dual { x: self.x.add(rhs.x), dx: self.dx.add(rhs.dx) }
    }

    /// Difference rule.
    pub fn sub(self, rhs: Dual) -> (r: Dual)
        requires
            self.wf(),
            rhs.wf(),
            dual_sub_fits(self@, rhs@),
        ensures
            r.wf(),
            r@ == dual_sub(self@, rhs@),
    {
        Dual { x: self.x.sub(rhs.x), dx: self.dx.sub(rhs.dx) }
    }

    /// Product rule.
    pub fn mul(self, rhs: Dual) -> (r: Dual)
        requires
            self.wf(),
            rhs.wf(),
            dual_mul_fits(self@, rhs@),
        ensures
            r.wf(),
            r@ == dual_mul(self@, rhs@),
    {
        let t1 = self.x.mul(rhs.dx);
        let t2 = rhs.x.mul(self.dx);
        Dual { x: self.x.mul(rhs.x), dx: t1.add(t2) }
    }

    /// Division, with the derivative rule `(a*b' + b*a') / b^2` this
    /// algebra defines.  The divisor must denote a nonzero number.
    pub fn div(self, rhs: Dual) -> (r: Dual)
        requires
            self.wf(),
            rhs.wf(),
            rhs@.x.num != 0,
            dual_div_fits(self@, rhs@),
        ensures
            r.wf(),
            r@ == dual_div(self@, rhs@),
    {
        let vx = self.x.div(rhs.x);
        let t1 = self.x.mul(rhs.dx);
        let t2 = rhs.x.mul(self.dx);
        let nsum = t1.add(t2);
        let den2 = rhs.x.mul(rhs.x);
        proof {
            assert(rhs@.x.num * rhs@.x.num != 0) by (nonlinear_arith)
                requires
                    rhs@.x.num != 0,
            ;
        }
        Dual { x: vx, dx: nsum.div(den2) }
    }

    /// A constant added on the right: it contributes no derivative.
    pub fn add_const(self, c: Rational) -> (r: Dual)
        requires
            self.wf(),
            c.wf(),
            add_fits(self@.x, c@),
        ensures
            r.wf(),
            r@ == dual_add_const(self@, c@),
    {
        Dual { x: self.x.add(c), dx: self.dx }
    }

    /// A constant added on the left: it contributes no derivative.
    pub fn const_add(c: Rational, rhs: Dual) -> (r: Dual)
        requires
            rhs.wf(),
            c.wf(),
            add_fits(c@, rhs@.x),
        ensures
            r.wf(),
            r@ == dual_const_add(c@, rhs@),
    {
        Dual { x: c.add(rhs.x), dx: rhs.dx }
    }

    /// A constant multiple on the right: both components scale.
    pub fn mul_const(self, c: Rational) -> (r: Dual)
        requires
            self.wf(),
            c.wf(),
            dual_mul_const_fits(self@, c@),
        ensures
            r.wf(),
            r@ == dual_mul_const(self@, c@),
    {
        Dual { x: self.x.mul(c), dx: self.dx.mul(c) }
    }

    /// A constant multiple on the left: both components scale.
    pub fn const_mul(c: Rational, rhs: Dual) -> (r: Dual)
        requires
            rhs.wf(),
            c.wf(),
            dual_const_mul_fits(c@, rhs@),
        ensures
            r.wf(),
            r@ == dual_const_mul(c@, rhs@),
    {
        Dual { x: c.mul(rhs.x), dx: c.mul(rhs.dx) }
    }

    /// Power rule for a constant natural exponent.
    pub fn powi(self, k: u32) -> (r: Dual)
        requires
            self.wf(),
            dual_pow_fits(self@, k as nat),
        ensures
            r.wf(),
            r@ == dual_pow(self@, k as nat),
    {
        if k == 0 {
            Dual { x: Rational::from_int(1), dx: Rational::from_int(0) }
        } else {
            let p = self.x.pow_nat(k - 1);
            let kr = Rational::from_int(k as i128);
            Dual { x: p.mul(self.x), dx: kr.mul(p).mul(self.dx) }
        }
    }

    /// Chain rule for an externally computed unary function: given the
    /// function's value `fx` and slope `fdx` at `self.value()`, the result
    /// has value `fx` and derivative `fdx * self.derivative()`.  Every
    /// transcendental operation is an instance of this with its own value
    /// and slope.
    pub fn chain_unary(self, fx: Rational, fdx: Rational) -> (r: Dual)
        requires
            self.wf(),
            fx.wf(),
            fdx.wf(),
            dual_chain_fits(self@, fdx@),
        ensures
            r.wf(),
            r@ == dual_chain(self@, fx@, fdx@),
    {
        Dual { x: fx, dx: fdx.mul(self.dx) }
    }
}

} // verus!
