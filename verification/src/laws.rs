//! The algebraic laws of the dual-number engine, proved once over the
//! ghost models.
//!
//! The per-operation rules themselves are the `ensures` of the operations
//! in [`crate::scalar`] and [`crate::vector`]; in particular every
//! [`crate::vector::DualVector`] operation states each result slot as the
//! scalar model operation of the operand slots, so each slot obeys the
//! scalar laws below independently.  This module states the laws that
//! relate several operations to one another.

use vstd::prelude::*;

use crate::rational::{rat_add, rat_eqv, rat_int, rat_mul, rat_pow, Rat};
use crate::scalar::{
    dual_add, dual_add_const, dual_chain, dual_const_add, dual_const_mul, dual_mul,
    dual_mul_const, dual_new, dual_pow, DualModel,
};

verus! {

/// Seeding law: a dual value seeded from `c` holds the value `c` and the
/// derivative one, marking `c` as the independent variable.
pub proof fn lemma_seed(c: Rat)
    ensures
        dual_new(c).x == c,
        dual_new(c).dx == rat_int(1),
{
}

/// A constant added on the left and on the right yield identical value
/// and derivative.
pub proof fn lemma_add_const_commutes(a: DualModel, c: Rat)
    ensures
        dual_add_const(a, c) == dual_const_add(c, a),
{
    assert(a.x.den * c.den == c.den * a.x.den) by (nonlinear_arith);
}

/// A constant multiple on the left and on the right yield identical value
/// and derivative.
pub proof fn lemma_mul_const_commutes(a: DualModel, c: Rat)
    ensures
        dual_mul_const(a, c) == dual_const_mul(c, a),
{
    assert(a.x.num * c.num == c.num * a.x.num) by (nonlinear_arith);
    assert(a.x.den * c.den == c.den * a.x.den) by (nonlinear_arith);
    assert(a.dx.num * c.num == c.num * a.dx.num) by (nonlinear_arith);
    assert(a.dx.den * c.den == c.den * a.dx.den) by (nonlinear_arith);
}

/// The sum of two dual values is the same in either operand order.
pub proof fn lemma_add_commutes(a: DualModel, b: DualModel)
    ensures
        dual_add(a, b) == dual_add(b, a),
{
    assert(a.x.den * b.x.den == b.x.den * a.x.den) by (nonlinear_arith);
    assert(a.dx.den * b.dx.den == b.dx.den * a.dx.den) by (nonlinear_arith);
}

/// The product of two dual values is the same in either operand order:
/// the product rule `a*b' + b*a'` is symmetric in its operands.
pub proof fn lemma_mul_commutes(a: DualModel, b: DualModel)
    ensures
        dual_mul(a, b) == dual_mul(b, a),
{
    assert(a.x.num * b.x.num == b.x.num * a.x.num) by (nonlinear_arith);
    assert(a.x.den * b.x.den == b.x.den * a.x.den) by (nonlinear_arith);
    let p = rat_mul(a.x, b.dx);
    let q = rat_mul(b.x, a.dx);
    assert(p.den * q.den == q.den * p.den) by (nonlinear_arith);
}

/// Closed form of the sum and product rules on `x^2 + k` at `x == c`: the
/// value is `c^2 + k` and the derivative is `2c`.
pub proof fn lemma_square_plus_const(c: Rat, k: Rat)
    requires
        c.wf(),
        k.wf(),
    ensures
        dual_add_const(dual_mul(dual_new(c), dual_new(c)), k).x == rat_add(rat_mul(c, c), k),
        rat_eqv(dual_add_const(dual_mul(dual_new(c), dual_new(c)), k).dx, rat_mul(rat_int(2), c)),
{
    let y = dual_add_const(dual_mul(dual_new(c), dual_new(c)), k);
    assert(y.dx.num == c.num * c.den + c.num * c.den);
    assert(y.dx.den == c.den * c.den);
    assert((c.num * c.den + c.num * c.den) * c.den == (2 * c.num) * (c.den * c.den))
        by (nonlinear_arith);
}

/// Closed form of the power rule on the independent variable: `x^k` at
/// `x == c` has value `c^k` and derivative `k * c^(k-1)`.
pub proof fn lemma_power_rule_on_seed(c: Rat, k: nat)
    requires
        c.wf(),
        k >= 1,
    ensures
        dual_pow(dual_new(c), k).x == rat_pow(c, k),
        rat_eqv(
            dual_pow(dual_new(c), k).dx,
            rat_mul(rat_int(k as int), rat_pow(c, (k - 1) as nat)),
        ),
{
    let p = rat_mul(rat_int(k as int), rat_pow(c, (k - 1) as nat));
    let d = dual_pow(dual_new(c), k).dx;
    assert(d.num == p.num);
    assert(d.den == p.den);
}

/// Closed form of the constant-interaction rules on `a + b*x` at
/// `x == c`: the value is `a + b*c` and the derivative is `b`.
pub proof fn lemma_linear_closed_form(c: Rat, a: Rat, b: Rat)
    requires
        c.wf(),
        a.wf(),
        b.wf(),
    ensures
        dual_const_add(a, dual_const_mul(b, dual_new(c))).x == rat_add(a, rat_mul(b, c)),
        rat_eqv(dual_const_add(a, dual_const_mul(b, dual_new(c))).dx, b),
{
    let d = dual_const_add(a, dual_const_mul(b, dual_new(c))).dx;
    assert(d.num == b.num);
    assert(d.den == b.den);
}

/// The chain rule composes: applying a function with slope `gdx` and then
/// one with slope `fdx` multiplies the derivative by `fdx * gdx`, exactly
/// as applying a single function with that slope would.
pub proof fn lemma_chain_composition(a: DualModel, gx: Rat, gdx: Rat, fx: Rat, fdx: Rat)
    ensures
        dual_chain(dual_chain(a, gx, gdx), fx, fdx) == dual_chain(a, fx, rat_mul(fdx, gdx)),
{
    assert(fdx.num * (gdx.num * a.dx.num) == (fdx.num * gdx.num) * a.dx.num)
        by (nonlinear_arith);
    assert(fdx.den * (gdx.den * a.dx.den) == (fdx.den * gdx.den) * a.dx.den)
        by (nonlinear_arith);
}

} // verus!
