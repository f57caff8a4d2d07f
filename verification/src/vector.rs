//! Vector dual numbers: one value and one derivative per slot, for a
//! fixed positive width chosen at construction.
//!
//! Each of the `N` slots tracks the partial derivative with respect to one
//! independent variable.  Every operation applies the scalar rule slot by
//! slot, so each slot independently obeys exactly the laws of
//! [`crate::scalar`]: the contracts below state each result slot as the
//! corresponding scalar model operation, [`DualModel`], applied to the
//! operand slots.
//!
//! The width is validated once, at construction, and every operation
//! preserves it; operands of a binary operation must have equal widths.

use vstd::prelude::*;

use crate::rational::{add_fits, rat_int, Rational};
use crate::scalar::{
    dual_add, dual_add_const, dual_add_fits, dual_chain, dual_chain_fits, dual_const_add,
    dual_const_mul, dual_const_mul_fits, dual_div, dual_div_fits, dual_mul, dual_mul_const,
    dual_mul_const_fits, dual_mul_fits, dual_neg, dual_neg_fits, dual_new, dual_pow,
    dual_pow_fits, dual_sub, dual_sub_fits, DualModel,
};

verus! {

/// A dual number of fixed positive width: `value` and `derivative` arrays
/// of equal length, one slot per independent variable.
#[derive(Clone, Debug, PartialEq, Eq)]
pub struct DualVector {
    x: Vec<Rational>,
    dx: Vec<Rational>,
}

impl DualVector {
    /// The number of slots.
    pub closed spec fn spec_width(&self) -> int {
        self.x@.len() as int
    }

    /// The scalar model held by slot `i`.
    pub closed spec fn slot(&self, i: int) -> DualModel {
        DualModel { x: self.x@[i]@, dx: self.dx@[i]@ }
    }

    /// The two arrays agree in length, so that slot reads of either array
    /// are in bounds.
    pub closed spec fn lengths_agree(&self) -> bool {
        self.x@.len() == self.dx@.len()
    }

    /// Both arrays have the same positive length and every slot is well
    /// formed.
    pub open spec fn wf(&self) -> bool {
        &&& self.lengths_agree()
        &&& self.spec_width() >= 1
        &&& forall|i: int| 0 <= i < self.spec_width() ==> (#[trigger] self.slot(i)).wf()
    }

    /// Seed a dual number of width `width` from a plain value: the value
    /// fills every slot and every derivative slot starts at one.
    pub fn new(val: Rational, width: usize) -> (r: DualVector)
        requires
            val.wf(),
            width >= 1,
        ensures
            r.wf(),
            r.spec_width() == width as int,
            forall|i: int| 0 <= i < width as int ==> r.slot(i) == dual_new(val@),
    {
        let one = Rational::from_int(1);
        let mut x: Vec<Rational> = Vec::new();
        let mut dx: Vec<Rational> = Vec::new();
        let mut i: usize = 0;
        while i < width
            invariant
                i <= width,
                val.wf(),
                one.wf(),
                one@ == rat_int(1),
                x@.len() == i as int,
                dx@.len() == i as int,
                forall|j: int| 0 <= j < i as int ==> #[trigger] x@[j] == val,
                forall|j: int| 0 <= j < i as int ==> #[trigger] dx@[j] == one,
            decreases width - i,
        {
            x.push(val);
            dx.push(one);
            i = i + 1;
        }
        DualVector { x, dx }
    }

    /// The number of slots.
    pub fn width(&self) -> (n: usize)
        requires
            self.wf(),
        ensures
            n as int == self.spec_width(),
    {
        self.x.len()
    }

    /// The value in slot `i`, as a copy.
    pub fn value_at(&self, i: usize) -> (v: Rational)
        requires
            self.wf(),
            (i as int) < self.spec_width(),
        ensures
            v@ == self.slot(i as int).x,
    {
        self.x[i]
    }

    /// The derivative in slot `i`, as a copy.
    pub fn derivative_at(&self, i: usize) -> (d: Rational)
        requires
            self.wf(),
            (i as int) < self.spec_width(),
        ensures
            d@ == self.slot(i as int).dx,
    {
        self.dx[i]
    }

    /// Negation, slot by slot.
    pub fn neg(self) -> (r: DualVector)
        requires
            self.wf(),
            forall|i: int| 0 <= i < self.spec_width() ==> dual_neg_fits(#[trigger] self.slot(i)),
        ensures
            r.wf(),
            r.spec_width() == self.spec_width(),
            forall|i: int| 0 <= i < r.spec_width() ==> r.slot(i) == dual_neg(self.slot(i)),
    {
        let n = self.x.len();
        let mut x: Vec<Rational> = Vec::new();
        let mut dx: Vec<Rational> = Vec::new();
        let mut i: usize = 0;
        while i < n
            invariant
                self.wf(),
                forall|k: int| 0 <= k < self.spec_width() ==> dual_neg_fits(
                    #[trigger] self.slot(k),
                ),
                n as int == self.spec_width(),
                i <= n,
                x@.len() == i as int,
                dx@.len() == i as int,
                forall|j: int| 0 <= j < i as int ==> (#[trigger] x@[j]).wf() && x@[j]@
                    == dual_neg(self.slot(j)).x,
                forall|j: int| 0 <= j < i as int ==> (#[trigger] dx@[j]).wf() && dx@[j]@
                    == dual_neg(self.slot(j)).dx,
            decreases n - i,
        {
            proof {
                assert(self.slot(i as int).wf());
                assert(dual_neg_fits(self.slot(i as int)));
            }
            x.push(self.x[i].neg());
            dx.push(self.dx[i].neg());
            i = i + 1;
        }
        DualVector { x, dx }
    }

    /// Sum rule, slot by slot; the operands must have equal widths.
    pub fn add(self, rhs: DualVector) -> (r: DualVector)
        requires
            self.wf(),
            rhs.wf(),
            self.spec_width() == rhs.spec_width(),
            forall|i: int| 0 <= i < self.spec_width() ==> dual_add_fits(
                #[trigger] self.slot(i),
                rhs.slot(i),
            ),
        ensures
            r.wf(),
            r.spec_width() == self.spec_width(),
            forall|i: int| 0 <= i < r.spec_width() ==> r.slot(i) == dual_add(
                self.slot(i),
                rhs.slot(i),
            ),
    {
        let n = self.x.len();
        let mut x: Vec<Rational> = Vec::new();
        let mut dx: Vec<Rational> = Vec::new();
        let mut i: usize = 0;
        while i < n
            invariant
                self.wf(),
                rhs.wf(),
                self.spec_width() == rhs.spec_width(),
                forall|k: int| 0 <= k < self.spec_width() ==> dual_add_fits(
                    #[trigger] self.slot(k),
                    rhs.slot(k),
                ),
                n as int == self.spec_width(),
                i <= n,
                x@.len() == i as int,
                dx@.len() == i as int,
                forall|j: int| 0 <= j < i as int ==> (#[trigger] x@[j]).wf() && x@[j]@
                    == dual_add(self.slot(j), rhs.slot(j)).x,
                forall|j: int| 0 <= j < i as int ==> (#[trigger] dx@[j]).wf() && dx@[j]@
                    == dual_add(self.slot(j), rhs.slot(j)).dx,
            decreases n - i,
        {
            proof {
                assert(self.slot(i as int).wf());
                assert(rhs.slot(i as int).wf());
                assert(dual_add_fits(self.slot(i as int), rhs.slot(i as int)));
            }
            x.push(self.x[i].add(rhs.x[i]));
            dx.push(self.dx[i].add(rhs.dx[i]));
            i = i + 1;
        }
        DualVector { x, dx }
    }

    /// Difference rule, slot by slot; the operands must have equal widths.
    pub fn sub(self, rhs: DualVector) -> (r: DualVector)
        requires
            self.wf(),
            rhs.wf(),
            self.spec_width() == rhs.spec_width(),
            forall|i: int| 0 <= i < self.spec_width() ==> dual_sub_fits(
                #[trigger] self.slot(i),
                rhs.slot(i),
            ),
        ensures
            r.wf(),
            r.spec_width() == self.spec_width(),
            forall|i: int| 0 <= i < r.spec_width() ==> r.slot(i) == dual_sub(
                self.slot(i),
                rhs.slot(i),
            ),
    {
        let n = self.x.len();
        let mut x: Vec<Rational> = Vec::new();
        let mut dx: Vec<Rational> = Vec::new();
        let mut i: usize = 0;
        while i < n
            invariant
                self.wf(),
                rhs.wf(),
                self.spec_width() == rhs.spec_width(),
                forall|k: int| 0 <= k < self.spec_width() ==> dual_sub_fits(
                    #[trigger] self.slot(k),
                    rhs.slot(k),
                ),
                n as int == self.spec_width(),
                i <= n,
                x@.len() == i as int,
                dx@.len() == i as int,
                forall|j: int| 0 <= j < i as int ==> (#[trigger] x@[j]).wf() && x@[j]@
                    == dual_sub(self.slot(j), rhs.slot(j)).x,
                forall|j: int| 0 <= j < i as int ==> (#[trigger] dx@[j]).wf() && dx@[j]@
                    == dual_sub(self.slot(j), rhs.slot(j)).dx,
            decreases n - i,
        {
            proof {
                assert(self.slot(i as int).wf());
                assert(rhs.slot(i as int).wf());
                assert(dual_sub_fits(self.slot(i as int), rhs.slot(i as int)));
            }
            x.push(self.x[i].sub(rhs.x[i]));
            dx.push(self.dx[i].sub(rhs.dx[i]));
            i = i + 1;
        }
        DualVector { x, dx }
    }

    /// Product rule, slot by slot; the operands must have equal widths.
    pub fn mul(self, rhs: DualVector) -> (r: DualVector)
        requires
            self.wf(),
            rhs.wf(),
            self.spec_width() == rhs.spec_width(),
            forall|i: int| 0 <= i < self.spec_width() ==> dual_mul_fits(
                #[trigger] self.slot(i),
                rhs.slot(i),
            ),
        ensures
            r.wf(),
            r.spec_width() == self.spec_width(),
            forall|i: int| 0 <= i < r.spec_width() ==> r.slot(i) == dual_mul(
                self.slot(i),
                rhs.slot(i),
            ),
    {
        let n = self.x.len();
        let mut x: Vec<Rational> = Vec::new();
        let mut dx: Vec<Rational> = Vec::new();
        let mut i: usize = 0;
        while i < n
            invariant
                self.wf(),
                rhs.wf(),
                self.spec_width() == rhs.spec_width(),
                forall|k: int| 0 <= k < self.spec_width() ==> dual_mul_fits(
                    #[trigger] self.slot(k),
                    rhs.slot(k),
                ),
                n as int == self.spec_width(),
                i <= n,
                x@.len() == i as int,
                dx@.len() == i as int,
                forall|j: int| 0 <= j < i as int ==> (#[trigger] x@[j]).wf() && x@[j]@
                    == dual_mul(self.slot(j), rhs.slot(j)).x,
                forall|j: int| 0 <= j < i as int ==> (#[trigger] dx@[j]).wf() && dx@[j]@
                    == dual_mul(self.slot(j), rhs.slot(j)).dx,
            decreases n - i,
        {
            proof {
                assert(self.slot(i as int).wf());
                assert(rhs.slot(i as int).wf());
                assert(dual_mul_fits(self.slot(i as int), rhs.slot(i as int)));
            }
            let t1 = self.x[i].mul(rhs.dx[i]);
            let t2 = rhs.x[i].mul(self.dx[i]);
            x.push(self.x[i].mul(rhs.x[i]));
            dx.push(t1.add(t2));
            i = i + 1;
        }
        DualVector { x, dx }
    }

    /// Division, slot by slot, with the derivative rule
    /// `(a*b' + b*a') / b^2` this algebra defines; every slot of the
    /// divisor must denote a nonzero number.
    pub fn div(self, rhs: DualVector) -> (r: DualVector)
        requires
            self.wf(),
            rhs.wf(),
            self.spec_width() == rhs.spec_width(),
            forall|i: int| 0 <= i < self.spec_width() ==> (#[trigger] rhs.slot(i)).x.num != 0,
            forall|i: int| 0 <= i < self.spec_width() ==> dual_div_fits(
                #[trigger] self.slot(i),
                rhs.slot(i),
            ),
        ensures
            r.wf(),
            r.spec_width() == self.spec_width(),
            forall|i: int| 0 <= i < r.spec_width() ==> r.slot(i) == dual_div(
                self.slot(i),
                rhs.slot(i),
            ),
    {
        let n = self.x.len();
        let mut x: Vec<Rational> = Vec::new();
        let mut dx: Vec<Rational> = Vec::new();
        let mut i: usize = 0;
        while i < n
            invariant
                self.wf(),
                rhs.wf(),
                self.spec_width() == rhs.spec_width(),
                forall|k: int| 0 <= k < self.spec_width() ==> (#[trigger] rhs.slot(k)).x.num
                    != 0,
                forall|k: int| 0 <= k < self.spec_width() ==> dual_div_fits(
                    #[trigger] self.slot(k),
                    rhs.slot(k),
                ),
                n as int == self.spec_width(),
                i <= n,
                x@.len() == i as int,
                dx@.len() == i as int,
                forall|j: int| 0 <= j < i as int ==> (#[trigger] x@[j]).wf() && x@[j]@
                    == dual_div(self.slot(j), rhs.slot(j)).x,
                forall|j: int| 0 <= j < i as int ==> (#[trigger] dx@[j]).wf() && dx@[j]@
                    == dual_div(self.slot(j), rhs.slot(j)).dx,
            decreases n - i,
        {
            proof {
                assert(self.slot(i as int).wf());
                assert(rhs.slot(i as int).wf());
                assert(rhs.slot(i as int).x.num != 0);
                assert(dual_div_fits(self.slot(i as int), rhs.slot(i as int)));
                assert(rhs.slot(i as int).x.num * rhs.slot(i as int).x.num != 0)
                    by (nonlinear_arith)
                    requires
                        rhs.slot(i as int).x.num != 0,
                ;
            }
            let vx = self.x[i].div(rhs.x[i]);
            let t1 = self.x[i].mul(rhs.dx[i]);
            let t2 = rhs.x[i].mul(self.dx[i]);
            let nsum = t1.add(t2);
            let den2 = rhs.x[i].mul(rhs.x[i]);
            x.push(vx);
            dx.push(nsum.div(den2));
            i = i + 1;
        }
        DualVector { x, dx }
    }

    /// A constant added on the right, slot by slot: it contributes no
    /// derivative.
    pub fn add_const(self, c: Rational) -> (r: DualVector)
        requires
            self.wf(),
            c.wf(),
            forall|i: int| 0 <= i < self.spec_width() ==> add_fits(
                (#[trigger] self.slot(i)).x,
                c@,
            ),
        ensures
            r.wf(),
            r.spec_width() == self.spec_width(),
            forall|i: int| 0 <= i < r.spec_width() ==> r.slot(i) == dual_add_const(
                self.slot(i),
                c@,
            ),
    {
        let n = self.x.len();
        let mut x: Vec<Rational> = Vec::new();
        let mut dx: Vec<Rational> = Vec::new();
        let mut i: usize = 0;
        while i < n
            invariant
                self.wf(),
                c.wf(),
                forall|k: int| 0 <= k < self.spec_width() ==> add_fits(
                    (#[trigger] self.slot(k)).x,
                    c@,
                ),
                n as int == self.spec_width(),
                i <= n,
                x@.len() == i as int,
                dx@.len() == i as int,
                forall|j: int| 0 <= j < i as int ==> (#[trigger] x@[j]).wf() && x@[j]@
                    == dual_add_const(self.slot(j), c@).x,
                forall|j: int| 0 <= j < i as int ==> (#[trigger] dx@[j]).wf() && dx@[j]@
                    == dual_add_const(self.slot(j), c@).dx,
            decreases n - i,
        {
            proof {
                assert(self.slot(i as int).wf());
                assert(add_fits(self.slot(i as int).x, c@));
            }
            x.push(self.x[i].add(c));
            dx.push(self.dx[i]);
            i = i + 1;
        }
        DualVector { x, dx }
    }

    /// A constant added on the left, slot by slot: it contributes no
    /// derivative.
    pub fn const_add(c: Rational, rhs: DualVector) -> (r: DualVector)
        requires
            rhs.wf(),
            c.wf(),
            forall|i: int| 0 <= i < rhs.spec_width() ==> add_fits(
                c@,
                (#[trigger] rhs.slot(i)).x,
            ),
        ensures
            r.wf(),
            r.spec_width() == rhs.spec_width(),
            forall|i: int| 0 <= i < r.spec_width() ==> r.slot(i) == dual_const_add(
                c@,
                rhs.slot(i),
            ),
    {
        let n = rhs.x.len();
        let mut x: Vec<Rational> = Vec::new();
        let mut dx: Vec<Rational> = Vec::new();
        let mut i: usize = 0;
        while i < n
            invariant
                rhs.wf(),
                c.wf(),
                forall|k: int| 0 <= k < rhs.spec_width() ==> add_fits(
                    c@,
                    (#[trigger] rhs.slot(k)).x,
                ),
                n as int == rhs.spec_width(),
                i <= n,
                x@.len() == i as int,
                dx@.len() == i as int,
                forall|j: int| 0 <= j < i as int ==> (#[trigger] x@[j]).wf() && x@[j]@
                    == dual_const_add(c@, rhs.slot(j)).x,
                forall|j: int| 0 <= j < i as int ==> (#[trigger] dx@[j]).wf() && dx@[j]@
                    == dual_const_add(c@, rhs.slot(j)).dx,
            decreases n - i,
        {
            proof {
                assert(rhs.slot(i as int).wf());
                assert(add_fits(c@, rhs.slot(i as int).x));
            }
            x.push(c.add(rhs.x[i]));
            dx.push(rhs.dx[i]);
            i = i + 1;
        }
        DualVector { x, dx }
    }

    /// A constant multiple on the right, slot by slot: both components
    /// scale.
    pub fn mul_const(self, c: Rational) -> (r: DualVector)
        requires
            self.wf(),
            c.wf(),
            forall|i: int| 0 <= i < self.spec_width() ==> dual_mul_const_fits(
                #[trigger] self.slot(i),
                c@,
            ),
        ensures
            r.wf(),
            r.spec_width() == self.spec_width(),
            forall|i: int| 0 <= i < r.spec_width() ==> r.slot(i) == dual_mul_const(
                self.slot(i),
                c@,
            ),
    {
        let n = self.x.len();
        let mut x: Vec<Rational> = Vec::new();
        let mut dx: Vec<Rational> = Vec::new();
        let mut i: usize = 0;
        while i < n
            invariant
                self.wf(),
                c.wf(),
                forall|k: int| 0 <= k < self.spec_width() ==> dual_mul_const_fits(
                    #[trigger] self.slot(k),
                    c@,
                ),
                n as int == self.spec_width(),
                i <= n,
                x@.len() == i as int,
                dx@.len() == i as int,
                forall|j: int| 0 <= j < i as int ==> (#[trigger] x@[j]).wf() && x@[j]@
                    == dual_mul_const(self.slot(j), c@).x,
                forall|j: int| 0 <= j < i as int ==> (#[trigger] dx@[j]).wf() && dx@[j]@
                    == dual_mul_const(self.slot(j), c@).dx,
            decreases n - i,
        {
            proof {
                assert(self.slot(i as int).wf());
                assert(dual_mul_const_fits(self.slot(i as int), c@));
            }
            x.push(self.x[i].mul(c));
            dx.push(self.dx[i].mul(c));
            i = i + 1;
        }
        DualVector { x, dx }
    }

    /// A constant multiple on the left, slot by slot: both components
    /// scale.
    pub fn const_mul(c: Rational, rhs: DualVector) -> (r: DualVector)
        requires
            rhs.wf(),
            c.wf(),
            forall|i: int| 0 <= i < rhs.spec_width() ==> dual_const_mul_fits(
                c@,
                #[trigger] rhs.slot(i),
            ),
        ensures
            r.wf(),
            r.spec_width() == rhs.spec_width(),
            forall|i: int| 0 <= i < r.spec_width() ==> r.slot(i) == dual_const_mul(
                c@,
                rhs.slot(i),
            ),
    {
        let n = rhs.x.len();
        let mut x: Vec<Rational> = Vec::new();
        let mut dx: Vec<Rational> = Vec::new();
        let mut i: usize = 0;
        while i < n
            invariant
                rhs.wf(),
                c.wf(),
                forall|k: int| 0 <= k < rhs.spec_width() ==> dual_const_mul_fits(
                    c@,
                    #[trigger] rhs.slot(k),
                ),
                n as int == rhs.spec_width(),
                i <= n,
                x@.len() == i as int,
                dx@.len() == i as int,
                forall|j: int| 0 <= j < i as int ==> (#[trigger] x@[j]).wf() && x@[j]@
                    == dual_const_mul(c@, rhs.slot(j)).x,
                forall|j: int| 0 <= j < i as int ==> (#[trigger] dx@[j]).wf() && dx@[j]@
                    == dual_const_mul(c@, rhs.slot(j)).dx,
            decreases n - i,
        {
            proof {
                assert(rhs.slot(i as int).wf());
                assert(dual_const_mul_fits(c@, rhs.slot(i as int)));
            }
            x.push(c.mul(rhs.x[i]));
            dx.push(c.mul(rhs.dx[i]));
            i = i + 1;
        }
        DualVector { x, dx }
    }

    /// Chain rule for an externally computed unary function, applied to
    /// every slot: each slot gets value `fx` and derivative
    /// `fdx * slot derivative`.
    pub fn chain_unary(self, fx: Rational, fdx: Rational) -> (r: DualVector)
        requires
            self.wf(),
            fx.wf(),
            fdx.wf(),
            forall|i: int| 0 <= i < self.spec_width() ==> dual_chain_fits(
                #[trigger] self.slot(i),
                fdx@,
            ),
        ensures
            r.wf(),
            r.spec_width() == self.spec_width(),
            forall|i: int| 0 <= i < r.spec_width() ==> r.slot(i) == dual_chain(
                self.slot(i),
                fx@,
                fdx@,
            ),
    {
        let n = self.x.len();
        let mut x: Vec<Rational> = Vec::new();
        let mut dx: Vec<Rational> = Vec::new();
        let mut i: usize = 0;
        while i < n
            invariant
                self.wf(),
                fx.wf(),
                fdx.wf(),
                forall|k: int| 0 <= k < self.spec_width() ==> dual_chain_fits(
                    #[trigger] self.slot(k),
                    fdx@,
                ),
                n as int == self.spec_width(),
                i <= n,
                x@.len() == i as int,
                dx@.len() == i as int,
                forall|j: int| 0 <= j < i as int ==> (#[trigger] x@[j]).wf() && x@[j]@
                    == dual_chain(self.slot(j), fx@, fdx@).x,
                forall|j: int| 0 <= j < i as int ==> (#[trigger] dx@[j]).wf() && dx@[j]@
                    == dual_chain(self.slot(j), fx@, fdx@).dx,
            decreases n - i,
        {
            proof {
                assert(self.slot(i as int).wf());
                assert(dual_chain_fits(self.slot(i as int), fdx@));
            }
            x.push(fx);
            dx.push(fdx.mul(self.dx[i]));
            i = i + 1;
        }
        DualVector { x, dx }
    }

    /// Power rule for a constant natural exponent, applied to every slot.
    pub fn powi(self, k: u32) -> (r: DualVector)
        requires
            self.wf(),
            forall|i: int| 0 <= i < self.spec_width() ==> dual_pow_fits(
                #[trigger] self.slot(i),
                k as nat,
            ),
        ensures
            r.wf(),
            r.spec_width() == self.spec_width(),
            forall|i: int| 0 <= i < r.spec_width() ==> r.slot(i) == dual_pow(
                self.slot(i),
                k as nat,
            ),
    {
        let n = self.x.len();
        let mut x: Vec<Rational> = Vec::new();
        let mut dx: Vec<Rational> = Vec::new();
        let mut i: usize = 0;
        while i < n
            invariant
                self.wf(),
                forall|j: int| 0 <= j < self.spec_width() ==> dual_pow_fits(
                    #[trigger] self.slot(j),
                    k as nat,
                ),
                n as int == self.spec_width(),
                i <= n,
                x@.len() == i as int,
                dx@.len() == i as int,
                forall|j: int| 0 <= j < i as int ==> (#[trigger] x@[j]).wf() && x@[j]@
                    == dual_pow(self.slot(j), k as nat).x,
                forall|j: int| 0 <= j < i as int ==> (#[trigger] dx@[j]).wf() && dx@[j]@
                    == dual_pow(self.slot(j), k as nat).dx,
            decreases n - i,
        {
            proof {
                assert(self.slot(i as int).wf());
                assert(dual_pow_fits(self.slot(i as int), k as nat));
            }
            if k == 0 {
                x.push(Rational::from_int(1));
                dx.push(Rational::from_int(0));
            } else {
                let p = self.x[i].pow_nat(k - 1);
                let kr = Rational::from_int(k as i128);
                x.push(p.mul(self.x[i]));
                dx.push(kr.mul(p).mul(self.dx[i]));
            }
            i = i + 1;
        }
        DualVector { x, dx }
    }
}

} // verus!
