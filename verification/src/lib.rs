//! Forward-mode automatic differentiation with dual numbers over exact
//! rational arithmetic.
//!
//! A dual number carries a value together with the derivative of the
//! computation that produced it.  Seeding a dual number from a plain value
//! marks that value as the independent variable (derivative one); every
//! operation then propagates the derivative by the corresponding rule of
//! calculus, so that the pair always reads `(f(x), f'(x))` for the chain of
//! operations applied so far.
//!
//! Two representations share the same algebra: [`scalar::Dual`] tracks a
//! single derivative channel, and [`vector::DualVector`] tracks a fixed
//! positive number of channels, one per independent variable, each slot
//! obeying the scalar rules independently.
//!
//! The element type is an exact rational, [`rational::Rational`], so every
//! derivative rule is stated and proved exactly.  Transcendental functions
//! (sine, exponential, and the rest) have no exact rational value; their
//! contribution enters through [`scalar::Dual::chain_unary`], which applies
//! the chain rule to a externally computed value and slope.

pub mod laws;
pub mod rational;
pub mod scalar;
pub mod vector;
