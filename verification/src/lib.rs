//! A verified core for a small fluid solver: a square velocity/density grid
//! with impulse injection, a damping-then-advection step, and a
//! central-difference divergence query.
//!
//! Every sample of the field is an IEEE-754 binary64 value carried as its raw
//! 64-bit pattern; the `scalar` module does the arithmetic on those patterns
//! through a software floating-point library, and the `fluid` module holds the
//! verified grid logic built on top of it.

pub mod fluid;
pub mod scalar;
