//! Verified core of a build-quality evaluator for a character damage
//! calculator: an attribute dependency graph with forward value resolution
//! and backward sensitivity propagation, a damage-expectation builder, and
//! a per-character target (scoring) function.
//!
//! All quantities are fixed-point numbers: a value `v` stands for the
//! rational `v / SCALE` (see the `fixed` module).

pub mod attribute;
pub mod damage;
pub mod fixed;
pub mod ineffa;
pub mod ineffa_default;
