//! Deterministic stat- and damage-resolution core for a game theorycrafting
//! calculator.
//!
//! The crate derives a character's secondary combat stats from its level,
//! class archetype and gear enhancements, and evaluates skill damage formulas
//! against them.  Fractional quantities (stat multipliers, damage values,
//! boost factors) are held as `i64` counts of millionths of a unit, so that
//! every rule is exact integer arithmetic; the presentation layer converts to
//! and from its own floating-point display values at the edge.

pub mod damage;
pub mod error;
pub mod gear;
pub mod numeric;
pub mod player;
pub mod text;
