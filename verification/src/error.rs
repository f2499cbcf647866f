//! Typed failures surfaced by the parsing entry points.

use vstd::prelude::*;

verus! {

/// A rejected caller input.  Formatting a message for display is the
/// presentation layer's concern; each variant carries the offending text.
#[derive(Debug, Clone)]
pub enum BackendError {
    /// An unrecognized class-name string; carries the raw input.
    InvalidClassModel(String),
    /// A boost token that is neither a named tier nor a parseable decimal
    /// percentage; carries a description of the numeric-parse failure.
    InvalidWeaponBoost(String),
    /// Any other malformed input; carries a description.
    ParseError(String),
}

} // verus!
