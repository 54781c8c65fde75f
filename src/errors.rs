use vstd::prelude::*;

verus! {

/// Why a [`crate::types::Key`] could not be built.
#[derive(Debug, Clone, Copy, PartialEq, Eq, Structural)]
pub enum CreateKeyError {
    /// The mode letter is neither `A` nor `B`.
    InvalidLetterError,
    /// The wheel position lies outside `1..=12`.
    InvalidNumberError,
}

} // verus!
