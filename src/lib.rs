//! Musical key estimation in wheel notation.
//!
//! The library holds the exact part of the analysis: the key type and its
//! textual form, the lookup from key names to wheel codes, the placement of
//! the analysis windows over a sample buffer, the transition
//! scorer that picks a global key from per-frame key classifications, and
//! the choice of the best tuning over a sweep of tuning candidates.
use vstd::prelude::*;

pub mod camelot;
pub mod chroma;
pub mod errors;
pub mod harmonic_analyzer;
pub mod tuning;
pub mod types;

verus! {

} // verus!
