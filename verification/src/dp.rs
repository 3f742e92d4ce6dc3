//! Error taxonomy of the differential-privacy sanitizer.
//!
//! The sanitizer itself works on single-precision vectors and therefore
//! lives with the floating-point code outside this library; only its error
//! type, which callers branch on, is defined here.

use vstd::prelude::*;

verus! {

/// Failures of the differential-privacy sanitizer.
#[derive(Debug, Clone, Copy, PartialEq, Eq, Structural)]
pub enum DpError {
    /// The construction arguments were rejected: a negative noise scale or a
    /// non-positive clipping threshold.
    InvalidParameters,
    /// The Gaussian noise source could not be built for the configured scale.
    GenerationError,
}

} // verus!
