use vstd::prelude::*;

verus! {

/// Why an analysis produced no decision.
#[derive(Debug, Clone, PartialEq, Eq)]
pub enum ImageAnalysisError {
    /// The decoding collaborator could not produce an image.
    ImageLoadError(String),
    /// A buffer with no samples, a buffer whose storage does not match its
    /// dimensions, or a threshold with a zero denominator.
    InvalidInput,
}

} // verus!
