//! What can go wrong with a resource.

use vstd::prelude::*;

verus! {

/// Why a resource did not come about. A failure is final for the resource:
/// nothing is retried, and nothing half-made is left behind.
#[derive(Debug, Copy, Clone, PartialEq, Eq)]
pub enum ResourceError {
    /// The driver rejected the creation of an image or of its memory, with
    /// this result code.
    ImageCreation(i32),
    /// The driver rejected the creation of an image view, with this result
    /// code.
    ImageViewCreation(i32),
    /// The driver rejected the creation of a sampler, with this result code.
    SamplerCreation(i32),
    /// A sampler with the same parameters is cached already.
    SamplerAlreadyCached,
    /// The array layers of the image cannot be counted.
    ArrayLayersOutOfRange,
    /// An outcome was reported for a step other than the one asked for.
    UnexpectedOutcome,
}

/// A handle that refers to nothing was presented: the reserved invalid
/// handle, or one whose id lies beyond what its container holds.
#[derive(Debug, Copy, Clone, PartialEq, Eq)]
pub struct InvalidHandleError {
    /// The id of the handle that was refused.
    pub id: usize,
}

} // verus!
