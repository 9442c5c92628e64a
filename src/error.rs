use vstd::prelude::*;

verus! {

/// Failures that the model's structural checks report to the caller.
#[derive(Clone, Copy, Debug, PartialEq, Eq, Structural)]
pub enum ModelError {
    /// A size parameter is zero, or the embedding width is not a multiple of the head count.
    Configuration,
    /// A tensor's dimensions do not fit the operation it is handed to.
    ShapeMismatch,
    /// A token id outside the vocabulary, or a sequence longer than the context.
    OutOfRange,
}

} // verus!
