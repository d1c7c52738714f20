//! Failure taxonomy of the inference service.

use vstd::prelude::*;

verus! {

/// Everything that can go wrong while setting a model up or generating
/// tokens.  Every failure aborts the current call; nothing is retried.
#[derive(Debug, PartialEq, Eq)]
pub enum Error {
    /// No model has been set up yet.
    ModelNotLoaded,
    /// The serialized model bytes could not be decoded, or the decoded
    /// graph could not be compiled into a runnable model.  Carries a
    /// human-readable cause.
    ModelLoadError(String),
    /// A single generation step's model invocation failed; fatal for the
    /// call, not retried.  Carries a human-readable cause.
    InferenceRuntimeError(String),
    /// A tensor's element count did not match its declared shape.  This is
    /// a defensive invariant check; shapes derived from sequence lengths
    /// never trip it.
    TensorShapeError,
}

} // verus!
