//! The error taxonomy of the pipeline core.
//!
//! Every error is fatal for the current run: resolution errors are
//! pipeline-authoring bugs, a shape mismatch is an invariant violation in the
//! script's output buffer. None is retried.

use vstd::prelude::*;

verus! {

/// A fatal pipeline error.
#[derive(Debug, Clone, PartialEq, Eq)]
pub enum CError {
    /// A kernel argument referenced a scalar-buffer name that is absent from
    /// the registry or names an image entry.
    NoBuffer(String),
    /// A kernel argument referenced an image name that is absent from the
    /// registry or names a scalar-buffer entry.
    NoImage(String),
    /// A script tried to create a buffer under one of the reserved registry
    /// keys "input" or "output".
    ReservedName(String),
    /// The byte count handed back for the "output" image does not match the
    /// current frame dimensions.
    ShapeMismatch { expected: usize, got: usize },
}

} // verus!
