//! Error kinds surfaced by the translation layer.
use vstd::prelude::*;

verus! {

/// An internal error reported by the native engine.
#[derive(Clone, Copy, Debug, PartialEq, Eq, Structural)]
pub enum PdfiumInternalError {
    /// The engine signalled failure without a more specific cause.
    Unknown,
}

/// An error surfaced to callers of the bindings.
#[derive(Clone, Copy, Debug, PartialEq, Eq, Structural)]
pub enum PdfiumError {
    /// The engine reported a failure through one of its sentinel values.
    PdfiumLibraryInternalError(PdfiumInternalError),
}

} // verus!
