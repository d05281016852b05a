//! Released versions of the native API surface.
use vstd::prelude::*;

verus! {

/// A released version of the native engine's API, or the development head.
#[derive(Clone, Copy, Debug, PartialEq, Eq, Structural)]
pub enum PdfiumApiVersion {
    Future,
    V6666,
    V6611,
    V6569,
    V6555,
    V6490,
    V6406,
    V6337,
    V6295,
    V6259,
    V6164,
    V6124,
    V6110,
    V6084,
    V6043,
    V6015,
    V5961,
}

impl PdfiumApiVersion {
    /// The API version whose operation set these bindings expose: the newest release.
    pub fn current() -> (r: PdfiumApiVersion)
        ensures
            r == PdfiumApiVersion::V6666,
    {
        PdfiumApiVersion::V6666
    }
}

} // verus!
