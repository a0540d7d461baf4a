//! The error taxonomy of the crate.

use vstd::prelude::*;

verus! {

/// Outcome of a failing operation.
///
/// Every kernel-level failure surfaces as `System`, carrying the numeric
/// failure code of the underlying call primitive unchanged.  `UnpairedBuffers`
/// is the one usage error: a property query was handed exactly one of the two
/// destination buffers (identifiers and values) that must be requested
/// together; it is reported before any kernel call is issued.
#[derive(Clone, Copy, Debug, PartialEq, Eq, Structural)]
pub enum Error {
    /// The kernel refused the call; the field is the raw failure code.
    System { code: i32 },
    /// Exactly one of a pair of jointly required destination buffers was given.
    UnpairedBuffers,
}

} // verus!
