//! The ways in which an enumeration can refuse to operate.

use vstd::prelude::*;

verus! {

/// Why an operation did not take place.
///
/// An enumeration that finds no path at all is no error: it ends with its
/// first step.
#[derive(Debug, Clone, Copy, PartialEq, Eq, Structural)]
pub enum SysdirError {
    /// The enumeration facility does not exist on this platform. This holds
    /// for the whole program, never for a single call.
    UnsupportedPlatform,
    /// The caller offered a buffer below [`PATH_MAX`](crate::PATH_MAX) bytes
    /// or one that holds no terminated path, or went on with an enumeration
    /// that had already ended.
    PreconditionViolation,
}

} // verus!
