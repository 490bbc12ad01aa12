//! The platforms on which the enumeration facility exists.

use vstd::prelude::*;

verus! {

/// The operating system that the program runs on.
#[derive(Debug, Clone, Copy, PartialEq, Eq, Structural)]
pub enum Platform {
    MacOs,
    Ios,
    TvOs,
    WatchOs,
    /// Any system that is none of the above.
    Other,
}

impl Platform {
    /// The platform provides `sysdir(3)`: macOS, iOS, tvOS and watchOS do,
    /// and nothing else does.
    pub open spec fn spec_is_supported(self) -> bool {
        self != Platform::Other
    }

    /// Tells whether the platform provides `sysdir(3)`.
    #[verifier::when_used_as_spec(spec_is_supported)]
    pub fn is_supported(self) -> (supported: bool)
        ensures
            supported == self.spec_is_supported(),
    {
        match self {
            Platform::Other => false,
            _ => true,
        }
    }
}

} // verus!
