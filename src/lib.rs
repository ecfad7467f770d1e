//! Checks whether an HTTP client's traffic leaves through the Tor network,
//! from the answer of the Tor Project's check service.
use vstd::prelude::*;

pub mod error;
pub mod marker;
pub mod status;

pub use error::TorCheckError;
pub use status::TorCheckStatus;

verus! {

/// Trait for Tor connection checking.
pub trait TorCheck {
    type Result;

    /// Verify if you are correctly connected to Tor.
    ///
    /// Return the HTTP client on success.
    fn tor_check(self) -> Self::Result;
}

} // verus!
