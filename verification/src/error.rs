//! Errors surfaced by the pipeline-state layer.
//!
//! Every failure reported by the device capability is mapped to one of the
//! typed errors below and returned to the immediate caller; the layer never
//! retries and never recovers locally.

use vstd::prelude::*;

verus! {

/// A status code returned by the device capability. Non-negative codes mean
/// success, negative codes carry the device's failure reason.
pub type StatusCode = i32;

/// Holds exactly when a device status code reports success.
pub open spec fn succeeded(status: StatusCode) -> bool {
    status >= 0
}

/// An error reported while building a pipeline state or querying its cache.
#[derive(Clone, Copy, Debug, PartialEq, Eq, Structural)]
pub enum WinError {
    /// The device rejected the assembled descriptor; carries the device's
    /// status code. No resource was created.
    CreationFailed(StatusCode),
    /// The device could not hand out a cached blob for a pipeline state;
    /// carries the device's status code. Non-fatal: the caller may ignore it
    /// and rebuild from scratch.
    CacheRetrievalFailed(StatusCode),
}

impl WinError {
    /// The status code the device reported, whichever query failed.
    pub fn status(&self) -> (r: StatusCode)
        ensures
            r == self.spec_status(),
    {
        match self {
            WinError::CreationFailed(s) => *s,
            WinError::CacheRetrievalFailed(s) => *s,
        }
    }

    /// The status code carried by this error.
    pub open spec fn spec_status(self) -> StatusCode {
        match self {
            WinError::CreationFailed(s) => s,
            WinError::CacheRetrievalFailed(s) => s,
        }
    }
}

} // verus!
