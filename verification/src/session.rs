//! Per-adapter decode-session establishment: the error taxonomy.
//!
//! Establishing a session chains three platform acquisitions — a rendering
//! context on the adapter, an acceleration-device manager reset against it,
//! and the decode-service interface queried through a temporary device
//! handle.  Each step is fallible; a failure aborts establishment for that
//! adapter only, and the run goes on with the next adapter.  The platform
//! calls live outside the library; this module names which step failed.

use vstd::prelude::*;

verus! {

/// Which establishment step failed for an adapter.  The adapter produces no
/// report; the run is not aborted.
#[derive(Clone, Copy, PartialEq, Eq, Structural, Debug)]
pub enum SessionError {
    /// Creating the offscreen rendering context on the adapter failed.
    DeviceCreationFailed,
    /// Creating or resetting the acceleration-device manager failed.
    ManagerCreationFailed,
    /// Querying the decode-service interface through the temporary device
    /// handle failed.
    ServiceQueryFailed,
}

impl SessionError {
    /// What each variant reads as in the per-adapter error line.
    pub open spec fn description_spec(self) -> Seq<char> {
        match self {
            SessionError::DeviceCreationFailed => "device creation failed"@,
            SessionError::ManagerCreationFailed => "device manager creation failed"@,
            SessionError::ServiceQueryFailed => "video decoder service query failed"@,
        }
    }

    /// A short description of the failed step, for the error line.
    pub fn description(&self) -> (r: &'static str)
        ensures
            r@ == self.description_spec(),
    {
        match self {
            SessionError::DeviceCreationFailed => "device creation failed",
            SessionError::ManagerCreationFailed => "device manager creation failed",
            SessionError::ServiceQueryFailed => "video decoder service query failed",
        }
    }
}

} // verus!
