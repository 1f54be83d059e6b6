//! Native status codes.

use vstd::prelude::*;

verus! {

/// A status code returned by a native DOCA call.
#[derive(Debug, Clone, Copy, PartialEq, Eq, Structural)]
pub enum DocaStatus {
    Success,
    Unknown,
    NotPermitted,
    InUse,
    NotSupported,
    Again,
    InvalidValue,
    NoMemory,
    Initialization,
    TimeOut,
    Shutdown,
    ConnectionReset,
    ConnectionAborted,
    ConnectionInProgress,
    NotConnected,
    NoLock,
    NotFound,
    IoFailed,
    BadState,
    UnsupportedVersion,
    OperatingSystem,
    Driver,
    Unexpected,
}

/// Result of an operation whose failure carries a native status.
pub type DOCAResult<T> = Result<T, DocaStatus>;

impl DocaStatus {
    /// Whether this is the success code.
    pub fn is_success(&self) -> (r: bool)
        ensures
            r == (*self == DocaStatus::Success),
    {
        match self {
            DocaStatus::Success => true,
            _ => false,
        }
    }

    /// Turns a status into a result: `Ok(())` on success, the status itself otherwise.
    pub fn into_result(self) -> (r: DOCAResult<()>)
        ensures
            self == DocaStatus::Success ==> r == Ok::<(), DocaStatus>(()),
            self != DocaStatus::Success ==> r == Err::<(), DocaStatus>(self),
    {
        if self.is_success() {
            Ok(())
        } else {
            Err(self)
        }
    }
}

} // verus!
