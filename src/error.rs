//! Errors of kernel calls and of the service-manager protocol.
use vstd::prelude::*;

verus! {

/// An error that a kernel call reports.
#[derive(Clone, Copy, Debug, PartialEq, Eq, Structural)]
pub enum KernelError {
    /// The named entry (a port, a service) does not exist yet.
    NoSuchEntry,
    /// Any other error, by its kernel result code.
    Other(u32),
}

/// An error of a request to a service.
#[derive(Clone, Copy, Debug, PartialEq, Eq, Structural)]
pub enum Error {
    /// The kernel refused the call.
    Kernel(KernelError),
    /// The service answered with this nonzero result code.
    Service(u32),
    /// The answer carried no handle where one was expected.
    MissingHandle,
}

} // verus!
