//! Error codes returned by the drivers.
use vstd::prelude::*;

verus! {

/// Error codes used by the drivers, with the names and meanings of the Tock
/// kernel's error codes.
#[allow(non_camel_case_types, clippy::upper_case_acronyms)]
#[derive(Copy, Clone, Debug, PartialEq, Eq, Structural)]
pub enum ErrorCode {
    /// Generic failure.
    FAIL,
    /// The underlying system is busy; retry.
    BUSY,
    /// The state requested is already set.
    ALREADY,
    /// The component is powered down.
    OFF,
    /// Reservation required before use.
    RESERVE,
    /// An invalid parameter was passed.
    INVAL,
    /// A parameter was too large.
    SIZE,
    /// The operation was cancelled.
    CANCEL,
    /// Memory required was not available.
    NOMEM,
    /// The operation is not supported.
    NOSUPPORT,
    /// The device is not available.
    NODEVICE,
    /// The device is not physically installed.
    UNINSTALLED,
    /// The packet transmission was not acknowledged.
    NOACK,
}

} // verus!
