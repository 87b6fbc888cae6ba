//! Error vocabulary of the driver.
//!
//! Every failure surfaces as a distinct, inspectable value: transport
//! failures pass through unchanged, protocol status failures carry the
//! raw code, and capability or precondition failures name the condition.

use vstd::prelude::*;
use crate::constants::Status;
use crate::transport::TransportError;

verus! {

/// A failure specific to this probe's protocol.
#[derive(Clone, Copy, Debug, PartialEq, Eq, Structural)]
pub enum StlinkError {
    /// The probe returned an all-zero reference sample for the voltage read.
    VoltageDivisionByZero,
    /// The probe reported an operating mode this driver does not know.
    UnknownMode,
    /// Opening or closing an Access Port needs newer hardware or firmware.
    JTagDoesNotSupportMultipleAP,
    /// A Debug Port register with a nonzero bank nibble was addressed.
    BlanksNotAllowedOnDPRegister,
    /// The transport handed back fewer bytes than the operation's response
    /// layout requires.
    NotEnoughBytesRead,
    /// A USB endpoint the driver needs was not found.
    EndpointNotFound,
    /// The probe answered with a non-success status code.
    CommandFailed(Status),
}

/// A failure of a probe operation, as reported to the caller.
#[derive(Clone, Copy, Debug, PartialEq, Eq, Structural)]
pub enum DebugProbeError {
    /// The transport itself failed; passed through unchanged.
    USB(TransportError),
    /// The probe's firmware reports no JTAG/SWD support at all.
    JTAGNotSupportedOnProbe,
    /// The probe's firmware is older than the minimum this driver supports.
    ProbeFirmwareOutdated,
    /// No supported setting exists for the requested speed, in kHz.
    UnsupportedSpeed(u32),
    /// The probe's hardware generation is newer than any this driver
    /// has a negotiation branch for.
    UnsupportedHardwareGeneration(u8),
    /// A probe-specific protocol failure.
    ProbeSpecific(StlinkError),
}

impl From<StlinkError> for DebugProbeError {
    /// Wraps a probe-specific failure for the generic caller.
    fn from(e: StlinkError) -> (r: DebugProbeError) {
        DebugProbeError::ProbeSpecific(e)
    }
}

impl vstd::std_specs::convert::FromSpecImpl<StlinkError> for DebugProbeError {
    open spec fn obeys_from_spec() -> bool {
        true
    }

    open spec fn from_spec(e: StlinkError) -> DebugProbeError {
        DebugProbeError::ProbeSpecific(e)
    }
}

/// Whether an error reports a failure of the channel itself: the transport
/// failed, or it handed back a short response.
pub open spec fn is_io_failure(e: DebugProbeError) -> bool {
    match e {
        DebugProbeError::USB(_) => true,
        DebugProbeError::ProbeSpecific(StlinkError::NotEnoughBytesRead) => true,
        _ => false,
    }
}

/// Whether an error reports a non-success protocol status code.
pub open spec fn is_status_failure(e: DebugProbeError) -> bool {
    match e {
        DebugProbeError::ProbeSpecific(StlinkError::CommandFailed(_)) => true,
        _ => false,
    }
}

} // verus!
