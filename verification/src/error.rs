//! The ways in which starting or running the bridge can fail.

use vstd::prelude::*;

verus! {

/// Why the bridge could not start, or why it stopped.
///
/// Every setup error ends the current run: none is retried.
#[derive(Clone, Copy, Debug, PartialEq, Eq, Structural)]
pub enum BridgeError {
    /// The virtual joystick driver is not installed or not enabled.
    DriverUnavailable,
    /// The client library and the installed driver are of different versions.
    VersionMismatch { installed: u16, library: u16 },
    /// The virtual device lacks one of the six axes, or does not have
    /// exactly the buttons the translator drives.
    CapabilityMismatch,
    /// Another feeder owns the virtual device.
    DeviceBusy,
    /// The virtual device is not installed or is disabled.
    DeviceMissing,
    /// The driver could not tell the state of the virtual device.
    DeviceStatusUnknown,
    /// The driver refused to hand the virtual device over.
    AcquireRefused,
    /// No enumerated HID device is the SpaceNavigator.
    DeviceNotFound,
    /// The HID transport could not be brought up, or the SpaceNavigator
    /// could not be opened.
    TransportOpenFailed,
    /// The opened SpaceNavigator could not be put into blocking mode.
    BlockingModeSetFailed,
    /// A blocking read of the SpaceNavigator failed.
    FatalReadError,
}

} // verus!
