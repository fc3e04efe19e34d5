use vstd::prelude::*;

verus! {

/// The error taxonomy of the library.
///
/// - `HardwareInit`: the peripheral could not be claimed or configured;
///   fatal at startup, not recoverable without a new initialization.
/// - `CaptureUnavailable`: the driver had no frame buffer ready; transient
///   and expected, the caller retries or reports unavailability upstream.
/// - `SensorControl`: the driver rejected a parameter change; the device
///   is otherwise unaffected.
/// - `InputValidation`: a malformed or unrecognized control request,
///   rejected before touching the device.
/// - `Transport`: a write or read to the external peer failed; it ends a
///   session and releases its resources, and is never a device fault.
#[derive(Clone, Copy, Debug, PartialEq, Eq, Structural)]
pub enum CamError {
    HardwareInit,
    CaptureUnavailable,
    SensorControl,
    InputValidation,
    Transport,
}

} // verus!
