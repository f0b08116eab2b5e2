//! Trusted boundary to the `hidapi` crate.
//!
//! Everything in this module is believed, not verified: the type
//! declarations make hidapi's opaque handle and error types usable in
//! signatures, and each wrapper carries one transport call. Nothing is
//! promised of what the device sends back; the verified callers handle
//! every outcome.

use vstd::prelude::*;

verus! {

/// Declares hidapi's error type so it can stand in fields and results.
#[verifier::external_type_specification]
#[verifier::external_body]
pub struct ExHidError(hidapi::HidError);

/// Declares hidapi's library context type.
#[verifier::external_type_specification]
#[verifier::external_body]
pub struct ExHidApi(hidapi::HidApi);

/// Declares hidapi's opened-device handle type.
#[verifier::external_type_specification]
#[verifier::external_body]
pub struct ExHidDevice(hidapi::HidDevice);

/// Relies on hidapi::HidApi::new: initializes a HID context or reports the
/// failure. Which occurs depends on the machine, so nothing is promised.
#[verifier::external_body]
pub(crate) fn hid_api_new() -> Result<hidapi::HidApi, hidapi::HidError> {
    hidapi::HidApi::new()
}

/// Relies on hidapi::HidApi::open: opens the first attached device matching
/// the vendor and product identifiers, or reports why none could be opened.
/// Which occurs depends on what is attached, so nothing is promised.
#[verifier::external_body]
pub(crate) fn hid_open(api: &hidapi::HidApi, vid: u16, pid: u16) -> Result<
    hidapi::HidDevice,
    hidapi::HidError,
> {
    api.open(vid, pid)
}

/// Relies on hidapi::HidDevice::read_timeout: fills `buf` from the device's
/// input endpoint, waiting at most `timeout_ms` milliseconds, and reports
/// the byte count it read. Both the bytes and the count come from the
/// device, so nothing is promised of either.
#[verifier::external_body]
pub(crate) fn hid_read_timeout(device: &hidapi::HidDevice, buf: &mut [u8; 64], timeout_ms: i32) -> Result<
    usize,
    hidapi::HidError,
> {
    device.read_timeout(buf, timeout_ms)
}

/// Relies on hidapi::HidDevice::write: sends the buffer as one output
/// report and reports the byte count actually written, which the verified
/// caller must check against the command length.
#[verifier::external_body]
pub(crate) fn hid_write(device: &hidapi::HidDevice, buf: &[u8; 5]) -> Result<
    usize,
    hidapi::HidError,
> {
    device.write(buf)
}

} // verus!
