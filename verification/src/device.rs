//! Device handle: owns one opened HID channel to a located cooler and
//! moves codec buffers over it. The handle never interprets bytes itself;
//! every transform and every range check is done by the verified codec.

use vstd::prelude::*;

use crate::codec::KrakenData;
use crate::codec::KrakenError;
use crate::codec::SpeedTarget;
use crate::codec::confirm_command_written;
use crate::codec::decode_report;
use crate::codec::encode_speed_command;
use crate::codec::fan_percent_ok;
use crate::codec::pump_percent_ok;
use crate::hid;

verus! {

/// USB vendor identifier the handle looks for at open time.
pub const NZXT_VENDOR_ID: u16 = 0x1e71;

/// USB product identifier of the Kraken X-series cooler.
pub const NZXT_KRAKEN_X_PRODUCT_ID: u16 = 0x170e;

/// How long one read blocks waiting for a report, in milliseconds.
pub const READ_TIMEOUT_MS: i32 = 1000;

/// Representation of the Kraken device containing the underlying USB device.
pub struct Kraken {
    device: hidapi::HidDevice,
}

impl Kraken {
    /// Attempts to open the Kraken device.
    ///
    /// This will usually require superuser privileges on the machine, and
    /// will return an error if attempted without them. Every failure is a
    /// wrapped transport error; no validation error can arise here.
    pub fn open() -> (r: Result<Kraken, KrakenError>)
        ensures
            r matches Err(e) ==> e matches KrakenError::UsbError(_),
    {
        let api = match hid::hid_api_new() {
            Ok(a) => a,
            Err(e) => return Err(KrakenError::UsbError(e)),
        };
        let device = match hid::hid_open(&api, NZXT_VENDOR_ID, NZXT_KRAKEN_X_PRODUCT_ID) {
            Ok(d) => d,
            Err(e) => return Err(KrakenError::UsbError(e)),
        };
        Ok(Kraken { device })
    }

    /// Reads the current state of the Kraken device.
    ///
    /// This will populate a `KrakenData` struct with the current values of
    /// the device. Whatever bytes and count the transport hands back, the
    /// result is their decoding, so a failure is either a wrapped transport
    /// error or a rejected short read; no range error can arise here.
    pub fn read(&self) -> (r: Result<KrakenData, KrakenError>)
        ensures
            r matches Err(e) ==> (e matches KrakenError::UsbError(_) || e
                matches KrakenError::InsufficientData),
    {
        let mut buf = [0u8; 64];
        let received = match hid::hid_read_timeout(&self.device, &mut buf, READ_TIMEOUT_MS) {
            Ok(n) => n,
            Err(e) => return Err(KrakenError::UsbError(e)),
        };
        decode_report(&buf, received)
    }

    /// Sets the fan speed of the device.
    ///
    /// A fan speed provided outside of the range 25-100% will result in a
    /// `FanSpeedOutOfRange` error before any transmit is attempted; an
    /// in-range speed is encoded and sent, and a transmit that delivers a
    /// count other than the full command is reported as `ShortWrite`.
    pub fn set_fan_speed(&self, fan_speed: u8) -> (r: Result<(), KrakenError>)
        ensures
            (r == Err::<(), KrakenError>(KrakenError::FanSpeedOutOfRange)) <==> !fan_percent_ok(
                fan_speed,
            ),
            r matches Err(e) ==> (e matches KrakenError::FanSpeedOutOfRange || e
                matches KrakenError::ShortWrite || e matches KrakenError::UsbError(_)),
    {
        let buf = match encode_speed_command(SpeedTarget::Fan, fan_speed) {
            Ok(b) => b,
            Err(e) => return Err(e),
        };
        let written = match hid::hid_write(&self.device, &buf) {
            Ok(n) => n,
            Err(e) => return Err(KrakenError::UsbError(e)),
        };
        confirm_command_written(written)
    }

    /// Sets the pump speed of the device.
    ///
    /// A pump speed provided outside of the range 60-100% will result in a
    /// `PumpSpeedOutOfRange` error before any transmit is attempted; an
    /// in-range speed is encoded and sent, and a transmit that delivers a
    /// count other than the full command is reported as `ShortWrite`.
    pub fn set_pump_speed(&self, pump_speed: u8) -> (r: Result<(), KrakenError>)
        ensures
            (r == Err::<(), KrakenError>(KrakenError::PumpSpeedOutOfRange)) <==> !pump_percent_ok(
                pump_speed,
            ),
            r matches Err(e) ==> (e matches KrakenError::PumpSpeedOutOfRange || e
                matches KrakenError::ShortWrite || e matches KrakenError::UsbError(_)),
    {
        let buf = match encode_speed_command(SpeedTarget::Pump, pump_speed) {
            Ok(b) => b,
            Err(e) => return Err(e),
        };
        let written = match hid::hid_write(&self.device, &buf) {
            Ok(n) => n,
            Err(e) => return Err(KrakenError::UsbError(e)),
        };
        confirm_command_written(written)
    }

    /// Releases the handle, closing the underlying channel when the device
    /// value is dropped.
    pub fn release(self) {
    }
}

} // verus!
