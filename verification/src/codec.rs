//! Pure protocol codec for the Kraken X-series wire format.
//!
//! Inbound telemetry reports are 64-byte buffers with fixed field offsets;
//! outbound speed commands are 5-byte buffers with a fixed header and the
//! requested duty percentage in the last byte. Everything here is a pure
//! transform: no transport is touched.

use vstd::prelude::*;

verus! {

/// Shortest inbound report that still holds every decoded field.
pub const MIN_REPORT_LEN: usize = 15;

/// Size of a raw inbound telemetry report.
pub const REPORT_LEN: usize = 64;

/// Size of a raw outbound speed command.
pub const COMMAND_LEN: usize = 5;

/// Decoded snapshot of one telemetry read.
#[derive(Debug, Clone, Copy)]
pub struct KrakenData {
    /// The temp of the liquid in degrees C.
    pub liquid_temp: u8,
    /// The current speed of the fan as RPM.
    pub fan_speed: u16,
    /// The current speed of the pump as RPM.
    pub pump_speed: u16,
    /// The current firmware version as (Major, Minor, Revision).
    pub firmware_version: (u8, u16, u8),
}

impl PartialEq for KrakenData {
    fn eq(&self, other: &KrakenData) -> (r: bool) {
        self.liquid_temp == other.liquid_temp
            && self.fan_speed == other.fan_speed
            && self.pump_speed == other.pump_speed
            && self.firmware_version.0 == other.firmware_version.0
            && self.firmware_version.1 == other.firmware_version.1
            && self.firmware_version.2 == other.firmware_version.2
    }
}

impl vstd::std_specs::cmp::PartialEqSpecImpl for KrakenData {
    open spec fn obeys_eq_spec() -> bool {
        true
    }

    open spec fn eq_spec(&self, other: &KrakenData) -> bool {
        *self == *other
    }
}

/// Which physical target a speed command is meant for.
#[derive(Debug, Clone, Copy, PartialEq, Eq, Structural)]
pub enum SpeedTarget {
    /// The radiator fan.
    Fan,
    /// The coolant pump.
    Pump,
}

/// Errors returned from the driver.
#[derive(Debug)]
pub enum KrakenError {
    /// The fan speed supplied is outside of the 25-100% range.
    FanSpeedOutOfRange,
    /// The pump speed supplied is outside of the 60-100% range.
    PumpSpeedOutOfRange,
    /// The device did not return enough data to decode a full report.
    InsufficientData,
    /// The transport accepted the write but reported a byte count other
    /// than the full command length.
    ShortWrite,
    /// Wrapper error for any underlying USB errors thrown by the hidapi.
    UsbError(hidapi::HidError),
}

impl KrakenError {
    /// A human-readable diagnostic for the error kind. The wrapped USB
    /// error keeps its own description; callers holding one format the
    /// underlying cause themselves.
    pub fn message(&self) -> (r: &'static str)
        ensures
            *self matches KrakenError::FanSpeedOutOfRange ==> r@ == "Fan speed must be between 25% and 100%"@,
            *self matches KrakenError::PumpSpeedOutOfRange ==> r@ == "Pump speed must be between 60% and 100%"@,
            *self matches KrakenError::InsufficientData ==> r@ == "Did not receive enough data from the device"@,
            *self matches KrakenError::ShortWrite ==> r@ == "Device did not accept the full command"@,
    {
        match self {
            KrakenError::FanSpeedOutOfRange => "Fan speed must be between 25% and 100%",
            KrakenError::PumpSpeedOutOfRange => "Pump speed must be between 60% and 100%",
            KrakenError::InsufficientData => "Did not receive enough data from the device",
            KrakenError::ShortWrite => "Device did not accept the full command",
            KrakenError::UsbError(_) => "USB transport error",
        }
    }
}

/// A 16-bit big-endian field composed from two consecutive report bytes.
pub open spec fn be_word(hi: u8, lo: u8) -> u16 {
    (hi as int * 256 + lo as int) as u16
}

/// What decoding yields for a raw report of `bytes` whose read returned
/// `len` bytes: all fields at their fixed offsets, or `InsufficientData`
/// when the read was too short to cover them.
pub open spec fn spec_decode_report(bytes: Seq<u8>, len: int) -> Result<KrakenData, KrakenError>
    recommends
        bytes.len() == REPORT_LEN,
{
    if len < MIN_REPORT_LEN {
        Err(KrakenError::InsufficientData)
    } else {
        Ok(KrakenData {
            liquid_temp: bytes[1],
            fan_speed: be_word(bytes[3], bytes[4]),
            pump_speed: be_word(bytes[5], bytes[6]),
            firmware_version: (bytes[0x0b], be_word(bytes[0x0c], bytes[0x0d]), bytes[0x0e]),
        })
    }
}

/// Composes a 16-bit value from a big-endian byte pair.
fn be_u16(hi: u8, lo: u8) -> (w: u16)
    ensures
        w == be_word(hi, lo),
{
    (hi as u16) * 256 + (lo as u16)
}

/// Whether `percent` is an acceptable fan duty cycle.
pub open spec fn fan_percent_ok(percent: u8) -> bool {
    25 <= percent <= 100
}

/// Whether `percent` is an acceptable pump duty cycle.
pub open spec fn pump_percent_ok(percent: u8) -> bool {
    60 <= percent <= 100
}

/// Whether `percent` is acceptable for `target`.
pub open spec fn percent_ok(target: SpeedTarget, percent: u8) -> bool {
    match target {
        SpeedTarget::Fan => fan_percent_ok(percent),
        SpeedTarget::Pump => pump_percent_ok(percent),
    }
}

/// The wire form of a speed command: a fixed four-byte header shared by
/// both targets, then the duty percentage. The protocol carries no target
/// discriminator; the device applies the command to whichever target the
/// surrounding context addresses.
pub open spec fn spec_command_bytes(percent: u8) -> Seq<u8> {
    seq![0x02u8, 0x4du8, 0x00u8, 0x00u8, percent]
}

/// The error rejecting an out-of-range percentage for `target`.
pub open spec fn range_error(target: SpeedTarget) -> KrakenError {
    match target {
        SpeedTarget::Fan => KrakenError::FanSpeedOutOfRange,
        SpeedTarget::Pump => KrakenError::PumpSpeedOutOfRange,
    }
}

/// An outbound actuation request: a target and a requested duty
/// percentage. It is valid exactly when the percentage lies in the
/// target's range; only valid commands can be serialized.
#[derive(Debug, Clone, Copy)]
pub struct SpeedCommand {
    /// Which physical target the command addresses.
    pub target: SpeedTarget,
    /// The requested duty cycle percentage.
    pub percent: u8,
}

impl SpeedCommand {
    /// Whether the percentage lies in the target's valid range.
    pub open spec fn valid(self) -> bool {
        percent_ok(self.target, self.percent)
    }

    /// Validates and serializes this command; an invalid command is never
    /// serialized and yields its target's range error.
    pub fn encode(self) -> (r: Result<[u8; 5], KrakenError>)
        ensures
            self.valid() ==> (r matches Ok(b) && b@ == spec_command_bytes(self.percent)),
            !self.valid() ==> r == Err::<[u8; 5], KrakenError>(range_error(self.target)),
    {
        encode_speed_command(self.target, self.percent)
    }
}

/// Validates and serializes one speed command.
///
/// Validation precedes encoding and fails closed: an out-of-range
/// percentage yields the target's range error and no buffer is produced.
pub fn encode_speed_command(target: SpeedTarget, percent: u8) -> (r: Result<[u8; 5], KrakenError>)
    ensures
        percent_ok(target, percent) ==> (r matches Ok(b) && b@ == spec_command_bytes(percent)),
        !percent_ok(target, percent) ==> r == Err::<[u8; 5], KrakenError>(range_error(target)),
{
    match target {
        SpeedTarget::Fan => {
            if percent < 25 || percent > 100 {
                return Err(KrakenError::FanSpeedOutOfRange);
            }
        },
        SpeedTarget::Pump => {
            if percent < 60 || percent > 100 {
                return Err(KrakenError::PumpSpeedOutOfRange);
            }
        },
    }

    let buf: [u8; 5] = [0x02, 0x4d, 0x00, 0x00, percent];
    proof {
        assert(buf@ =~= spec_command_bytes(percent));
    }
    Ok(buf)
}

/// Checks the byte count a transmit reported against the full command
/// length. Any count other than the full 5 bytes is a protocol-level
/// failure (`ShortWrite`), distinct from a transport error: the transport
/// call itself succeeded but did not deliver the whole command.
pub fn confirm_command_written(written: usize) -> (r: Result<(), KrakenError>)
    ensures
        written == COMMAND_LEN ==> r == Ok::<(), KrakenError>(()),
        written != COMMAND_LEN ==> r == Err::<(), KrakenError>(KrakenError::ShortWrite),
{
    if written == COMMAND_LEN {
        Ok(())
    } else {
        Err(KrakenError::ShortWrite)
    }
}

/// Decodes one raw telemetry report.
///
/// `len` is the byte count the transport reported for the read. Decoding is
/// all-or-nothing: a count under [`MIN_REPORT_LEN`] yields
/// `InsufficientData` and never a partial record.
pub fn decode_report(buf: &[u8; 64], len: usize) -> (r: Result<KrakenData, KrakenError>)
    ensures
        r == spec_decode_report(buf@, len as int),
        (len < MIN_REPORT_LEN) <==> (r == Err::<KrakenData, KrakenError>(
            KrakenError::InsufficientData,
        )),
{
    if len < MIN_REPORT_LEN {
        return Err(KrakenError::InsufficientData);
    }

    Ok(KrakenData {
        liquid_temp: buf[1],
        fan_speed: be_u16(buf[3], buf[4]),
        pump_speed: be_u16(buf[5], buf[6]),
        firmware_version: (buf[0x0b], be_u16(buf[0x0c], buf[0x0d]), buf[0x0e]),
    })
}

/// Decoding is deterministic: two buffers with identical byte content and
/// the same reported length decode to identical results.
pub proof fn lemma_decode_deterministic(a: Seq<u8>, b: Seq<u8>, len: int)
    requires
        a == b,
    ensures
        spec_decode_report(a, len) == spec_decode_report(b, len),
{
}

/// Decoding is all-or-nothing: a read under [`MIN_REPORT_LEN`] bytes fails
/// with `InsufficientData`, and every longer read yields a full report,
/// never a partial one.
pub proof fn lemma_short_read_rejected(bytes: Seq<u8>, len: int)
    ensures
        (len < MIN_REPORT_LEN) <==> (spec_decode_report(bytes, len) == Err::<
            KrakenData,
            KrakenError,
        >(KrakenError::InsufficientData)),
        (len >= MIN_REPORT_LEN) <==> (spec_decode_report(bytes, len) is Ok),
{
}

/// Round trip: the wire buffer of a valid command carries the original
/// percentage in its last byte, so decoding that byte back yields the
/// percentage that was encoded.
pub proof fn lemma_encode_round_trip(target: SpeedTarget, percent: u8)
    requires
        percent_ok(target, percent),
    ensures
        spec_command_bytes(percent).len() == COMMAND_LEN,
        spec_command_bytes(percent)[COMMAND_LEN - 1] == percent,
{
}

} // verus!
