//! Host-side driver for the NZXT Kraken X-series liquid cooler.
//!
//! The crate splits into a pure protocol codec ([`codec`]), which maps
//! between raw byte buffers and typed telemetry or command values, and a
//! device handle ([`device`]), which owns one opened HID channel and moves
//! those buffers over it.

pub mod codec;
pub mod device;
mod hid;
