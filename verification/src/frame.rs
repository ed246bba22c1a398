//! The measurement frame that the sensor sends.
//!
//! Thirty-two bytes: the two magic numbers, then fifteen 16-bit fields in
//! big-endian order, the last of which is the checksum.

use vstd::prelude::*;
use crate::checksum::{be16, checksum, checksum_valid};
use crate::error::Error;

verus! {

/// Length of a measurement frame.
pub const OUTPUT_FRAME_SIZE: usize = 32;

/// One measurement, as decoded from a frame that passed its checksum.
#[derive(Clone, Copy, Debug, PartialEq, Eq, Structural)]
pub struct OutputFrame {
    /// Number of bytes that follow the length field.
    pub frame_length: u16,
    /// PM1.0 concentration, standard particle, in µg/m³.
    pub pm1_0: u16,
    /// PM2.5 concentration, standard particle, in µg/m³.
    pub pm2_5: u16,
    /// PM10 concentration, standard particle, in µg/m³.
    pub pm10: u16,
    /// PM1.0 concentration under atmospheric environment, in µg/m³.
    pub pm1_0_atm: u16,
    /// PM2.5 concentration under atmospheric environment, in µg/m³.
    pub pm2_5_atm: u16,
    /// PM10 concentration under atmospheric environment, in µg/m³.
    pub pm10_atm: u16,
    /// Particles beyond 0.3 µm in 0.1 L of air.
    pub beyond_0_3: u16,
    /// Particles beyond 0.5 µm in 0.1 L of air.
    pub beyond_0_5: u16,
    /// Particles beyond 1.0 µm in 0.1 L of air.
    pub beyond_1_0: u16,
    /// Particles beyond 2.5 µm in 0.1 L of air.
    pub beyond_2_5: u16,
    /// Particles beyond 5.0 µm in 0.1 L of air.
    pub beyond_5_0: u16,
    /// Particles beyond 10 µm in 0.1 L of air.
    pub beyond_10_0: u16,
    /// Reserved by the sensor.
    pub reserved: u16,
    /// The checksum that closed the frame.
    pub check: u16,
}

/// The big-endian 16-bit field that starts at `offset` in `buffer`.
pub open spec fn field_at(buffer: Seq<u8>, offset: int) -> u16 {
    be16(buffer[offset], buffer[offset + 1])
}

/// The measurement that a 32-byte frame holds: each field read at its fixed
/// offset.
pub open spec fn decode_frame(buffer: Seq<u8>) -> OutputFrame {
    OutputFrame {
        frame_length: field_at(buffer, 2),
        pm1_0: field_at(buffer, 4),
        pm2_5: field_at(buffer, 6),
        pm10: field_at(buffer, 8),
        pm1_0_atm: field_at(buffer, 10),
        pm2_5_atm: field_at(buffer, 12),
        pm10_atm: field_at(buffer, 14),
        beyond_0_3: field_at(buffer, 16),
        beyond_0_5: field_at(buffer, 18),
        beyond_1_0: field_at(buffer, 20),
        beyond_2_5: field_at(buffer, 22),
        beyond_5_0: field_at(buffer, 24),
        beyond_10_0: field_at(buffer, 26),
        reserved: field_at(buffer, 28),
        check: field_at(buffer, 30),
    }
}

/// Reads the big-endian 16-bit field that starts at `offset`.
fn read_field(buffer: &[u8; OUTPUT_FRAME_SIZE], offset: usize) -> (value: u16)
    requires
        offset + 1 < OUTPUT_FRAME_SIZE,
    ensures
        value == field_at(buffer@, offset as int),
{
    buffer[offset] as u16 * 256 + buffer[offset + 1] as u16
}

impl OutputFrame {
    /// Decodes a measurement frame whose checksum has been found valid.
    ///
    /// The checksum is not tested again: the frame assembler has done so, and
    /// a caller with bytes from elsewhere calls `verify_checksum` first. On
    /// such a buffer decoding always succeeds, and the `check` field of the
    /// measurement is the checksum of the thirty bytes before it.
    pub fn from_buffer(buffer: &[u8; OUTPUT_FRAME_SIZE]) -> (result: Result<OutputFrame, Error>)
        requires
            checksum_valid(buffer@),
        ensures
            result == Ok::<OutputFrame, Error>(decode_frame(buffer@)),
            result matches Ok(frame) && frame.check == checksum(buffer@.take(30)),
    {
        Ok(
            OutputFrame {
                frame_length: read_field(buffer, 2),
                pm1_0: read_field(buffer, 4),
                pm2_5: read_field(buffer, 6),
                pm10: read_field(buffer, 8),
                pm1_0_atm: read_field(buffer, 10),
                pm2_5_atm: read_field(buffer, 12),
                pm10_atm: read_field(buffer, 14),
                beyond_0_3: read_field(buffer, 16),
                beyond_0_5: read_field(buffer, 18),
                beyond_1_0: read_field(buffer, 20),
                beyond_2_5: read_field(buffer, 22),
                beyond_5_0: read_field(buffer, 24),
                beyond_10_0: read_field(buffer, 26),
                reserved: read_field(buffer, 28),
                check: read_field(buffer, 30),
            },
        )
    }
}

} // verus!
