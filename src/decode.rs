//! Pure conversions from register bytes to samples and physical quantities.
use vstd::prelude::*;

verus! {

/// A byte read as a two's-complement signed value.
pub open spec fn signed_byte(b: u8) -> int {
    if b >= 128 {
        b - 256
    } else {
        b as int
    }
}

/// The signed 16-bit value whose little-endian bytes are `lsb`, `msb`.
pub open spec fn le_i16(lsb: u8, msb: u8) -> int {
    signed_byte(msb) * 256 + lsb
}

/// The unsigned 24-bit value whose little-endian bytes are `b0`, `b1`, `b2`.
pub open spec fn le_u24(b0: u8, b1: u8, b2: u8) -> int {
    b0 + 256 * b1 + 65536 * b2
}

/// The temperature reading held by the `TEMP_MSB` byte and the top three
/// bits of the byte after it, in eighths of a degree relative to 23 °C.
pub open spec fn temperature_raw_of(msb: u8, lsb: u8) -> int {
    signed_byte(msb) * 8 + lsb / 32
}

/// Offset, in eighths of a degree Celsius, of a raw temperature reading of 0.
pub const TEMPERATURE_OFFSET_EIGHTHS: i32 = 184;

/// Microseconds per tick of the sensor-time counter.
pub const SENSOR_TIME_US_PER_TICK: u32 = 39;

/// Decodes a little-endian signed 16-bit sample.
pub fn i16_from_le(lsb: u8, msb: u8) -> (r: i16)
    ensures
        r == le_i16(lsb, msb),
{
    let high: i16 = if msb >= 128 {
        msb as i16 - 256
    } else {
        msb as i16
    };
    high * 256 + lsb as i16
}

/// Reconstructs the signed temperature reading: the most significant byte
/// sign-extended and shifted left by three, with the top three bits of the
/// next byte below it.
pub fn temperature_raw(msb: u8, lsb: u8) -> (r: i16)
    ensures
        r == temperature_raw_of(msb, lsb),
        -1024 <= r <= 1023,
{
    let high: i16 = if msb >= 128 {
        msb as i16 - 256
    } else {
        msb as i16
    };
    high * 8 + (lsb / 32) as i16
}

/// Converts a raw temperature reading to eighths of a degree Celsius
/// (`raw * 0.125 + 23` degrees).
pub fn temperature_eighths(raw: i16) -> (r: i32)
    ensures
        r == raw + 184,
{
    raw as i32 + TEMPERATURE_OFFSET_EIGHTHS
}

/// Assembles the little-endian 24-bit sensor-time counter.
pub fn sensor_ticks(b0: u8, b1: u8, b2: u8) -> (r: u32)
    ensures
        r == le_u24(b0, b1, b2),
        r < 0x100_0000,
{
    b0 as u32 + 256 * b1 as u32 + 65536 * b2 as u32
}

/// Converts sensor-time ticks to microseconds, wrapping at 32 bits; no
/// 24-bit tick count wraps.
pub fn ticks_to_us(ticks: u32) -> (r: u32)
    ensures
        r == (ticks as nat * 39) % 0x1_0000_0000,
        ticks < 0x100_0000 ==> r == ticks * 39,
{
    ticks.wrapping_mul(SENSOR_TIME_US_PER_TICK)
}

} // verus!
