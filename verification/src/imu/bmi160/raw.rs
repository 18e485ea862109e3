//! Representation of raw sensor data.

use vstd::prelude::*;

use crate::imu::bmi160::config::{AccelConfig, GyroConfig};
use crate::register::le_word;

verus! {

/// The signed value of two bytes in little-endian order (low byte first).
pub open spec fn le_i16(low: u8, high: u8) -> i16 {
    le_word(low, high) as i16
}

/// The low byte of a signed value in little-endian order.
pub open spec fn low_byte(target_value: i16) -> u8 {
    (target_value as u16) as u8
}

/// The high byte of a signed value in little-endian order.
pub open spec fn high_byte(target_value: i16) -> u8 {
    ((target_value as u16) >> 8u16) as u8
}

/// Decode a little-endian signed 16-bit value.
fn decode(low: u8, high: u8) -> (target_value: i16)
    ensures
        target_value == le_i16(low, high),
{
    (low as u16 | ((high as u16) << 8u16)) as i16
}

/// Encode a signed 16-bit value in little-endian order.
fn encode(target_value: i16) -> (target_bytes: (u8, u8))
    ensures
        target_bytes.0 == low_byte(target_value),
        target_bytes.1 == high_byte(target_value),
{
    let target_word = target_value as u16;
    (target_word as u8, (target_word >> 8u16) as u8)
}

/// Decoding the bytes that encode a value gives the value back.
pub proof fn lemma_decode_encode(target_value: i16)
    ensures
        le_i16(low_byte(target_value), high_byte(target_value)) == target_value,
{
    assert(((((target_value as u16) as u8) as u16 | ((((target_value as u16) >> 8u16) as u8
        as u16) << 8u16)) as u16) as i16 == target_value) by (bit_vector);
}

/// Encoding a decoded value gives the bytes back.
pub proof fn lemma_encode_decode(low: u8, high: u8)
    ensures
        low_byte(le_i16(low, high)) == low,
        high_byte(le_i16(low, high)) == high,
{
    assert((((((low as u16 | ((high as u16) << 8u16)) as u16) as i16) as u16) as u8) == low)
        by (bit_vector);
    assert((((((low as u16 | ((high as u16) << 8u16)) as u16) as i16) as u16) >> 8u16) as u8
        == high) by (bit_vector);
}

/// A new-type over an [`i16`] value, representing a discretized analog value.
#[derive(Debug, Clone, Copy, PartialEq, Eq, Structural, PartialOrd, Ord, Hash)]
pub struct Analog(i16);

impl Analog {
    /// The wrapped value.
    pub closed spec fn reading(&self) -> i16 {
        self.0
    }

    /// Wrap a raw [`i16`] value into this new-type.
    pub fn raw(raw_value: i16) -> (target_value: Self)
        ensures
            target_value.reading() == raw_value,
    {
        Analog(raw_value)
    }

    /// Unwrap the raw value from this new-type.
    pub fn unwrap(self) -> (raw_value: i16)
        ensures
            raw_value == self.reading(),
    {
        self.0
    }
}

/// The raw acceleration values reported by the sensor.
///
/// This does not necessarily represent an acceleration per se, but values the sensor can
/// directly understand (an offset, a raw converted value, ...), as long as they are
/// acceleration-related.
#[derive(Debug, Clone, Copy, PartialEq, Eq, Structural, PartialOrd, Ord, Hash)]
pub struct RawAcceleration {
    /// The X-axis acceleration as reported by the sensor.
    pub x: Analog,
    /// The Y-axis acceleration as reported by the sensor.
    pub y: Analog,
    /// The Z-axis acceleration as reported by the sensor.
    pub z: Analog,
}

impl RawAcceleration {
    /// Instantiate a new raw acceleration structure from a 3-tuple of raw sensor data.
    pub fn tuple(target_tuple: (Analog, Analog, Analog)) -> (target_value: Self)
        ensures
            target_value.x == target_tuple.0,
            target_value.y == target_tuple.1,
            target_value.z == target_tuple.2,
    {
        let (x, y, z) = target_tuple;
        RawAcceleration { x, y, z }
    }

    /// Interpret a 6-byte array, in the order sent over the wire by the sensor, as a raw
    /// acceleration structure.
    ///
    /// Each axis takes two bytes in little-endian order: X at `0x00..=0x01`, Y at `0x02..=0x03`
    /// and Z at `0x04..=0x05`.
    pub fn bytes(target_bytes: [u8; 6]) -> (target_value: Self)
        ensures
            target_value.x.reading() == le_i16(target_bytes[0], target_bytes[1]),
            target_value.y.reading() == le_i16(target_bytes[2], target_bytes[3]),
            target_value.z.reading() == le_i16(target_bytes[4], target_bytes[5]),
    {
        let x = Analog::raw(decode(target_bytes[0], target_bytes[1]));
        let y = Analog::raw(decode(target_bytes[2], target_bytes[3]));
        let z = Analog::raw(decode(target_bytes[4], target_bytes[5]));
        RawAcceleration { x, y, z }
    }

    /// Convert this structure into a 6-byte array, in the order sent over the wire by the
    /// sensor (see [`RawAcceleration::bytes`]).
    pub fn to_bytes(self) -> (target_bytes: [u8; 6])
        ensures
            target_bytes[0] == low_byte(self.x.reading()),
            target_bytes[1] == high_byte(self.x.reading()),
            target_bytes[2] == low_byte(self.y.reading()),
            target_bytes[3] == high_byte(self.y.reading()),
            target_bytes[4] == low_byte(self.z.reading()),
            target_bytes[5] == high_byte(self.z.reading()),
    {
        let (x0, x1) = encode(self.x.unwrap());
        let (y0, y1) = encode(self.y.unwrap());
        let (z0, z1) = encode(self.z.unwrap());
        [x0, x1, y0, y1, z0, z1]
    }
}

/// The raw angular velocity values reported by the sensor.
///
/// This does not necessarily represent an angular velocity per se, but values the sensor can
/// directly understand, as long as they are rotation-related.
#[derive(Debug, Clone, Copy, PartialEq, Eq, Structural, PartialOrd, Ord, Hash)]
pub struct RawGyro {
    /// The roll-axis rotation as reported by the sensor.
    pub roll: Analog,
    /// The pitch-axis rotation as reported by the sensor.
    pub pitch: Analog,
    /// The yaw-axis rotation as reported by the sensor.
    pub yaw: Analog,
}

impl RawGyro {
    /// Instantiate a new raw angular velocity structure from a 3-tuple of raw sensor data, in
    /// the order roll, pitch, yaw.
    pub fn tuple(target_tuple: (Analog, Analog, Analog)) -> (target_value: Self)
        ensures
            target_value.roll == target_tuple.0,
            target_value.pitch == target_tuple.1,
            target_value.yaw == target_tuple.2,
    {
        let (x, y, z) = target_tuple;
        RawGyro { roll: x, pitch: y, yaw: z }
    }

    /// Interpret a 6-byte array, in the order sent over the wire by the sensor, as a
    /// [`RawGyro`] structure.
    ///
    /// Each axis takes two bytes in little-endian order: roll at `0x00..=0x01`, pitch at
    /// `0x02..=0x03` and yaw at `0x04..=0x05`.
    pub fn bytes(target_bytes: [u8; 6]) -> (target_value: Self)
        ensures
            target_value.roll.reading() == le_i16(target_bytes[0], target_bytes[1]),
            target_value.pitch.reading() == le_i16(target_bytes[2], target_bytes[3]),
            target_value.yaw.reading() == le_i16(target_bytes[4], target_bytes[5]),
    {
        let x = Analog::raw(decode(target_bytes[0], target_bytes[1]));
        let y = Analog::raw(decode(target_bytes[2], target_bytes[3]));
        let z = Analog::raw(decode(target_bytes[4], target_bytes[5]));
        RawGyro { roll: x, pitch: y, yaw: z }
    }

    /// Convert this structure into a 6-byte array, in the order sent over the wire by the
    /// sensor (see [`RawGyro::bytes`]).
    pub fn to_bytes(self) -> (target_bytes: [u8; 6])
        ensures
            target_bytes[0] == low_byte(self.roll.reading()),
            target_bytes[1] == high_byte(self.roll.reading()),
            target_bytes[2] == low_byte(self.pitch.reading()),
            target_bytes[3] == high_byte(self.pitch.reading()),
            target_bytes[4] == low_byte(self.yaw.reading()),
            target_bytes[5] == high_byte(self.yaw.reading()),
    {
        let (r0, r1) = encode(self.roll.unwrap());
        let (p0, p1) = encode(self.pitch.unwrap());
        let (y0, y1) = encode(self.yaw.unwrap());
        [r0, r1, p0, p1, y0, y1]
    }
}

/// The raw temperature value reported by the sensor: a single [`Analog`] value.
#[derive(Debug, Clone, Copy, PartialEq, Eq, Structural, PartialOrd, Ord, Hash)]
pub struct Temperature(Analog);

impl Temperature {
    /// The wrapped reading.
    pub closed spec fn analog(&self) -> Analog {
        self.0
    }

    /// Instantiate a new [`Temperature`] from a raw [`Analog`] reading.
    pub fn reading(target_value: Analog) -> (target_temperature: Self)
        ensures
            target_temperature.analog() == target_value,
    {
        Temperature(target_value)
    }

    /// Interpret a 2-byte array in little-endian order as a [`Temperature`].
    pub fn bytes(target_bytes: [u8; 2]) -> (target_temperature: Self)
        ensures
            target_temperature.analog().reading() == le_i16(target_bytes[0], target_bytes[1]),
    {
        Temperature(Analog::raw(decode(target_bytes[0], target_bytes[1])))
    }

    /// Convert this [`Temperature`] into a 2-byte array in little-endian order.
    pub fn to_bytes(self) -> (target_bytes: [u8; 2])
        ensures
            target_bytes[0] == low_byte(self.analog().reading()),
            target_bytes[1] == high_byte(self.analog().reading()),
    {
        let (b0, b1) = encode(self.0.unwrap());
        [b0, b1]
    }
}

/// Decoding the wire bytes of an acceleration gives the acceleration back.
pub proof fn lemma_acceleration_roundtrip(target_value: RawAcceleration, target_bytes: [u8; 6])
    requires
        target_bytes@ == seq![
            low_byte(target_value.x.reading()),
            high_byte(target_value.x.reading()),
            low_byte(target_value.y.reading()),
            high_byte(target_value.y.reading()),
            low_byte(target_value.z.reading()),
            high_byte(target_value.z.reading()),
        ],
    ensures
        le_i16(target_bytes[0], target_bytes[1]) == target_value.x.reading(),
        le_i16(target_bytes[2], target_bytes[3]) == target_value.y.reading(),
        le_i16(target_bytes[4], target_bytes[5]) == target_value.z.reading(),
{
    lemma_decode_encode(target_value.x.reading());
    lemma_decode_encode(target_value.y.reading());
    lemma_decode_encode(target_value.z.reading());
}

/// The intended device behavior: the configuration of both sensors.
#[derive(Debug, Clone, Copy, PartialEq, Eq, Structural, Default)]
pub struct Behavior {
    /// The configuration of the accelerometer.
    pub accel_config: AccelConfig,
    /// The configuration of the gyroscope.
    pub gyro_config: GyroConfig,
}

/// An error of the raw device handle.
#[derive(Debug, Clone, Copy, PartialEq, Eq, PartialOrd, Ord, Hash)]
pub enum Error<E> {
    /// A bad address was supplied: the device cannot be communicated with.
    BadAddress,
    /// An error specific to the bus.
    I2c(E),
}

impl<E> From<E> for Error<E> {
    fn from(target_error: E) -> (wrapped_error: Self) {
        Error::I2c(target_error)
    }
}

impl<E> vstd::std_specs::convert::FromSpecImpl<E> for Error<E> {
    open spec fn obeys_from_spec() -> bool {
        true
    }

    open spec fn from_spec(target_error: E) -> Self {
        Error::I2c(target_error)
    }
}

} // verus!
