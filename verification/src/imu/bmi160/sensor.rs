//! Sensor range, rate and filter presets.

use vstd::prelude::*;

use crate::fixpoint::Fixpoint;
use crate::imu::bmi160::scale::{Scale, Scaled};
use vstd::arithmetic::power2::{lemma2_to64, pow2};

verus! {

/// A type that represents a range of values with a preset scale.
pub trait Ranged: Scaled + Copy {

}

/// The range of the gyroscope.
#[derive(Debug, Clone, Copy, PartialEq, Eq, Structural, PartialOrd, Ord, Hash)]
pub enum GyroRange {
    /// A range of `± 125 º/s`, i.e. a resolution of `262.144` LSB/º/s.
    Dps125,
    /// A range of `± 250 º/s`, i.e. a resolution of `131.072` LSB/º/s.
    Dps250,
    /// A range of `± 500 º/s`, i.e. a resolution of `65.536` LSB/º/s.
    Dps500,
    /// A range of `± 1000 º/s`, i.e. a resolution of `32.768` LSB/º/s.
    Dps1000,
    /// A range of `± 2000 º/s`, i.e. a resolution of `16.384` LSB/º/s.
    ///
    /// This is the default range.
    Dps2000,
}

impl GyroRange {
    /// The register encoding of the range.
    pub open spec fn encoding(self) -> u8 {
        match self {
            GyroRange::Dps125 => 0,
            GyroRange::Dps250 => 1,
            GyroRange::Dps500 => 2,
            GyroRange::Dps1000 => 3,
            GyroRange::Dps2000 => 4,
        }
    }

    /// The register encoding of the range.
    pub fn code(self) -> (target_code: u8)
        ensures
            target_code == self.encoding(),
    {
        match self {
            GyroRange::Dps125 => 0,
            GyroRange::Dps250 => 1,
            GyroRange::Dps500 => 2,
            GyroRange::Dps1000 => 3,
            GyroRange::Dps2000 => 4,
        }
    }
}

impl Default for GyroRange {
    fn default() -> (target_range: Self)
        ensures
            target_range == GyroRange::Dps2000,
    {
        GyroRange::Dps2000
    }
}

impl Scaled for GyroRange {
    /// The resolution in LSB/º/s, as a fixed-point number with 12 fractional bits whose
    /// fraction is truncated: `262.144`, `131.072`, `65.536`, `32.768` or `16.384`.
    open spec fn scale_word(&self) -> u32 {
        match self {
            GyroRange::Dps125 => 1073741,
            GyroRange::Dps250 => 536870,
            GyroRange::Dps500 => 268435,
            GyroRange::Dps1000 => 134217,
            GyroRange::Dps2000 => 67108,
        }
    }

    fn scale(&self) -> (target_scale: Scale) {
        match self {
            GyroRange::Dps125 => Scale::raw(1073741),
            GyroRange::Dps250 => Scale::raw(536870),
            GyroRange::Dps500 => Scale::raw(268435),
            GyroRange::Dps1000 => Scale::raw(134217),
            GyroRange::Dps2000 => Scale::raw(67108),
        }
    }
}

impl Ranged for GyroRange {

}

/// The sample data rate of the gyroscope.
#[derive(Debug, Clone, Copy, PartialEq, Eq, Structural, PartialOrd, Ord, Hash)]
pub enum GyroRate {
    /// A data rate of `25 Hz`.
    Rate25,
    /// A data rate of `50 Hz`.
    Rate50,
    /// A data rate of `100 Hz`.
    ///
    /// This is the default rate.
    Rate100,
    /// A data rate of `200 Hz`.
    Rate200,
    /// A data rate of `400 Hz`.
    Rate400,
    /// A data rate of `800 Hz`.
    Rate800,
    /// A data rate of `1600 Hz`.
    Rate1600,
    /// A data rate of `3200 Hz`.
    Rate3200,
}

impl GyroRate {
    /// The register encoding of the rate.
    pub open spec fn encoding(self) -> u8 {
        match self {
            GyroRate::Rate25 => 0b0110,
            GyroRate::Rate50 => 0b0111,
            GyroRate::Rate100 => 0b1000,
            GyroRate::Rate200 => 0b1001,
            GyroRate::Rate400 => 0b1010,
            GyroRate::Rate800 => 0b1011,
            GyroRate::Rate1600 => 0b1100,
            GyroRate::Rate3200 => 0b1101,
        }
    }

    /// The register encoding of the rate.
    pub fn code(self) -> (target_code: u8)
        ensures
            target_code == self.encoding(),
    {
        match self {
            GyroRate::Rate25 => 0b0110,
            GyroRate::Rate50 => 0b0111,
            GyroRate::Rate100 => 0b1000,
            GyroRate::Rate200 => 0b1001,
            GyroRate::Rate400 => 0b1010,
            GyroRate::Rate800 => 0b1011,
            GyroRate::Rate1600 => 0b1100,
            GyroRate::Rate3200 => 0b1101,
        }
    }
}

impl Default for GyroRate {
    fn default() -> (target_rate: Self)
        ensures
            target_rate == GyroRate::Rate100,
    {
        GyroRate::Rate100
    }
}

/// The range of the accelerometer, a multiple of `g` (9.81 m/s^2).
#[derive(Debug, Clone, Copy, PartialEq, Eq, Structural, PartialOrd, Ord, Hash)]
pub enum AccelRange {
    /// ± 2g, i.e. a scaling factor of `16384` LSB/g.
    ///
    /// This is the default value.
    G2,
    /// ± 4g, i.e. a scaling factor of `8192` LSB/g.
    G4,
    /// ± 8g, i.e. a scaling factor of `4096` LSB/g.
    G8,
    /// ± 16g, i.e. a scaling factor of `2048` LSB/g.
    G16,
}

impl AccelRange {
    /// The register encoding of the range.
    pub open spec fn encoding(self) -> u8 {
        match self {
            AccelRange::G2 => 0b0011,
            AccelRange::G4 => 0b0101,
            AccelRange::G8 => 0b1000,
            AccelRange::G16 => 0b1100,
        }
    }

    /// The register encoding of the range.
    pub fn code(self) -> (target_code: u8)
        ensures
            target_code == self.encoding(),
    {
        match self {
            AccelRange::G2 => 0b0011,
            AccelRange::G4 => 0b0101,
            AccelRange::G8 => 0b1000,
            AccelRange::G16 => 0b1100,
        }
    }

    /// The scaling factor in LSB/g.
    pub open spec fn lsb_per_g(self) -> u32 {
        match self {
            AccelRange::G2 => 16384,
            AccelRange::G4 => 8192,
            AccelRange::G8 => 4096,
            AccelRange::G16 => 2048,
        }
    }
}

impl Default for AccelRange {
    fn default() -> (target_range: Self)
        ensures
            target_range == AccelRange::G2,
    {
        AccelRange::G2
    }
}

impl Scaled for AccelRange {
    /// The scaling factor in LSB/g as a fixed-point number with 12 fractional bits.
    open spec fn scale_word(&self) -> u32 {
        (self.lsb_per_g() * 4096) as u32
    }

    fn scale(&self) -> (target_scale: Scale) {
        let lsb_per_g: u32 = match self {
            AccelRange::G2 => 16384,
            AccelRange::G4 => 8192,
            AccelRange::G8 => 4096,
            AccelRange::G16 => 2048,
        };
        let target_number = Fixpoint::<u32, 12>::scalar(lsb_per_g);
        proof {
            let w = lsb_per_g as u64;
            assert(w <= 16384 ==> (w << 12u64) & 0xffff_ffff == w * 4096) by (bit_vector);
        }
        Scale::fixed(target_number)
    }
}

impl Ranged for AccelRange {

}

/// The sample data rate of the accelerometer.
#[derive(Debug, Clone, Copy, PartialEq, Eq, Structural, PartialOrd, Ord, Hash)]
pub enum AccelRate {
    /// A data rate of `25 Hz`.
    Rate25,
    /// A data rate of `50 Hz`.
    Rate50,
    /// A data rate of `100 Hz`.
    ///
    /// This is the default rate.
    Rate100,
    /// A data rate of `200 Hz`.
    Rate200,
    /// A data rate of `400 Hz`.
    Rate400,
    /// A data rate of `800 Hz`.
    Rate800,
    /// A data rate of `1600 Hz`.
    Rate1600,
    /// A data rate of `3200 Hz`.
    Rate3200,
}

impl AccelRate {
    /// The register encoding of the rate.
    pub open spec fn encoding(self) -> u8 {
        match self {
            AccelRate::Rate25 => 0b0110,
            AccelRate::Rate50 => 0b0111,
            AccelRate::Rate100 => 0b1000,
            AccelRate::Rate200 => 0b1001,
            AccelRate::Rate400 => 0b1010,
            AccelRate::Rate800 => 0b1011,
            AccelRate::Rate1600 => 0b1100,
            AccelRate::Rate3200 => 0b1101,
        }
    }

    /// The register encoding of the rate.
    pub fn code(self) -> (target_code: u8)
        ensures
            target_code == self.encoding(),
    {
        match self {
            AccelRate::Rate25 => 0b0110,
            AccelRate::Rate50 => 0b0111,
            AccelRate::Rate100 => 0b1000,
            AccelRate::Rate200 => 0b1001,
            AccelRate::Rate400 => 0b1010,
            AccelRate::Rate800 => 0b1011,
            AccelRate::Rate1600 => 0b1100,
            AccelRate::Rate3200 => 0b1101,
        }
    }
}

impl Default for AccelRate {
    fn default() -> (target_rate: Self)
        ensures
            target_rate == AccelRate::Rate100,
    {
        AccelRate::Rate100
    }
}

/// The filter mode, shared by the accelerometer and the gyroscope.
#[derive(Debug, Clone, Copy, PartialEq, Eq, Structural, PartialOrd, Ord, Hash)]
pub enum Bandwidth {
    /// The `OSR4` filter mode.
    Osr4,
    /// The `OSR2` filter mode.
    Osr2,
    /// The normal filter mode.
    ///
    /// This is the default mode.
    Normal,
}

impl Bandwidth {
    /// The register encoding of the filter mode.
    pub open spec fn encoding(self) -> u8 {
        match self {
            Bandwidth::Osr4 => 0b000,
            Bandwidth::Osr2 => 0b001,
            Bandwidth::Normal => 0b010,
        }
    }

    /// The register encoding of the filter mode.
    pub fn code(self) -> (target_code: u8)
        ensures
            target_code == self.encoding(),
    {
        match self {
            Bandwidth::Osr4 => 0b000,
            Bandwidth::Osr2 => 0b001,
            Bandwidth::Normal => 0b010,
        }
    }
}

impl Default for Bandwidth {
    fn default() -> (target_bandwidth: Self)
        ensures
            target_bandwidth == Bandwidth::Normal,
    {
        Bandwidth::Normal
    }
}

/// A rate code `k` of either sensor stands for an output data rate of `100 / 2^(8 - k)` Hz:
/// `0b0110` for 25 Hz, and one more for each doubling up to `0b1101` for 3200 Hz.
pub proof fn lemma_rate_codes(accel: AccelRate, gyro: GyroRate)
    ensures
        6 <= accel.encoding() <= 13,
        6 <= gyro.encoding() <= 13,
        100 * pow2(accel.encoding() as nat) == 256 * match accel {
            AccelRate::Rate25 => 25nat,
            AccelRate::Rate50 => 50nat,
            AccelRate::Rate100 => 100nat,
            AccelRate::Rate200 => 200nat,
            AccelRate::Rate400 => 400nat,
            AccelRate::Rate800 => 800nat,
            AccelRate::Rate1600 => 1600nat,
            AccelRate::Rate3200 => 3200nat,
        },
        100 * pow2(gyro.encoding() as nat) == 256 * match gyro {
            GyroRate::Rate25 => 25nat,
            GyroRate::Rate50 => 50nat,
            GyroRate::Rate100 => 100nat,
            GyroRate::Rate200 => 200nat,
            GyroRate::Rate400 => 400nat,
            GyroRate::Rate800 => 800nat,
            GyroRate::Rate1600 => 1600nat,
            GyroRate::Rate3200 => 3200nat,
        },
{
    lemma2_to64();
}

/// The gyroscope range codes count the doublings of the full scale from ±125 dps (`0` for
/// ±125, up to `4` for ±2000 dps), and the resolution halves with each: `262.144 / 2^k` LSB/º/s.
pub proof fn lemma_gyro_range_code(range: GyroRange, other: GyroRange)
    ensures
        range.encoding() <= 4,
        range.encoding() == other.encoding() <==> range == other,
        125 * pow2(range.encoding() as nat) == match range {
            GyroRange::Dps125 => 125nat,
            GyroRange::Dps250 => 250nat,
            GyroRange::Dps500 => 500nat,
            GyroRange::Dps1000 => 1000nat,
            GyroRange::Dps2000 => 2000nat,
        },
        range.scale_word() == 1073741nat / pow2(range.encoding() as nat),
{
    lemma2_to64();
    assert(1073741nat / 1 == 1073741 && 1073741nat / 2 == 536870 && 1073741nat / 4 == 268435
        && 1073741nat / 8 == 134217 && 1073741nat / 16 == 67108);
}

/// The accelerometer range codes are the device's `ACC_RANGE` values: `0b0011` for ±2,
/// `0b0101` for ±4, `0b1000` for ±8 and `0b1100` for ±16 g; distinct ranges have distinct codes,
/// and the resolution times the full scale is the 16-bit half range: `lsb_per_g * g = 32768`.
pub proof fn lemma_accel_range_codes(range: AccelRange, other: AccelRange)
    ensures
        range.encoding() == other.encoding() <==> range == other,
        range.encoding() == match range {
            AccelRange::G2 => 0b0011u8,
            AccelRange::G4 => 0b0101u8,
            AccelRange::G8 => 0b1000u8,
            AccelRange::G16 => 0b1100u8,
        },
        range.lsb_per_g() * match range {
            AccelRange::G2 => 2u32,
            AccelRange::G4 => 4u32,
            AccelRange::G8 => 8u32,
            AccelRange::G16 => 16u32,
        } == 32768,
{
}

/// The filter codes are the device's `acc_bwp` / `gyr_bwp` values: `000` for OSR4, `001` for
/// OSR2 and `010` for the normal mode; distinct modes have distinct codes.
pub proof fn lemma_bandwidth_codes(bandwidth: Bandwidth, other: Bandwidth)
    ensures
        bandwidth.encoding() == other.encoding() <==> bandwidth == other,
        bandwidth.encoding() == match bandwidth {
            Bandwidth::Osr4 => 0b000u8,
            Bandwidth::Osr2 => 0b001u8,
            Bandwidth::Normal => 0b010u8,
        },
{
}

} // verus!
