//! Sensor range presets.

use vstd::prelude::*;

use crate::imu::bmi160::scale::{Scale, Scaled};
use vstd::arithmetic::power2::{lemma2_to64, pow2};

verus! {

/// A type that represents a range of values with a preset scale.
pub trait Ranged: Scaled + Copy {

}

/// The range of the gyroscope.
///
/// The encoding is the bit sequence `FS_G1 FS_G0 FS_125` of the `CTRL2_G` register.
#[derive(Debug, Clone, Copy, PartialEq, Eq, Structural, PartialOrd, Ord, Hash)]
pub enum GyroRange {
    /// ± 125 degrees per second, i.e. a scale of 4.375 mdps/LSB.
    Dps125,
    /// ± 245 degrees per second, i.e. a scale of 8.75 mdps/LSB.
    ///
    /// This is the default range.
    Dps245,
    /// ± 500 degrees per second, i.e. a scale of 17.50 mdps/LSB.
    Dps500,
    /// ± 1000 degrees per second, i.e. a scale of 35 mdps/LSB.
    Dps1000,
    /// ± 2000 degrees per second, i.e. a scale of 70 mdps/LSB.
    Dps2000,
}

impl GyroRange {
    /// The register encoding of the range.
    pub open spec fn encoding(self) -> u8 {
        match self {
            GyroRange::Dps125 => 0x01,
            GyroRange::Dps245 => 0x00,
            GyroRange::Dps500 => 0x02,
            GyroRange::Dps1000 => 0x04,
            GyroRange::Dps2000 => 0x06,
        }
    }

    /// The register encoding of the range.
    pub fn code(self) -> (target_code: u8)
        ensures
            target_code == self.encoding(),
    {
        match self {
            GyroRange::Dps125 => 0x01,
            GyroRange::Dps245 => 0x00,
            GyroRange::Dps500 => 0x02,
            GyroRange::Dps1000 => 0x04,
            GyroRange::Dps2000 => 0x06,
        }
    }
}

impl Default for GyroRange {
    fn default() -> (target_range: Self)
        ensures
            target_range == GyroRange::Dps245,
    {
        GyroRange::Dps245
    }
}

impl Scaled for GyroRange {
    /// The scale in mdps/LSB as a fixed-point number with 12 fractional bits: `4.375`,
    /// `8.75`, `17.5`, `35` or `70`.
    open spec fn scale_word(&self) -> u32 {
        match self {
            GyroRange::Dps125 => 17920,
            GyroRange::Dps245 => 35840,
            GyroRange::Dps500 => 71680,
            GyroRange::Dps1000 => 143360,
            GyroRange::Dps2000 => 286720,
        }
    }

    fn scale(&self) -> (target_scale: Scale) {
        match self {
            GyroRange::Dps125 => Scale::raw(17920),
            GyroRange::Dps245 => Scale::raw(35840),
            GyroRange::Dps500 => Scale::raw(71680),
            GyroRange::Dps1000 => Scale::raw(143360),
            GyroRange::Dps2000 => Scale::raw(286720),
        }
    }
}

impl Ranged for GyroRange {

}

/// The range of the accelerometer, a multiple of `g` (9.81 m/s^2).
#[derive(Debug, Clone, Copy, PartialEq, Eq, Structural, PartialOrd, Ord, Hash)]
pub enum AccelRange {
    /// ± 2g, i.e. a scale of 0.061 mg/LSB.
    ///
    /// This is the default range.
    G2,
    /// ± 4g, i.e. a scale of 0.122 mg/LSB.
    G4,
    /// ± 8g, i.e. a scale of 0.244 mg/LSB.
    G8,
    /// ± 16g, i.e. a scale of 0.488 mg/LSB.
    G16,
}

impl AccelRange {
    /// The register encoding of the range.
    pub open spec fn encoding(self) -> u8 {
        match self {
            AccelRange::G2 => 0x00,
            AccelRange::G4 => 0x02,
            AccelRange::G8 => 0x03,
            AccelRange::G16 => 0x01,
        }
    }

    /// The register encoding of the range.
    pub fn code(self) -> (target_code: u8)
        ensures
            target_code == self.encoding(),
    {
        match self {
            AccelRange::G2 => 0x00,
            AccelRange::G4 => 0x02,
            AccelRange::G8 => 0x03,
            AccelRange::G16 => 0x01,
        }
    }
}

impl Default for AccelRange {
    fn default() -> (target_range: Self)
        ensures
            target_range == AccelRange::G2,
    {
        AccelRange::G2
    }
}

impl Scaled for AccelRange {
    /// The scale in mg/LSB as a fixed-point number with 12 fractional bits whose fraction is
    /// truncated: `0.061`, `0.122`, `0.244` or `0.488`.
    open spec fn scale_word(&self) -> u32 {
        match self {
            AccelRange::G2 => 249,
            AccelRange::G4 => 499,
            AccelRange::G8 => 999,
            AccelRange::G16 => 1998,
        }
    }

    fn scale(&self) -> (target_scale: Scale) {
        match self {
            AccelRange::G2 => Scale::raw(249),
            AccelRange::G4 => Scale::raw(499),
            AccelRange::G8 => Scale::raw(999),
            AccelRange::G16 => Scale::raw(1998),
        }
    }
}

impl Ranged for AccelRange {

}

/// The gyroscope range code is the bit sequence `FS_G1 FS_G0 FS_125` of `CTRL2_G`: `FS_125` is
/// set for the ±125 dps range alone, whose scale is half that of ±245 dps; otherwise `FS_G`
/// counts the doublings of the full scale from ±245 dps, and the scale doubles with each.
pub proof fn lemma_gyro_range_code(range: GyroRange)
    ensures
        range.encoding() < 8,
        range.encoding() % 2 == 1 <==> range is Dps125,
        range is Dps125 ==> range.encoding() == 0b001 && 2 * range.scale_word()
            == GyroRange::Dps245.scale_word(),
        !(range is Dps125) ==> range.scale_word() == GyroRange::Dps245.scale_word() * pow2(
            (range.encoding() / 2) as nat,
        ),
{
    lemma2_to64();
}

/// Distinct ranges have distinct codes, and the codes are the device's: the gyroscope's
/// `FS_G1 FS_G0 FS_125` is `000` for ±245, `001` for ±125, `010` for ±500, `100` for ±1000 and
/// `110` for ±2000 dps; the accelerometer's `FS_XL` is `00` for ±2, `01` for ±16, `10` for ±4
/// and `11` for ±8 g.
pub proof fn lemma_range_codes(
    gyro: GyroRange,
    other_gyro: GyroRange,
    accel: AccelRange,
    other_accel: AccelRange,
)
    ensures
        gyro.encoding() == other_gyro.encoding() <==> gyro == other_gyro,
        accel.encoding() == other_accel.encoding() <==> accel == other_accel,
        gyro.encoding() == match gyro {
            GyroRange::Dps245 => 0b000u8,
            GyroRange::Dps125 => 0b001u8,
            GyroRange::Dps500 => 0b010u8,
            GyroRange::Dps1000 => 0b100u8,
            GyroRange::Dps2000 => 0b110u8,
        },
        accel.encoding() == match accel {
            AccelRange::G2 => 0b00u8,
            AccelRange::G16 => 0b01u8,
            AccelRange::G4 => 0b10u8,
            AccelRange::G8 => 0b11u8,
        },
{
}

/// The scales are the device's sensitivities as fixed-point numbers with 12 fractional bits
/// (fraction truncated): 4.375, 8.75, 17.5, 35 and 70 mdps/LSB for the gyroscope ranges, and
/// 0.061, 0.122, 0.244 and 0.488 mg/LSB for the accelerometer ranges, i.e. in µg/LSB 61, 122,
/// 244 and 488.
pub proof fn lemma_range_scales(gyro: GyroRange, accel: AccelRange)
    ensures
        gyro.scale_word() * 1000 == 4096 * match gyro {
            GyroRange::Dps125 => 4375u32,
            GyroRange::Dps245 => 8750u32,
            GyroRange::Dps500 => 17500u32,
            GyroRange::Dps1000 => 35000u32,
            GyroRange::Dps2000 => 70000u32,
        },
        accel.scale_word() == (4096 * match accel {
            AccelRange::G2 => 61u32,
            AccelRange::G4 => 122u32,
            AccelRange::G8 => 244u32,
            AccelRange::G16 => 488u32,
        }) / 1000,
{
}

} // verus!
