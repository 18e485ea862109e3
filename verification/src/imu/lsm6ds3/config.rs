//! Device configuration.
//!
//! The bus transfers live with the device driver; this module holds the configurations and the
//! register values that apply them.

use vstd::prelude::*;

use crate::bit::many::{field, fused, lemma_field_after_disjoint_fuse, lemma_read_back, low_mask, span};
use crate::bit::take::HasPrimitive;
use crate::imu::lsm6ds3::range::{AccelRange, GyroRange, Ranged};
use crate::imu::lsm6ds3::register::file::{Ctrl1Xl, Ctrl2G};

verus! {

/// A data rate, shared by the gyroscope, the accelerometer and the FIFO buffer.
#[derive(Debug, Clone, Copy, PartialEq, Eq, Structural, PartialOrd, Ord, Hash)]
pub enum DataRate {
    /// A `12.5 Hz` sample rate.
    Rate12_5,
    /// A `26 Hz` sample rate.
    Rate26,
    /// A `52 Hz` sample rate.
    ///
    /// This is the default data rate.
    Rate52,
    /// A `104 Hz` sample rate.
    Rate104,
    /// A `208 Hz` sample rate.
    Rate208,
    /// A `416 Hz` sample rate.
    Rate416,
    /// A `833 Hz` sample rate.
    Rate833,
    /// A `1.66 kHz` sample rate.
    Rate1_66k,
    /// A `3.33 kHz` sample rate.
    Rate3_33k,
    /// A `6.66 kHz` sample rate.
    Rate6_66k,
}

impl DataRate {
    /// The register encoding of the rate.
    pub open spec fn encoding(self) -> u8 {
        match self {
            DataRate::Rate12_5 => 0b0001,
            DataRate::Rate26 => 0b0010,
            DataRate::Rate52 => 0b0011,
            DataRate::Rate104 => 0b0100,
            DataRate::Rate208 => 0b0101,
            DataRate::Rate416 => 0b0110,
            DataRate::Rate833 => 0b0111,
            DataRate::Rate1_66k => 0b1000,
            DataRate::Rate3_33k => 0b1001,
            DataRate::Rate6_66k => 0b1010,
        }
    }

    /// The register encoding of the rate.
    pub fn code(self) -> (target_code: u8)
        ensures
            target_code == self.encoding(),
    {
        match self {
            DataRate::Rate12_5 => 0b0001,
            DataRate::Rate26 => 0b0010,
            DataRate::Rate52 => 0b0011,
            DataRate::Rate104 => 0b0100,
            DataRate::Rate208 => 0b0101,
            DataRate::Rate416 => 0b0110,
            DataRate::Rate833 => 0b0111,
            DataRate::Rate1_66k => 0b1000,
            DataRate::Rate3_33k => 0b1001,
            DataRate::Rate6_66k => 0b1010,
        }
    }
}

impl Default for DataRate {
    fn default() -> (target_rate: Self)
        ensures
            target_rate == DataRate::Rate52,
    {
        DataRate::Rate52
    }
}

/// A component configuration: an operational range and a data rate.
///
/// This applies to both the gyroscope and the accelerometer.
#[derive(Debug, Clone, Copy, PartialEq, Eq, Structural, PartialOrd, Ord, Hash)]
pub struct Config<R> {
    /// The target operational range.
    target_range: R,
    /// The data rate of the device.
    target_rate: DataRate,
}

impl<R: Ranged> Config<R> {
    /// The operational range.
    pub closed spec fn range_of(&self) -> R {
        self.target_range
    }

    /// The data rate.
    pub closed spec fn rate_of(&self) -> DataRate {
        self.target_rate
    }

    /// Construct a new [`Config`] from a 2-tuple of the range and the data rate.
    pub fn tuple(target_tuple: (R, DataRate)) -> (target_config: Self)
        ensures
            target_config.range_of() == target_tuple.0,
            target_config.rate_of() == target_tuple.1,
    {
        let (target_range, target_rate) = target_tuple;
        Config { target_range, target_rate }
    }

    /// Deconstruct this [`Config`] into the 2-tuple of its range and data rate.
    pub fn parts(self) -> (target_tuple: (R, DataRate))
        ensures
            target_tuple.0 == self.range_of(),
            target_tuple.1 == self.rate_of(),
    {
        (self.target_range, self.target_rate)
    }

    /// Determine the operational range.
    pub fn range(&self) -> (target_range: R)
        ensures
            target_range == self.range_of(),
    {
        self.target_range
    }

    /// Determine the data rate.
    pub fn data_rate(&self) -> (target_rate: DataRate)
        ensures
            target_rate == self.rate_of(),
    {
        self.target_rate
    }
}

/// The accelerometer configuration.
#[derive(Debug, Clone, Copy, PartialEq, Eq, Structural, PartialOrd, Ord)]
pub struct AccelConfig(Config<AccelRange>);

impl AccelConfig {
    /// The wrapped configuration.
    pub closed spec fn config_of(&self) -> Config<AccelRange> {
        self.0
    }

    /// Create a new [`AccelConfig`] from its raw [`Config`] value.
    pub fn raw(config: Config<AccelRange>) -> (target_config: Self)
        ensures
            target_config.config_of() == config,
    {
        AccelConfig(config)
    }

    /// The wrapped configuration.
    pub fn config(&self) -> (config: &Config<AccelRange>)
        ensures
            *config == self.config_of(),
    {
        &self.0
    }

    /// The new value of the `CTRL1_XL` register that applies this configuration, given its
    /// current value: the range goes in bits `2..=3` and the data rate in bits `4..=7`, every
    /// other bit keeps its value.
    pub fn registers(&self, target_value: Ctrl1Xl) -> (new_value: Ctrl1Xl)
        ensures
            new_value.word() == fused(
                fused(target_value.word(), 2, 3, self.config_of().range_of().encoding() as u16),
                4,
                7,
                self.config_of().rate_of().encoding() as u16,
            ),
    {
        let (target_range, target_rate) = self.0.parts();
        target_value.fs_xl().overwrite(target_range.code() as u16).value().odr_xl().overwrite(
            target_rate.code() as u16,
        ).value()
    }

    /// The new value of the `CTRL1_XL` register that powers the accelerometer down, given its
    /// current value: the default range code and a data rate code of `0`.
    pub fn disabled(target_value: Ctrl1Xl) -> (new_value: Ctrl1Xl)
        ensures
            new_value.word() == fused(
                fused(target_value.word(), 2, 3, AccelRange::G2.encoding() as u16),
                4,
                7,
                0,
            ),
    {
        target_value.fs_xl().overwrite(AccelRange::G2.code() as u16).value().odr_xl().overwrite(
            0b000,
        ).value()
    }
}

impl Default for AccelConfig {
    fn default() -> (target_config: Self)
        ensures
            target_config.config_of().range_of() == AccelRange::G2,
            target_config.config_of().rate_of() == DataRate::Rate52,
    {
        AccelConfig(Config::tuple((AccelRange::G2, DataRate::Rate52)))
    }
}

/// The gyroscope configuration.
#[derive(Debug, Clone, Copy, PartialEq, Eq, Structural, PartialOrd, Ord)]
pub struct GyroConfig(Config<GyroRange>);

impl GyroConfig {
    /// The wrapped configuration.
    pub closed spec fn config_of(&self) -> Config<GyroRange> {
        self.0
    }

    /// Create a new [`GyroConfig`] from its raw [`Config`] value.
    pub fn raw(config: Config<GyroRange>) -> (target_config: Self)
        ensures
            target_config.config_of() == config,
    {
        GyroConfig(config)
    }

    /// The wrapped configuration.
    pub fn config(&self) -> (config: &Config<GyroRange>)
        ensures
            *config == self.config_of(),
    {
        &self.0
    }

    /// The new value of the `CTRL2_G` register that applies this configuration, given its
    /// current value: the range goes in bits `1..=3` and the data rate in bits `4..=7`, every
    /// other bit keeps its value.
    pub fn registers(&self, target_value: Ctrl2G) -> (new_value: Ctrl2G)
        ensures
            new_value.word() == fused(
                fused(target_value.word(), 1, 3, self.config_of().range_of().encoding() as u16),
                4,
                7,
                self.config_of().rate_of().encoding() as u16,
            ),
    {
        let (target_range, target_rate) = self.0.parts();
        target_value.fs_125_g().overwrite(target_range.code() as u16).value().odr_g().overwrite(
            target_rate.code() as u16,
        ).value()
    }

    /// The new value of the `CTRL2_G` register that powers the gyroscope down, given its
    /// current value: the default range code and a data rate code of `0`.
    pub fn disabled(target_value: Ctrl2G) -> (new_value: Ctrl2G)
        ensures
            new_value.word() == fused(
                fused(target_value.word(), 1, 3, GyroRange::Dps245.encoding() as u16),
                4,
                7,
                0,
            ),
    {
        target_value.fs_125_g().overwrite(GyroRange::Dps245.code() as u16).value().odr_g().overwrite(
            0b000,
        ).value()
    }
}

impl Default for GyroConfig {
    fn default() -> (target_config: Self)
        ensures
            target_config.config_of().range_of() == GyroRange::Dps245,
            target_config.config_of().rate_of() == DataRate::Rate52,
    {
        GyroConfig(Config::tuple((GyroRange::Dps245, DataRate::Rate52)))
    }
}

/// Applying an accelerometer configuration to `CTRL1_XL` and reading the fields back gives the
/// configuration's encodings.
pub proof fn lemma_accel_read_back(config: AccelConfig, ctrl_word: u16)
    ensures
        ({
            let new_word = fused(
                fused(ctrl_word, 2, 3, config.config_of().range_of().encoding() as u16),
                4,
                7,
                config.config_of().rate_of().encoding() as u16,
            );
            &&& field(new_word, 2, 3) == config.config_of().range_of().encoding()
            &&& field(new_word, 4, 7) == config.config_of().rate_of().encoding()
        }),
{
    assert(low_mask(span(2, 3)) == 3) by (bit_vector);
    assert(low_mask(span(4, 7)) == 15) by (bit_vector);
    let range_code = config.config_of().range_of().encoding() as u16;
    let rate_code = config.config_of().rate_of().encoding() as u16;
    let inner = fused(ctrl_word, 2, 3, range_code);
    lemma_read_back(ctrl_word, 2, 3, range_code);
    lemma_read_back(inner, 4, 7, rate_code);
    lemma_field_after_disjoint_fuse(inner, 4, 7, rate_code, 2, 3);
}

/// Applying a gyroscope configuration to `CTRL2_G` and reading the fields back gives the
/// configuration's encodings.
pub proof fn lemma_gyro_read_back(config: GyroConfig, ctrl_word: u16)
    ensures
        ({
            let new_word = fused(
                fused(ctrl_word, 1, 3, config.config_of().range_of().encoding() as u16),
                4,
                7,
                config.config_of().rate_of().encoding() as u16,
            );
            &&& field(new_word, 1, 3) == config.config_of().range_of().encoding()
            &&& field(new_word, 4, 7) == config.config_of().rate_of().encoding()
        }),
{
    assert(low_mask(span(1, 3)) == 7) by (bit_vector);
    assert(low_mask(span(4, 7)) == 15) by (bit_vector);
    let range_code = config.config_of().range_of().encoding() as u16;
    let rate_code = config.config_of().rate_of().encoding() as u16;
    let inner = fused(ctrl_word, 1, 3, range_code);
    lemma_read_back(ctrl_word, 1, 3, range_code);
    lemma_read_back(inner, 4, 7, rate_code);
    lemma_field_after_disjoint_fuse(inner, 4, 7, rate_code, 1, 3);
}

/// The configuration fields written to `CTRL1_XL` and `CTRL2_G` hold the device's codes,
/// whatever the registers held before:
///  - `ODR_XL` / `ODR_G` (bits `4..=7`): `0001` for 12.5 Hz, `0010` for 26 Hz, and so on up to
///    `1010` for 6.66 kHz;
///  - `FS_XL` (`CTRL1_XL` bits `2..=3`): `00` for ±2, `01` for ±16, `10` for ±4, `11` for ±8 g;
///  - `FS_G1 FS_G0 FS_125` (`CTRL2_G` bits `1..=3`): `000` for ±245, `001` for ±125, `010` for
///    ±500, `100` for ±1000, `110` for ±2000 dps.
pub proof fn lemma_config_fields_are_device_codes(
    accel: AccelConfig,
    gyro: GyroConfig,
    ctrl1_word: u16,
    ctrl2_word: u16,
)
    ensures
        ({
            let ctrl1 = fused(
                fused(ctrl1_word, 2, 3, accel.config_of().range_of().encoding() as u16),
                4,
                7,
                accel.config_of().rate_of().encoding() as u16,
            );
            let ctrl2 = fused(
                fused(ctrl2_word, 1, 3, gyro.config_of().range_of().encoding() as u16),
                4,
                7,
                gyro.config_of().rate_of().encoding() as u16,
            );
            &&& field(ctrl1, 4, 7) == match accel.config_of().rate_of() {
                DataRate::Rate12_5 => 0b0001u16,
                DataRate::Rate26 => 0b0010u16,
                DataRate::Rate52 => 0b0011u16,
                DataRate::Rate104 => 0b0100u16,
                DataRate::Rate208 => 0b0101u16,
                DataRate::Rate416 => 0b0110u16,
                DataRate::Rate833 => 0b0111u16,
                DataRate::Rate1_66k => 0b1000u16,
                DataRate::Rate3_33k => 0b1001u16,
                DataRate::Rate6_66k => 0b1010u16,
            }
            &&& field(ctrl2, 4, 7) == match gyro.config_of().rate_of() {
                DataRate::Rate12_5 => 0b0001u16,
                DataRate::Rate26 => 0b0010u16,
                DataRate::Rate52 => 0b0011u16,
                DataRate::Rate104 => 0b0100u16,
                DataRate::Rate208 => 0b0101u16,
                DataRate::Rate416 => 0b0110u16,
                DataRate::Rate833 => 0b0111u16,
                DataRate::Rate1_66k => 0b1000u16,
                DataRate::Rate3_33k => 0b1001u16,
                DataRate::Rate6_66k => 0b1010u16,
            }
            &&& field(ctrl1, 2, 3) == match accel.config_of().range_of() {
                AccelRange::G2 => 0b00u16,
                AccelRange::G16 => 0b01u16,
                AccelRange::G4 => 0b10u16,
                AccelRange::G8 => 0b11u16,
            }
            &&& field(ctrl2, 1, 3) == match gyro.config_of().range_of() {
                GyroRange::Dps245 => 0b000u16,
                GyroRange::Dps125 => 0b001u16,
                GyroRange::Dps500 => 0b010u16,
                GyroRange::Dps1000 => 0b100u16,
                GyroRange::Dps2000 => 0b110u16,
            }
        }),
{
    lemma_accel_read_back(accel, ctrl1_word);
    lemma_gyro_read_back(gyro, ctrl2_word);
}

/// Distinct data rates have distinct codes, each of them non-zero (a zero rate powers the
/// sensor down).
pub proof fn lemma_rate_codes_distinct(rate: DataRate, other_rate: DataRate)
    ensures
        rate.encoding() == other_rate.encoding() <==> rate == other_rate,
        1 <= rate.encoding() < 16,
{
}

} // verus!
