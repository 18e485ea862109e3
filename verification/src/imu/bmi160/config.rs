//! Device configuration.

use vstd::prelude::*;

use crate::bit::many::{field, fused, lemma_field_after_disjoint_fuse, lemma_read_back, low_mask, span};
use crate::bit::take::HasPrimitive;
use crate::imu::bmi160::register::file::{AccConf, AccRange, GyroConf, GyroRange as GyroRangeRegister};
use crate::imu::bmi160::sensor::{
    lemma_accel_range_codes, lemma_bandwidth_codes, lemma_gyro_range_code, lemma_rate_codes,
    AccelRange, AccelRate, Bandwidth, GyroRange, GyroRate,
};
use vstd::arithmetic::power2::pow2;

verus! {

/// The accelerometer configuration.
#[derive(Debug, Clone, Copy, PartialEq, Eq, Structural, PartialOrd, Ord)]
pub struct AccelConfig {
    /// The data sample rate of the accelerometer.
    pub sample_rate: AccelRate,
    /// The range of the accelerometer.
    pub sensor_range: AccelRange,
    /// The bandwidth and filter parameters of the accelerometer.
    pub bandwidth: Bandwidth,
}

impl Default for AccelConfig {
    fn default() -> (target_config: Self)
        ensures
            target_config.sample_rate == AccelRate::Rate100,
            target_config.sensor_range == AccelRange::G2,
            target_config.bandwidth == Bandwidth::Normal,
    {
        AccelConfig {
            sample_rate: AccelRate::Rate100,
            sensor_range: AccelRange::G2,
            bandwidth: Bandwidth::Normal,
        }
    }
}

impl AccelConfig {
    /// The new values of the accelerometer configuration and range registers that apply this
    /// configuration, given their current values.
    ///
    /// The configuration register gets the bandwidth mode in bits `4..=6` and the data rate in
    /// bits `0..=3`; the range register gets the range in bits `0..=3`. Every other bit keeps
    /// its current value.
    pub fn registers(&self, acc_conf: AccConf, acc_range: AccRange) -> (target_registers: (
        AccConf,
        AccRange,
    ))
        ensures
            target_registers.0.word() == fused(
                fused(acc_conf.word(), 4, 6, self.bandwidth.encoding() as u16),
                0,
                3,
                self.sample_rate.encoding() as u16,
            ),
            target_registers.1.word() == fused(
                acc_range.word(),
                0,
                3,
                self.sensor_range.encoding() as u16,
            ),
    {
        let target_conf = acc_conf.bandwidth_mode().overwrite(self.bandwidth.code() as u16).value()
            .data_rate().overwrite(self.sample_rate.code() as u16).value();
        let target_range = acc_range.sensor_range().overwrite(self.sensor_range.code() as u16).value();
        (target_conf, target_range)
    }
}

/// The gyroscope configuration.
#[derive(Debug, Clone, Copy, PartialEq, Eq, Structural, PartialOrd, Ord)]
pub struct GyroConfig {
    /// The data sample rate of the gyroscope.
    pub sample_rate: GyroRate,
    /// The range of the gyroscope.
    pub sensor_range: GyroRange,
    /// The bandwidth and filter parameters of the gyroscope.
    pub bandwidth: Bandwidth,
}

impl Default for GyroConfig {
    fn default() -> (target_config: Self)
        ensures
            target_config.sample_rate == GyroRate::Rate100,
            target_config.sensor_range == GyroRange::Dps2000,
            target_config.bandwidth == Bandwidth::Normal,
    {
        GyroConfig {
            sample_rate: GyroRate::Rate100,
            sensor_range: GyroRange::Dps2000,
            bandwidth: Bandwidth::Normal,
        }
    }
}

impl GyroConfig {
    /// The new values of the gyroscope configuration and range registers that apply this
    /// configuration, given their current values.
    ///
    /// The configuration register gets the bandwidth mode in bits `4..=5` and the data rate in
    /// bits `0..=3`; the range register gets the range in bits `0..=2`. Every other bit keeps
    /// its current value.
    pub fn registers(&self, gyro_conf: GyroConf, gyro_range: GyroRangeRegister) -> (target_registers: (
        GyroConf,
        GyroRangeRegister,
    ))
        ensures
            target_registers.0.word() == fused(
                fused(gyro_conf.word(), 4, 5, self.bandwidth.encoding() as u16),
                0,
                3,
                self.sample_rate.encoding() as u16,
            ),
            target_registers.1.word() == fused(
                gyro_range.word(),
                0,
                2,
                self.sensor_range.encoding() as u16,
            ),
    {
        let target_conf = gyro_conf.bandwidth_mode().overwrite(self.bandwidth.code() as u16).value()
            .data_rate().overwrite(self.sample_rate.code() as u16).value();
        let target_range = gyro_range.sensor_range().overwrite(self.sensor_range.code() as u16).value();
        (target_conf, target_range)
    }
}

/// Applying an accelerometer configuration to its registers and reading the fields back gives
/// the configuration's encodings.
pub proof fn lemma_accel_read_back(config: AccelConfig, acc_conf_word: u16, acc_range_word: u16)
    ensures
        ({
            let conf_word = fused(
                fused(acc_conf_word, 4, 6, config.bandwidth.encoding() as u16),
                0,
                3,
                config.sample_rate.encoding() as u16,
            );
            &&& field(conf_word, 0, 3) == config.sample_rate.encoding()
            &&& field(conf_word, 4, 6) == config.bandwidth.encoding()
            &&& field(fused(acc_range_word, 0, 3, config.sensor_range.encoding() as u16), 0, 3)
                == config.sensor_range.encoding()
        }),
{
    assert(low_mask(span(0, 3)) == 15) by (bit_vector);
    assert(low_mask(span(4, 6)) == 7) by (bit_vector);
    let inner = fused(acc_conf_word, 4, 6, config.bandwidth.encoding() as u16);
    lemma_read_back(acc_conf_word, 4, 6, config.bandwidth.encoding() as u16);
    lemma_read_back(inner, 0, 3, config.sample_rate.encoding() as u16);
    lemma_field_after_disjoint_fuse(inner, 0, 3, config.sample_rate.encoding() as u16, 4, 6);
    lemma_read_back(acc_range_word, 0, 3, config.sensor_range.encoding() as u16);
}

/// Applying a gyroscope configuration to its registers and reading the fields back gives the
/// configuration's encodings.
pub proof fn lemma_gyro_read_back(config: GyroConfig, gyro_conf_word: u16, gyro_range_word: u16)
    ensures
        ({
            let conf_word = fused(
                fused(gyro_conf_word, 4, 5, config.bandwidth.encoding() as u16),
                0,
                3,
                config.sample_rate.encoding() as u16,
            );
            &&& field(conf_word, 0, 3) == config.sample_rate.encoding()
            &&& field(conf_word, 4, 5) == config.bandwidth.encoding()
            &&& field(fused(gyro_range_word, 0, 2, config.sensor_range.encoding() as u16), 0, 2)
                == config.sensor_range.encoding()
        }),
{
    assert(low_mask(span(0, 3)) == 15) by (bit_vector);
    assert(low_mask(span(4, 5)) == 3) by (bit_vector);
    assert(low_mask(span(0, 2)) == 7) by (bit_vector);
    let inner = fused(gyro_conf_word, 4, 5, config.bandwidth.encoding() as u16);
    lemma_read_back(gyro_conf_word, 4, 5, config.bandwidth.encoding() as u16);
    lemma_read_back(inner, 0, 3, config.sample_rate.encoding() as u16);
    lemma_field_after_disjoint_fuse(inner, 0, 3, config.sample_rate.encoding() as u16, 4, 5);
    lemma_read_back(gyro_range_word, 0, 2, config.sensor_range.encoding() as u16);
}

/// The configuration fields written to the four configuration registers hold the device's
/// codes, whatever the registers held before:
///  - the rate fields (`ACC_CONF` / `GYR_CONF` bits `0..=3`) hold `k` for `100 / 2^(8 - k)` Hz;
///  - the filter fields (`ACC_CONF` bits `4..=6`, `GYR_CONF` bits `4..=5`) hold `000` for
///    OSR4, `001` for OSR2 and `010` for the normal mode;
///  - `ACC_RANGE` bits `0..=3` hold `0b0011` for ±2, `0b0101` for ±4, `0b1000` for ±8 and
///    `0b1100` for ±16 g;
///  - `GYR_RANGE` bits `0..=2` hold `k` for a full scale of `125 * 2^k` dps.
pub proof fn lemma_config_fields_are_device_codes(
    accel: AccelConfig,
    gyro: GyroConfig,
    acc_conf_word: u16,
    acc_range_word: u16,
    gyro_conf_word: u16,
    gyro_range_word: u16,
)
    ensures
        ({
            let acc_conf = fused(
                fused(acc_conf_word, 4, 6, accel.bandwidth.encoding() as u16),
                0,
                3,
                accel.sample_rate.encoding() as u16,
            );
            let acc_range = fused(acc_range_word, 0, 3, accel.sensor_range.encoding() as u16);
            let gyro_conf = fused(
                fused(gyro_conf_word, 4, 5, gyro.bandwidth.encoding() as u16),
                0,
                3,
                gyro.sample_rate.encoding() as u16,
            );
            let gyro_range = fused(gyro_range_word, 0, 2, gyro.sensor_range.encoding() as u16);
            &&& 100 * pow2(field(acc_conf, 0, 3) as nat) == 256 * match accel.sample_rate {
                AccelRate::Rate25 => 25nat,
                AccelRate::Rate50 => 50nat,
                AccelRate::Rate100 => 100nat,
                AccelRate::Rate200 => 200nat,
                AccelRate::Rate400 => 400nat,
                AccelRate::Rate800 => 800nat,
                AccelRate::Rate1600 => 1600nat,
                AccelRate::Rate3200 => 3200nat,
            }
            &&& 100 * pow2(field(gyro_conf, 0, 3) as nat) == 256 * match gyro.sample_rate {
                GyroRate::Rate25 => 25nat,
                GyroRate::Rate50 => 50nat,
                GyroRate::Rate100 => 100nat,
                GyroRate::Rate200 => 200nat,
                GyroRate::Rate400 => 400nat,
                GyroRate::Rate800 => 800nat,
                GyroRate::Rate1600 => 1600nat,
                GyroRate::Rate3200 => 3200nat,
            }
            &&& field(acc_conf, 4, 6) == match accel.bandwidth {
                Bandwidth::Osr4 => 0b000u16,
                Bandwidth::Osr2 => 0b001u16,
                Bandwidth::Normal => 0b010u16,
            }
            &&& field(gyro_conf, 4, 5) == match gyro.bandwidth {
                Bandwidth::Osr4 => 0b000u16,
                Bandwidth::Osr2 => 0b001u16,
                Bandwidth::Normal => 0b010u16,
            }
            &&& field(acc_range, 0, 3) == match accel.sensor_range {
                AccelRange::G2 => 0b0011u16,
                AccelRange::G4 => 0b0101u16,
                AccelRange::G8 => 0b1000u16,
                AccelRange::G16 => 0b1100u16,
            }
            &&& 125 * pow2(field(gyro_range, 0, 2) as nat) == match gyro.sensor_range {
                GyroRange::Dps125 => 125nat,
                GyroRange::Dps250 => 250nat,
                GyroRange::Dps500 => 500nat,
                GyroRange::Dps1000 => 1000nat,
                GyroRange::Dps2000 => 2000nat,
            }
        }),
{
    lemma_accel_read_back(accel, acc_conf_word, acc_range_word);
    lemma_gyro_read_back(gyro, gyro_conf_word, gyro_range_word);
    lemma_rate_codes(accel.sample_rate, gyro.sample_rate);
    lemma_gyro_range_code(gyro.sensor_range, gyro.sensor_range);
    lemma_accel_range_codes(accel.sensor_range, accel.sensor_range);
    lemma_bandwidth_codes(accel.bandwidth, gyro.bandwidth);
    lemma_bandwidth_codes(gyro.bandwidth, accel.bandwidth);
}

} // verus!
