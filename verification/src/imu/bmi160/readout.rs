//! Controlled readout of sensor data from the BMI160.
//!
//! The bus transfers live with the device driver; this module holds the decisions: the
//! configuration derived from the readout parameters, the register values that route the
//! data-ready interrupt, the software reset command and the decoding of the data registers.

use vstd::prelude::*;

use crate::bit::many::{field, fused};
use crate::bit::state::State;
use crate::bit::take::{HasPrimitive, with_state};
use crate::imu::bmi160::config::{AccelConfig, GyroConfig};
use crate::imu::bmi160::raw::{Error, RawAcceleration, RawGyro};
use crate::imu::bmi160::register::file::{
    AccX, AccY, AccZ, Cmd, GyroX, GyroY, GyroZ, IntMap1, IntOutCtrl,
};
use crate::imu::bmi160::sensor::{AccelRange, AccelRate, Bandwidth, GyroRange, GyroRate};
use crate::imu::lsm6ds3::interrupt::Route;
use vstd::arithmetic::power2::{lemma2_to64, pow2};

verus! {

/// The individual components of the FIFO buffer.
#[derive(Debug, Clone, Copy, PartialEq, Eq, Structural, PartialOrd, Ord, Hash)]
pub enum Components {
    /// The accelerometer component.
    Accelerometer(AccelRange),
    /// The gyroscope component.
    Gyroscope(GyroRange),
    /// Both the accelerometer and the gyroscope.
    Both(AccelRange, GyroRange),
}

/// A sensor-agnostic data rate: the sample rates shared by both sensors.
#[derive(Debug, Clone, Copy, PartialEq, Eq, Structural, PartialOrd, Ord, Hash)]
pub enum DataRate {
    /// A data rate of `25 Hz`.
    Rate25,
    /// A data rate of `50 Hz`.
    Rate50,
    /// A data rate of `100 Hz`.
    ///
    /// This is the default rate.
    Rate100,
    /// A data rate of `200 Hz`.
    Rate200,
    /// A data rate of `400 Hz`.
    Rate400,
    /// A data rate of `800 Hz`.
    Rate800,
    /// A data rate of `1600 Hz`.
    Rate1600,
}

impl DataRate {
    /// The register encoding of the rate.
    pub open spec fn encoding(self) -> u8 {
        match self {
            DataRate::Rate25 => 0b0110,
            DataRate::Rate50 => 0b0111,
            DataRate::Rate100 => 0b1000,
            DataRate::Rate200 => 0b1001,
            DataRate::Rate400 => 0b1010,
            DataRate::Rate800 => 0b1011,
            DataRate::Rate1600 => 0b1100,
        }
    }

    /// The register encoding of the rate.
    pub fn code(self) -> (target_code: u8)
        ensures
            target_code == self.encoding(),
    {
        match self {
            DataRate::Rate25 => 0b0110,
            DataRate::Rate50 => 0b0111,
            DataRate::Rate100 => 0b1000,
            DataRate::Rate200 => 0b1001,
            DataRate::Rate400 => 0b1010,
            DataRate::Rate800 => 0b1011,
            DataRate::Rate1600 => 0b1100,
        }
    }

    /// The accelerometer rate of the same frequency.
    pub fn accel_rate(self) -> (target_rate: AccelRate)
        ensures
            target_rate.encoding() == self.encoding(),
    {
        match self {
            DataRate::Rate25 => AccelRate::Rate25,
            DataRate::Rate50 => AccelRate::Rate50,
            DataRate::Rate100 => AccelRate::Rate100,
            DataRate::Rate200 => AccelRate::Rate200,
            DataRate::Rate400 => AccelRate::Rate400,
            DataRate::Rate800 => AccelRate::Rate800,
            DataRate::Rate1600 => AccelRate::Rate1600,
        }
    }

    /// The gyroscope rate of the same frequency.
    pub fn gyro_rate(self) -> (target_rate: GyroRate)
        ensures
            target_rate.encoding() == self.encoding(),
    {
        match self {
            DataRate::Rate25 => GyroRate::Rate25,
            DataRate::Rate50 => GyroRate::Rate50,
            DataRate::Rate100 => GyroRate::Rate100,
            DataRate::Rate200 => GyroRate::Rate200,
            DataRate::Rate400 => GyroRate::Rate400,
            DataRate::Rate800 => GyroRate::Rate800,
            DataRate::Rate1600 => GyroRate::Rate1600,
        }
    }
}

impl Default for DataRate {
    fn default() -> (target_rate: Self)
        ensures
            target_rate == DataRate::Rate100,
    {
        DataRate::Rate100
    }
}

/// The parameters of an interrupt-driven readout.
#[derive(Debug, Clone, Copy, PartialEq, Eq, Structural, PartialOrd, Ord, Hash)]
pub struct Params {
    /// The data rate of both sensors.
    pub data_rate: DataRate,
    /// The preset range of the accelerometer.
    pub accel_range: AccelRange,
    /// The preset range of the gyroscope.
    pub gyro_range: GyroRange,
    /// The bandwidth of the sensors.
    pub bandwidth: Bandwidth,
    /// The route used for interrupt-driven readout.
    pub interrupt_route: Route,
}

impl Params {
    /// The accelerometer configuration that the readout applies.
    pub fn accel_config(&self) -> (target_config: AccelConfig)
        ensures
            target_config.sample_rate.encoding() == self.data_rate.encoding(),
            target_config.sensor_range == self.accel_range,
            target_config.bandwidth == self.bandwidth,
    {
        AccelConfig {
            sample_rate: self.data_rate.accel_rate(),
            sensor_range: self.accel_range,
            bandwidth: self.bandwidth,
        }
    }

    /// The gyroscope configuration that the readout applies.
    pub fn gyro_config(&self) -> (target_config: GyroConfig)
        ensures
            target_config.sample_rate.encoding() == self.data_rate.encoding(),
            target_config.sensor_range == self.gyro_range,
            target_config.bandwidth == self.bandwidth,
    {
        GyroConfig {
            sample_rate: self.data_rate.gyro_rate(),
            sensor_range: self.gyro_range,
            bandwidth: self.bandwidth,
        }
    }
}

/// A data point: one acceleration and one angular velocity sample.
#[derive(Debug, Clone, Copy, PartialEq, Eq, Structural, PartialOrd, Ord, Hash)]
pub struct DataPoint(pub RawAcceleration, pub RawGyro);

/// An error of the readout handle.
#[derive(Debug, Clone, Copy, PartialEq, Eq, PartialOrd, Ord, Hash)]
pub enum ReadoutError<E, P> {
    /// An error due to a faulty interrupt vector.
    Pin(P),
    /// An error internal to a raw handle.
    Raw(Error<E>),
}

/// A data rate code `k` stands for `100 / 2^(8 - k)` Hz, the same rate for both sensors:
/// `0b0110` for 25 Hz up to `0b1100` for 1600 Hz.
pub proof fn lemma_data_rate_code(rate: DataRate)
    ensures
        6 <= rate.encoding() <= 12,
        100 * pow2(rate.encoding() as nat) == 256 * match rate {
            DataRate::Rate25 => 25nat,
            DataRate::Rate50 => 50nat,
            DataRate::Rate100 => 100nat,
            DataRate::Rate200 => 200nat,
            DataRate::Rate400 => 400nat,
            DataRate::Rate800 => 800nat,
            DataRate::Rate1600 => 1600nat,
        },
{
    lemma2_to64();
}

/// The command that resets the device's software.
pub const CMD_RESET_SOFTWARE: u8 = 0xB6;

/// The value of the command register that requests a software reset, given its current value.
pub fn reset_command(command_value: Cmd) -> (target_value: Cmd)
    ensures
        target_value.word() == fused(command_value.word(), 0, 7, CMD_RESET_SOFTWARE as u16),
        target_value.word() == CMD_RESET_SOFTWARE as u16,
{
    let target_value = command_value.command_bits().overwrite(CMD_RESET_SOFTWARE as u16).value();
    proof {
        let w = command_value.word();
        command_value.lemma_layout();
        assert(w < 0x100 ==> fused(w, 0, 7, 0xB6) == 0xB6) by (bit_vector);
    }
    target_value
}

/// The interrupt output control value that makes `INT1` an edge-triggered output, given its
/// current value.
pub fn interrupt_one_output(target_value: IntOutCtrl) -> (new_value: IntOutCtrl)
    ensures
        new_value.word() == with_state(
            with_state(target_value.word(), 0, State::Enabled),
            3,
            State::Enabled,
        ),
{
    target_value.interrupt_one_edge_triggered().enabled().interrupt_one_enable().enabled()
}

/// The interrupt output control value that makes `INT2` an edge-triggered output, given its
/// current value.
pub fn interrupt_two_output(target_value: IntOutCtrl) -> (new_value: IntOutCtrl)
    ensures
        new_value.word() == with_state(
            with_state(target_value.word(), 4, State::Enabled),
            7,
            State::Enabled,
        ),
{
    target_value.interrupt_two_edge_triggered().enabled().interrupt_two_enable().enabled()
}

/// The interrupt map value that maps the data-ready interrupt to `INT1`, given its current
/// value.
pub fn interrupt_one_data_ready(target_value: IntMap1) -> (new_value: IntMap1)
    ensures
        new_value.word() == with_state(target_value.word(), 7, State::Enabled),
{
    target_value.interrupt_one_data_ready().enabled()
}

/// The interrupt map value that maps the data-ready interrupt to `INT2`, given its current
/// value.
pub fn interrupt_two_data_ready(target_value: IntMap1) -> (new_value: IntMap1)
    ensures
        new_value.word() == with_state(target_value.word(), 3, State::Enabled),
{
    target_value.interrupt_two_data_ready().enabled()
}

/// The reading of a data register: its 16-bit word as a signed value.
pub open spec fn register_reading(target_word: u16) -> i16 {
    target_word as i16
}

/// The two bytes of a data register in wire order: low byte, then high byte.
fn register_bytes(low: u16, high: u16) -> (target_bytes: (u8, u8))
    requires
        low < 0x100,
        high < 0x100,
    ensures
        target_bytes.0 == low,
        target_bytes.1 == high,
{
    (low as u8, high as u8)
}

impl DataPoint {
    /// Decode the six data registers into a data point.
    ///
    /// Each register's low byte (bits `0..=7`) and high byte (bits `8..=15`) form the
    /// little-endian signed reading of the axis.
    pub fn registers(
        a_x: AccX,
        a_y: AccY,
        a_z: AccZ,
        g_x: GyroX,
        g_y: GyroY,
        g_z: GyroZ,
    ) -> (target_point: DataPoint)
        ensures
            target_point.0.x.reading() == register_reading(a_x.word()),
            target_point.0.y.reading() == register_reading(a_y.word()),
            target_point.0.z.reading() == register_reading(a_z.word()),
            target_point.1.roll.reading() == register_reading(g_x.word()),
            target_point.1.pitch.reading() == register_reading(g_y.word()),
            target_point.1.yaw.reading() == register_reading(g_z.word()),
    {
        proof {
            lemma_bytes_rebuild(a_x.word());
            lemma_bytes_rebuild(a_y.word());
            lemma_bytes_rebuild(a_z.word());
            lemma_bytes_rebuild(g_x.word());
            lemma_bytes_rebuild(g_y.word());
            lemma_bytes_rebuild(g_z.word());
        }
        let (a0, a1) = register_bytes(a_x.low().output(), a_x.high().output());
        let (a2, a3) = register_bytes(a_y.low().output(), a_y.high().output());
        let (a4, a5) = register_bytes(a_z.low().output(), a_z.high().output());
        let raw_accel = RawAcceleration::bytes([a0, a1, a2, a3, a4, a5]);
        let (g0, g1) = register_bytes(g_x.low().output(), g_x.high().output());
        let (g2, g3) = register_bytes(g_y.low().output(), g_y.high().output());
        let (g4, g5) = register_bytes(g_z.low().output(), g_z.high().output());
        let raw_gyro = RawGyro::bytes([g0, g1, g2, g3, g4, g5]);
        DataPoint(raw_accel, raw_gyro)
    }
}

/// The low and high bytes of a word put back together in little-endian order give the word.
pub proof fn lemma_bytes_rebuild(target_word: u16)
    ensures
        field(target_word, 0, 7) < 0x100,
        field(target_word, 8, 15) < 0x100,
        crate::imu::bmi160::raw::le_i16(
            field(target_word, 0, 7) as u8,
            field(target_word, 8, 15) as u8,
        ) == register_reading(target_word),
{
    assert(field(target_word, 0, 7) < 0x100) by (bit_vector);
    assert(field(target_word, 8, 15) < 0x100) by (bit_vector);
    assert(((field(target_word, 0, 7) as u8) as u16 | (((field(target_word, 8, 15) as u8)
        as u16) << 8u16)) as u16 == target_word) by (bit_vector);
}

} // verus!
