//! Controlled readout of sensor data from the LSM6DS3.
//!
//! The bus transfers live with the device driver; this module holds the decisions: the
//! configurations derived from the readout parameters, the register values that route the
//! data-ready interrupts and the decoding of the data registers.

use vstd::prelude::*;

use crate::bit::state::State;
use crate::bit::take::{HasPrimitive, with_state};
use crate::imu::bmi160::raw::{Error, RawAcceleration, RawGyro};
use crate::imu::bmi160::readout::{lemma_bytes_rebuild, register_reading};
use crate::imu::lsm6ds3::config::{AccelConfig, Config, DataRate, GyroConfig};
use crate::imu::lsm6ds3::interrupt::Route;
use crate::imu::lsm6ds3::range::{AccelRange, GyroRange};
use crate::imu::lsm6ds3::register::file::{
    Int1Ctrl, Int2Ctrl, OutXG, OutXL, OutYG, OutYL, OutZG, OutZL,
};

verus! {

/// The individual components of the FIFO buffer.
#[derive(Debug, Clone, Copy, PartialEq, Eq, Structural, PartialOrd, Ord, Hash)]
pub enum Components {
    /// The accelerometer component.
    Accelerometer(AccelRange),
    /// The gyroscope component.
    Gyroscope(GyroRange),
    /// Both the accelerometer and the gyroscope.
    Both(AccelRange, GyroRange),
}

/// The parameters of an interrupt-driven readout.
#[derive(Debug, Clone, Copy, PartialEq, Eq, Structural, PartialOrd, Ord, Hash)]
pub struct Params {
    /// The data rate of both sensors.
    pub data_rate: DataRate,
    /// The preset range of the accelerometer.
    pub accel_range: AccelRange,
    /// The preset range of the gyroscope.
    pub gyro_range: GyroRange,
    /// The route used for interrupt-driven readout.
    pub interrupt_route: Route,
}

impl Params {
    /// The accelerometer configuration that the readout applies.
    pub fn accel_config(&self) -> (target_config: AccelConfig)
        ensures
            target_config.config_of().range_of() == self.accel_range,
            target_config.config_of().rate_of() == self.data_rate,
    {
        AccelConfig::raw(Config::tuple((self.accel_range, self.data_rate)))
    }

    /// The gyroscope configuration that the readout applies.
    pub fn gyro_config(&self) -> (target_config: GyroConfig)
        ensures
            target_config.config_of().range_of() == self.gyro_range,
            target_config.config_of().rate_of() == self.data_rate,
    {
        GyroConfig::raw(Config::tuple((self.gyro_range, self.data_rate)))
    }
}

/// A data point: one acceleration and one angular velocity sample.
#[derive(Debug, Clone, Copy, PartialEq, Eq, Structural, PartialOrd, Ord, Hash)]
pub struct DataPoint(pub RawAcceleration, pub RawGyro);

/// An error of the readout handle.
#[derive(Debug, Clone, Copy, PartialEq, Eq, PartialOrd, Ord, Hash)]
pub enum ReadoutError<E, P> {
    /// An error due to a faulty interrupt vector.
    Pin(P),
    /// An error internal to a raw handle.
    Raw(Error<E>),
}

/// The value of `INT1_CTRL` that routes both data-ready signals to `INT1`, given its current
/// value.
pub fn interrupt_one_data_ready(target_value: Int1Ctrl) -> (new_value: Int1Ctrl)
    ensures
        new_value.word() == with_state(
            with_state(target_value.word(), 0, State::Enabled),
            1,
            State::Enabled,
        ),
{
    target_value.int1_drdy_xl().enabled().int1_drdy_g().enabled()
}

/// The value of `INT2_CTRL` that routes both data-ready signals to `INT2`, given its current
/// value.
pub fn interrupt_two_data_ready(target_value: Int2Ctrl) -> (new_value: Int2Ctrl)
    ensures
        new_value.word() == with_state(
            with_state(target_value.word(), 0, State::Enabled),
            1,
            State::Enabled,
        ),
{
    target_value.int2_drdy_xl().enabled().int2_drdy_g().enabled()
}

/// The two bytes of a data register in wire order: low byte, then high byte.
fn register_bytes(low: u16, high: u16) -> (target_bytes: (u8, u8))
    requires
        low < 0x100,
        high < 0x100,
    ensures
        target_bytes.0 == low,
        target_bytes.1 == high,
{
    (low as u8, high as u8)
}

impl DataPoint {
    /// Decode the six output registers into a data point.
    ///
    /// Each register's least significant byte (bits `0..=7`) and most significant byte (bits
    /// `8..=15`) form the little-endian signed reading of the axis.
    pub fn registers(
        a_x: OutXL,
        a_y: OutYL,
        a_z: OutZL,
        g_x: OutXG,
        g_y: OutYG,
        g_z: OutZG,
    ) -> (target_point: DataPoint)
        ensures
            target_point.0.x.reading() == register_reading(a_x.word()),
            target_point.0.y.reading() == register_reading(a_y.word()),
            target_point.0.z.reading() == register_reading(a_z.word()),
            target_point.1.roll.reading() == register_reading(g_x.word()),
            target_point.1.pitch.reading() == register_reading(g_y.word()),
            target_point.1.yaw.reading() == register_reading(g_z.word()),
    {
        proof {
            lemma_bytes_rebuild(a_x.word());
            lemma_bytes_rebuild(a_y.word());
            lemma_bytes_rebuild(a_z.word());
            lemma_bytes_rebuild(g_x.word());
            lemma_bytes_rebuild(g_y.word());
            lemma_bytes_rebuild(g_z.word());
        }
        let (a0, a1) = register_bytes(a_x.xl_lsb().output(), a_x.xl_msb().output());
        let (a2, a3) = register_bytes(a_y.yl_lsb().output(), a_y.yl_msb().output());
        let (a4, a5) = register_bytes(a_z.zl_lsb().output(), a_z.zl_msb().output());
        let raw_accel = RawAcceleration::bytes([a0, a1, a2, a3, a4, a5]);
        let (g0, g1) = register_bytes(g_x.x_lsb().output(), g_x.x_msb().output());
        let (g2, g3) = register_bytes(g_y.y_lsb().output(), g_y.y_msb().output());
        let (g4, g5) = register_bytes(g_z.z_lsb().output(), g_z.z_msb().output());
        let raw_gyro = RawGyro::bytes([g0, g1, g2, g3, g4, g5]);
        DataPoint(raw_accel, raw_gyro)
    }
}

} // verus!
