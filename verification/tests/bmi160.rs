use yakka::bit::take::HasPrimitive;
use yakka::imu::bmi160::config::{AccelConfig, GyroConfig};
use yakka::imu::bmi160::raw::{Analog, Error, RawAcceleration, RawGyro, Temperature};
use yakka::imu::bmi160::readout::{
    interrupt_one_data_ready, interrupt_one_output, interrupt_two_data_ready,
    interrupt_two_output, reset_command, DataPoint, DataRate, Params, CMD_RESET_SOFTWARE,
};
use yakka::imu::bmi160::register::file::{
    AccConf, AccRange, AccX, AccY, AccZ, Cmd, GyroConf, GyroRange as GyroRangeRegister, GyroX,
    GyroY, GyroZ, IntMap1, IntOutCtrl,
};
use yakka::imu::bmi160::scale::{Scale, Scaled};
use yakka::imu::bmi160::sensor::{AccelRange, AccelRate, Bandwidth, GyroRange, GyroRate};
use yakka::imu::lsm6ds3::interrupt::Route;
use yakka::register::{Register16, Register8};

#[test]
fn raw_acceleration_bytes_are_little_endian_pairs() {
    let raw = RawAcceleration::bytes([0x01, 0x02, 0xff, 0xff, 0x00, 0x80]);
    assert_eq!(raw.x.unwrap(), 0x0201);
    assert_eq!(raw.y.unwrap(), -1);
    assert_eq!(raw.z.unwrap(), i16::MIN);
    assert_eq!(raw.to_bytes(), [0x01, 0x02, 0xff, 0xff, 0x00, 0x80]);
}

#[test]
fn raw_gyro_round_trip() {
    let raw = RawGyro::tuple((Analog::raw(-300), Analog::raw(0), Analog::raw(32767)));
    let bytes = raw.to_bytes();
    assert_eq!(bytes, [0xd4, 0xfe, 0x00, 0x00, 0xff, 0x7f]);
    let back = RawGyro::bytes(bytes);
    assert_eq!(back.roll.unwrap(), -300);
    assert_eq!(back.pitch.unwrap(), 0);
    assert_eq!(back.yaw.unwrap(), 32767);
}

#[test]
fn temperature_bytes() {
    let temperature = Temperature::bytes([0x10, 0xfe]);
    assert_eq!(temperature.to_bytes(), [0x10, 0xfe]);
    assert_eq!(Temperature::reading(Analog::raw(5)).to_bytes(), [0x05, 0x00]);
}

#[test]
fn error_wraps_bus_error() {
    let error: Error<u8> = Error::from(7_u8);
    assert!(matches!(error, Error::I2c(7)));
}

#[test]
fn default_accel_config_registers() {
    let config = AccelConfig::default();
    let (conf, range) = config.registers(
        AccConf::register(Register8::raw(0)),
        AccRange::register(Register8::raw(0)),
    );
    assert_eq!(conf.raw(), 0b0010_1000);
    assert_eq!(range.raw(), 0b0011);
}

#[test]
fn accel_config_keeps_other_bits() {
    let config = AccelConfig {
        sample_rate: AccelRate::Rate1600,
        sensor_range: AccelRange::G16,
        bandwidth: Bandwidth::Osr4,
    };
    let (conf, range) = config.registers(
        AccConf::register(Register8::raw(0xff)),
        AccRange::register(Register8::raw(0xf0)),
    );
    assert_eq!(conf.raw(), 0b1000_1100);
    assert_eq!(range.raw(), 0xfc);
}

#[test]
fn default_gyro_config_registers() {
    let config = GyroConfig::default();
    let (conf, range) = config.registers(
        GyroConf::register(Register8::raw(0)),
        GyroRangeRegister::register(Register8::raw(0)),
    );
    assert_eq!(conf.raw(), 0b0010_1000);
    assert_eq!(range.raw(), 0b100);
}

#[test]
fn gyro_config_keeps_other_bits() {
    let config = GyroConfig {
        sample_rate: GyroRate::Rate3200,
        sensor_range: GyroRange::Dps125,
        bandwidth: Bandwidth::Osr2,
    };
    let (conf, range) = config.registers(
        GyroConf::register(Register8::raw(0xff)),
        GyroRangeRegister::register(Register8::raw(0xff)),
    );
    assert_eq!(conf.raw(), 0b1101_1101);
    assert_eq!(range.raw(), 0b1111_1000);
}

#[test]
fn sensor_codes() {
    assert_eq!(AccelRange::G2.code(), 0b0011);
    assert_eq!(AccelRange::G16.code(), 0b1100);
    assert_eq!(GyroRange::Dps2000.code(), 4);
    assert_eq!(AccelRate::Rate25.code(), 0b0110);
    assert_eq!(GyroRate::Rate3200.code(), 0b1101);
    assert_eq!(Bandwidth::Normal.code(), 0b010);
    assert_eq!(AccelRange::default(), AccelRange::G2);
    assert_eq!(GyroRange::default(), GyroRange::Dps2000);
    assert_eq!(Bandwidth::default(), Bandwidth::Normal);
}

#[test]
fn accel_scale_is_lsb_per_g_with_twelve_fractional_bits() {
    assert_eq!(AccelRange::G2.scale().value(), 16384 << 12);
    assert_eq!(AccelRange::G4.scale().value(), 8192 << 12);
    assert_eq!(AccelRange::G8.scale().value(), 4096 << 12);
    assert_eq!(AccelRange::G16.scale().value(), 2048 << 12);
}

#[test]
fn gyro_scale_matches_resolution() {
    for (range, lsb_per_dps) in [
        (GyroRange::Dps125, 262.144_f64),
        (GyroRange::Dps250, 131.072),
        (GyroRange::Dps500, 65.536),
        (GyroRange::Dps1000, 32.768),
        (GyroRange::Dps2000, 16.384),
    ] {
        let scale = range.scale().value() as f64 / 4096.0;
        assert!((scale - lsb_per_dps).abs() < 0.001, "{} vs {}", scale, lsb_per_dps);
    }
    assert_eq!(Scale::raw(12).value(), 12);
}

#[test]
fn data_rate_maps_to_sensor_rates() {
    assert_eq!(DataRate::default(), DataRate::Rate100);
    assert_eq!(DataRate::Rate400.code(), 0b1010);
    assert_eq!(DataRate::Rate400.accel_rate(), AccelRate::Rate400);
    assert_eq!(DataRate::Rate1600.gyro_rate(), GyroRate::Rate1600);
}

#[test]
fn params_build_configs() {
    let params = Params {
        data_rate: DataRate::Rate200,
        accel_range: AccelRange::G8,
        gyro_range: GyroRange::Dps500,
        bandwidth: Bandwidth::Osr2,
        interrupt_route: Route::Int1,
    };
    let accel = params.accel_config();
    assert_eq!(accel.sample_rate, AccelRate::Rate200);
    assert_eq!(accel.sensor_range, AccelRange::G8);
    assert_eq!(accel.bandwidth, Bandwidth::Osr2);
    let gyro = params.gyro_config();
    assert_eq!(gyro.sample_rate, GyroRate::Rate200);
    assert_eq!(gyro.sensor_range, GyroRange::Dps500);
    assert_eq!(gyro.bandwidth, Bandwidth::Osr2);
}

#[test]
fn reset_and_interrupt_registers() {
    assert_eq!(reset_command(Cmd::register(Register8::raw(0x12))).raw(), CMD_RESET_SOFTWARE);
    let ctrl = IntOutCtrl::register(Register8::raw(0));
    assert_eq!(interrupt_one_output(ctrl).raw(), 0b0000_1001);
    assert_eq!(interrupt_two_output(ctrl).raw(), 0b1001_0000);
    let map = IntMap1::register(Register8::raw(0x01));
    assert_eq!(interrupt_one_data_ready(map).raw(), 0x81);
    assert_eq!(interrupt_two_data_ready(map).raw(), 0x09);
}

#[test]
fn data_point_from_registers() {
    let DataPoint(accel, gyro) = DataPoint::registers(
        AccX::register(Register16::bytes([0x00, 0x40])),
        AccY::register(Register16::bytes([0xff, 0xff])),
        AccZ::register(Register16::bytes([0x01, 0x00])),
        GyroX::register(Register16::bytes([0x00, 0x80])),
        GyroY::register(Register16::bytes([0x34, 0x12])),
        GyroZ::register(Register16::bytes([0xfe, 0xff])),
    );
    assert_eq!(accel.x.unwrap(), 0x4000);
    assert_eq!(accel.y.unwrap(), -1);
    assert_eq!(accel.z.unwrap(), 1);
    assert_eq!(gyro.roll.unwrap(), i16::MIN);
    assert_eq!(gyro.pitch.unwrap(), 0x1234);
    assert_eq!(gyro.yaw.unwrap(), -2);
}
