use yakka::bit::take::HasPrimitive;
use yakka::imu::bmi160::scale::Scaled;
use yakka::imu::lsm6ds3::config::{AccelConfig, Config, DataRate, GyroConfig};
use yakka::imu::lsm6ds3::fifo::{Appearance, Decimation, FifoMode, FifoSettings, Watermark};
use yakka::imu::lsm6ds3::interrupt::Route;
use yakka::imu::lsm6ds3::range::{AccelRange, GyroRange};
use yakka::imu::lsm6ds3::readout::{
    interrupt_one_data_ready, interrupt_two_data_ready, DataPoint, Params,
};
use yakka::imu::lsm6ds3::register::file::{
    Ctrl1Xl, Ctrl2G, FifoCtrl1, FifoCtrl2, FifoCtrl3, FifoCtrl5, Int1Ctrl, Int2Ctrl, OutXG, OutXL,
    OutYG, OutYL, OutZG, OutZL,
};
use yakka::imu::lsm6ds3::DefaultAddress;
use yakka::register::{Register16, Register8};

#[test]
fn config_tuple_and_parts() {
    let config = Config::tuple((AccelRange::G8, DataRate::Rate833));
    assert_eq!(config.range(), AccelRange::G8);
    assert_eq!(config.data_rate(), DataRate::Rate833);
    assert_eq!(config.parts(), (AccelRange::G8, DataRate::Rate833));
    assert_eq!(DataRate::default(), DataRate::Rate52);
}

#[test]
fn accel_config_register() {
    let config = AccelConfig::raw(Config::tuple((AccelRange::G4, DataRate::Rate104)));
    let register = config.registers(Ctrl1Xl::register(Register8::raw(0b0000_0011)));
    assert_eq!(register.raw(), 0b0100_1011);
    let disabled = AccelConfig::disabled(Ctrl1Xl::register(Register8::raw(0xff)));
    assert_eq!(disabled.raw(), 0b0000_0011);
}

#[test]
fn gyro_config_register() {
    let config = GyroConfig::raw(Config::tuple((GyroRange::Dps2000, DataRate::Rate1_66k)));
    let register = config.registers(Ctrl2G::register(Register8::raw(0b0000_0001)));
    assert_eq!(register.raw(), 0b1000_1101);
    let config = GyroConfig::raw(Config::tuple((GyroRange::Dps125, DataRate::Rate12_5)));
    let register = config.registers(Ctrl2G::register(Register8::raw(0)));
    assert_eq!(register.raw(), 0b0001_0010);
    let disabled = GyroConfig::disabled(Ctrl2G::register(Register8::raw(0xff)));
    assert_eq!(disabled.raw(), 0b0000_0001);
}

#[test]
fn range_codes_and_scales() {
    assert_eq!(GyroRange::Dps245.code(), 0);
    assert_eq!(GyroRange::Dps125.code(), 1);
    assert_eq!(GyroRange::Dps2000.code(), 6);
    assert_eq!(AccelRange::G16.code(), 1);
    assert_eq!(AccelRange::G2.scale().value(), 249);
    assert_eq!(GyroRange::Dps2000.scale().value(), 286720);
}

#[test]
fn watermark_split_over_two_registers() {
    let (ctrl1, ctrl2) = FifoSettings::watermark_registers(
        Watermark::level(0x0abc),
        FifoCtrl1::register(Register8::raw(0)),
        FifoCtrl2::register(Register8::raw(0xf0)),
    );
    assert_eq!(ctrl1.raw(), 0xbc);
    assert_eq!(ctrl2.raw(), 0xfa);
    assert_eq!(Watermark::default().value(), 0);
}

#[test]
fn watermark_drops_bits_above_eleven() {
    let (ctrl1, ctrl2) = FifoSettings::watermark_registers(
        Watermark::level(0xf123),
        FifoCtrl1::register(Register8::raw(0xff)),
        FifoCtrl2::register(Register8::raw(0x00)),
    );
    assert_eq!(ctrl1.raw(), 0x23);
    assert_eq!(ctrl2.raw(), 0x01);
}

#[test]
fn fifo_registers() {
    let settings = FifoSettings {
        mode: FifoMode::Continous,
        rate: DataRate::Rate416,
        watermark: None,
        accelerometer: Appearance::Yes(Decimation::D1),
        gyroscope: Appearance::Yes(Decimation::D4),
    };
    let ctrl3 = settings.decimation_register(FifoCtrl3::register(Register8::raw(0)));
    assert_eq!(ctrl3.raw(), 0b0000_1011);
    let ctrl5 = settings.mode_register(FifoCtrl5::register(Register8::raw(0x80)));
    assert_eq!(ctrl5.raw(), 0b1110_0110);
    let disabled = FifoSettings::disabled_register(FifoCtrl5::register(Register8::raw(0xff)));
    assert_eq!(disabled.raw(), 0b1000_0000);
    let defaults = FifoSettings::default();
    assert_eq!(defaults.mode, FifoMode::Bypass);
    assert_eq!(defaults.watermark, None);
    assert_eq!(defaults.accelerometer, Appearance::No);
}

#[test]
fn fifo_codes() {
    assert_eq!(FifoMode::Bypass.code(), 0);
    assert_eq!(FifoMode::BypassToFifo.code(), 0b100);
    assert_eq!(Decimation::D32.code(), 0b110);
    assert_eq!(Appearance::No.code(), 0);
    assert_eq!(Appearance::Yes(Decimation::D2).code(), 0b010);
}

#[test]
fn params_and_interrupts() {
    let params = Params {
        data_rate: DataRate::Rate208,
        accel_range: AccelRange::G16,
        gyro_range: GyroRange::Dps500,
        interrupt_route: Route::Simultaneous,
    };
    assert_eq!(params.accel_config().config().range(), AccelRange::G16);
    assert_eq!(params.gyro_config().config().data_rate(), DataRate::Rate208);
    assert!(Route::Simultaneous.uses_int1());
    assert!(Route::Simultaneous.uses_int2());
    assert!(!Route::Int1.uses_int2());
    assert!(!Route::Int2.uses_int1());
    let int1 = interrupt_one_data_ready(Int1Ctrl::register(Register8::raw(0x80)));
    assert_eq!(int1.raw(), 0x83);
    let int2 = interrupt_two_data_ready(Int2Ctrl::register(Register8::raw(0)));
    assert_eq!(int2.raw(), 0x03);
    assert_eq!(<u8 as DefaultAddress>::DEFAULT, 0x68);
}

#[test]
fn data_point_from_output_registers() {
    let DataPoint(accel, gyro) = DataPoint::registers(
        OutXL::register(Register16::bytes([0x10, 0x00])),
        OutYL::register(Register16::bytes([0x00, 0xff])),
        OutZL::register(Register16::bytes([0xff, 0x7f])),
        OutXG::register(Register16::bytes([0x01, 0x80])),
        OutYG::register(Register16::bytes([0x00, 0x00])),
        OutZG::register(Register16::bytes([0x9c, 0xff])),
    );
    assert_eq!(accel.x.unwrap(), 16);
    assert_eq!(accel.y.unwrap(), -256);
    assert_eq!(accel.z.unwrap(), i16::MAX);
    assert_eq!(gyro.roll.unwrap(), -32767);
    assert_eq!(gyro.pitch.unwrap(), 0);
    assert_eq!(gyro.yaw.unwrap(), -100);
}
