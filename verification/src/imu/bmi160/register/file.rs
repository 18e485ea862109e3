//! The register file of the BMI160 inertial measurement unit.

use vstd::prelude::*;

use crate::bit::handle::{Bit, BitMut};
use crate::bit::many::{Extract, Extracted, ExtractedMut};
use crate::bit::take::{Bits, HasPrimitive};
use crate::imu::bmi160::register::Register;
use crate::register::{Register16, Register8};

verus! {

/// The command register.
///
/// Default value: `0b0000_0000`.
#[derive(Debug, Clone, Copy, PartialEq, Eq, Structural, PartialOrd, Ord)]
pub struct Cmd(Register8);

impl Cmd {
    /// Wrap a raw register value read from the device.
    pub fn register(target_register: Register8) -> (target_value: Self)
        ensures
            target_value.word() == target_register.word(),
    {
        Cmd(target_register)
    }

    /// Extract the `command_bits` bit sequence of this register.
    ///
    /// The command bits of this register.
    pub fn command_bits(&self) -> (target_bits: Extracted<0, 7, Self>)
        ensures
            target_bits.wf(),
            target_bits.target() == *self,
    {
        Extracted::wrap(self)
    }

    /// Retrieve a mutable handle to the `command_bits` bit sequence of this register.
    ///
    /// The command bits of this register.
    pub fn command_bits_mut(&mut self) -> (target_bits: ExtractedMut<'_, 0, 7, Self>)
        ensures
            target_bits.current() == *old(self),
            has_resolved(target_bits) ==> *final(self) == target_bits.current(),
    {
        ExtractedMut::wrap(self)
    }
}

impl HasPrimitive for Cmd {
    type Primitive = u8;

    open spec fn width() -> nat {
        8
    }

    closed spec fn word(&self) -> u16 {
        self.0.word()
    }

    open spec fn primitive_word(target_value: u8) -> u16 {
        target_value as u16
    }

    proof fn lemma_layout(&self) {
        self.0.lemma_layout();
    }

    fn raw(self) -> (target_value: u8) {
        self.0.value()
    }

    fn load(&self) -> (target_word: u16) {
        self.0.load()
    }

    fn store(target_word: u16) -> (target_value: Self) {
        Cmd(Register8::store(target_word))
    }
}

impl Bits for Cmd {
    fn single<const N: usize>() -> (target_value: Self) {
        Cmd(Register8::single::<N>())
    }
}

impl Extract for Cmd {
}

impl Register for Cmd {
    const ADDRESS: u8 = 0x7E;
}

/// A virtual 16-bit register that encompasses the value of the X-axis of the gyroscope.
///
/// This is exposed as a combination of both [`GyroX::low`] and [`GyroX::high`].
///
/// This register is read-only.
#[derive(Debug, Clone, Copy, PartialEq, Eq, Structural, PartialOrd, Ord)]
pub struct GyroX(Register16);

impl GyroX {
    /// Wrap a raw register value read from the device.
    pub fn register(target_register: Register16) -> (target_value: Self)
        ensures
            target_value.word() == target_register.word(),
    {
        GyroX(target_register)
    }

    /// Extract the `low` bit sequence of this register.
    ///
    /// The low byte of the X-axis of the gyroscope.
    pub fn low(&self) -> (target_bits: Extracted<0, 7, Self>)
        ensures
            target_bits.wf(),
            target_bits.target() == *self,
    {
        Extracted::wrap(self)
    }

    /// Extract the `high` bit sequence of this register.
    ///
    /// The high byte of the X-axis of the gyroscope.
    pub fn high(&self) -> (target_bits: Extracted<8, 15, Self>)
        ensures
            target_bits.wf(),
            target_bits.target() == *self,
    {
        Extracted::wrap(self)
    }
}

impl HasPrimitive for GyroX {
    type Primitive = u16;

    open spec fn width() -> nat {
        16
    }

    closed spec fn word(&self) -> u16 {
        self.0.word()
    }

    open spec fn primitive_word(target_value: u16) -> u16 {
        target_value as u16
    }

    proof fn lemma_layout(&self) {
        self.0.lemma_layout();
    }

    fn raw(self) -> (target_value: u16) {
        self.0.value()
    }

    fn load(&self) -> (target_word: u16) {
        self.0.load()
    }

    fn store(target_word: u16) -> (target_value: Self) {
        GyroX(Register16::store(target_word))
    }
}

impl Bits for GyroX {
    fn single<const N: usize>() -> (target_value: Self) {
        GyroX(Register16::single::<N>())
    }
}

impl Extract for GyroX {
}

impl Register for GyroX {
    const ADDRESS: u8 = 0x0C;
}

/// A virtual 16-bit register that encompasses the value of the Y-axis of the gyroscope.
///
/// This is exposed as a combination of both [`GyroY::low`] and [`GyroY::high`].
///
/// This register is read-only.
#[derive(Debug, Clone, Copy, PartialEq, Eq, Structural, PartialOrd, Ord)]
pub struct GyroY(Register16);

impl GyroY {
    /// Wrap a raw register value read from the device.
    pub fn register(target_register: Register16) -> (target_value: Self)
        ensures
            target_value.word() == target_register.word(),
    {
        GyroY(target_register)
    }

    /// Extract the `low` bit sequence of this register.
    ///
    /// The low byte of the Y-axis of the gyroscope.
    pub fn low(&self) -> (target_bits: Extracted<0, 7, Self>)
        ensures
            target_bits.wf(),
            target_bits.target() == *self,
    {
        Extracted::wrap(self)
    }

    /// Extract the `high` bit sequence of this register.
    ///
    /// The high byte of the Y-axis of the gyroscope.
    pub fn high(&self) -> (target_bits: Extracted<8, 15, Self>)
        ensures
            target_bits.wf(),
            target_bits.target() == *self,
    {
        Extracted::wrap(self)
    }
}

impl HasPrimitive for GyroY {
    type Primitive = u16;

    open spec fn width() -> nat {
        16
    }

    closed spec fn word(&self) -> u16 {
        self.0.word()
    }

    open spec fn primitive_word(target_value: u16) -> u16 {
        target_value as u16
    }

    proof fn lemma_layout(&self) {
        self.0.lemma_layout();
    }

    fn raw(self) -> (target_value: u16) {
        self.0.value()
    }

    fn load(&self) -> (target_word: u16) {
        self.0.load()
    }

    fn store(target_word: u16) -> (target_value: Self) {
        GyroY(Register16::store(target_word))
    }
}

impl Bits for GyroY {
    fn single<const N: usize>() -> (target_value: Self) {
        GyroY(Register16::single::<N>())
    }
}

impl Extract for GyroY {
}

impl Register for GyroY {
    const ADDRESS: u8 = 0x0E;
}

/// A virtual 16-bit register that encompasses the value of the Z-axis of the gyroscope.
///
/// This is exposed as a combination of both [`GyroZ::low`] and [`GyroZ::high`].
///
/// This register is read-only.
#[derive(Debug, Clone, Copy, PartialEq, Eq, Structural, PartialOrd, Ord)]
pub struct GyroZ(Register16);

impl GyroZ {
    /// Wrap a raw register value read from the device.
    pub fn register(target_register: Register16) -> (target_value: Self)
        ensures
            target_value.word() == target_register.word(),
    {
        GyroZ(target_register)
    }

    /// Extract the `low` bit sequence of this register.
    ///
    /// The low byte of the Z-axis of the gyroscope.
    pub fn low(&self) -> (target_bits: Extracted<0, 7, Self>)
        ensures
            target_bits.wf(),
            target_bits.target() == *self,
    {
        Extracted::wrap(self)
    }

    /// Extract the `high` bit sequence of this register.
    ///
    /// The high byte of the Z-axis of the gyroscope.
    pub fn high(&self) -> (target_bits: Extracted<8, 15, Self>)
        ensures
            target_bits.wf(),
            target_bits.target() == *self,
    {
        Extracted::wrap(self)
    }
}

impl HasPrimitive for GyroZ {
    type Primitive = u16;

    open spec fn width() -> nat {
        16
    }

    closed spec fn word(&self) -> u16 {
        self.0.word()
    }

    open spec fn primitive_word(target_value: u16) -> u16 {
        target_value as u16
    }

    proof fn lemma_layout(&self) {
        self.0.lemma_layout();
    }

    fn raw(self) -> (target_value: u16) {
        self.0.value()
    }

    fn load(&self) -> (target_word: u16) {
        self.0.load()
    }

    fn store(target_word: u16) -> (target_value: Self) {
        GyroZ(Register16::store(target_word))
    }
}

impl Bits for GyroZ {
    fn single<const N: usize>() -> (target_value: Self) {
        GyroZ(Register16::single::<N>())
    }
}

impl Extract for GyroZ {
}

impl Register for GyroZ {
    const ADDRESS: u8 = 0x10;
}

/// A virtual 16-bit register that encompasses the value of the X-axis of the accelerometer.
///
/// This is exposed as a combination of both [`AccX::low`] and [`AccX::high`].
///
/// This register is read-only.
#[derive(Debug, Clone, Copy, PartialEq, Eq, Structural, PartialOrd, Ord)]
pub struct AccX(Register16);

impl AccX {
    /// Wrap a raw register value read from the device.
    pub fn register(target_register: Register16) -> (target_value: Self)
        ensures
            target_value.word() == target_register.word(),
    {
        AccX(target_register)
    }

    /// Extract the `low` bit sequence of this register.
    ///
    /// The low byte of the X-axis of the accelerometer.
    pub fn low(&self) -> (target_bits: Extracted<0, 7, Self>)
        ensures
            target_bits.wf(),
            target_bits.target() == *self,
    {
        Extracted::wrap(self)
    }

    /// Extract the `high` bit sequence of this register.
    ///
    /// The high byte of the X-axis of the accelerometer.
    pub fn high(&self) -> (target_bits: Extracted<8, 15, Self>)
        ensures
            target_bits.wf(),
            target_bits.target() == *self,
    {
        Extracted::wrap(self)
    }
}

impl HasPrimitive for AccX {
    type Primitive = u16;

    open spec fn width() -> nat {
        16
    }

    closed spec fn word(&self) -> u16 {
        self.0.word()
    }

    open spec fn primitive_word(target_value: u16) -> u16 {
        target_value as u16
    }

    proof fn lemma_layout(&self) {
        self.0.lemma_layout();
    }

    fn raw(self) -> (target_value: u16) {
        self.0.value()
    }

    fn load(&self) -> (target_word: u16) {
        self.0.load()
    }

    fn store(target_word: u16) -> (target_value: Self) {
        AccX(Register16::store(target_word))
    }
}

impl Bits for AccX {
    fn single<const N: usize>() -> (target_value: Self) {
        AccX(Register16::single::<N>())
    }
}

impl Extract for AccX {
}

impl Register for AccX {
    const ADDRESS: u8 = 0x12;
}

/// A virtual 16-bit register that encompasses the value of the Y-axis of the accelerometer.
///
/// This is exposed as a combination of both [`AccY::low`] and [`AccY::high`].
///
/// This register is read-only.
#[derive(Debug, Clone, Copy, PartialEq, Eq, Structural, PartialOrd, Ord)]
pub struct AccY(Register16);

impl AccY {
    /// Wrap a raw register value read from the device.
    pub fn register(target_register: Register16) -> (target_value: Self)
        ensures
            target_value.word() == target_register.word(),
    {
        AccY(target_register)
    }

    /// Extract the `low` bit sequence of this register.
    ///
    /// The low byte of the Y-axis of the accelerometer.
    pub fn low(&self) -> (target_bits: Extracted<0, 7, Self>)
        ensures
            target_bits.wf(),
            target_bits.target() == *self,
    {
        Extracted::wrap(self)
    }

    /// Extract the `high` bit sequence of this register.
    ///
    /// The high byte of the Y-axis of the accelerometer.
    pub fn high(&self) -> (target_bits: Extracted<8, 15, Self>)
        ensures
            target_bits.wf(),
            target_bits.target() == *self,
    {
        Extracted::wrap(self)
    }
}

impl HasPrimitive for AccY {
    type Primitive = u16;

    open spec fn width() -> nat {
        16
    }

    closed spec fn word(&self) -> u16 {
        self.0.word()
    }

    open spec fn primitive_word(target_value: u16) -> u16 {
        target_value as u16
    }

    proof fn lemma_layout(&self) {
        self.0.lemma_layout();
    }

    fn raw(self) -> (target_value: u16) {
        self.0.value()
    }

    fn load(&self) -> (target_word: u16) {
        self.0.load()
    }

    fn store(target_word: u16) -> (target_value: Self) {
        AccY(Register16::store(target_word))
    }
}

impl Bits for AccY {
    fn single<const N: usize>() -> (target_value: Self) {
        AccY(Register16::single::<N>())
    }
}

impl Extract for AccY {
}

impl Register for AccY {
    const ADDRESS: u8 = 0x14;
}

/// A virtual 16-bit register that encompasses the value of the Z-axis of the accelerometer.
///
/// This is exposed as a combination of both [`AccZ::low`] and [`AccZ::high`].
///
/// This register is read-only.
#[derive(Debug, Clone, Copy, PartialEq, Eq, Structural, PartialOrd, Ord)]
pub struct AccZ(Register16);

impl AccZ {
    /// Wrap a raw register value read from the device.
    pub fn register(target_register: Register16) -> (target_value: Self)
        ensures
            target_value.word() == target_register.word(),
    {
        AccZ(target_register)
    }

    /// Extract the `low` bit sequence of this register.
    ///
    /// The low byte of the Z-axis of the accelerometer.
    pub fn low(&self) -> (target_bits: Extracted<0, 7, Self>)
        ensures
            target_bits.wf(),
            target_bits.target() == *self,
    {
        Extracted::wrap(self)
    }

    /// Extract the `high` bit sequence of this register.
    ///
    /// The high byte of the Z-axis of the accelerometer.
    pub fn high(&self) -> (target_bits: Extracted<8, 15, Self>)
        ensures
            target_bits.wf(),
            target_bits.target() == *self,
    {
        Extracted::wrap(self)
    }
}

impl HasPrimitive for AccZ {
    type Primitive = u16;

    open spec fn width() -> nat {
        16
    }

    closed spec fn word(&self) -> u16 {
        self.0.word()
    }

    open spec fn primitive_word(target_value: u16) -> u16 {
        target_value as u16
    }

    proof fn lemma_layout(&self) {
        self.0.lemma_layout();
    }

    fn raw(self) -> (target_value: u16) {
        self.0.value()
    }

    fn load(&self) -> (target_word: u16) {
        self.0.load()
    }

    fn store(target_word: u16) -> (target_value: Self) {
        AccZ(Register16::store(target_word))
    }
}

impl Bits for AccZ {
    fn single<const N: usize>() -> (target_value: Self) {
        AccZ(Register16::single::<N>())
    }
}

impl Extract for AccZ {
}

impl Register for AccZ {
    const ADDRESS: u8 = 0x16;
}

/// The status register.
///
/// Default value: `0b0000_0000`.
///
/// This register is read-only.
#[derive(Debug, Clone, Copy, PartialEq, Eq, Structural, PartialOrd, Ord)]
pub struct Status(Register8);

impl Status {
    /// Wrap a raw register value read from the device.
    pub fn register(target_register: Register8) -> (target_value: Self)
        ensures
            target_value.word() == target_register.word(),
    {
        Status(target_register)
    }

    /// Retrieve an immutable handle to the `gyroscope_data_ready` bit of this register.
    ///
    /// The data-ready status for the gyroscope registers.
    pub fn gyroscope_data_ready(&self) -> (target_bit: Bit<'_, Self, 6>)
        ensures
            target_bit.target() == *self,
    {
        Bit::wrap(self)
    }

    /// Retrieve an immutable handle to the `accelerometer_data_ready` bit of this register.
    ///
    /// The data-ready status for the accelerometer registers.
    pub fn accelerometer_data_ready(&self) -> (target_bit: Bit<'_, Self, 7>)
        ensures
            target_bit.target() == *self,
    {
        Bit::wrap(self)
    }
}

impl HasPrimitive for Status {
    type Primitive = u8;

    open spec fn width() -> nat {
        8
    }

    closed spec fn word(&self) -> u16 {
        self.0.word()
    }

    open spec fn primitive_word(target_value: u8) -> u16 {
        target_value as u16
    }

    proof fn lemma_layout(&self) {
        self.0.lemma_layout();
    }

    fn raw(self) -> (target_value: u8) {
        self.0.value()
    }

    fn load(&self) -> (target_word: u16) {
        self.0.load()
    }

    fn store(target_word: u16) -> (target_value: Self) {
        Status(Register8::store(target_word))
    }
}

impl Bits for Status {
    fn single<const N: usize>() -> (target_value: Self) {
        Status(Register8::single::<N>())
    }
}

impl Extract for Status {
}

impl Register for Status {
    const ADDRESS: u8 = 0x1B;
}

/// The first byte of the `INT_STATUS[N]` register sequence.
///
/// Default value: `0b0000_0000`.
///
/// This register is read-only.
#[derive(Debug, Clone, Copy, PartialEq, Eq, Structural, PartialOrd, Ord)]
pub struct IntStatus1(Register8);

impl IntStatus1 {
    /// Wrap a raw register value read from the device.
    pub fn register(target_register: Register8) -> (target_value: Self)
        ensures
            target_value.word() == target_register.word(),
    {
        IntStatus1(target_register)
    }

    /// Retrieve an immutable handle to the `data_ready_interrupt_active` bit of this register.
    ///
    /// Whether any of the sensors have data ready for readout.
    pub fn data_ready_interrupt_active(&self) -> (target_bit: Bit<'_, Self, 4>)
        ensures
            target_bit.target() == *self,
    {
        Bit::wrap(self)
    }
}

impl HasPrimitive for IntStatus1 {
    type Primitive = u8;

    open spec fn width() -> nat {
        8
    }

    closed spec fn word(&self) -> u16 {
        self.0.word()
    }

    open spec fn primitive_word(target_value: u8) -> u16 {
        target_value as u16
    }

    proof fn lemma_layout(&self) {
        self.0.lemma_layout();
    }

    fn raw(self) -> (target_value: u8) {
        self.0.value()
    }

    fn load(&self) -> (target_word: u16) {
        self.0.load()
    }

    fn store(target_word: u16) -> (target_value: Self) {
        IntStatus1(Register8::store(target_word))
    }
}

impl Bits for IntStatus1 {
    fn single<const N: usize>() -> (target_value: Self) {
        IntStatus1(Register8::single::<N>())
    }
}

impl Extract for IntStatus1 {
}

impl Register for IntStatus1 {
    const ADDRESS: u8 = 0x1D;
}

/// The accelerometer configuration register.
///
/// Default value: `0b0010_1000`.
#[derive(Debug, Clone, Copy, PartialEq, Eq, Structural, PartialOrd, Ord)]
pub struct AccConf(Register8);

impl AccConf {
    /// Wrap a raw register value read from the device.
    pub fn register(target_register: Register8) -> (target_value: Self)
        ensures
            target_value.word() == target_register.word(),
    {
        AccConf(target_register)
    }

    /// Extract the `data_rate` bit sequence of this register.
    ///
    /// The output data rate of the accelerometer.
    pub fn data_rate(&self) -> (target_bits: Extracted<0, 3, Self>)
        ensures
            target_bits.wf(),
            target_bits.target() == *self,
    {
        Extracted::wrap(self)
    }

    /// Retrieve a mutable handle to the `data_rate` bit sequence of this register.
    ///
    /// The output data rate of the accelerometer.
    pub fn data_rate_mut(&mut self) -> (target_bits: ExtractedMut<'_, 0, 3, Self>)
        ensures
            target_bits.current() == *old(self),
            has_resolved(target_bits) ==> *final(self) == target_bits.current(),
    {
        ExtractedMut::wrap(self)
    }

    /// Extract the `bandwidth_mode` bit sequence of this register.
    ///
    /// The bandwidth mode of the accelerometer.
    pub fn bandwidth_mode(&self) -> (target_bits: Extracted<4, 6, Self>)
        ensures
            target_bits.wf(),
            target_bits.target() == *self,
    {
        Extracted::wrap(self)
    }

    /// Retrieve a mutable handle to the `bandwidth_mode` bit sequence of this register.
    ///
    /// The bandwidth mode of the accelerometer.
    pub fn bandwidth_mode_mut(&mut self) -> (target_bits: ExtractedMut<'_, 4, 6, Self>)
        ensures
            target_bits.current() == *old(self),
            has_resolved(target_bits) ==> *final(self) == target_bits.current(),
    {
        ExtractedMut::wrap(self)
    }

    /// Retrieve an immutable handle to the `undersample_mode` bit of this register.
    ///
    /// Whether the undersample mode is active for the accelerometer.
    pub fn undersample_mode(&self) -> (target_bit: Bit<'_, Self, 7>)
        ensures
            target_bit.target() == *self,
    {
        Bit::wrap(self)
    }

    /// Retrieve a mutable handle to the `undersample_mode` bit of this register.
    ///
    /// Whether the undersample mode is active for the accelerometer.
    pub fn undersample_mode_mut(&mut self) -> (target_bit: BitMut<'_, Self, 7>)
        ensures
            target_bit.current() == *old(self),
            has_resolved(target_bit) ==> *final(self) == target_bit.current(),
    {
        BitMut::wrap(self)
    }
}

impl HasPrimitive for AccConf {
    type Primitive = u8;

    open spec fn width() -> nat {
        8
    }

    closed spec fn word(&self) -> u16 {
        self.0.word()
    }

    open spec fn primitive_word(target_value: u8) -> u16 {
        target_value as u16
    }

    proof fn lemma_layout(&self) {
        self.0.lemma_layout();
    }

    fn raw(self) -> (target_value: u8) {
        self.0.value()
    }

    fn load(&self) -> (target_word: u16) {
        self.0.load()
    }

    fn store(target_word: u16) -> (target_value: Self) {
        AccConf(Register8::store(target_word))
    }
}

impl Bits for AccConf {
    fn single<const N: usize>() -> (target_value: Self) {
        AccConf(Register8::single::<N>())
    }
}

impl Extract for AccConf {
}

impl Register for AccConf {
    const ADDRESS: u8 = 0x40;
}

/// The accelerometer range register.
///
/// Default value: `0bXXXX_0011`, where `X` denotes an unusable or reserved bit.
#[derive(Debug, Clone, Copy, PartialEq, Eq, Structural, PartialOrd, Ord)]
pub struct AccRange(Register8);

impl AccRange {
    /// Wrap a raw register value read from the device.
    pub fn register(target_register: Register8) -> (target_value: Self)
        ensures
            target_value.word() == target_register.word(),
    {
        AccRange(target_register)
    }

    /// Extract the `sensor_range` bit sequence of this register.
    ///
    /// The specified range of the sensor.
    pub fn sensor_range(&self) -> (target_bits: Extracted<0, 3, Self>)
        ensures
            target_bits.wf(),
            target_bits.target() == *self,
    {
        Extracted::wrap(self)
    }

    /// Retrieve a mutable handle to the `sensor_range` bit sequence of this register.
    ///
    /// The specified range of the sensor.
    pub fn sensor_range_mut(&mut self) -> (target_bits: ExtractedMut<'_, 0, 3, Self>)
        ensures
            target_bits.current() == *old(self),
            has_resolved(target_bits) ==> *final(self) == target_bits.current(),
    {
        ExtractedMut::wrap(self)
    }
}

impl HasPrimitive for AccRange {
    type Primitive = u8;

    open spec fn width() -> nat {
        8
    }

    closed spec fn word(&self) -> u16 {
        self.0.word()
    }

    open spec fn primitive_word(target_value: u8) -> u16 {
        target_value as u16
    }

    proof fn lemma_layout(&self) {
        self.0.lemma_layout();
    }

    fn raw(self) -> (target_value: u8) {
        self.0.value()
    }

    fn load(&self) -> (target_word: u16) {
        self.0.load()
    }

    fn store(target_word: u16) -> (target_value: Self) {
        AccRange(Register8::store(target_word))
    }
}

impl Bits for AccRange {
    fn single<const N: usize>() -> (target_value: Self) {
        AccRange(Register8::single::<N>())
    }
}

impl Extract for AccRange {
}

impl Register for AccRange {
    const ADDRESS: u8 = 0x41;
}

/// The gyroscope configuration register.
///
/// Default value: `0b0010_1000`.
#[derive(Debug, Clone, Copy, PartialEq, Eq, Structural, PartialOrd, Ord)]
pub struct GyroConf(Register8);

impl GyroConf {
    /// Wrap a raw register value read from the device.
    pub fn register(target_register: Register8) -> (target_value: Self)
        ensures
            target_value.word() == target_register.word(),
    {
        GyroConf(target_register)
    }

    /// Extract the `data_rate` bit sequence of this register.
    ///
    /// The output data rate of the gyroscope.
    pub fn data_rate(&self) -> (target_bits: Extracted<0, 3, Self>)
        ensures
            target_bits.wf(),
            target_bits.target() == *self,
    {
        Extracted::wrap(self)
    }

    /// Retrieve a mutable handle to the `data_rate` bit sequence of this register.
    ///
    /// The output data rate of the gyroscope.
    pub fn data_rate_mut(&mut self) -> (target_bits: ExtractedMut<'_, 0, 3, Self>)
        ensures
            target_bits.current() == *old(self),
            has_resolved(target_bits) ==> *final(self) == target_bits.current(),
    {
        ExtractedMut::wrap(self)
    }

    /// Extract the `bandwidth_mode` bit sequence of this register.
    ///
    /// The bandwidth mode of the gyroscope.
    pub fn bandwidth_mode(&self) -> (target_bits: Extracted<4, 5, Self>)
        ensures
            target_bits.wf(),
            target_bits.target() == *self,
    {
        Extracted::wrap(self)
    }

    /// Retrieve a mutable handle to the `bandwidth_mode` bit sequence of this register.
    ///
    /// The bandwidth mode of the gyroscope.
    pub fn bandwidth_mode_mut(&mut self) -> (target_bits: ExtractedMut<'_, 4, 5, Self>)
        ensures
            target_bits.current() == *old(self),
            has_resolved(target_bits) ==> *final(self) == target_bits.current(),
    {
        ExtractedMut::wrap(self)
    }
}

impl HasPrimitive for GyroConf {
    type Primitive = u8;

    open spec fn width() -> nat {
        8
    }

    closed spec fn word(&self) -> u16 {
        self.0.word()
    }

    open spec fn primitive_word(target_value: u8) -> u16 {
        target_value as u16
    }

    proof fn lemma_layout(&self) {
        self.0.lemma_layout();
    }

    fn raw(self) -> (target_value: u8) {
        self.0.value()
    }

    fn load(&self) -> (target_word: u16) {
        self.0.load()
    }

    fn store(target_word: u16) -> (target_value: Self) {
        GyroConf(Register8::store(target_word))
    }
}

impl Bits for GyroConf {
    fn single<const N: usize>() -> (target_value: Self) {
        GyroConf(Register8::single::<N>())
    }
}

impl Extract for GyroConf {
}

impl Register for GyroConf {
    const ADDRESS: u8 = 0x42;
}

/// The gyroscope range register.
///
/// Default value: `0bXXXX_0011`, where `X` denotes an unusable or reserved bit.
#[derive(Debug, Clone, Copy, PartialEq, Eq, Structural, PartialOrd, Ord)]
pub struct GyroRange(Register8);

impl GyroRange {
    /// Wrap a raw register value read from the device.
    pub fn register(target_register: Register8) -> (target_value: Self)
        ensures
            target_value.word() == target_register.word(),
    {
        GyroRange(target_register)
    }

    /// Extract the `sensor_range` bit sequence of this register.
    ///
    /// The specified range of the sensor.
    pub fn sensor_range(&self) -> (target_bits: Extracted<0, 2, Self>)
        ensures
            target_bits.wf(),
            target_bits.target() == *self,
    {
        Extracted::wrap(self)
    }

    /// Retrieve a mutable handle to the `sensor_range` bit sequence of this register.
    ///
    /// The specified range of the sensor.
    pub fn sensor_range_mut(&mut self) -> (target_bits: ExtractedMut<'_, 0, 2, Self>)
        ensures
            target_bits.current() == *old(self),
            has_resolved(target_bits) ==> *final(self) == target_bits.current(),
    {
        ExtractedMut::wrap(self)
    }
}

impl HasPrimitive for GyroRange {
    type Primitive = u8;

    open spec fn width() -> nat {
        8
    }

    closed spec fn word(&self) -> u16 {
        self.0.word()
    }

    open spec fn primitive_word(target_value: u8) -> u16 {
        target_value as u16
    }

    proof fn lemma_layout(&self) {
        self.0.lemma_layout();
    }

    fn raw(self) -> (target_value: u8) {
        self.0.value()
    }

    fn load(&self) -> (target_word: u16) {
        self.0.load()
    }

    fn store(target_word: u16) -> (target_value: Self) {
        GyroRange(Register8::store(target_word))
    }
}

impl Bits for GyroRange {
    fn single<const N: usize>() -> (target_value: Self) {
        GyroRange(Register8::single::<N>())
    }
}

impl Extract for GyroRange {
}

impl Register for GyroRange {
    const ADDRESS: u8 = 0x43;
}

/// The second byte of the `INT_EN[N]` register sequence.
///
/// Default value: `0b0000_0000`.
#[derive(Debug, Clone, Copy, PartialEq, Eq, Structural, PartialOrd, Ord)]
pub struct IntEnable1(Register8);

impl IntEnable1 {
    /// Wrap a raw register value read from the device.
    pub fn register(target_register: Register8) -> (target_value: Self)
        ensures
            target_value.word() == target_register.word(),
    {
        IntEnable1(target_register)
    }

    /// Retrieve an immutable handle to the `data_ready_interrupt_enable` bit of this register.
    ///
    /// Whether an interrupt should be generated when any of the sensors have data ready for readout.
    pub fn data_ready_interrupt_enable(&self) -> (target_bit: Bit<'_, Self, 4>)
        ensures
            target_bit.target() == *self,
    {
        Bit::wrap(self)
    }

    /// Retrieve a mutable handle to the `data_ready_interrupt_enable` bit of this register.
    ///
    /// Whether an interrupt should be generated when any of the sensors have data ready for readout.
    pub fn data_ready_interrupt_enable_mut(&mut self) -> (target_bit: BitMut<'_, Self, 4>)
        ensures
            target_bit.current() == *old(self),
            has_resolved(target_bit) ==> *final(self) == target_bit.current(),
    {
        BitMut::wrap(self)
    }
}

impl HasPrimitive for IntEnable1 {
    type Primitive = u8;

    open spec fn width() -> nat {
        8
    }

    closed spec fn word(&self) -> u16 {
        self.0.word()
    }

    open spec fn primitive_word(target_value: u8) -> u16 {
        target_value as u16
    }

    proof fn lemma_layout(&self) {
        self.0.lemma_layout();
    }

    fn raw(self) -> (target_value: u8) {
        self.0.value()
    }

    fn load(&self) -> (target_word: u16) {
        self.0.load()
    }

    fn store(target_word: u16) -> (target_value: Self) {
        IntEnable1(Register8::store(target_word))
    }
}

impl Bits for IntEnable1 {
    fn single<const N: usize>() -> (target_value: Self) {
        IntEnable1(Register8::single::<N>())
    }
}

impl Extract for IntEnable1 {
}

impl Register for IntEnable1 {
    const ADDRESS: u8 = 0x51;
}

/// The interrupt out control register.
///
/// Default value: `0b0000_0000`.
#[derive(Debug, Clone, Copy, PartialEq, Eq, Structural, PartialOrd, Ord)]
pub struct IntOutCtrl(Register8);

impl IntOutCtrl {
    /// Wrap a raw register value read from the device.
    pub fn register(target_register: Register8) -> (target_value: Self)
        ensures
            target_value.word() == target_register.word(),
    {
        IntOutCtrl(target_register)
    }

    /// Retrieve an immutable handle to the `interrupt_two_enable` bit of this register.
    ///
    /// Whether the `INT2` pin is used for outgoing interrupts.
    pub fn interrupt_two_enable(&self) -> (target_bit: Bit<'_, Self, 7>)
        ensures
            target_bit.target() == *self,
    {
        Bit::wrap(self)
    }

    /// Retrieve a mutable handle to the `interrupt_two_enable` bit of this register.
    ///
    /// Whether the `INT2` pin is used for outgoing interrupts.
    pub fn interrupt_two_enable_mut(&mut self) -> (target_bit: BitMut<'_, Self, 7>)
        ensures
            target_bit.current() == *old(self),
            has_resolved(target_bit) ==> *final(self) == target_bit.current(),
    {
        BitMut::wrap(self)
    }

    /// Retrieve an immutable handle to the `interrupt_two_behavior` bit of this register.
    ///
    /// The electrical behavior of the `INT2` pin: push-pull or open-drain.
    pub fn interrupt_two_behavior(&self) -> (target_bit: Bit<'_, Self, 6>)
        ensures
            target_bit.target() == *self,
    {
        Bit::wrap(self)
    }

    /// Retrieve a mutable handle to the `interrupt_two_behavior` bit of this register.
    ///
    /// The electrical behavior of the `INT2` pin: push-pull or open-drain.
    pub fn interrupt_two_behavior_mut(&mut self) -> (target_bit: BitMut<'_, Self, 6>)
        ensures
            target_bit.current() == *old(self),
            has_resolved(target_bit) ==> *final(self) == target_bit.current(),
    {
        BitMut::wrap(self)
    }

    /// Retrieve an immutable handle to the `interrupt_two_level` bit of this register.
    ///
    /// The active logic level for `INT2` pin: high or low.
    pub fn interrupt_two_level(&self) -> (target_bit: Bit<'_, Self, 5>)
        ensures
            target_bit.target() == *self,
    {
        Bit::wrap(self)
    }

    /// Retrieve a mutable handle to the `interrupt_two_level` bit of this register.
    ///
    /// The active logic level for `INT2` pin: high or low.
    pub fn interrupt_two_level_mut(&mut self) -> (target_bit: BitMut<'_, Self, 5>)
        ensures
            target_bit.current() == *old(self),
            has_resolved(target_bit) ==> *final(self) == target_bit.current(),
    {
        BitMut::wrap(self)
    }

    /// Retrieve an immutable handle to the `interrupt_two_edge_triggered` bit of this register.
    ///
    /// Whether the `INT2` pin is edge-triggered.
    ///
    /// This is only valid if the pin is defined as an input.
    pub fn interrupt_two_edge_triggered(&self) -> (target_bit: Bit<'_, Self, 4>)
        ensures
            target_bit.target() == *self,
    {
        Bit::wrap(self)
    }

    /// Retrieve a mutable handle to the `interrupt_two_edge_triggered` bit of this register.
    ///
    /// Whether the `INT2` pin is edge-triggered.
    ///
    /// This is only valid if the pin is defined as an input.
    pub fn interrupt_two_edge_triggered_mut(&mut self) -> (target_bit: BitMut<'_, Self, 4>)
        ensures
            target_bit.current() == *old(self),
            has_resolved(target_bit) ==> *final(self) == target_bit.current(),
    {
        BitMut::wrap(self)
    }

    /// Retrieve an immutable handle to the `interrupt_one_enable` bit of this register.
    ///
    /// Whether the `INT1` pin is used for outgoing interrupts.
    pub fn interrupt_one_enable(&self) -> (target_bit: Bit<'_, Self, 3>)
        ensures
            target_bit.target() == *self,
    {
        Bit::wrap(self)
    }

    /// Retrieve a mutable handle to the `interrupt_one_enable` bit of this register.
    ///
    /// Whether the `INT1` pin is used for outgoing interrupts.
    pub fn interrupt_one_enable_mut(&mut self) -> (target_bit: BitMut<'_, Self, 3>)
        ensures
            target_bit.current() == *old(self),
            has_resolved(target_bit) ==> *final(self) == target_bit.current(),
    {
        BitMut::wrap(self)
    }

    /// Retrieve an immutable handle to the `interrupt_one_behavior` bit of this register.
    ///
    /// The electrical behavior of the `INT1` pin: push-pull or open-drain.
    pub fn interrupt_one_behavior(&self) -> (target_bit: Bit<'_, Self, 2>)
        ensures
            target_bit.target() == *self,
    {
        Bit::wrap(self)
    }

    /// Retrieve a mutable handle to the `interrupt_one_behavior` bit of this register.
    ///
    /// The electrical behavior of the `INT1` pin: push-pull or open-drain.
    pub fn interrupt_one_behavior_mut(&mut self) -> (target_bit: BitMut<'_, Self, 2>)
        ensures
            target_bit.current() == *old(self),
            has_resolved(target_bit) ==> *final(self) == target_bit.current(),
    {
        BitMut::wrap(self)
    }

    /// Retrieve an immutable handle to the `interrupt_one_level` bit of this register.
    ///
    /// The active logic level for `INT1` pin: high or low.
    pub fn interrupt_one_level(&self) -> (target_bit: Bit<'_, Self, 1>)
        ensures
            target_bit.target() == *self,
    {
        Bit::wrap(self)
    }

    /// Retrieve a mutable handle to the `interrupt_one_level` bit of this register.
    ///
    /// The active logic level for `INT1` pin: high or low.
    pub fn interrupt_one_level_mut(&mut self) -> (target_bit: BitMut<'_, Self, 1>)
        ensures
            target_bit.current() == *old(self),
            has_resolved(target_bit) ==> *final(self) == target_bit.current(),
    {
        BitMut::wrap(self)
    }

    /// Retrieve an immutable handle to the `interrupt_one_edge_triggered` bit of this register.
    ///
    /// Whether the `INT1` pin is edge-triggered.
    ///
    /// This is only valid if the pin is defined as an input.
    pub fn interrupt_one_edge_triggered(&self) -> (target_bit: Bit<'_, Self, 0>)
        ensures
            target_bit.target() == *self,
    {
        Bit::wrap(self)
    }

    /// Retrieve a mutable handle to the `interrupt_one_edge_triggered` bit of this register.
    ///
    /// Whether the `INT1` pin is edge-triggered.
    ///
    /// This is only valid if the pin is defined as an input.
    pub fn interrupt_one_edge_triggered_mut(&mut self) -> (target_bit: BitMut<'_, Self, 0>)
        ensures
            target_bit.current() == *old(self),
            has_resolved(target_bit) ==> *final(self) == target_bit.current(),
    {
        BitMut::wrap(self)
    }
}

impl HasPrimitive for IntOutCtrl {
    type Primitive = u8;

    open spec fn width() -> nat {
        8
    }

    closed spec fn word(&self) -> u16 {
        self.0.word()
    }

    open spec fn primitive_word(target_value: u8) -> u16 {
        target_value as u16
    }

    proof fn lemma_layout(&self) {
        self.0.lemma_layout();
    }

    fn raw(self) -> (target_value: u8) {
        self.0.value()
    }

    fn load(&self) -> (target_word: u16) {
        self.0.load()
    }

    fn store(target_word: u16) -> (target_value: Self) {
        IntOutCtrl(Register8::store(target_word))
    }
}

impl Bits for IntOutCtrl {
    fn single<const N: usize>() -> (target_value: Self) {
        IntOutCtrl(Register8::single::<N>())
    }
}

impl Extract for IntOutCtrl {
}

impl Register for IntOutCtrl {
    const ADDRESS: u8 = 0x54;
}

/// The second byte of the `INT_MAP[N]` register sequence.
///
/// Default value: `0b0000_0000`.
#[derive(Debug, Clone, Copy, PartialEq, Eq, Structural, PartialOrd, Ord)]
pub struct IntMap1(Register8);

impl IntMap1 {
    /// Wrap a raw register value read from the device.
    pub fn register(target_register: Register8) -> (target_value: Self)
        ensures
            target_value.word() == target_register.word(),
    {
        IntMap1(target_register)
    }

    /// Retrieve an immutable handle to the `interrupt_one_data_ready` bit of this register.
    ///
    /// Whether to map any data-ready interrupt to the `INT1` pin.
    pub fn interrupt_one_data_ready(&self) -> (target_bit: Bit<'_, Self, 7>)
        ensures
            target_bit.target() == *self,
    {
        Bit::wrap(self)
    }

    /// Retrieve a mutable handle to the `interrupt_one_data_ready` bit of this register.
    ///
    /// Whether to map any data-ready interrupt to the `INT1` pin.
    pub fn interrupt_one_data_ready_mut(&mut self) -> (target_bit: BitMut<'_, Self, 7>)
        ensures
            target_bit.current() == *old(self),
            has_resolved(target_bit) ==> *final(self) == target_bit.current(),
    {
        BitMut::wrap(self)
    }

    /// Retrieve an immutable handle to the `interrupt_two_data_ready` bit of this register.
    ///
    /// Whether to map any data-ready interrupt to the `INT2` pin.
    pub fn interrupt_two_data_ready(&self) -> (target_bit: Bit<'_, Self, 3>)
        ensures
            target_bit.target() == *self,
    {
        Bit::wrap(self)
    }

    /// Retrieve a mutable handle to the `interrupt_two_data_ready` bit of this register.
    ///
    /// Whether to map any data-ready interrupt to the `INT2` pin.
    pub fn interrupt_two_data_ready_mut(&mut self) -> (target_bit: BitMut<'_, Self, 3>)
        ensures
            target_bit.current() == *old(self),
            has_resolved(target_bit) ==> *final(self) == target_bit.current(),
    {
        BitMut::wrap(self)
    }
}

impl HasPrimitive for IntMap1 {
    type Primitive = u8;

    open spec fn width() -> nat {
        8
    }

    closed spec fn word(&self) -> u16 {
        self.0.word()
    }

    open spec fn primitive_word(target_value: u8) -> u16 {
        target_value as u16
    }

    proof fn lemma_layout(&self) {
        self.0.lemma_layout();
    }

    fn raw(self) -> (target_value: u8) {
        self.0.value()
    }

    fn load(&self) -> (target_word: u16) {
        self.0.load()
    }

    fn store(target_word: u16) -> (target_value: Self) {
        IntMap1(Register8::store(target_word))
    }
}

impl Bits for IntMap1 {
    fn single<const N: usize>() -> (target_value: Self) {
        IntMap1(Register8::single::<N>())
    }
}

impl Extract for IntMap1 {
}

impl Register for IntMap1 {
    const ADDRESS: u8 = 0x56;
}


} // verus!
