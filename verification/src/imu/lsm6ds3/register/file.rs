//! The register file of the LSM6DS3 inertial measurement unit.

use vstd::prelude::*;

use crate::bit::handle::{Bit, BitMut};
use crate::bit::many::{Extract, Extracted, ExtractedMut};
use crate::bit::take::{Bits, HasPrimitive};
use crate::imu::lsm6ds3::register::Register;
use crate::register::{Register16, Register8};

verus! {

/// Enable embedded functions register (r/w).
///
/// # Layout
///
/// | Bit Range | Description                                                       |
/// |-----------|-------------------------------------------------------------------|
/// | 7         | Enable access to embedded function registers                     |
#[derive(Debug, Clone, Copy, PartialEq, Eq, Structural, PartialOrd, Ord)]
pub struct FuncCfgAccess(Register8);

impl FuncCfgAccess {
    /// Wrap a raw register value read from the device.
    pub fn register(target_register: Register8) -> (target_value: Self)
        ensures
            target_value.word() == target_register.word(),
    {
        FuncCfgAccess(target_register)
    }

    /// Retrieve an immutable handle to the `func_cfg_en` bit of this register.
    ///
    /// Enable access to the embedded functions configuration registers, ranging from address `0x02` to `0x32`.
    ///
    /// Default value: `0b0`.
    pub fn func_cfg_en(&self) -> (target_bit: Bit<'_, Self, 7>)
        ensures
            target_bit.target() == *self,
    {
        Bit::wrap(self)
    }

    /// Retrieve a mutable handle to the `func_cfg_en` bit of this register.
    ///
    /// Enable access to the embedded functions configuration registers, ranging from address `0x02` to `0x32`.
    ///
    /// Default value: `0b0`.
    pub fn func_cfg_en_mut(&mut self) -> (target_bit: BitMut<'_, Self, 7>)
        ensures
            target_bit.current() == *old(self),
            has_resolved(target_bit) ==> *final(self) == target_bit.current(),
    {
        BitMut::wrap(self)
    }
}

impl HasPrimitive for FuncCfgAccess {
    type Primitive = u8;

    open spec fn width() -> nat {
        8
    }

    closed spec fn word(&self) -> u16 {
        self.0.word()
    }

    open spec fn primitive_word(target_value: u8) -> u16 {
        target_value as u16
    }

    proof fn lemma_layout(&self) {
        self.0.lemma_layout();
    }

    fn raw(self) -> (target_value: u8) {
        self.0.value()
    }

    fn load(&self) -> (target_word: u16) {
        self.0.load()
    }

    fn store(target_word: u16) -> (target_value: Self) {
        FuncCfgAccess(Register8::store(target_word))
    }
}

impl Bits for FuncCfgAccess {
    fn single<const N: usize>() -> (target_value: Self) {
        FuncCfgAccess(Register8::single::<N>())
    }
}

impl Extract for FuncCfgAccess {
}

impl Register for FuncCfgAccess {
    const ADDRESS: u8 = 0x01;
}

/// Sensor synchronization time frame register (r/w).
///
/// # Layout
///
/// | Bit Range | Description                                                       |
/// |-----------|-------------------------------------------------------------------|
/// | 0..=7     | Sensor synchronization time frame setting                        |
#[derive(Debug, Clone, Copy, PartialEq, Eq, Structural, PartialOrd, Ord)]
pub struct SensorSyncTimeFrame(Register8);

impl SensorSyncTimeFrame {
    /// Wrap a raw register value read from the device.
    pub fn register(target_register: Register8) -> (target_value: Self)
        ensures
            target_value.word() == target_register.word(),
    {
        SensorSyncTimeFrame(target_register)
    }

    /// Extract the `tph` bit sequence of this register.
    ///
    /// Sensor synchronization time frame with a step of 500 ms and a full range of 5 s.
    ///
    /// Default value: `0b0000_0000`.
    pub fn tph(&self) -> (target_bits: Extracted<0, 7, Self>)
        ensures
            target_bits.wf(),
            target_bits.target() == *self,
    {
        Extracted::wrap(self)
    }

    /// Retrieve a mutable handle to the `tph` bit sequence of this register.
    ///
    /// Sensor synchronization time frame with a step of 500 ms and a full range of 5 s.
    ///
    /// Default value: `0b0000_0000`.
    pub fn tph_mut(&mut self) -> (target_bits: ExtractedMut<'_, 0, 7, Self>)
        ensures
            target_bits.current() == *old(self),
            has_resolved(target_bits) ==> *final(self) == target_bits.current(),
    {
        ExtractedMut::wrap(self)
    }
}

impl HasPrimitive for SensorSyncTimeFrame {
    type Primitive = u8;

    open spec fn width() -> nat {
        8
    }

    closed spec fn word(&self) -> u16 {
        self.0.word()
    }

    open spec fn primitive_word(target_value: u8) -> u16 {
        target_value as u16
    }

    proof fn lemma_layout(&self) {
        self.0.lemma_layout();
    }

    fn raw(self) -> (target_value: u8) {
        self.0.value()
    }

    fn load(&self) -> (target_word: u16) {
        self.0.load()
    }

    fn store(target_word: u16) -> (target_value: Self) {
        SensorSyncTimeFrame(Register8::store(target_word))
    }
}

impl Bits for SensorSyncTimeFrame {
    fn single<const N: usize>() -> (target_value: Self) {
        SensorSyncTimeFrame(Register8::single::<N>())
    }
}

impl Extract for SensorSyncTimeFrame {
}

impl Register for SensorSyncTimeFrame {
    const ADDRESS: u8 = 0x04;
}

/// FIFO control register (r/w).
///
/// # Layout
///
/// | Bit Range | Description                                                       |
/// |-----------|-------------------------------------------------------------------|
/// | 0..=7     | FIFO threshold level setting                                       |
#[derive(Debug, Clone, Copy, PartialEq, Eq, Structural, PartialOrd, Ord)]
pub struct FifoCtrl1(Register8);

impl FifoCtrl1 {
    /// Wrap a raw register value read from the device.
    pub fn register(target_register: Register8) -> (target_value: Self)
        ensures
            target_value.word() == target_register.word(),
    {
        FifoCtrl1(target_register)
    }

    /// Extract the `fth` bit sequence of this register.
    ///
    /// FIFO threshold level setting.
    ///
    /// Watermark flag rises when the number of bytes written to FIFO exceeds or equals the threshold level.
    ///
    /// Default value: `0b0000_0000`.
    pub fn fth(&self) -> (target_bits: Extracted<0, 7, Self>)
        ensures
            target_bits.wf(),
            target_bits.target() == *self,
    {
        Extracted::wrap(self)
    }

    /// Retrieve a mutable handle to the `fth` bit sequence of this register.
    ///
    /// FIFO threshold level setting.
    ///
    /// Watermark flag rises when the number of bytes written to FIFO exceeds or equals the threshold level.
    ///
    /// Default value: `0b0000_0000`.
    pub fn fth_mut(&mut self) -> (target_bits: ExtractedMut<'_, 0, 7, Self>)
        ensures
            target_bits.current() == *old(self),
            has_resolved(target_bits) ==> *final(self) == target_bits.current(),
    {
        ExtractedMut::wrap(self)
    }
}

impl HasPrimitive for FifoCtrl1 {
    type Primitive = u8;

    open spec fn width() -> nat {
        8
    }

    closed spec fn word(&self) -> u16 {
        self.0.word()
    }

    open spec fn primitive_word(target_value: u8) -> u16 {
        target_value as u16
    }

    proof fn lemma_layout(&self) {
        self.0.lemma_layout();
    }

    fn raw(self) -> (target_value: u8) {
        self.0.value()
    }

    fn load(&self) -> (target_word: u16) {
        self.0.load()
    }

    fn store(target_word: u16) -> (target_value: Self) {
        FifoCtrl1(Register8::store(target_word))
    }
}

impl Bits for FifoCtrl1 {
    fn single<const N: usize>() -> (target_value: Self) {
        FifoCtrl1(Register8::single::<N>())
    }
}

impl Extract for FifoCtrl1 {
}

impl Register for FifoCtrl1 {
    const ADDRESS: u8 = 0x06;
}

/// FIFO control register 2 (r/w).
///
/// # Layout
///
/// | Bit Range | Description                                                       |
/// |-----------|-------------------------------------------------------------------|
/// | 0..=3     | FIFO threshold level setting                                       |
#[derive(Debug, Clone, Copy, PartialEq, Eq, Structural, PartialOrd, Ord)]
pub struct FifoCtrl2(Register8);

impl FifoCtrl2 {
    /// Wrap a raw register value read from the device.
    pub fn register(target_register: Register8) -> (target_value: Self)
        ensures
            target_value.word() == target_register.word(),
    {
        FifoCtrl2(target_register)
    }

    /// Extract the `fth_11_8` bit sequence of this register.
    ///
    /// FIFO threshold level setting.
    ///
    /// Default value: `0b0000`.
    pub fn fth_11_8(&self) -> (target_bits: Extracted<0, 3, Self>)
        ensures
            target_bits.wf(),
            target_bits.target() == *self,
    {
        Extracted::wrap(self)
    }

    /// Retrieve a mutable handle to the `fth_11_8` bit sequence of this register.
    ///
    /// FIFO threshold level setting.
    ///
    /// Default value: `0b0000`.
    pub fn fth_11_8_mut(&mut self) -> (target_bits: ExtractedMut<'_, 0, 3, Self>)
        ensures
            target_bits.current() == *old(self),
            has_resolved(target_bits) ==> *final(self) == target_bits.current(),
    {
        ExtractedMut::wrap(self)
    }
}

impl HasPrimitive for FifoCtrl2 {
    type Primitive = u8;

    open spec fn width() -> nat {
        8
    }

    closed spec fn word(&self) -> u16 {
        self.0.word()
    }

    open spec fn primitive_word(target_value: u8) -> u16 {
        target_value as u16
    }

    proof fn lemma_layout(&self) {
        self.0.lemma_layout();
    }

    fn raw(self) -> (target_value: u8) {
        self.0.value()
    }

    fn load(&self) -> (target_word: u16) {
        self.0.load()
    }

    fn store(target_word: u16) -> (target_value: Self) {
        FifoCtrl2(Register8::store(target_word))
    }
}

impl Bits for FifoCtrl2 {
    fn single<const N: usize>() -> (target_value: Self) {
        FifoCtrl2(Register8::single::<N>())
    }
}

impl Extract for FifoCtrl2 {
}

impl Register for FifoCtrl2 {
    const ADDRESS: u8 = 0x07;
}

/// FIFO control register 3 (r/w).
///
/// # Layout
///
/// | Bit Range | Description                                                       |
/// |-----------|-------------------------------------------------------------------|
/// | 0..=7     | Gyro and accelerometer FIFO decimation settings                    |
#[derive(Debug, Clone, Copy, PartialEq, Eq, Structural, PartialOrd, Ord)]
pub struct FifoCtrl3(Register8);

impl FifoCtrl3 {
    /// Wrap a raw register value read from the device.
    pub fn register(target_register: Register8) -> (target_value: Self)
        ensures
            target_value.word() == target_register.word(),
    {
        FifoCtrl3(target_register)
    }

    /// Extract the `dec_fifo_gyro` bit sequence of this register.
    ///
    /// Gyroscope FIFO decimation setting.
    ///
    /// # Decimation Factor Table
    ///
    /// | Bit Pattern | Decimation Factor    |
    /// |-------------|----------------------|
    /// | `000`       | Gyro not in FIFO     |
    /// | `001`       | No decimation        |
    /// | `010`       | Decimation by 2      |
    /// | `011`       | Decimation by 3      |
    /// | `100`       | Decimation by 4      |
    /// | `101`       | Decimation by 8      |
    /// | `110`       | Decimation by 16     |
    /// | `111`       | Decimation by 32     |
    pub fn dec_fifo_gyro(&self) -> (target_bits: Extracted<0, 2, Self>)
        ensures
            target_bits.wf(),
            target_bits.target() == *self,
    {
        Extracted::wrap(self)
    }

    /// Retrieve a mutable handle to the `dec_fifo_gyro` bit sequence of this register.
    ///
    /// Gyroscope FIFO decimation setting.
    ///
    /// # Decimation Factor Table
    ///
    /// | Bit Pattern | Decimation Factor    |
    /// |-------------|----------------------|
    /// | `000`       | Gyro not in FIFO     |
    /// | `001`       | No decimation        |
    /// | `010`       | Decimation by 2      |
    /// | `011`       | Decimation by 3      |
    /// | `100`       | Decimation by 4      |
    /// | `101`       | Decimation by 8      |
    /// | `110`       | Decimation by 16     |
    /// | `111`       | Decimation by 32     |
    pub fn dec_fifo_gyro_mut(&mut self) -> (target_bits: ExtractedMut<'_, 0, 2, Self>)
        ensures
            target_bits.current() == *old(self),
            has_resolved(target_bits) ==> *final(self) == target_bits.current(),
    {
        ExtractedMut::wrap(self)
    }

    /// Extract the `dec_fifo_xl` bit sequence of this register.
    ///
    /// Accelerometer FIFO decimation setting.
    ///
    /// # Decimation Factor Table
    ///
    /// | Bit Pattern | Decimation Factor    |
    /// |-------------|----------------------|
    /// | `000`       | Accelerometer not in FIFO |
    /// | `001`       | No decimation        |
    /// | `010`       | Decimation by 2      |
    /// | `011`       | Decimation by 3      |
    /// | `100`       | Decimation by 4      |
    /// | `101`       | Decimation by 8      |
    /// | `110`       | Decimation by 16     |
    /// | `111`       | Decimation by 32     |
    pub fn dec_fifo_xl(&self) -> (target_bits: Extracted<3, 5, Self>)
        ensures
            target_bits.wf(),
            target_bits.target() == *self,
    {
        Extracted::wrap(self)
    }

    /// Retrieve a mutable handle to the `dec_fifo_xl` bit sequence of this register.
    ///
    /// Accelerometer FIFO decimation setting.
    ///
    /// # Decimation Factor Table
    ///
    /// | Bit Pattern | Decimation Factor    |
    /// |-------------|----------------------|
    /// | `000`       | Accelerometer not in FIFO |
    /// | `001`       | No decimation        |
    /// | `010`       | Decimation by 2      |
    /// | `011`       | Decimation by 3      |
    /// | `100`       | Decimation by 4      |
    /// | `101`       | Decimation by 8      |
    /// | `110`       | Decimation by 16     |
    /// | `111`       | Decimation by 32     |
    pub fn dec_fifo_xl_mut(&mut self) -> (target_bits: ExtractedMut<'_, 3, 5, Self>)
        ensures
            target_bits.current() == *old(self),
            has_resolved(target_bits) ==> *final(self) == target_bits.current(),
    {
        ExtractedMut::wrap(self)
    }
}

impl HasPrimitive for FifoCtrl3 {
    type Primitive = u8;

    open spec fn width() -> nat {
        8
    }

    closed spec fn word(&self) -> u16 {
        self.0.word()
    }

    open spec fn primitive_word(target_value: u8) -> u16 {
        target_value as u16
    }

    proof fn lemma_layout(&self) {
        self.0.lemma_layout();
    }

    fn raw(self) -> (target_value: u8) {
        self.0.value()
    }

    fn load(&self) -> (target_word: u16) {
        self.0.load()
    }

    fn store(target_word: u16) -> (target_value: Self) {
        FifoCtrl3(Register8::store(target_word))
    }
}

impl Bits for FifoCtrl3 {
    fn single<const N: usize>() -> (target_value: Self) {
        FifoCtrl3(Register8::single::<N>())
    }
}

impl Extract for FifoCtrl3 {
}

impl Register for FifoCtrl3 {
    const ADDRESS: u8 = 0x08;
}

/// FIFO control register 4 (r/w).
///
/// # Layout
///
/// | Bit Range | Description                                                       |
/// |-----------|-------------------------------------------------------------------|
/// | 0..=7     | FIFO data set decimation settings                                  |
#[derive(Debug, Clone, Copy, PartialEq, Eq, Structural, PartialOrd, Ord)]
pub struct FifoCtrl4(Register8);

impl FifoCtrl4 {
    /// Wrap a raw register value read from the device.
    pub fn register(target_register: Register8) -> (target_value: Self)
        ensures
            target_value.word() == target_register.word(),
    {
        FifoCtrl4(target_register)
    }

    /// Extract the `dec_ds4_fifo` bit sequence of this register.
    ///
    /// Fourth FIFO data set decimation setting.
    ///
    /// # Decimation Factor Table
    ///
    /// | Bit Pattern | Decimation Factor    |
    /// |-------------|----------------------|
    /// | `000`       | Fourth data set not in FIFO |
    /// | `001`       | No decimation        |
    /// | `010`       | Decimation by 2      |
    /// | `011`       | Decimation by 3      |
    /// | `100`       | Decimation by 4      |
    /// | `101`       | Decimation by 8      |
    /// | `110`       | Decimation by 16     |
    /// | `111`       | Decimation by 32     |
    pub fn dec_ds4_fifo(&self) -> (target_bits: Extracted<0, 2, Self>)
        ensures
            target_bits.wf(),
            target_bits.target() == *self,
    {
        Extracted::wrap(self)
    }

    /// Retrieve a mutable handle to the `dec_ds4_fifo` bit sequence of this register.
    ///
    /// Fourth FIFO data set decimation setting.
    ///
    /// # Decimation Factor Table
    ///
    /// | Bit Pattern | Decimation Factor    |
    /// |-------------|----------------------|
    /// | `000`       | Fourth data set not in FIFO |
    /// | `001`       | No decimation        |
    /// | `010`       | Decimation by 2      |
    /// | `011`       | Decimation by 3      |
    /// | `100`       | Decimation by 4      |
    /// | `101`       | Decimation by 8      |
    /// | `110`       | Decimation by 16     |
    /// | `111`       | Decimation by 32     |
    pub fn dec_ds4_fifo_mut(&mut self) -> (target_bits: ExtractedMut<'_, 0, 2, Self>)
        ensures
            target_bits.current() == *old(self),
            has_resolved(target_bits) ==> *final(self) == target_bits.current(),
    {
        ExtractedMut::wrap(self)
    }

    /// Extract the `dec_ds3_fifo` bit sequence of this register.
    ///
    /// Third FIFO data set decimation setting.
    ///
    /// # Decimation Factor Table
    ///
    /// | Bit Pattern | Decimation Factor    |
    /// |-------------|----------------------|
    /// | `000`       | Third data set not in FIFO |
    /// | `001`       | No decimation        |
    /// | `010`       | Decimation by 2      |
    /// | `011`       | Decimation by 3      |
    /// | `100`       | Decimation by 4      |
    /// | `101`       | Decimation by 8      |
    /// | `110`       | Decimation by 16     |
    /// | `111`       | Decimation by 32     |
    pub fn dec_ds3_fifo(&self) -> (target_bits: Extracted<3, 5, Self>)
        ensures
            target_bits.wf(),
            target_bits.target() == *self,
    {
        Extracted::wrap(self)
    }

    /// Retrieve a mutable handle to the `dec_ds3_fifo` bit sequence of this register.
    ///
    /// Third FIFO data set decimation setting.
    ///
    /// # Decimation Factor Table
    ///
    /// | Bit Pattern | Decimation Factor    |
    /// |-------------|----------------------|
    /// | `000`       | Third data set not in FIFO |
    /// | `001`       | No decimation        |
    /// | `010`       | Decimation by 2      |
    /// | `011`       | Decimation by 3      |
    /// | `100`       | Decimation by 4      |
    /// | `101`       | Decimation by 8      |
    /// | `110`       | Decimation by 16     |
    /// | `111`       | Decimation by 32     |
    pub fn dec_ds3_fifo_mut(&mut self) -> (target_bits: ExtractedMut<'_, 3, 5, Self>)
        ensures
            target_bits.current() == *old(self),
            has_resolved(target_bits) ==> *final(self) == target_bits.current(),
    {
        ExtractedMut::wrap(self)
    }
}

impl HasPrimitive for FifoCtrl4 {
    type Primitive = u8;

    open spec fn width() -> nat {
        8
    }

    closed spec fn word(&self) -> u16 {
        self.0.word()
    }

    open spec fn primitive_word(target_value: u8) -> u16 {
        target_value as u16
    }

    proof fn lemma_layout(&self) {
        self.0.lemma_layout();
    }

    fn raw(self) -> (target_value: u8) {
        self.0.value()
    }

    fn load(&self) -> (target_word: u16) {
        self.0.load()
    }

    fn store(target_word: u16) -> (target_value: Self) {
        FifoCtrl4(Register8::store(target_word))
    }
}

impl Bits for FifoCtrl4 {
    fn single<const N: usize>() -> (target_value: Self) {
        FifoCtrl4(Register8::single::<N>())
    }
}

impl Extract for FifoCtrl4 {
}

impl Register for FifoCtrl4 {
    const ADDRESS: u8 = 0x09;
}

/// FIFO control register 5 (r/w).
///
/// # Layout
///
/// | Bit Range | Description                                                       |
/// |-----------|-------------------------------------------------------------------|
/// | 0..=7     | FIFO output data rate (ODR) and mode selection                    |
#[derive(Debug, Clone, Copy, PartialEq, Eq, Structural, PartialOrd, Ord)]
pub struct FifoCtrl5(Register8);

impl FifoCtrl5 {
    /// Wrap a raw register value read from the device.
    pub fn register(target_register: Register8) -> (target_value: Self)
        ensures
            target_value.word() == target_register.word(),
    {
        FifoCtrl5(target_register)
    }

    /// Extract the `odr_fifo` bit sequence of this register.
    ///
    /// FIFO output data rate selection and mode setting.
    ///
    /// # ODR Configuration Table
    ///
    /// | Bit Pattern | ODR    | Mode   |
    /// |-------------|--------|--------|
    /// | `0000`      | Disabled  | Bypass |
    /// | `0001`      | 12.5 Hz  | FIFO   |
    /// | `0010`      | 26 Hz    | FIFO   |
    /// | `0011`      | 52 Hz    | FIFO   |
    /// | `0100`      | 104 Hz   | FIFO   |
    /// | `0101`      | 208 Hz   | FIFO   |
    /// | `0110`      | 416 Hz   | FIFO   |
    /// | `0111`      | 833 Hz   | FIFO   |
    /// | `1000`      | 1.66 kHz | FIFO   |
    /// | `1001`      | 3.33 kHz | FIFO   |
    /// | `1010`      | 6.66 kHz | FIFO   |
    pub fn odr_fifo(&self) -> (target_bits: Extracted<0, 3, Self>)
        ensures
            target_bits.wf(),
            target_bits.target() == *self,
    {
        Extracted::wrap(self)
    }

    /// Retrieve a mutable handle to the `odr_fifo` bit sequence of this register.
    ///
    /// FIFO output data rate selection and mode setting.
    ///
    /// # ODR Configuration Table
    ///
    /// | Bit Pattern | ODR    | Mode   |
    /// |-------------|--------|--------|
    /// | `0000`      | Disabled  | Bypass |
    /// | `0001`      | 12.5 Hz  | FIFO   |
    /// | `0010`      | 26 Hz    | FIFO   |
    /// | `0011`      | 52 Hz    | FIFO   |
    /// | `0100`      | 104 Hz   | FIFO   |
    /// | `0101`      | 208 Hz   | FIFO   |
    /// | `0110`      | 416 Hz   | FIFO   |
    /// | `0111`      | 833 Hz   | FIFO   |
    /// | `1000`      | 1.66 kHz | FIFO   |
    /// | `1001`      | 3.33 kHz | FIFO   |
    /// | `1010`      | 6.66 kHz | FIFO   |
    pub fn odr_fifo_mut(&mut self) -> (target_bits: ExtractedMut<'_, 0, 3, Self>)
        ensures
            target_bits.current() == *old(self),
            has_resolved(target_bits) ==> *final(self) == target_bits.current(),
    {
        ExtractedMut::wrap(self)
    }

    /// Extract the `fifo_mode` bit sequence of this register.
    ///
    /// FIFO mode selection setting.
    ///
    /// # Mode Configuration Table
    ///
    /// | Bit Pattern | Mode        |
    /// |-------------|-------------|
    /// | `000`       | Bypass mode |
    /// | `001`       | FIFO mode   |
    /// | `010`       | Reserved    |
    /// | `011`       | Continuous mode |
    /// | `100`       | Bypass mode until trigger |
    /// | `101`       | Reserved    |
    /// | `110`       | Continuous mode, overwrite |
    /// | `111`       | Reserved    |
    pub fn fifo_mode(&self) -> (target_bits: Extracted<4, 6, Self>)
        ensures
            target_bits.wf(),
            target_bits.target() == *self,
    {
        Extracted::wrap(self)
    }

    /// Retrieve a mutable handle to the `fifo_mode` bit sequence of this register.
    ///
    /// FIFO mode selection setting.
    ///
    /// # Mode Configuration Table
    ///
    /// | Bit Pattern | Mode        |
    /// |-------------|-------------|
    /// | `000`       | Bypass mode |
    /// | `001`       | FIFO mode   |
    /// | `010`       | Reserved    |
    /// | `011`       | Continuous mode |
    /// | `100`       | Bypass mode until trigger |
    /// | `101`       | Reserved    |
    /// | `110`       | Continuous mode, overwrite |
    /// | `111`       | Reserved    |
    pub fn fifo_mode_mut(&mut self) -> (target_bits: ExtractedMut<'_, 4, 6, Self>)
        ensures
            target_bits.current() == *old(self),
            has_resolved(target_bits) ==> *final(self) == target_bits.current(),
    {
        ExtractedMut::wrap(self)
    }
}

impl HasPrimitive for FifoCtrl5 {
    type Primitive = u8;

    open spec fn width() -> nat {
        8
    }

    closed spec fn word(&self) -> u16 {
        self.0.word()
    }

    open spec fn primitive_word(target_value: u8) -> u16 {
        target_value as u16
    }

    proof fn lemma_layout(&self) {
        self.0.lemma_layout();
    }

    fn raw(self) -> (target_value: u8) {
        self.0.value()
    }

    fn load(&self) -> (target_word: u16) {
        self.0.load()
    }

    fn store(target_word: u16) -> (target_value: Self) {
        FifoCtrl5(Register8::store(target_word))
    }
}

impl Bits for FifoCtrl5 {
    fn single<const N: usize>() -> (target_value: Self) {
        FifoCtrl5(Register8::single::<N>())
    }
}

impl Extract for FifoCtrl5 {
}

impl Register for FifoCtrl5 {
    const ADDRESS: u8 = 0x0A;
}

/// Angular rate sensor sign and orientation register (r/w).
///
/// This register configures the output sign and axis orientation for gyroscope measurements.
///
/// # Layout
///
/// | Bit Range | Description                               |
/// |-----------|-------------------------------------------|
/// | 0..=2     | Directional user-orientation configuration |
/// | 3..=5     | Sign inversion for X, Y, and Z axes        |
/// | 6..=7     | Reserved                                   |
///
#[derive(Debug, Clone, Copy, PartialEq, Eq, Structural, PartialOrd, Ord)]
pub struct OrientCfgG(Register8);

impl OrientCfgG {
    /// Wrap a raw register value read from the device.
    pub fn register(target_register: Register8) -> (target_value: Self)
        ensures
            target_value.word() == target_register.word(),
    {
        OrientCfgG(target_register)
    }

    /// Extract the `orient` bit sequence of this register.
    ///
    /// Directional orientation selection for the gyroscope axes.
    ///
    /// This field sets the mapping of pitch, roll, and yaw onto the device axes.
    ///
    /// # Orientation Mapping Table
    ///
    /// | Bit Pattern | Pitch | Roll | Yaw |
    /// |-------------|--------|------|-----|
    /// | `000`       | X      | Y    | Z   |
    /// | `001`       | X      | Z    | Y   |
    /// | `010`       | Y      | X    | Z   |
    /// | `011`       | Y      | Z    | X   |
    /// | `100`       | Z      | X    | Y   |
    /// | `101`       | Z      | Y    | X   |
    ///
    /// Default: `0b000`
    pub fn orient(&self) -> (target_bits: Extracted<0, 2, Self>)
        ensures
            target_bits.wf(),
            target_bits.target() == *self,
    {
        Extracted::wrap(self)
    }

    /// Retrieve a mutable handle to the `orient` bit sequence of this register.
    ///
    /// Directional orientation selection for the gyroscope axes.
    ///
    /// This field sets the mapping of pitch, roll, and yaw onto the device axes.
    ///
    /// # Orientation Mapping Table
    ///
    /// | Bit Pattern | Pitch | Roll | Yaw |
    /// |-------------|--------|------|-----|
    /// | `000`       | X      | Y    | Z   |
    /// | `001`       | X      | Z    | Y   |
    /// | `010`       | Y      | X    | Z   |
    /// | `011`       | Y      | Z    | X   |
    /// | `100`       | Z      | X    | Y   |
    /// | `101`       | Z      | Y    | X   |
    ///
    /// Default: `0b000`
    pub fn orient_mut(&mut self) -> (target_bits: ExtractedMut<'_, 0, 2, Self>)
        ensures
            target_bits.current() == *old(self),
            has_resolved(target_bits) ==> *final(self) == target_bits.current(),
    {
        ExtractedMut::wrap(self)
    }

    /// Retrieve an immutable handle to the `sign_x_g` bit of this register.
    ///
    /// Sign inversion for the pitch axis (X).
    ///
    /// # Sign Configuration
    ///
    /// | Bit | Description     |
    /// |-----|-----------------|
    /// | `0` | Positive sign   |
    /// | `1` | Negative sign   |
    ///
    /// Default: `0`
    pub fn sign_x_g(&self) -> (target_bit: Bit<'_, Self, 3>)
        ensures
            target_bit.target() == *self,
    {
        Bit::wrap(self)
    }

    /// Retrieve a mutable handle to the `sign_x_g` bit of this register.
    ///
    /// Sign inversion for the pitch axis (X).
    ///
    /// # Sign Configuration
    ///
    /// | Bit | Description     |
    /// |-----|-----------------|
    /// | `0` | Positive sign   |
    /// | `1` | Negative sign   |
    ///
    /// Default: `0`
    pub fn sign_x_g_mut(&mut self) -> (target_bit: BitMut<'_, Self, 3>)
        ensures
            target_bit.current() == *old(self),
            has_resolved(target_bit) ==> *final(self) == target_bit.current(),
    {
        BitMut::wrap(self)
    }

    /// Retrieve an immutable handle to the `sign_y_g` bit of this register.
    ///
    /// Sign inversion for the roll axis (Y).
    ///
    /// # Sign Configuration
    ///
    /// | Bit | Description     |
    /// |-----|-----------------|
    /// | `0` | Positive sign   |
    /// | `1` | Negative sign   |
    ///
    /// Default: `0`
    pub fn sign_y_g(&self) -> (target_bit: Bit<'_, Self, 4>)
        ensures
            target_bit.target() == *self,
    {
        Bit::wrap(self)
    }

    /// Retrieve a mutable handle to the `sign_y_g` bit of this register.
    ///
    /// Sign inversion for the roll axis (Y).
    ///
    /// # Sign Configuration
    ///
    /// | Bit | Description     |
    /// |-----|-----------------|
    /// | `0` | Positive sign   |
    /// | `1` | Negative sign   |
    ///
    /// Default: `0`
    pub fn sign_y_g_mut(&mut self) -> (target_bit: BitMut<'_, Self, 4>)
        ensures
            target_bit.current() == *old(self),
            has_resolved(target_bit) ==> *final(self) == target_bit.current(),
    {
        BitMut::wrap(self)
    }

    /// Retrieve an immutable handle to the `sign_z_g` bit of this register.
    ///
    /// Sign inversion for the yaw axis (Z).
    ///
    /// # Sign Configuration
    ///
    /// | Bit | Description     |
    /// |-----|-----------------|
    /// | `0` | Positive sign   |
    /// | `1` | Negative sign   |
    ///
    /// Default: `0`
    pub fn sign_z_g(&self) -> (target_bit: Bit<'_, Self, 5>)
        ensures
            target_bit.target() == *self,
    {
        Bit::wrap(self)
    }

    /// Retrieve a mutable handle to the `sign_z_g` bit of this register.
    ///
    /// Sign inversion for the yaw axis (Z).
    ///
    /// # Sign Configuration
    ///
    /// | Bit | Description     |
    /// |-----|-----------------|
    /// | `0` | Positive sign   |
    /// | `1` | Negative sign   |
    ///
    /// Default: `0`
    pub fn sign_z_g_mut(&mut self) -> (target_bit: BitMut<'_, Self, 5>)
        ensures
            target_bit.current() == *old(self),
            has_resolved(target_bit) ==> *final(self) == target_bit.current(),
    {
        BitMut::wrap(self)
    }
}

impl HasPrimitive for OrientCfgG {
    type Primitive = u8;

    open spec fn width() -> nat {
        8
    }

    closed spec fn word(&self) -> u16 {
        self.0.word()
    }

    open spec fn primitive_word(target_value: u8) -> u16 {
        target_value as u16
    }

    proof fn lemma_layout(&self) {
        self.0.lemma_layout();
    }

    fn raw(self) -> (target_value: u8) {
        self.0.value()
    }

    fn load(&self) -> (target_word: u16) {
        self.0.load()
    }

    fn store(target_word: u16) -> (target_value: Self) {
        OrientCfgG(Register8::store(target_word))
    }
}

impl Bits for OrientCfgG {
    fn single<const N: usize>() -> (target_value: Self) {
        OrientCfgG(Register8::single::<N>())
    }
}

impl Extract for OrientCfgG {
}

impl Register for OrientCfgG {
    const ADDRESS: u8 = 0x0B;
}

/// INT1 pad signal routing register (r/w).
///
/// This register enables specific internal signals to be routed to the INT1 pin.
/// Each bit enables or disables one interrupt condition output.
///
/// # Layout
///
/// | Bit | Description                                |
/// |-----|--------------------------------------------|
/// | 0   | Accelerometer data ready interrupt         |
/// | 1   | Gyroscope data ready interrupt             |
/// | 2   | Boot status                                |
/// | 3   | FIFO threshold interrupt                   |
/// | 4   | FIFO overrun interrupt                     |
/// | 5   | FIFO full interrupt                        |
/// | 6   | Significant motion detection interrupt     |
/// | 7   | Step detector interrupt                    |
///
#[derive(Debug, Clone, Copy, PartialEq, Eq, Structural, PartialOrd, Ord)]
pub struct Int1Ctrl(Register8);

impl Int1Ctrl {
    /// Wrap a raw register value read from the device.
    pub fn register(target_register: Register8) -> (target_value: Self)
        ensures
            target_value.word() == target_register.word(),
    {
        Int1Ctrl(target_register)
    }

    /// Retrieve an immutable handle to the `int1_drdy_xl` bit of this register.
    ///
    /// Accelerometer data ready routed to INT1.
    ///
    /// # Routing Table
    ///
    /// | Bit | INT1 Signal |
    /// |-----|-------------|
    /// | `0` | Disabled    |
    /// | `1` | Enabled     |
    ///
    /// Default: `0`
    pub fn int1_drdy_xl(&self) -> (target_bit: Bit<'_, Self, 0>)
        ensures
            target_bit.target() == *self,
    {
        Bit::wrap(self)
    }

    /// Retrieve a mutable handle to the `int1_drdy_xl` bit of this register.
    ///
    /// Accelerometer data ready routed to INT1.
    ///
    /// # Routing Table
    ///
    /// | Bit | INT1 Signal |
    /// |-----|-------------|
    /// | `0` | Disabled    |
    /// | `1` | Enabled     |
    ///
    /// Default: `0`
    pub fn int1_drdy_xl_mut(&mut self) -> (target_bit: BitMut<'_, Self, 0>)
        ensures
            target_bit.current() == *old(self),
            has_resolved(target_bit) ==> *final(self) == target_bit.current(),
    {
        BitMut::wrap(self)
    }

    /// Retrieve an immutable handle to the `int1_drdy_g` bit of this register.
    ///
    /// Gyroscope data ready routed to INT1.
    ///
    /// Default: `0`
    pub fn int1_drdy_g(&self) -> (target_bit: Bit<'_, Self, 1>)
        ensures
            target_bit.target() == *self,
    {
        Bit::wrap(self)
    }

    /// Retrieve a mutable handle to the `int1_drdy_g` bit of this register.
    ///
    /// Gyroscope data ready routed to INT1.
    ///
    /// Default: `0`
    pub fn int1_drdy_g_mut(&mut self) -> (target_bit: BitMut<'_, Self, 1>)
        ensures
            target_bit.current() == *old(self),
            has_resolved(target_bit) ==> *final(self) == target_bit.current(),
    {
        BitMut::wrap(self)
    }

    /// Retrieve an immutable handle to the `int1_boot` bit of this register.
    ///
    /// Boot status indication routed to INT1.
    ///
    /// Default: `0`
    pub fn int1_boot(&self) -> (target_bit: Bit<'_, Self, 2>)
        ensures
            target_bit.target() == *self,
    {
        Bit::wrap(self)
    }

    /// Retrieve a mutable handle to the `int1_boot` bit of this register.
    ///
    /// Boot status indication routed to INT1.
    ///
    /// Default: `0`
    pub fn int1_boot_mut(&mut self) -> (target_bit: BitMut<'_, Self, 2>)
        ensures
            target_bit.current() == *old(self),
            has_resolved(target_bit) ==> *final(self) == target_bit.current(),
    {
        BitMut::wrap(self)
    }

    /// Retrieve an immutable handle to the `int1_fth` bit of this register.
    ///
    /// FIFO threshold interrupt routed to INT1.
    ///
    /// Default: `0`
    pub fn int1_fth(&self) -> (target_bit: Bit<'_, Self, 3>)
        ensures
            target_bit.target() == *self,
    {
        Bit::wrap(self)
    }

    /// Retrieve a mutable handle to the `int1_fth` bit of this register.
    ///
    /// FIFO threshold interrupt routed to INT1.
    ///
    /// Default: `0`
    pub fn int1_fth_mut(&mut self) -> (target_bit: BitMut<'_, Self, 3>)
        ensures
            target_bit.current() == *old(self),
            has_resolved(target_bit) ==> *final(self) == target_bit.current(),
    {
        BitMut::wrap(self)
    }

    /// Retrieve an immutable handle to the `int1_fifo_ovr` bit of this register.
    ///
    /// FIFO overrun interrupt routed to INT1.
    ///
    /// Default: `0`
    pub fn int1_fifo_ovr(&self) -> (target_bit: Bit<'_, Self, 4>)
        ensures
            target_bit.target() == *self,
    {
        Bit::wrap(self)
    }

    /// Retrieve a mutable handle to the `int1_fifo_ovr` bit of this register.
    ///
    /// FIFO overrun interrupt routed to INT1.
    ///
    /// Default: `0`
    pub fn int1_fifo_ovr_mut(&mut self) -> (target_bit: BitMut<'_, Self, 4>)
        ensures
            target_bit.current() == *old(self),
            has_resolved(target_bit) ==> *final(self) == target_bit.current(),
    {
        BitMut::wrap(self)
    }

    /// Retrieve an immutable handle to the `int1_full_flag` bit of this register.
    ///
    /// FIFO full interrupt routed to INT1.
    ///
    /// Default: `0`
    pub fn int1_full_flag(&self) -> (target_bit: Bit<'_, Self, 5>)
        ensures
            target_bit.target() == *self,
    {
        Bit::wrap(self)
    }

    /// Retrieve a mutable handle to the `int1_full_flag` bit of this register.
    ///
    /// FIFO full interrupt routed to INT1.
    ///
    /// Default: `0`
    pub fn int1_full_flag_mut(&mut self) -> (target_bit: BitMut<'_, Self, 5>)
        ensures
            target_bit.current() == *old(self),
            has_resolved(target_bit) ==> *final(self) == target_bit.current(),
    {
        BitMut::wrap(self)
    }

    /// Retrieve an immutable handle to the `int1_sign_mot` bit of this register.
    ///
    /// Significant motion detection interrupt routed to INT1.
    ///
    /// Default: `0`
    pub fn int1_sign_mot(&self) -> (target_bit: Bit<'_, Self, 6>)
        ensures
            target_bit.target() == *self,
    {
        Bit::wrap(self)
    }

    /// Retrieve a mutable handle to the `int1_sign_mot` bit of this register.
    ///
    /// Significant motion detection interrupt routed to INT1.
    ///
    /// Default: `0`
    pub fn int1_sign_mot_mut(&mut self) -> (target_bit: BitMut<'_, Self, 6>)
        ensures
            target_bit.current() == *old(self),
            has_resolved(target_bit) ==> *final(self) == target_bit.current(),
    {
        BitMut::wrap(self)
    }

    /// Retrieve an immutable handle to the `int1_step_detector` bit of this register.
    ///
    /// Step detector interrupt routed to INT1.
    ///
    /// Default: `0`
    pub fn int1_step_detector(&self) -> (target_bit: Bit<'_, Self, 7>)
        ensures
            target_bit.target() == *self,
    {
        Bit::wrap(self)
    }

    /// Retrieve a mutable handle to the `int1_step_detector` bit of this register.
    ///
    /// Step detector interrupt routed to INT1.
    ///
    /// Default: `0`
    pub fn int1_step_detector_mut(&mut self) -> (target_bit: BitMut<'_, Self, 7>)
        ensures
            target_bit.current() == *old(self),
            has_resolved(target_bit) ==> *final(self) == target_bit.current(),
    {
        BitMut::wrap(self)
    }
}

impl HasPrimitive for Int1Ctrl {
    type Primitive = u8;

    open spec fn width() -> nat {
        8
    }

    closed spec fn word(&self) -> u16 {
        self.0.word()
    }

    open spec fn primitive_word(target_value: u8) -> u16 {
        target_value as u16
    }

    proof fn lemma_layout(&self) {
        self.0.lemma_layout();
    }

    fn raw(self) -> (target_value: u8) {
        self.0.value()
    }

    fn load(&self) -> (target_word: u16) {
        self.0.load()
    }

    fn store(target_word: u16) -> (target_value: Self) {
        Int1Ctrl(Register8::store(target_word))
    }
}

impl Bits for Int1Ctrl {
    fn single<const N: usize>() -> (target_value: Self) {
        Int1Ctrl(Register8::single::<N>())
    }
}

impl Extract for Int1Ctrl {
}

impl Register for Int1Ctrl {
    const ADDRESS: u8 = 0x0D;
}

/// INT2 pad signal routing register (r/w).
///
/// This register enables internal signals to be routed to the INT2 pin.
///
/// # Layout
///
/// | Bit | Description                                |
/// |-----|--------------------------------------------|
/// | 0   | Accelerometer data ready interrupt         |
/// | 1   | Gyroscope data ready interrupt             |
/// | 2   | Temperature sensor data ready interrupt    |
/// | 3   | FIFO threshold interrupt                   |
/// | 4   | FIFO overrun interrupt                     |
/// | 5   | FIFO full interrupt                        |
/// | 6   | Step counter overflow interrupt            |
/// | 7   | Step detection delta-time interrupt        |
///
#[derive(Debug, Clone, Copy, PartialEq, Eq, Structural, PartialOrd, Ord)]
pub struct Int2Ctrl(Register8);

impl Int2Ctrl {
    /// Wrap a raw register value read from the device.
    pub fn register(target_register: Register8) -> (target_value: Self)
        ensures
            target_value.word() == target_register.word(),
    {
        Int2Ctrl(target_register)
    }

    /// Retrieve an immutable handle to the `int2_drdy_xl` bit of this register.
    ///
    /// Accelerometer data ready routed to INT2.
    ///
    /// Default: `0`
    pub fn int2_drdy_xl(&self) -> (target_bit: Bit<'_, Self, 0>)
        ensures
            target_bit.target() == *self,
    {
        Bit::wrap(self)
    }

    /// Retrieve a mutable handle to the `int2_drdy_xl` bit of this register.
    ///
    /// Accelerometer data ready routed to INT2.
    ///
    /// Default: `0`
    pub fn int2_drdy_xl_mut(&mut self) -> (target_bit: BitMut<'_, Self, 0>)
        ensures
            target_bit.current() == *old(self),
            has_resolved(target_bit) ==> *final(self) == target_bit.current(),
    {
        BitMut::wrap(self)
    }

    /// Retrieve an immutable handle to the `int2_drdy_g` bit of this register.
    ///
    /// Gyroscope data ready routed to INT2.
    ///
    /// Default: `0`
    pub fn int2_drdy_g(&self) -> (target_bit: Bit<'_, Self, 1>)
        ensures
            target_bit.target() == *self,
    {
        Bit::wrap(self)
    }

    /// Retrieve a mutable handle to the `int2_drdy_g` bit of this register.
    ///
    /// Gyroscope data ready routed to INT2.
    ///
    /// Default: `0`
    pub fn int2_drdy_g_mut(&mut self) -> (target_bit: BitMut<'_, Self, 1>)
        ensures
            target_bit.current() == *old(self),
            has_resolved(target_bit) ==> *final(self) == target_bit.current(),
    {
        BitMut::wrap(self)
    }

    /// Retrieve an immutable handle to the `int2_drdy_temp` bit of this register.
    ///
    /// Temperature sensor data ready routed to INT2.
    ///
    /// Default: `0`
    pub fn int2_drdy_temp(&self) -> (target_bit: Bit<'_, Self, 2>)
        ensures
            target_bit.target() == *self,
    {
        Bit::wrap(self)
    }

    /// Retrieve a mutable handle to the `int2_drdy_temp` bit of this register.
    ///
    /// Temperature sensor data ready routed to INT2.
    ///
    /// Default: `0`
    pub fn int2_drdy_temp_mut(&mut self) -> (target_bit: BitMut<'_, Self, 2>)
        ensures
            target_bit.current() == *old(self),
            has_resolved(target_bit) ==> *final(self) == target_bit.current(),
    {
        BitMut::wrap(self)
    }

    /// Retrieve an immutable handle to the `int2_fth` bit of this register.
    ///
    /// FIFO threshold interrupt routed to INT2.
    ///
    /// Default: `0`
    pub fn int2_fth(&self) -> (target_bit: Bit<'_, Self, 3>)
        ensures
            target_bit.target() == *self,
    {
        Bit::wrap(self)
    }

    /// Retrieve a mutable handle to the `int2_fth` bit of this register.
    ///
    /// FIFO threshold interrupt routed to INT2.
    ///
    /// Default: `0`
    pub fn int2_fth_mut(&mut self) -> (target_bit: BitMut<'_, Self, 3>)
        ensures
            target_bit.current() == *old(self),
            has_resolved(target_bit) ==> *final(self) == target_bit.current(),
    {
        BitMut::wrap(self)
    }

    /// Retrieve an immutable handle to the `int2_fifo_ovr` bit of this register.
    ///
    /// FIFO overrun interrupt routed to INT2.
    ///
    /// Default: `0`
    pub fn int2_fifo_ovr(&self) -> (target_bit: Bit<'_, Self, 4>)
        ensures
            target_bit.target() == *self,
    {
        Bit::wrap(self)
    }

    /// Retrieve a mutable handle to the `int2_fifo_ovr` bit of this register.
    ///
    /// FIFO overrun interrupt routed to INT2.
    ///
    /// Default: `0`
    pub fn int2_fifo_ovr_mut(&mut self) -> (target_bit: BitMut<'_, Self, 4>)
        ensures
            target_bit.current() == *old(self),
            has_resolved(target_bit) ==> *final(self) == target_bit.current(),
    {
        BitMut::wrap(self)
    }

    /// Retrieve an immutable handle to the `int2_full_flag` bit of this register.
    ///
    /// FIFO full interrupt routed to INT2.
    ///
    /// Default: `0`
    pub fn int2_full_flag(&self) -> (target_bit: Bit<'_, Self, 5>)
        ensures
            target_bit.target() == *self,
    {
        Bit::wrap(self)
    }

    /// Retrieve a mutable handle to the `int2_full_flag` bit of this register.
    ///
    /// FIFO full interrupt routed to INT2.
    ///
    /// Default: `0`
    pub fn int2_full_flag_mut(&mut self) -> (target_bit: BitMut<'_, Self, 5>)
        ensures
            target_bit.current() == *old(self),
            has_resolved(target_bit) ==> *final(self) == target_bit.current(),
    {
        BitMut::wrap(self)
    }

    /// Retrieve an immutable handle to the `int2_step_count_ov` bit of this register.
    ///
    /// Step counter overflow interrupt routed to INT2.
    ///
    /// Default: `0`
    pub fn int2_step_count_ov(&self) -> (target_bit: Bit<'_, Self, 6>)
        ensures
            target_bit.target() == *self,
    {
        Bit::wrap(self)
    }

    /// Retrieve a mutable handle to the `int2_step_count_ov` bit of this register.
    ///
    /// Step counter overflow interrupt routed to INT2.
    ///
    /// Default: `0`
    pub fn int2_step_count_ov_mut(&mut self) -> (target_bit: BitMut<'_, Self, 6>)
        ensures
            target_bit.current() == *old(self),
            has_resolved(target_bit) ==> *final(self) == target_bit.current(),
    {
        BitMut::wrap(self)
    }

    /// Retrieve an immutable handle to the `int2_step_delta` bit of this register.
    ///
    /// Step detection delta-time interrupt routed to INT2.
    ///
    /// Default: `0`
    pub fn int2_step_delta(&self) -> (target_bit: Bit<'_, Self, 7>)
        ensures
            target_bit.target() == *self,
    {
        Bit::wrap(self)
    }

    /// Retrieve a mutable handle to the `int2_step_delta` bit of this register.
    ///
    /// Step detection delta-time interrupt routed to INT2.
    ///
    /// Default: `0`
    pub fn int2_step_delta_mut(&mut self) -> (target_bit: BitMut<'_, Self, 7>)
        ensures
            target_bit.current() == *old(self),
            has_resolved(target_bit) ==> *final(self) == target_bit.current(),
    {
        BitMut::wrap(self)
    }
}

impl HasPrimitive for Int2Ctrl {
    type Primitive = u8;

    open spec fn width() -> nat {
        8
    }

    closed spec fn word(&self) -> u16 {
        self.0.word()
    }

    open spec fn primitive_word(target_value: u8) -> u16 {
        target_value as u16
    }

    proof fn lemma_layout(&self) {
        self.0.lemma_layout();
    }

    fn raw(self) -> (target_value: u8) {
        self.0.value()
    }

    fn load(&self) -> (target_word: u16) {
        self.0.load()
    }

    fn store(target_word: u16) -> (target_value: Self) {
        Int2Ctrl(Register8::store(target_word))
    }
}

impl Bits for Int2Ctrl {
    fn single<const N: usize>() -> (target_value: Self) {
        Int2Ctrl(Register8::single::<N>())
    }
}

impl Extract for Int2Ctrl {
}

impl Register for Int2Ctrl {
    const ADDRESS: u8 = 0x0E;
}

/// Device identification register (r).
///
/// This register returns the device ID value.
///
/// # Layout
///
/// | Bit Range | Description  |
/// |-----------|--------------|
/// | 0..=7     | Fixed value  |
///
/// Default: `0x69`
#[derive(Debug, Clone, Copy, PartialEq, Eq, Structural, PartialOrd, Ord)]
pub struct WhoAmI(Register8);

impl WhoAmI {
    /// Wrap a raw register value read from the device.
    pub fn register(target_register: Register8) -> (target_value: Self)
        ensures
            target_value.word() == target_register.word(),
    {
        WhoAmI(target_register)
    }

    /// Extract the `id` bit sequence of this register.
    ///
    /// Device identification value.
    ///
    /// Value is fixed to `0x69`.
    pub fn id(&self) -> (target_bits: Extracted<0, 7, Self>)
        ensures
            target_bits.wf(),
            target_bits.target() == *self,
    {
        Extracted::wrap(self)
    }

    /// Retrieve a mutable handle to the `id` bit sequence of this register.
    ///
    /// Device identification value.
    ///
    /// Value is fixed to `0x69`.
    pub fn id_mut(&mut self) -> (target_bits: ExtractedMut<'_, 0, 7, Self>)
        ensures
            target_bits.current() == *old(self),
            has_resolved(target_bits) ==> *final(self) == target_bits.current(),
    {
        ExtractedMut::wrap(self)
    }
}

impl HasPrimitive for WhoAmI {
    type Primitive = u8;

    open spec fn width() -> nat {
        8
    }

    closed spec fn word(&self) -> u16 {
        self.0.word()
    }

    open spec fn primitive_word(target_value: u8) -> u16 {
        target_value as u16
    }

    proof fn lemma_layout(&self) {
        self.0.lemma_layout();
    }

    fn raw(self) -> (target_value: u8) {
        self.0.value()
    }

    fn load(&self) -> (target_word: u16) {
        self.0.load()
    }

    fn store(target_word: u16) -> (target_value: Self) {
        WhoAmI(Register8::store(target_word))
    }
}

impl Bits for WhoAmI {
    fn single<const N: usize>() -> (target_value: Self) {
        WhoAmI(Register8::single::<N>())
    }
}

impl Extract for WhoAmI {
}

impl Register for WhoAmI {
    const ADDRESS: u8 = 0x0F;
}

/// Accelerometer control register 1 (r/w).
///
/// This register configures the accelerometer’s output data rate, full scale, and analog filter bandwidth.
///
/// # Layout
///
/// | Bit Range | Description                             |
/// |-----------|-----------------------------------------|
/// | 7..=4     | Output data rate and power mode         |
/// | 3..=2     | Full-scale selection                    |
/// | 1..=0     | Anti-aliasing filter bandwidth setting  |
///
#[derive(Debug, Clone, Copy, PartialEq, Eq, Structural, PartialOrd, Ord)]
pub struct Ctrl1Xl(Register8);

impl Ctrl1Xl {
    /// Wrap a raw register value read from the device.
    pub fn register(target_register: Register8) -> (target_value: Self)
        ensures
            target_value.word() == target_register.word(),
    {
        Ctrl1Xl(target_register)
    }

    /// Extract the `odr_xl` bit sequence of this register.
    ///
    /// Accelerometer output data rate and power mode selection.
    ///
    /// # ODR Setting Table
    ///
    /// | Bit Pattern | ODR (XL_HM_MODE=1) | ODR (XL_HM_MODE=0) |
    /// |-------------|--------------------|--------------------|
    /// | `0000`      | Power-down         | Power-down         |
    /// | `0001`      | 12.5 Hz (LP)       | 12.5 Hz (HP)       |
    /// | `0010`      | 26 Hz (LP)         | 26 Hz (HP)         |
    /// | `0011`      | 52 Hz (LP)         | 52 Hz (HP)         |
    /// | `0100`      | 104 Hz (Normal)    | 104 Hz (HP)        |
    /// | `0101`      | 208 Hz (Normal)    | 208 Hz (HP)        |
    /// | `0110`      | 416 Hz (HP)        | 416 Hz (HP)        |
    /// | `0111`      | 833 Hz (HP)        | 833 Hz (HP)        |
    /// | `1000`      | 1.66 kHz (HP)      | 1.66 kHz (HP)      |
    /// | `1001`      | 3.33 kHz (HP)      | 3.33 kHz (HP)      |
    /// | `1010`      | 6.66 kHz (HP)      | 6.66 kHz (HP)      |
    ///
    pub fn odr_xl(&self) -> (target_bits: Extracted<4, 7, Self>)
        ensures
            target_bits.wf(),
            target_bits.target() == *self,
    {
        Extracted::wrap(self)
    }

    /// Retrieve a mutable handle to the `odr_xl` bit sequence of this register.
    ///
    /// Accelerometer output data rate and power mode selection.
    ///
    /// # ODR Setting Table
    ///
    /// | Bit Pattern | ODR (XL_HM_MODE=1) | ODR (XL_HM_MODE=0) |
    /// |-------------|--------------------|--------------------|
    /// | `0000`      | Power-down         | Power-down         |
    /// | `0001`      | 12.5 Hz (LP)       | 12.5 Hz (HP)       |
    /// | `0010`      | 26 Hz (LP)         | 26 Hz (HP)         |
    /// | `0011`      | 52 Hz (LP)         | 52 Hz (HP)         |
    /// | `0100`      | 104 Hz (Normal)    | 104 Hz (HP)        |
    /// | `0101`      | 208 Hz (Normal)    | 208 Hz (HP)        |
    /// | `0110`      | 416 Hz (HP)        | 416 Hz (HP)        |
    /// | `0111`      | 833 Hz (HP)        | 833 Hz (HP)        |
    /// | `1000`      | 1.66 kHz (HP)      | 1.66 kHz (HP)      |
    /// | `1001`      | 3.33 kHz (HP)      | 3.33 kHz (HP)      |
    /// | `1010`      | 6.66 kHz (HP)      | 6.66 kHz (HP)      |
    ///
    pub fn odr_xl_mut(&mut self) -> (target_bits: ExtractedMut<'_, 4, 7, Self>)
        ensures
            target_bits.current() == *old(self),
            has_resolved(target_bits) ==> *final(self) == target_bits.current(),
    {
        ExtractedMut::wrap(self)
    }

    /// Extract the `fs_xl` bit sequence of this register.
    ///
    /// Accelerometer full-scale range selection.
    ///
    /// # Full Scale Table
    ///
    /// | Bit Pattern | Full Scale |
    /// |-------------|------------|
    /// | `00`        | ±2 g       |
    /// | `01`        | ±16 g      |
    /// | `10`        | ±4 g       |
    /// | `11`        | ±8 g       |
    ///
    pub fn fs_xl(&self) -> (target_bits: Extracted<2, 3, Self>)
        ensures
            target_bits.wf(),
            target_bits.target() == *self,
    {
        Extracted::wrap(self)
    }

    /// Retrieve a mutable handle to the `fs_xl` bit sequence of this register.
    ///
    /// Accelerometer full-scale range selection.
    ///
    /// # Full Scale Table
    ///
    /// | Bit Pattern | Full Scale |
    /// |-------------|------------|
    /// | `00`        | ±2 g       |
    /// | `01`        | ±16 g      |
    /// | `10`        | ±4 g       |
    /// | `11`        | ±8 g       |
    ///
    pub fn fs_xl_mut(&mut self) -> (target_bits: ExtractedMut<'_, 2, 3, Self>)
        ensures
            target_bits.current() == *old(self),
            has_resolved(target_bits) ==> *final(self) == target_bits.current(),
    {
        ExtractedMut::wrap(self)
    }

    /// Extract the `bw_xl` bit sequence of this register.
    ///
    /// Anti-aliasing filter bandwidth configuration.
    ///
    /// # Bandwidth Table
    ///
    /// | Bit Pattern | Bandwidth (XL_HM_MODE=0) |
    /// |-------------|--------------------------|
    /// | `00`        | 400 Hz                   |
    /// | `01`        | 200 Hz                   |
    /// | `10`        | 100 Hz                   |
    /// | `11`        | 50 Hz                    |
    ///
    pub fn bw_xl(&self) -> (target_bits: Extracted<0, 1, Self>)
        ensures
            target_bits.wf(),
            target_bits.target() == *self,
    {
        Extracted::wrap(self)
    }

    /// Retrieve a mutable handle to the `bw_xl` bit sequence of this register.
    ///
    /// Anti-aliasing filter bandwidth configuration.
    ///
    /// # Bandwidth Table
    ///
    /// | Bit Pattern | Bandwidth (XL_HM_MODE=0) |
    /// |-------------|--------------------------|
    /// | `00`        | 400 Hz                   |
    /// | `01`        | 200 Hz                   |
    /// | `10`        | 100 Hz                   |
    /// | `11`        | 50 Hz                    |
    ///
    pub fn bw_xl_mut(&mut self) -> (target_bits: ExtractedMut<'_, 0, 1, Self>)
        ensures
            target_bits.current() == *old(self),
            has_resolved(target_bits) ==> *final(self) == target_bits.current(),
    {
        ExtractedMut::wrap(self)
    }
}

impl HasPrimitive for Ctrl1Xl {
    type Primitive = u8;

    open spec fn width() -> nat {
        8
    }

    closed spec fn word(&self) -> u16 {
        self.0.word()
    }

    open spec fn primitive_word(target_value: u8) -> u16 {
        target_value as u16
    }

    proof fn lemma_layout(&self) {
        self.0.lemma_layout();
    }

    fn raw(self) -> (target_value: u8) {
        self.0.value()
    }

    fn load(&self) -> (target_word: u16) {
        self.0.load()
    }

    fn store(target_word: u16) -> (target_value: Self) {
        Ctrl1Xl(Register8::store(target_word))
    }
}

impl Bits for Ctrl1Xl {
    fn single<const N: usize>() -> (target_value: Self) {
        Ctrl1Xl(Register8::single::<N>())
    }
}

impl Extract for Ctrl1Xl {
}

impl Register for Ctrl1Xl {
    const ADDRESS: u8 = 0x10;
}

/// Gyroscope control register 2 (r/w).
///
/// This register configures the gyroscope’s output data rate and full-scale selection.
///
/// # Layout
///
/// | Bit Range | Description                          |
/// |-----------|--------------------------------------|
/// | 7..=4     | Output data rate                     |
/// | 3..=2     | Full-scale selection                 |
/// | 1         | 125 dps full-scale enable            |
/// | 0         | Reserved, must be kept at `0`        |
///
#[derive(Debug, Clone, Copy, PartialEq, Eq, Structural, PartialOrd, Ord)]
pub struct Ctrl2G(Register8);

impl Ctrl2G {
    /// Wrap a raw register value read from the device.
    pub fn register(target_register: Register8) -> (target_value: Self)
        ensures
            target_value.word() == target_register.word(),
    {
        Ctrl2G(target_register)
    }

    /// Extract the `odr_g` bit sequence of this register.
    ///
    /// Gyroscope output data rate selection.
    ///
    /// # ODR Setting Table
    ///
    /// | Bit Pattern | ODR (G_HM_MODE=1) | ODR (G_HM_MODE=0) |
    /// |-------------|------------------|------------------|
    /// | `0000`      | Power-down       | Power-down       |
    /// | `0001`      | 12.5 Hz (LP)     | 12.5 Hz (HP)     |
    /// | `0010`      | 26 Hz (LP)       | 26 Hz (HP)       |
    /// | `0011`      | 52 Hz (LP)       | 52 Hz (HP)       |
    /// | `0100`      | 104 Hz (Normal)  | 104 Hz (HP)      |
    /// | `0101`      | 208 Hz (Normal)  | 208 Hz (HP)      |
    /// | `0110`      | 416 Hz (HP)      | 416 Hz (HP)      |
    /// | `0111`      | 833 Hz (HP)      | 833 Hz (HP)      |
    /// | `1000`      | 1.66 kHz (HP)    | 1.66 kHz (HP)    |
    ///
    pub fn odr_g(&self) -> (target_bits: Extracted<4, 7, Self>)
        ensures
            target_bits.wf(),
            target_bits.target() == *self,
    {
        Extracted::wrap(self)
    }

    /// Retrieve a mutable handle to the `odr_g` bit sequence of this register.
    ///
    /// Gyroscope output data rate selection.
    ///
    /// # ODR Setting Table
    ///
    /// | Bit Pattern | ODR (G_HM_MODE=1) | ODR (G_HM_MODE=0) |
    /// |-------------|------------------|------------------|
    /// | `0000`      | Power-down       | Power-down       |
    /// | `0001`      | 12.5 Hz (LP)     | 12.5 Hz (HP)     |
    /// | `0010`      | 26 Hz (LP)       | 26 Hz (HP)       |
    /// | `0011`      | 52 Hz (LP)       | 52 Hz (HP)       |
    /// | `0100`      | 104 Hz (Normal)  | 104 Hz (HP)      |
    /// | `0101`      | 208 Hz (Normal)  | 208 Hz (HP)      |
    /// | `0110`      | 416 Hz (HP)      | 416 Hz (HP)      |
    /// | `0111`      | 833 Hz (HP)      | 833 Hz (HP)      |
    /// | `1000`      | 1.66 kHz (HP)    | 1.66 kHz (HP)    |
    ///
    pub fn odr_g_mut(&mut self) -> (target_bits: ExtractedMut<'_, 4, 7, Self>)
        ensures
            target_bits.current() == *old(self),
            has_resolved(target_bits) ==> *final(self) == target_bits.current(),
    {
        ExtractedMut::wrap(self)
    }

    /// Extract the `fs_g` bit sequence of this register.
    ///
    /// Gyroscope full-scale range selection.
    ///
    /// # Full Scale Table
    ///
    /// | Bit Pattern | Full Scale |
    /// |-------------|------------|
    /// | `00`        | 250 dps    |
    /// | `01`        | 500 dps    |
    /// | `10`        | 1000 dps   |
    /// | `11`        | 2000 dps   |
    ///
    pub fn fs_g(&self) -> (target_bits: Extracted<2, 3, Self>)
        ensures
            target_bits.wf(),
            target_bits.target() == *self,
    {
        Extracted::wrap(self)
    }

    /// Retrieve a mutable handle to the `fs_g` bit sequence of this register.
    ///
    /// Gyroscope full-scale range selection.
    ///
    /// # Full Scale Table
    ///
    /// | Bit Pattern | Full Scale |
    /// |-------------|------------|
    /// | `00`        | 250 dps    |
    /// | `01`        | 500 dps    |
    /// | `10`        | 1000 dps   |
    /// | `11`        | 2000 dps   |
    ///
    pub fn fs_g_mut(&mut self) -> (target_bits: ExtractedMut<'_, 2, 3, Self>)
        ensures
            target_bits.current() == *old(self),
            has_resolved(target_bits) ==> *final(self) == target_bits.current(),
    {
        ExtractedMut::wrap(self)
    }

    /// Retrieve an immutable handle to the `fs_125` bit of this register.
    ///
    /// Gyroscope 125 dps full-scale enable.
    ///
    /// # Enable Table
    ///
    /// | Bit | Description      |
    /// |-----|------------------|
    /// | `0` | Disabled         |
    /// | `1` | Enabled (125 dps)|
    ///
    pub fn fs_125(&self) -> (target_bit: Bit<'_, Self, 1>)
        ensures
            target_bit.target() == *self,
    {
        Bit::wrap(self)
    }

    /// Retrieve a mutable handle to the `fs_125` bit of this register.
    ///
    /// Gyroscope 125 dps full-scale enable.
    ///
    /// # Enable Table
    ///
    /// | Bit | Description      |
    /// |-----|------------------|
    /// | `0` | Disabled         |
    /// | `1` | Enabled (125 dps)|
    ///
    pub fn fs_125_mut(&mut self) -> (target_bit: BitMut<'_, Self, 1>)
        ensures
            target_bit.current() == *old(self),
            has_resolved(target_bit) ==> *final(self) == target_bit.current(),
    {
        BitMut::wrap(self)
    }

    /// Extract the `fs_125_g` bit sequence of this register.
    ///
    /// A virtual field that is a combination of both [`Ctrl2G::fs_125`] and [`Ctrl2G::fs_g`], inline.
    pub fn fs_125_g(&self) -> (target_bits: Extracted<1, 3, Self>)
        ensures
            target_bits.wf(),
            target_bits.target() == *self,
    {
        Extracted::wrap(self)
    }

    /// Retrieve a mutable handle to the `fs_125_g` bit sequence of this register.
    ///
    /// A virtual field that is a combination of both [`Ctrl2G::fs_125`] and [`Ctrl2G::fs_g`], inline.
    pub fn fs_125_g_mut(&mut self) -> (target_bits: ExtractedMut<'_, 1, 3, Self>)
        ensures
            target_bits.current() == *old(self),
            has_resolved(target_bits) ==> *final(self) == target_bits.current(),
    {
        ExtractedMut::wrap(self)
    }
}

impl HasPrimitive for Ctrl2G {
    type Primitive = u8;

    open spec fn width() -> nat {
        8
    }

    closed spec fn word(&self) -> u16 {
        self.0.word()
    }

    open spec fn primitive_word(target_value: u8) -> u16 {
        target_value as u16
    }

    proof fn lemma_layout(&self) {
        self.0.lemma_layout();
    }

    fn raw(self) -> (target_value: u8) {
        self.0.value()
    }

    fn load(&self) -> (target_word: u16) {
        self.0.load()
    }

    fn store(target_word: u16) -> (target_value: Self) {
        Ctrl2G(Register8::store(target_word))
    }
}

impl Bits for Ctrl2G {
    fn single<const N: usize>() -> (target_value: Self) {
        Ctrl2G(Register8::single::<N>())
    }
}

impl Extract for Ctrl2G {
}

impl Register for Ctrl2G {
    const ADDRESS: u8 = 0x11;
}

/// Control register 3 (r/w).
///
/// Provides control over reboot, data update, interrupt mode, interface settings, and software reset.
///
/// # Layout
///
/// | Bit | Description                          |
/// |-----|--------------------------------------|
/// | 7   | Software reset                        |
/// | 6   | Big/Little Endian data selection      |
/// | 5   | Address auto-increment                |
/// | 4   | SPI 3-wire mode selection             |
/// | 3   | INT pin push-pull/open-drain mode     |
/// | 2   | Interrupt active level                |
/// | 1   | Block data update                     |
/// | 0   | Reboot memory content                 |
///
#[derive(Debug, Clone, Copy, PartialEq, Eq, Structural, PartialOrd, Ord)]
pub struct Ctrl3C(Register8);

impl Ctrl3C {
    /// Wrap a raw register value read from the device.
    pub fn register(target_register: Register8) -> (target_value: Self)
        ensures
            target_value.word() == target_register.word(),
    {
        Ctrl3C(target_register)
    }

    /// Retrieve an immutable handle to the `sw_reset` bit of this register.
    ///
    /// Software reset command.
    ///
    /// The device resets when this bit is set. It is automatically cleared after boot.
    ///
    /// # Reset Table
    ///
    /// | Bit | Description  |
    /// |-----|--------------|
    /// | `0` | Normal mode  |
    /// | `1` | Reset device |
    ///
    pub fn sw_reset(&self) -> (target_bit: Bit<'_, Self, 7>)
        ensures
            target_bit.target() == *self,
    {
        Bit::wrap(self)
    }

    /// Retrieve a mutable handle to the `sw_reset` bit of this register.
    ///
    /// Software reset command.
    ///
    /// The device resets when this bit is set. It is automatically cleared after boot.
    ///
    /// # Reset Table
    ///
    /// | Bit | Description  |
    /// |-----|--------------|
    /// | `0` | Normal mode  |
    /// | `1` | Reset device |
    ///
    pub fn sw_reset_mut(&mut self) -> (target_bit: BitMut<'_, Self, 7>)
        ensures
            target_bit.current() == *old(self),
            has_resolved(target_bit) ==> *final(self) == target_bit.current(),
    {
        BitMut::wrap(self)
    }

    /// Retrieve an immutable handle to the `ble` bit of this register.
    ///
    /// Big/Little Endian selection for data output.
    ///
    /// # Endianness Table
    ///
    /// | Bit | Format                |
    /// |-----|------------------------|
    /// | `0` | LSB at lower address   |
    /// | `1` | MSB at lower address   |
    ///
    pub fn ble(&self) -> (target_bit: Bit<'_, Self, 6>)
        ensures
            target_bit.target() == *self,
    {
        Bit::wrap(self)
    }

    /// Retrieve a mutable handle to the `ble` bit of this register.
    ///
    /// Big/Little Endian selection for data output.
    ///
    /// # Endianness Table
    ///
    /// | Bit | Format                |
    /// |-----|------------------------|
    /// | `0` | LSB at lower address   |
    /// | `1` | MSB at lower address   |
    ///
    pub fn ble_mut(&mut self) -> (target_bit: BitMut<'_, Self, 6>)
        ensures
            target_bit.current() == *old(self),
            has_resolved(target_bit) ==> *final(self) == target_bit.current(),
    {
        BitMut::wrap(self)
    }

    /// Retrieve an immutable handle to the `if_inc` bit of this register.
    ///
    /// Register address auto-increment on multi-byte read/write.
    ///
    /// # Auto-Increment Table
    ///
    /// | Bit | Mode     |
    /// |------|----------|
    /// | `0` | Disabled |
    /// | `1` | Enabled  |
    ///
    pub fn if_inc(&self) -> (target_bit: Bit<'_, Self, 5>)
        ensures
            target_bit.target() == *self,
    {
        Bit::wrap(self)
    }

    /// Retrieve a mutable handle to the `if_inc` bit of this register.
    ///
    /// Register address auto-increment on multi-byte read/write.
    ///
    /// # Auto-Increment Table
    ///
    /// | Bit | Mode     |
    /// |------|----------|
    /// | `0` | Disabled |
    /// | `1` | Enabled  |
    ///
    pub fn if_inc_mut(&mut self) -> (target_bit: BitMut<'_, Self, 5>)
        ensures
            target_bit.current() == *old(self),
            has_resolved(target_bit) ==> *final(self) == target_bit.current(),
    {
        BitMut::wrap(self)
    }

    /// Retrieve an immutable handle to the `sim` bit of this register.
    ///
    /// SPI serial interface mode selection.
    ///
    /// # SPI Mode Table
    ///
    /// | Bit | SPI Mode     |
    /// |-----|--------------|
    /// | `0` | 4-wire       |
    /// | `1` | 3-wire       |
    ///
    pub fn sim(&self) -> (target_bit: Bit<'_, Self, 4>)
        ensures
            target_bit.target() == *self,
    {
        Bit::wrap(self)
    }

    /// Retrieve a mutable handle to the `sim` bit of this register.
    ///
    /// SPI serial interface mode selection.
    ///
    /// # SPI Mode Table
    ///
    /// | Bit | SPI Mode     |
    /// |-----|--------------|
    /// | `0` | 4-wire       |
    /// | `1` | 3-wire       |
    ///
    pub fn sim_mut(&mut self) -> (target_bit: BitMut<'_, Self, 4>)
        ensures
            target_bit.current() == *old(self),
            has_resolved(target_bit) ==> *final(self) == target_bit.current(),
    {
        BitMut::wrap(self)
    }

    /// Retrieve an immutable handle to the `pp_od` bit of this register.
    ///
    /// INT1/INT2 pad output configuration.
    ///
    /// # Output Mode Table
    ///
    /// | Bit | Output Type  |
    /// |-----|--------------|
    /// | `0` | Push-pull    |
    /// | `1` | Open-drain   |
    ///
    pub fn pp_od(&self) -> (target_bit: Bit<'_, Self, 3>)
        ensures
            target_bit.target() == *self,
    {
        Bit::wrap(self)
    }

    /// Retrieve a mutable handle to the `pp_od` bit of this register.
    ///
    /// INT1/INT2 pad output configuration.
    ///
    /// # Output Mode Table
    ///
    /// | Bit | Output Type  |
    /// |-----|--------------|
    /// | `0` | Push-pull    |
    /// | `1` | Open-drain   |
    ///
    pub fn pp_od_mut(&mut self) -> (target_bit: BitMut<'_, Self, 3>)
        ensures
            target_bit.current() == *old(self),
            has_resolved(target_bit) ==> *final(self) == target_bit.current(),
    {
        BitMut::wrap(self)
    }

    /// Retrieve an immutable handle to the `h_lactive` bit of this register.
    ///
    /// Interrupt signal active level.
    ///
    /// # Polarity Table
    ///
    /// | Bit | Active Level |
    /// |-----|--------------|
    /// | `0` | High         |
    /// | `1` | Low          |
    ///
    pub fn h_lactive(&self) -> (target_bit: Bit<'_, Self, 2>)
        ensures
            target_bit.target() == *self,
    {
        Bit::wrap(self)
    }

    /// Retrieve a mutable handle to the `h_lactive` bit of this register.
    ///
    /// Interrupt signal active level.
    ///
    /// # Polarity Table
    ///
    /// | Bit | Active Level |
    /// |-----|--------------|
    /// | `0` | High         |
    /// | `1` | Low          |
    ///
    pub fn h_lactive_mut(&mut self) -> (target_bit: BitMut<'_, Self, 2>)
        ensures
            target_bit.current() == *old(self),
            has_resolved(target_bit) ==> *final(self) == target_bit.current(),
    {
        BitMut::wrap(self)
    }

    /// Retrieve an immutable handle to the `bdu` bit of this register.
    ///
    /// Block data update mode.
    ///
    /// # Update Mode Table
    ///
    /// | Bit | Mode              |
    /// |-----|-------------------|
    /// | `0` | Continuous update |
    /// | `1` | Block update      |
    ///
    pub fn bdu(&self) -> (target_bit: Bit<'_, Self, 1>)
        ensures
            target_bit.target() == *self,
    {
        Bit::wrap(self)
    }

    /// Retrieve a mutable handle to the `bdu` bit of this register.
    ///
    /// Block data update mode.
    ///
    /// # Update Mode Table
    ///
    /// | Bit | Mode              |
    /// |-----|-------------------|
    /// | `0` | Continuous update |
    /// | `1` | Block update      |
    ///
    pub fn bdu_mut(&mut self) -> (target_bit: BitMut<'_, Self, 1>)
        ensures
            target_bit.current() == *old(self),
            has_resolved(target_bit) ==> *final(self) == target_bit.current(),
    {
        BitMut::wrap(self)
    }

    /// Retrieve an immutable handle to the `boot` bit of this register.
    ///
    /// Reboot memory content on next oscillator startup.
    ///
    /// # Reboot Table
    ///
    /// | Bit | Mode         |
    /// |-----|--------------|
    /// | `0` | Normal       |
    /// | `1` | Reboot       |
    ///
    pub fn boot(&self) -> (target_bit: Bit<'_, Self, 0>)
        ensures
            target_bit.target() == *self,
    {
        Bit::wrap(self)
    }

    /// Retrieve a mutable handle to the `boot` bit of this register.
    ///
    /// Reboot memory content on next oscillator startup.
    ///
    /// # Reboot Table
    ///
    /// | Bit | Mode         |
    /// |-----|--------------|
    /// | `0` | Normal       |
    /// | `1` | Reboot       |
    ///
    pub fn boot_mut(&mut self) -> (target_bit: BitMut<'_, Self, 0>)
        ensures
            target_bit.current() == *old(self),
            has_resolved(target_bit) ==> *final(self) == target_bit.current(),
    {
        BitMut::wrap(self)
    }
}

impl HasPrimitive for Ctrl3C {
    type Primitive = u8;

    open spec fn width() -> nat {
        8
    }

    closed spec fn word(&self) -> u16 {
        self.0.word()
    }

    open spec fn primitive_word(target_value: u8) -> u16 {
        target_value as u16
    }

    proof fn lemma_layout(&self) {
        self.0.lemma_layout();
    }

    fn raw(self) -> (target_value: u8) {
        self.0.value()
    }

    fn load(&self) -> (target_word: u16) {
        self.0.load()
    }

    fn store(target_word: u16) -> (target_value: Self) {
        Ctrl3C(Register8::store(target_word))
    }
}

impl Bits for Ctrl3C {
    fn single<const N: usize>() -> (target_value: Self) {
        Ctrl3C(Register8::single::<N>())
    }
}

impl Extract for Ctrl3C {
}

impl Register for Ctrl3C {
    const ADDRESS: u8 = 0x12;
}

/// Control register 4 (r/w).
///
/// # Layout
///
/// | Bit Range | Description                                      |
/// |-----------|--------------------------------------------------|
/// | 0         | Accelerometer bandwidth configuration source     |
/// | 1         | Gyroscope sleep mode enable                      |
/// | 2         | All interrupts routed to INT1                    |
/// | 3         | Enable temperature data in FIFO                  |
/// | 4         | Data-ready signal masking                        |
/// | 5         | Disable I²C interface                            |
/// | 6         | Enable FIFO threshold stop                       |
/// | 7         | Reserved – must be set to `0`                    |
///
#[derive(Debug, Clone, Copy, PartialEq, Eq, Structural, PartialOrd, Ord)]
pub struct Ctrl4C(Register8);

impl Ctrl4C {
    /// Wrap a raw register value read from the device.
    pub fn register(target_register: Register8) -> (target_value: Self)
        ensures
            target_value.word() == target_register.word(),
    {
        Ctrl4C(target_register)
    }

    /// Retrieve an immutable handle to the `xl_bw_scal_odr` bit of this register.
    ///
    /// Accelerometer bandwidth configuration source.
    ///
    /// # Selection
    ///
    /// | Bit | Source Description                                               |
    /// |-----|------------------------------------------------------------------|
    /// | `0` | Bandwidth depends on ODR (see Table 48)                         |
    /// | `1` | Bandwidth set via `BW_XL[1:0]` in `CTRL1_XL`                    |
    ///
    pub fn xl_bw_scal_odr(&self) -> (target_bit: Bit<'_, Self, 0>)
        ensures
            target_bit.target() == *self,
    {
        Bit::wrap(self)
    }

    /// Retrieve a mutable handle to the `xl_bw_scal_odr` bit of this register.
    ///
    /// Accelerometer bandwidth configuration source.
    ///
    /// # Selection
    ///
    /// | Bit | Source Description                                               |
    /// |-----|------------------------------------------------------------------|
    /// | `0` | Bandwidth depends on ODR (see Table 48)                         |
    /// | `1` | Bandwidth set via `BW_XL[1:0]` in `CTRL1_XL`                    |
    ///
    pub fn xl_bw_scal_odr_mut(&mut self) -> (target_bit: BitMut<'_, Self, 0>)
        ensures
            target_bit.current() == *old(self),
            has_resolved(target_bit) ==> *final(self) == target_bit.current(),
    {
        BitMut::wrap(self)
    }

    /// Retrieve an immutable handle to the `sleep_g` bit of this register.
    ///
    /// Gyroscope sleep mode enable.
    ///
    /// # Sleep Mode
    ///
    /// | Bit | Mode     |
    /// |-----|----------|
    /// | `0` | Disabled |
    /// | `1` | Enabled  |
    ///
    pub fn sleep_g(&self) -> (target_bit: Bit<'_, Self, 1>)
        ensures
            target_bit.target() == *self,
    {
        Bit::wrap(self)
    }

    /// Retrieve a mutable handle to the `sleep_g` bit of this register.
    ///
    /// Gyroscope sleep mode enable.
    ///
    /// # Sleep Mode
    ///
    /// | Bit | Mode     |
    /// |-----|----------|
    /// | `0` | Disabled |
    /// | `1` | Enabled  |
    ///
    pub fn sleep_g_mut(&mut self) -> (target_bit: BitMut<'_, Self, 1>)
        ensures
            target_bit.current() == *old(self),
            has_resolved(target_bit) ==> *final(self) == target_bit.current(),
    {
        BitMut::wrap(self)
    }

    /// Retrieve an immutable handle to the `int2_on_int1` bit of this register.
    ///
    /// Route all interrupts to `INT1` pad.
    ///
    /// # Routing Option
    ///
    /// | Bit | Description                                |
    /// |-----|--------------------------------------------|
    /// | `0` | Signals split between `INT1` and `INT2`    |
    /// | `1` | All routed in logic OR to `INT1` only      |
    ///
    pub fn int2_on_int1(&self) -> (target_bit: Bit<'_, Self, 2>)
        ensures
            target_bit.target() == *self,
    {
        Bit::wrap(self)
    }

    /// Retrieve a mutable handle to the `int2_on_int1` bit of this register.
    ///
    /// Route all interrupts to `INT1` pad.
    ///
    /// # Routing Option
    ///
    /// | Bit | Description                                |
    /// |-----|--------------------------------------------|
    /// | `0` | Signals split between `INT1` and `INT2`    |
    /// | `1` | All routed in logic OR to `INT1` only      |
    ///
    pub fn int2_on_int1_mut(&mut self) -> (target_bit: BitMut<'_, Self, 2>)
        ensures
            target_bit.current() == *old(self),
            has_resolved(target_bit) ==> *final(self) == target_bit.current(),
    {
        BitMut::wrap(self)
    }

    /// Retrieve an immutable handle to the `fifo_temp_en` bit of this register.
    ///
    /// Enable temperature data as the 4th FIFO data set.
    ///
    /// Effective only if `TIMER_PEDO_FIFO_EN` in `FIFO_CTRL2` is `0`.
    ///
    /// # Temperature Data Inclusion
    ///
    /// | Bit | Description              |
    /// |-----|--------------------------|
    /// | `0` | Disabled in FIFO         |
    /// | `1` | Enabled in FIFO          |
    ///
    pub fn fifo_temp_en(&self) -> (target_bit: Bit<'_, Self, 3>)
        ensures
            target_bit.target() == *self,
    {
        Bit::wrap(self)
    }

    /// Retrieve a mutable handle to the `fifo_temp_en` bit of this register.
    ///
    /// Enable temperature data as the 4th FIFO data set.
    ///
    /// Effective only if `TIMER_PEDO_FIFO_EN` in `FIFO_CTRL2` is `0`.
    ///
    /// # Temperature Data Inclusion
    ///
    /// | Bit | Description              |
    /// |-----|--------------------------|
    /// | `0` | Disabled in FIFO         |
    /// | `1` | Enabled in FIFO          |
    ///
    pub fn fifo_temp_en_mut(&mut self) -> (target_bit: BitMut<'_, Self, 3>)
        ensures
            target_bit.current() == *old(self),
            has_resolved(target_bit) ==> *final(self) == target_bit.current(),
    {
        BitMut::wrap(self)
    }

    /// Retrieve an immutable handle to the `drdy_mask` bit of this register.
    ///
    /// Data-ready signal mask during mode transitions.
    ///
    /// When enabled, data-ready signals are masked while filters settle.
    ///
    /// # Masking
    ///
    /// | Bit | Mask Description         |
    /// |-----|--------------------------|
    /// | `0` | Disabled                 |
    /// | `1` | Enabled                  |
    ///
    pub fn drdy_mask(&self) -> (target_bit: Bit<'_, Self, 4>)
        ensures
            target_bit.target() == *self,
    {
        Bit::wrap(self)
    }

    /// Retrieve a mutable handle to the `drdy_mask` bit of this register.
    ///
    /// Data-ready signal mask during mode transitions.
    ///
    /// When enabled, data-ready signals are masked while filters settle.
    ///
    /// # Masking
    ///
    /// | Bit | Mask Description         |
    /// |-----|--------------------------|
    /// | `0` | Disabled                 |
    /// | `1` | Enabled                  |
    ///
    pub fn drdy_mask_mut(&mut self) -> (target_bit: BitMut<'_, Self, 4>)
        ensures
            target_bit.current() == *old(self),
            has_resolved(target_bit) ==> *final(self) == target_bit.current(),
    {
        BitMut::wrap(self)
    }

    /// Retrieve an immutable handle to the `i2c_disable` bit of this register.
    ///
    /// Disable I²C interface, use SPI only.
    ///
    /// # I²C Bus Status
    ///
    /// | Bit | Interface Mode     |
    /// |-----|--------------------|
    /// | `0` | I²C + SPI enabled  |
    /// | `1` | Only SPI enabled   |
    ///
    pub fn i2c_disable(&self) -> (target_bit: Bit<'_, Self, 5>)
        ensures
            target_bit.target() == *self,
    {
        Bit::wrap(self)
    }

    /// Retrieve a mutable handle to the `i2c_disable` bit of this register.
    ///
    /// Disable I²C interface, use SPI only.
    ///
    /// # I²C Bus Status
    ///
    /// | Bit | Interface Mode     |
    /// |-----|--------------------|
    /// | `0` | I²C + SPI enabled  |
    /// | `1` | Only SPI enabled   |
    ///
    pub fn i2c_disable_mut(&mut self) -> (target_bit: BitMut<'_, Self, 5>)
        ensures
            target_bit.current() == *old(self),
            has_resolved(target_bit) ==> *final(self) == target_bit.current(),
    {
        BitMut::wrap(self)
    }

    /// Retrieve an immutable handle to the `stop_on_fth` bit of this register.
    ///
    /// Enable FIFO threshold level stop.
    ///
    /// # FIFO Behavior
    ///
    /// | Bit | Threshold Mode         |
    /// |-----|------------------------|
    /// | `0` | Not limited            |
    /// | `1` | Stops at threshold     |
    ///
    pub fn stop_on_fth(&self) -> (target_bit: Bit<'_, Self, 6>)
        ensures
            target_bit.target() == *self,
    {
        Bit::wrap(self)
    }

    /// Retrieve a mutable handle to the `stop_on_fth` bit of this register.
    ///
    /// Enable FIFO threshold level stop.
    ///
    /// # FIFO Behavior
    ///
    /// | Bit | Threshold Mode         |
    /// |-----|------------------------|
    /// | `0` | Not limited            |
    /// | `1` | Stops at threshold     |
    ///
    pub fn stop_on_fth_mut(&mut self) -> (target_bit: BitMut<'_, Self, 6>)
        ensures
            target_bit.current() == *old(self),
            has_resolved(target_bit) ==> *final(self) == target_bit.current(),
    {
        BitMut::wrap(self)
    }
}

impl HasPrimitive for Ctrl4C {
    type Primitive = u8;

    open spec fn width() -> nat {
        8
    }

    closed spec fn word(&self) -> u16 {
        self.0.word()
    }

    open spec fn primitive_word(target_value: u8) -> u16 {
        target_value as u16
    }

    proof fn lemma_layout(&self) {
        self.0.lemma_layout();
    }

    fn raw(self) -> (target_value: u8) {
        self.0.value()
    }

    fn load(&self) -> (target_word: u16) {
        self.0.load()
    }

    fn store(target_word: u16) -> (target_value: Self) {
        Ctrl4C(Register8::store(target_word))
    }
}

impl Bits for Ctrl4C {
    fn single<const N: usize>() -> (target_value: Self) {
        Ctrl4C(Register8::single::<N>())
    }
}

impl Extract for Ctrl4C {
}

impl Register for Ctrl4C {
    const ADDRESS: u8 = 0x13;
}

/// Control register 5 (r/w).
///
/// # Layout
///
/// | Bit Range | Description                                     |
/// |-----------|-------------------------------------------------|
/// | 0..=2     | Output register circular burst (rounding mode)  |
/// | 3..=4     | Gyroscope self-test selection                   |
/// | 5..=6     | Accelerometer self-test selection               |
/// | 7         | Reserved – must be set to `0`                   |
///
#[derive(Debug, Clone, Copy, PartialEq, Eq, Structural, PartialOrd, Ord)]
pub struct Ctrl5C(Register8);

impl Ctrl5C {
    /// Wrap a raw register value read from the device.
    pub fn register(target_register: Register8) -> (target_value: Self)
        ensures
            target_value.word() == target_register.word(),
    {
        Ctrl5C(target_register)
    }

    /// Extract the `rounding` bit sequence of this register.
    ///
    /// Output register circular burst (rounding) mode.
    ///
    /// # Rounding Mode Table
    ///
    /// | Bit Pattern | Output Content                                                  |
    /// |-------------|------------------------------------------------------------------|
    /// | `000`       | No rounding                                                     |
    /// | `001`       | Accelerometer only                                              |
    /// | `010`       | Gyroscope only                                                  |
    /// | `011`       | Gyroscope + Accelerometer                                       |
    /// | `100`       | SENSORHUB1–SENSORHUB6                                           |
    /// | `101`       | Accelerometer + SENSORHUB1–SENSORHUB6                           |
    /// | `110`       | Gyro + Accel + SENSORHUB1–12                                    |
    /// | `111`       | Gyro + Accel + SENSORHUB1–6                                     |
    ///
    pub fn rounding(&self) -> (target_bits: Extracted<0, 2, Self>)
        ensures
            target_bits.wf(),
            target_bits.target() == *self,
    {
        Extracted::wrap(self)
    }

    /// Retrieve a mutable handle to the `rounding` bit sequence of this register.
    ///
    /// Output register circular burst (rounding) mode.
    ///
    /// # Rounding Mode Table
    ///
    /// | Bit Pattern | Output Content                                                  |
    /// |-------------|------------------------------------------------------------------|
    /// | `000`       | No rounding                                                     |
    /// | `001`       | Accelerometer only                                              |
    /// | `010`       | Gyroscope only                                                  |
    /// | `011`       | Gyroscope + Accelerometer                                       |
    /// | `100`       | SENSORHUB1–SENSORHUB6                                           |
    /// | `101`       | Accelerometer + SENSORHUB1–SENSORHUB6                           |
    /// | `110`       | Gyro + Accel + SENSORHUB1–12                                    |
    /// | `111`       | Gyro + Accel + SENSORHUB1–6                                     |
    ///
    pub fn rounding_mut(&mut self) -> (target_bits: ExtractedMut<'_, 0, 2, Self>)
        ensures
            target_bits.current() == *old(self),
            has_resolved(target_bits) ==> *final(self) == target_bits.current(),
    {
        ExtractedMut::wrap(self)
    }

    /// Extract the `st_g` bit sequence of this register.
    ///
    /// Gyroscope self-test mode.
    ///
    /// # Gyro Self-Test Table
    ///
    /// | Bits | Mode                 |
    /// |------|----------------------|
    /// | `00` | Normal               |
    /// | `01` | Positive sign test   |
    /// | `10` | Not valid            |
    /// | `11` | Negative sign test   |
    ///
    pub fn st_g(&self) -> (target_bits: Extracted<3, 4, Self>)
        ensures
            target_bits.wf(),
            target_bits.target() == *self,
    {
        Extracted::wrap(self)
    }

    /// Retrieve a mutable handle to the `st_g` bit sequence of this register.
    ///
    /// Gyroscope self-test mode.
    ///
    /// # Gyro Self-Test Table
    ///
    /// | Bits | Mode                 |
    /// |------|----------------------|
    /// | `00` | Normal               |
    /// | `01` | Positive sign test   |
    /// | `10` | Not valid            |
    /// | `11` | Negative sign test   |
    ///
    pub fn st_g_mut(&mut self) -> (target_bits: ExtractedMut<'_, 3, 4, Self>)
        ensures
            target_bits.current() == *old(self),
            has_resolved(target_bits) ==> *final(self) == target_bits.current(),
    {
        ExtractedMut::wrap(self)
    }

    /// Extract the `st_xl` bit sequence of this register.
    ///
    /// Accelerometer self-test mode.
    ///
    /// # Accel Self-Test Table
    ///
    /// | Bits | Mode                 |
    /// |------|----------------------|
    /// | `00` | Normal               |
    /// | `01` | Positive sign test   |
    /// | `10` | Negative sign test   |
    /// | `11` | Not valid            |
    ///
    pub fn st_xl(&self) -> (target_bits: Extracted<5, 6, Self>)
        ensures
            target_bits.wf(),
            target_bits.target() == *self,
    {
        Extracted::wrap(self)
    }

    /// Retrieve a mutable handle to the `st_xl` bit sequence of this register.
    ///
    /// Accelerometer self-test mode.
    ///
    /// # Accel Self-Test Table
    ///
    /// | Bits | Mode                 |
    /// |------|----------------------|
    /// | `00` | Normal               |
    /// | `01` | Positive sign test   |
    /// | `10` | Negative sign test   |
    /// | `11` | Not valid            |
    ///
    pub fn st_xl_mut(&mut self) -> (target_bits: ExtractedMut<'_, 5, 6, Self>)
        ensures
            target_bits.current() == *old(self),
            has_resolved(target_bits) ==> *final(self) == target_bits.current(),
    {
        ExtractedMut::wrap(self)
    }
}

impl HasPrimitive for Ctrl5C {
    type Primitive = u8;

    open spec fn width() -> nat {
        8
    }

    closed spec fn word(&self) -> u16 {
        self.0.word()
    }

    open spec fn primitive_word(target_value: u8) -> u16 {
        target_value as u16
    }

    proof fn lemma_layout(&self) {
        self.0.lemma_layout();
    }

    fn raw(self) -> (target_value: u8) {
        self.0.value()
    }

    fn load(&self) -> (target_word: u16) {
        self.0.load()
    }

    fn store(target_word: u16) -> (target_value: Self) {
        Ctrl5C(Register8::store(target_word))
    }
}

impl Bits for Ctrl5C {
    fn single<const N: usize>() -> (target_value: Self) {
        Ctrl5C(Register8::single::<N>())
    }
}

impl Extract for Ctrl5C {
}

impl Register for Ctrl5C {
    const ADDRESS: u8 = 0x14;
}

/// Linear acceleration sensor control register 8 (r/w).
///
/// This register configures the accelerometer’s low-pass and high-pass filter modes and settings.
///
/// # Layout
///
/// | Bit Range | Description                                     |
/// |-----------|-------------------------------------------------|
/// | 0         | Low-pass filter activation for 6D functionality |
/// | 1         | Slope/high-pass filter enable                   |
/// | 2..=3     | Slope/high-pass cutoff frequency configuration  |
/// | 4         | LPF2 filter enable                              |
///
#[derive(Debug, Clone, Copy, PartialEq, Eq, Structural, PartialOrd, Ord)]
pub struct Ctrl8Xl(Register8);

impl Ctrl8Xl {
    /// Wrap a raw register value read from the device.
    pub fn register(target_register: Register8) -> (target_value: Self)
        ensures
            target_value.word() == target_register.word(),
    {
        Ctrl8Xl(target_register)
    }

    /// Retrieve an immutable handle to the `low_pass_on_6d` bit of this register.
    ///
    /// Low-pass filter activation for 6D functionality.
    ///
    /// # Table
    ///
    /// | Bit | Description                       |
    /// |-----|-----------------------------------|
    /// | `0` | Filter bypassed in 6D detection   |
    /// | `1` | LPF2 enabled for 6D detection     |
    ///
    pub fn low_pass_on_6d(&self) -> (target_bit: Bit<'_, Self, 0>)
        ensures
            target_bit.target() == *self,
    {
        Bit::wrap(self)
    }

    /// Retrieve a mutable handle to the `low_pass_on_6d` bit of this register.
    ///
    /// Low-pass filter activation for 6D functionality.
    ///
    /// # Table
    ///
    /// | Bit | Description                       |
    /// |-----|-----------------------------------|
    /// | `0` | Filter bypassed in 6D detection   |
    /// | `1` | LPF2 enabled for 6D detection     |
    ///
    pub fn low_pass_on_6d_mut(&mut self) -> (target_bit: BitMut<'_, Self, 0>)
        ensures
            target_bit.current() == *old(self),
            has_resolved(target_bit) ==> *final(self) == target_bit.current(),
    {
        BitMut::wrap(self)
    }

    /// Retrieve an immutable handle to the `hp_slope_xl_en` bit of this register.
    ///
    /// Slope/high-pass filter enable.
    ///
    /// # Table
    ///
    /// | Bit | Description                           |
    /// |-----|---------------------------------------|
    /// | `0` | Filter disabled                        |
    /// | `1` | Slope or high-pass filter enabled      |
    ///
    pub fn hp_slope_xl_en(&self) -> (target_bit: Bit<'_, Self, 1>)
        ensures
            target_bit.target() == *self,
    {
        Bit::wrap(self)
    }

    /// Retrieve a mutable handle to the `hp_slope_xl_en` bit of this register.
    ///
    /// Slope/high-pass filter enable.
    ///
    /// # Table
    ///
    /// | Bit | Description                           |
    /// |-----|---------------------------------------|
    /// | `0` | Filter disabled                        |
    /// | `1` | Slope or high-pass filter enabled      |
    ///
    pub fn hp_slope_xl_en_mut(&mut self) -> (target_bit: BitMut<'_, Self, 1>)
        ensures
            target_bit.current() == *old(self),
            has_resolved(target_bit) ==> *final(self) == target_bit.current(),
    {
        BitMut::wrap(self)
    }

    /// Extract the `hpcf_xl` bit sequence of this register.
    ///
    /// Slope/high-pass filter cutoff frequency configuration.
    ///
    /// Selects the cutoff frequency for the slope or high-pass filter, and also affects the LPF2 cutoff.
    ///
    /// # Filter Cutoff Table
    ///
    /// | Bit Pattern | Applied Filter | HPF Cutoff    | LPF2 Cutoff    |
    /// |-------------|----------------|---------------|----------------|
    /// | `00`        | Slope          | ODR_XL/4      | ODR_XL/50      |
    /// | `01`        | High-pass      | ODR_XL/100    | ODR_XL/100     |
    /// | `10`        | High-pass      | ODR_XL/9      | ODR_XL/9       |
    /// | `11`        | High-pass      | ODR_XL/400    | ODR_XL/400     |
    ///
    pub fn hpcf_xl(&self) -> (target_bits: Extracted<2, 3, Self>)
        ensures
            target_bits.wf(),
            target_bits.target() == *self,
    {
        Extracted::wrap(self)
    }

    /// Retrieve a mutable handle to the `hpcf_xl` bit sequence of this register.
    ///
    /// Slope/high-pass filter cutoff frequency configuration.
    ///
    /// Selects the cutoff frequency for the slope or high-pass filter, and also affects the LPF2 cutoff.
    ///
    /// # Filter Cutoff Table
    ///
    /// | Bit Pattern | Applied Filter | HPF Cutoff    | LPF2 Cutoff    |
    /// |-------------|----------------|---------------|----------------|
    /// | `00`        | Slope          | ODR_XL/4      | ODR_XL/50      |
    /// | `01`        | High-pass      | ODR_XL/100    | ODR_XL/100     |
    /// | `10`        | High-pass      | ODR_XL/9      | ODR_XL/9       |
    /// | `11`        | High-pass      | ODR_XL/400    | ODR_XL/400     |
    ///
    pub fn hpcf_xl_mut(&mut self) -> (target_bits: ExtractedMut<'_, 2, 3, Self>)
        ensures
            target_bits.current() == *old(self),
            has_resolved(target_bits) ==> *final(self) == target_bits.current(),
    {
        ExtractedMut::wrap(self)
    }

    /// Retrieve an immutable handle to the `lpf2_xl_en` bit of this register.
    ///
    /// LPF2 filter enable for accelerometer.
    ///
    /// # Table
    ///
    /// | Bit | Description          |
    /// |-----|----------------------|
    /// | `0` | LPF2 filter disabled |
    /// | `1` | LPF2 filter enabled  |
    ///
    pub fn lpf2_xl_en(&self) -> (target_bit: Bit<'_, Self, 4>)
        ensures
            target_bit.target() == *self,
    {
        Bit::wrap(self)
    }

    /// Retrieve a mutable handle to the `lpf2_xl_en` bit of this register.
    ///
    /// LPF2 filter enable for accelerometer.
    ///
    /// # Table
    ///
    /// | Bit | Description          |
    /// |-----|----------------------|
    /// | `0` | LPF2 filter disabled |
    /// | `1` | LPF2 filter enabled  |
    ///
    pub fn lpf2_xl_en_mut(&mut self) -> (target_bit: BitMut<'_, Self, 4>)
        ensures
            target_bit.current() == *old(self),
            has_resolved(target_bit) ==> *final(self) == target_bit.current(),
    {
        BitMut::wrap(self)
    }
}

impl HasPrimitive for Ctrl8Xl {
    type Primitive = u8;

    open spec fn width() -> nat {
        8
    }

    closed spec fn word(&self) -> u16 {
        self.0.word()
    }

    open spec fn primitive_word(target_value: u8) -> u16 {
        target_value as u16
    }

    proof fn lemma_layout(&self) {
        self.0.lemma_layout();
    }

    fn raw(self) -> (target_value: u8) {
        self.0.value()
    }

    fn load(&self) -> (target_word: u16) {
        self.0.load()
    }

    fn store(target_word: u16) -> (target_value: Self) {
        Ctrl8Xl(Register8::store(target_word))
    }
}

impl Bits for Ctrl8Xl {
    fn single<const N: usize>() -> (target_value: Self) {
        Ctrl8Xl(Register8::single::<N>())
    }
}

impl Extract for Ctrl8Xl {
}

impl Register for Ctrl8Xl {
    const ADDRESS: u8 = 0x17;
}

/// Linear acceleration sensor control register 9 (r/w).
///
/// This register enables or disables individual axes of the accelerometer, and controls the soft-iron correction feature.
///
/// # Layout
///
/// | Bit Range | Description                        |
/// |-----------|------------------------------------|
/// | 2         | Accelerometer Z-axis enable        |
/// | 3         | Accelerometer Y-axis enable        |
/// | 4         | Accelerometer X-axis enable        |
/// | 5         | Soft-iron correction enable        |
///
#[derive(Debug, Clone, Copy, PartialEq, Eq, Structural, PartialOrd, Ord)]
pub struct Ctrl9Xl(Register8);

impl Ctrl9Xl {
    /// Wrap a raw register value read from the device.
    pub fn register(target_register: Register8) -> (target_value: Self)
        ensures
            target_value.word() == target_register.word(),
    {
        Ctrl9Xl(target_register)
    }

    /// Retrieve an immutable handle to the `zen_xl` bit of this register.
    ///
    /// Z-axis accelerometer output enable.
    ///
    /// # Table
    ///
    /// | Bit | Description            |
    /// |-----|------------------------|
    /// | `0` | Z-axis disabled        |
    /// | `1` | Z-axis enabled (default) |
    ///
    pub fn zen_xl(&self) -> (target_bit: Bit<'_, Self, 2>)
        ensures
            target_bit.target() == *self,
    {
        Bit::wrap(self)
    }

    /// Retrieve a mutable handle to the `zen_xl` bit of this register.
    ///
    /// Z-axis accelerometer output enable.
    ///
    /// # Table
    ///
    /// | Bit | Description            |
    /// |-----|------------------------|
    /// | `0` | Z-axis disabled        |
    /// | `1` | Z-axis enabled (default) |
    ///
    pub fn zen_xl_mut(&mut self) -> (target_bit: BitMut<'_, Self, 2>)
        ensures
            target_bit.current() == *old(self),
            has_resolved(target_bit) ==> *final(self) == target_bit.current(),
    {
        BitMut::wrap(self)
    }

    /// Retrieve an immutable handle to the `yen_xl` bit of this register.
    ///
    /// Y-axis accelerometer output enable.
    ///
    /// # Table
    ///
    /// | Bit | Description            |
    /// |-----|------------------------|
    /// | `0` | Y-axis disabled        |
    /// | `1` | Y-axis enabled (default) |
    ///
    pub fn yen_xl(&self) -> (target_bit: Bit<'_, Self, 3>)
        ensures
            target_bit.target() == *self,
    {
        Bit::wrap(self)
    }

    /// Retrieve a mutable handle to the `yen_xl` bit of this register.
    ///
    /// Y-axis accelerometer output enable.
    ///
    /// # Table
    ///
    /// | Bit | Description            |
    /// |-----|------------------------|
    /// | `0` | Y-axis disabled        |
    /// | `1` | Y-axis enabled (default) |
    ///
    pub fn yen_xl_mut(&mut self) -> (target_bit: BitMut<'_, Self, 3>)
        ensures
            target_bit.current() == *old(self),
            has_resolved(target_bit) ==> *final(self) == target_bit.current(),
    {
        BitMut::wrap(self)
    }

    /// Retrieve an immutable handle to the `xen_xl` bit of this register.
    ///
    /// X-axis accelerometer output enable.
    ///
    /// # Table
    ///
    /// | Bit | Description            |
    /// |-----|------------------------|
    /// | `0` | X-axis disabled        |
    /// | `1` | X-axis enabled (default) |
    ///
    pub fn xen_xl(&self) -> (target_bit: Bit<'_, Self, 4>)
        ensures
            target_bit.target() == *self,
    {
        Bit::wrap(self)
    }

    /// Retrieve a mutable handle to the `xen_xl` bit of this register.
    ///
    /// X-axis accelerometer output enable.
    ///
    /// # Table
    ///
    /// | Bit | Description            |
    /// |-----|------------------------|
    /// | `0` | X-axis disabled        |
    /// | `1` | X-axis enabled (default) |
    ///
    pub fn xen_xl_mut(&mut self) -> (target_bit: BitMut<'_, Self, 4>)
        ensures
            target_bit.current() == *old(self),
            has_resolved(target_bit) ==> *final(self) == target_bit.current(),
    {
        BitMut::wrap(self)
    }

    /// Retrieve an immutable handle to the `soft_en` bit of this register.
    ///
    /// Soft-iron correction enable.
    ///
    /// This field is effective only when `IRON_EN` in `MASTER_CONFIG` is set to `1`.
    ///
    /// # Table
    ///
    /// | Bit | Description                 |
    /// |-----|-----------------------------|
    /// | `0` | Soft-iron correction off    |
    /// | `1` | Soft-iron correction active |
    ///
    pub fn soft_en(&self) -> (target_bit: Bit<'_, Self, 5>)
        ensures
            target_bit.target() == *self,
    {
        Bit::wrap(self)
    }

    /// Retrieve a mutable handle to the `soft_en` bit of this register.
    ///
    /// Soft-iron correction enable.
    ///
    /// This field is effective only when `IRON_EN` in `MASTER_CONFIG` is set to `1`.
    ///
    /// # Table
    ///
    /// | Bit | Description                 |
    /// |-----|-----------------------------|
    /// | `0` | Soft-iron correction off    |
    /// | `1` | Soft-iron correction active |
    ///
    pub fn soft_en_mut(&mut self) -> (target_bit: BitMut<'_, Self, 5>)
        ensures
            target_bit.current() == *old(self),
            has_resolved(target_bit) ==> *final(self) == target_bit.current(),
    {
        BitMut::wrap(self)
    }
}

impl HasPrimitive for Ctrl9Xl {
    type Primitive = u8;

    open spec fn width() -> nat {
        8
    }

    closed spec fn word(&self) -> u16 {
        self.0.word()
    }

    open spec fn primitive_word(target_value: u8) -> u16 {
        target_value as u16
    }

    proof fn lemma_layout(&self) {
        self.0.lemma_layout();
    }

    fn raw(self) -> (target_value: u8) {
        self.0.value()
    }

    fn load(&self) -> (target_word: u16) {
        self.0.load()
    }

    fn store(target_word: u16) -> (target_value: Self) {
        Ctrl9Xl(Register8::store(target_word))
    }
}

impl Bits for Ctrl9Xl {
    fn single<const N: usize>() -> (target_value: Self) {
        Ctrl9Xl(Register8::single::<N>())
    }
}

impl Extract for Ctrl9Xl {
}

impl Register for Ctrl9Xl {
    const ADDRESS: u8 = 0x18;
}

/// Control register 10 (r/w).
///
/// This register controls the gyroscope axis output and embedded function activation.
///
/// # Layout
///
/// | Bit Range | Description                           |
/// |-----------|---------------------------------------|
/// | 2         | Gyroscope Z-axis enable               |
/// | 3         | Gyroscope Y-axis enable               |
/// | 4         | Gyroscope X-axis enable               |
/// | 5         | Embedded functions enable             |
/// | 6         | Pedometer step counter reset          |
/// | 7         | Significant motion detection enable   |
///
#[derive(Debug, Clone, Copy, PartialEq, Eq, Structural, PartialOrd, Ord)]
pub struct Ctrl10C(Register8);

impl Ctrl10C {
    /// Wrap a raw register value read from the device.
    pub fn register(target_register: Register8) -> (target_value: Self)
        ensures
            target_value.word() == target_register.word(),
    {
        Ctrl10C(target_register)
    }

    /// Retrieve an immutable handle to the `zen_g` bit of this register.
    ///
    /// Z-axis gyroscope output enable.
    ///
    /// # Table
    ///
    /// | Bit | Description            |
    /// |-----|------------------------|
    /// | `0` | Z-axis disabled        |
    /// | `1` | Z-axis enabled (default) |
    ///
    pub fn zen_g(&self) -> (target_bit: Bit<'_, Self, 2>)
        ensures
            target_bit.target() == *self,
    {
        Bit::wrap(self)
    }

    /// Retrieve a mutable handle to the `zen_g` bit of this register.
    ///
    /// Z-axis gyroscope output enable.
    ///
    /// # Table
    ///
    /// | Bit | Description            |
    /// |-----|------------------------|
    /// | `0` | Z-axis disabled        |
    /// | `1` | Z-axis enabled (default) |
    ///
    pub fn zen_g_mut(&mut self) -> (target_bit: BitMut<'_, Self, 2>)
        ensures
            target_bit.current() == *old(self),
            has_resolved(target_bit) ==> *final(self) == target_bit.current(),
    {
        BitMut::wrap(self)
    }

    /// Retrieve an immutable handle to the `yen_g` bit of this register.
    ///
    /// Y-axis gyroscope output enable.
    ///
    /// # Table
    ///
    /// | Bit | Description            |
    /// |-----|------------------------|
    /// | `0` | Y-axis disabled        |
    /// | `1` | Y-axis enabled (default) |
    ///
    pub fn yen_g(&self) -> (target_bit: Bit<'_, Self, 3>)
        ensures
            target_bit.target() == *self,
    {
        Bit::wrap(self)
    }

    /// Retrieve a mutable handle to the `yen_g` bit of this register.
    ///
    /// Y-axis gyroscope output enable.
    ///
    /// # Table
    ///
    /// | Bit | Description            |
    /// |-----|------------------------|
    /// | `0` | Y-axis disabled        |
    /// | `1` | Y-axis enabled (default) |
    ///
    pub fn yen_g_mut(&mut self) -> (target_bit: BitMut<'_, Self, 3>)
        ensures
            target_bit.current() == *old(self),
            has_resolved(target_bit) ==> *final(self) == target_bit.current(),
    {
        BitMut::wrap(self)
    }

    /// Retrieve an immutable handle to the `xen_g` bit of this register.
    ///
    /// X-axis gyroscope output enable.
    ///
    /// # Table
    ///
    /// | Bit | Description            |
    /// |-----|------------------------|
    /// | `0` | X-axis disabled        |
    /// | `1` | X-axis enabled (default) |
    ///
    pub fn xen_g(&self) -> (target_bit: Bit<'_, Self, 4>)
        ensures
            target_bit.target() == *self,
    {
        Bit::wrap(self)
    }

    /// Retrieve a mutable handle to the `xen_g` bit of this register.
    ///
    /// X-axis gyroscope output enable.
    ///
    /// # Table
    ///
    /// | Bit | Description            |
    /// |-----|------------------------|
    /// | `0` | X-axis disabled        |
    /// | `1` | X-axis enabled (default) |
    ///
    pub fn xen_g_mut(&mut self) -> (target_bit: BitMut<'_, Self, 4>)
        ensures
            target_bit.current() == *old(self),
            has_resolved(target_bit) ==> *final(self) == target_bit.current(),
    {
        BitMut::wrap(self)
    }

    /// Retrieve an immutable handle to the `func_en` bit of this register.
    ///
    /// Embedded function and filter enable.
    ///
    /// Enables the pedometer, tilt, significant motion, sensor hub, ironing, and accelerometer filter logic.
    ///
    /// # Table
    ///
    /// | Bit | Description                  |
    /// |-----|------------------------------|
    /// | `0` | Functions and filters off    |
    /// | `1` | Functions and filters active |
    ///
    pub fn func_en(&self) -> (target_bit: Bit<'_, Self, 5>)
        ensures
            target_bit.target() == *self,
    {
        Bit::wrap(self)
    }

    /// Retrieve a mutable handle to the `func_en` bit of this register.
    ///
    /// Embedded function and filter enable.
    ///
    /// Enables the pedometer, tilt, significant motion, sensor hub, ironing, and accelerometer filter logic.
    ///
    /// # Table
    ///
    /// | Bit | Description                  |
    /// |-----|------------------------------|
    /// | `0` | Functions and filters off    |
    /// | `1` | Functions and filters active |
    ///
    pub fn func_en_mut(&mut self) -> (target_bit: BitMut<'_, Self, 5>)
        ensures
            target_bit.current() == *old(self),
            has_resolved(target_bit) ==> *final(self) == target_bit.current(),
    {
        BitMut::wrap(self)
    }

    /// Retrieve an immutable handle to the `pedo_rst_step` bit of this register.
    ///
    /// Reset pedometer step counter.
    ///
    /// # Table
    ///
    /// | Bit | Description       |
    /// |-----|-------------------|
    /// | `0` | No reset          |
    /// | `1` | Reset pedometer   |
    ///
    pub fn pedo_rst_step(&self) -> (target_bit: Bit<'_, Self, 6>)
        ensures
            target_bit.target() == *self,
    {
        Bit::wrap(self)
    }

    /// Retrieve a mutable handle to the `pedo_rst_step` bit of this register.
    ///
    /// Reset pedometer step counter.
    ///
    /// # Table
    ///
    /// | Bit | Description       |
    /// |-----|-------------------|
    /// | `0` | No reset          |
    /// | `1` | Reset pedometer   |
    ///
    pub fn pedo_rst_step_mut(&mut self) -> (target_bit: BitMut<'_, Self, 6>)
        ensures
            target_bit.current() == *old(self),
            has_resolved(target_bit) ==> *final(self) == target_bit.current(),
    {
        BitMut::wrap(self)
    }

    /// Retrieve an immutable handle to the `sign_motion_en` bit of this register.
    ///
    /// Enable significant motion detection.
    ///
    /// # Table
    ///
    /// | Bit | Description                  |
    /// |-----|------------------------------|
    /// | `0` | Significant motion off       |
    /// | `1` | Significant motion enabled   |
    ///
    pub fn sign_motion_en(&self) -> (target_bit: Bit<'_, Self, 7>)
        ensures
            target_bit.target() == *self,
    {
        Bit::wrap(self)
    }

    /// Retrieve a mutable handle to the `sign_motion_en` bit of this register.
    ///
    /// Enable significant motion detection.
    ///
    /// # Table
    ///
    /// | Bit | Description                  |
    /// |-----|------------------------------|
    /// | `0` | Significant motion off       |
    /// | `1` | Significant motion enabled   |
    ///
    pub fn sign_motion_en_mut(&mut self) -> (target_bit: BitMut<'_, Self, 7>)
        ensures
            target_bit.current() == *old(self),
            has_resolved(target_bit) ==> *final(self) == target_bit.current(),
    {
        BitMut::wrap(self)
    }
}

impl HasPrimitive for Ctrl10C {
    type Primitive = u8;

    open spec fn width() -> nat {
        8
    }

    closed spec fn word(&self) -> u16 {
        self.0.word()
    }

    open spec fn primitive_word(target_value: u8) -> u16 {
        target_value as u16
    }

    proof fn lemma_layout(&self) {
        self.0.lemma_layout();
    }

    fn raw(self) -> (target_value: u8) {
        self.0.value()
    }

    fn load(&self) -> (target_word: u16) {
        self.0.load()
    }

    fn store(target_word: u16) -> (target_value: Self) {
        Ctrl10C(Register8::store(target_word))
    }
}

impl Bits for Ctrl10C {
    fn single<const N: usize>() -> (target_value: Self) {
        Ctrl10C(Register8::single::<N>())
    }
}

impl Extract for Ctrl10C {
}

impl Register for Ctrl10C {
    const ADDRESS: u8 = 0x19;
}

/// Master configuration register (r/w).
///
/// Configures the sensor hub master interface and auxiliary functions.
///
/// # Layout
///
/// | Bit Range | Description                                 |
/// |-----------|---------------------------------------------|
/// | 0         | DRDY on INT1 enable                         |
/// | 1         | FIFO data-valid signal selection            |
/// | 2         | Sensor hub trigger signal source            |
/// | 3         | Auxiliary I²C internal pull-up enable       |
/// | 4         | I²C pass-through mode                       |
/// | 5         | Hard-iron correction enable                 |
/// | 6         | Sensor hub master enable                    |
/// | 7         | Reserved, must be `0`                       |
///
#[derive(Debug, Clone, Copy, PartialEq, Eq, Structural, PartialOrd, Ord)]
pub struct MasterConfig(Register8);

impl MasterConfig {
    /// Wrap a raw register value read from the device.
    pub fn register(target_register: Register8) -> (target_value: Self)
        ensures
            target_value.word() == target_register.word(),
    {
        MasterConfig(target_register)
    }

    /// Retrieve an immutable handle to the `drdy_on_int1` bit of this register.
    ///
    /// Enables Master DRDY signal on INT1 pin.
    ///
    /// # Values
    ///
    /// | Bit | Description                          |
    /// |-----|--------------------------------------|
    /// | `0` | DRDY not routed to INT1 (default)    |
    /// | `1` | DRDY routed to INT1                  |
    ///
    pub fn drdy_on_int1(&self) -> (target_bit: Bit<'_, Self, 0>)
        ensures
            target_bit.target() == *self,
    {
        Bit::wrap(self)
    }

    /// Retrieve a mutable handle to the `drdy_on_int1` bit of this register.
    ///
    /// Enables Master DRDY signal on INT1 pin.
    ///
    /// # Values
    ///
    /// | Bit | Description                          |
    /// |-----|--------------------------------------|
    /// | `0` | DRDY not routed to INT1 (default)    |
    /// | `1` | DRDY routed to INT1                  |
    ///
    pub fn drdy_on_int1_mut(&mut self) -> (target_bit: BitMut<'_, Self, 0>)
        ensures
            target_bit.current() == *old(self),
            has_resolved(target_bit) ==> *final(self) == target_bit.current(),
    {
        BitMut::wrap(self)
    }

    /// Retrieve an immutable handle to the `data_valid_sel_fifo` bit of this register.
    ///
    /// Selects the data-valid signal source for FIFO writes.
    ///
    /// # Values
    ///
    /// | Bit | FIFO Trigger Source                           |
    /// |-----|-----------------------------------------------|
    /// | `0` | XL/Gyro data-ready or step detection (default)|
    /// | `1` | Sensor hub data-ready                         |
    ///
    pub fn data_valid_sel_fifo(&self) -> (target_bit: Bit<'_, Self, 1>)
        ensures
            target_bit.target() == *self,
    {
        Bit::wrap(self)
    }

    /// Retrieve a mutable handle to the `data_valid_sel_fifo` bit of this register.
    ///
    /// Selects the data-valid signal source for FIFO writes.
    ///
    /// # Values
    ///
    /// | Bit | FIFO Trigger Source                           |
    /// |-----|-----------------------------------------------|
    /// | `0` | XL/Gyro data-ready or step detection (default)|
    /// | `1` | Sensor hub data-ready                         |
    ///
    pub fn data_valid_sel_fifo_mut(&mut self) -> (target_bit: BitMut<'_, Self, 1>)
        ensures
            target_bit.current() == *old(self),
            has_resolved(target_bit) ==> *final(self) == target_bit.current(),
    {
        BitMut::wrap(self)
    }

    /// Retrieve an immutable handle to the `start_config` bit of this register.
    ///
    /// Selects the sensor hub start trigger source.
    ///
    /// # Values
    ///
    /// | Bit | Trigger Source                        |
    /// |-----|----------------------------------------|
    /// | `0` | XL/Gyro data-ready (default)          |
    /// | `1` | External signal from INT2             |
    ///
    pub fn start_config(&self) -> (target_bit: Bit<'_, Self, 2>)
        ensures
            target_bit.target() == *self,
    {
        Bit::wrap(self)
    }

    /// Retrieve a mutable handle to the `start_config` bit of this register.
    ///
    /// Selects the sensor hub start trigger source.
    ///
    /// # Values
    ///
    /// | Bit | Trigger Source                        |
    /// |-----|----------------------------------------|
    /// | `0` | XL/Gyro data-ready (default)          |
    /// | `1` | External signal from INT2             |
    ///
    pub fn start_config_mut(&mut self) -> (target_bit: BitMut<'_, Self, 2>)
        ensures
            target_bit.current() == *old(self),
            has_resolved(target_bit) ==> *final(self) == target_bit.current(),
    {
        BitMut::wrap(self)
    }

    /// Retrieve an immutable handle to the `pull_up_en` bit of this register.
    ///
    /// Enables internal pull-up resistors on auxiliary I²C lines.
    ///
    /// # Values
    ///
    /// | Bit | Pull-Up Status              |
    /// |-----|-----------------------------|
    /// | `0` | Disabled (default)          |
    /// | `1` | Enabled                     |
    ///
    pub fn pull_up_en(&self) -> (target_bit: Bit<'_, Self, 3>)
        ensures
            target_bit.target() == *self,
    {
        Bit::wrap(self)
    }

    /// Retrieve a mutable handle to the `pull_up_en` bit of this register.
    ///
    /// Enables internal pull-up resistors on auxiliary I²C lines.
    ///
    /// # Values
    ///
    /// | Bit | Pull-Up Status              |
    /// |-----|-----------------------------|
    /// | `0` | Disabled (default)          |
    /// | `1` | Enabled                     |
    ///
    pub fn pull_up_en_mut(&mut self) -> (target_bit: BitMut<'_, Self, 3>)
        ensures
            target_bit.current() == *old(self),
            has_resolved(target_bit) ==> *final(self) == target_bit.current(),
    {
        BitMut::wrap(self)
    }

    /// Retrieve an immutable handle to the `pass_through_mode` bit of this register.
    ///
    /// Enables I²C pass-through mode.
    ///
    /// # Values
    ///
    /// | Bit | Pass-Through Mode           |
    /// |-----|-----------------------------|
    /// | `0` | Disabled (default)          |
    /// | `1` | Enabled                     |
    ///
    pub fn pass_through_mode(&self) -> (target_bit: Bit<'_, Self, 4>)
        ensures
            target_bit.target() == *self,
    {
        Bit::wrap(self)
    }

    /// Retrieve a mutable handle to the `pass_through_mode` bit of this register.
    ///
    /// Enables I²C pass-through mode.
    ///
    /// # Values
    ///
    /// | Bit | Pass-Through Mode           |
    /// |-----|-----------------------------|
    /// | `0` | Disabled (default)          |
    /// | `1` | Enabled                     |
    ///
    pub fn pass_through_mode_mut(&mut self) -> (target_bit: BitMut<'_, Self, 4>)
        ensures
            target_bit.current() == *old(self),
            has_resolved(target_bit) ==> *final(self) == target_bit.current(),
    {
        BitMut::wrap(self)
    }

    /// Retrieve an immutable handle to the `iron_en` bit of this register.
    ///
    /// Enables hard-iron correction algorithm.
    ///
    /// # Values
    ///
    /// | Bit | Hard-Iron Correction        |
    /// |-----|-----------------------------|
    /// | `0` | Disabled (default)          |
    /// | `1` | Enabled                     |
    ///
    pub fn iron_en(&self) -> (target_bit: Bit<'_, Self, 5>)
        ensures
            target_bit.target() == *self,
    {
        Bit::wrap(self)
    }

    /// Retrieve a mutable handle to the `iron_en` bit of this register.
    ///
    /// Enables hard-iron correction algorithm.
    ///
    /// # Values
    ///
    /// | Bit | Hard-Iron Correction        |
    /// |-----|-----------------------------|
    /// | `0` | Disabled (default)          |
    /// | `1` | Enabled                     |
    ///
    pub fn iron_en_mut(&mut self) -> (target_bit: BitMut<'_, Self, 5>)
        ensures
            target_bit.current() == *old(self),
            has_resolved(target_bit) ==> *final(self) == target_bit.current(),
    {
        BitMut::wrap(self)
    }

    /// Retrieve an immutable handle to the `master_on` bit of this register.
    ///
    /// Enables sensor hub I²C master interface.
    ///
    /// # Values
    ///
    /// | Bit | Sensor Hub Master           |
    /// |-----|-----------------------------|
    /// | `0` | Disabled (default)          |
    /// | `1` | Enabled                     |
    ///
    pub fn master_on(&self) -> (target_bit: Bit<'_, Self, 6>)
        ensures
            target_bit.target() == *self,
    {
        Bit::wrap(self)
    }

    /// Retrieve a mutable handle to the `master_on` bit of this register.
    ///
    /// Enables sensor hub I²C master interface.
    ///
    /// # Values
    ///
    /// | Bit | Sensor Hub Master           |
    /// |-----|-----------------------------|
    /// | `0` | Disabled (default)          |
    /// | `1` | Enabled                     |
    ///
    pub fn master_on_mut(&mut self) -> (target_bit: BitMut<'_, Self, 6>)
        ensures
            target_bit.current() == *old(self),
            has_resolved(target_bit) ==> *final(self) == target_bit.current(),
    {
        BitMut::wrap(self)
    }
}

impl HasPrimitive for MasterConfig {
    type Primitive = u8;

    open spec fn width() -> nat {
        8
    }

    closed spec fn word(&self) -> u16 {
        self.0.word()
    }

    open spec fn primitive_word(target_value: u8) -> u16 {
        target_value as u16
    }

    proof fn lemma_layout(&self) {
        self.0.lemma_layout();
    }

    fn raw(self) -> (target_value: u8) {
        self.0.value()
    }

    fn load(&self) -> (target_word: u16) {
        self.0.load()
    }

    fn store(target_word: u16) -> (target_value: Self) {
        MasterConfig(Register8::store(target_word))
    }
}

impl Bits for MasterConfig {
    fn single<const N: usize>() -> (target_value: Self) {
        MasterConfig(Register8::single::<N>())
    }
}

impl Extract for MasterConfig {
}

impl Register for MasterConfig {
    const ADDRESS: u8 = 0x1A;
}

/// Wake-up interrupt source register (r).
///
/// Reports the wake-up and free-fall detection events.
///
/// # Layout
///
/// | Bit Range | Description                     |
/// |-----------|---------------------------------|
/// | 0         | Free-fall event detected        |
/// | 1         | Sleep state detected            |
/// | 2         | Wake-up event detected          |
/// | 3         | X-axis wake-up detected         |
/// | 4         | Y-axis wake-up detected         |
/// | 5         | Z-axis wake-up detected         |
/// | 6..=7     | Reserved, must be `0`           |
///
#[derive(Debug, Clone, Copy, PartialEq, Eq, Structural, PartialOrd, Ord)]
pub struct WakeUpSrc(Register8);

impl WakeUpSrc {
    /// Wrap a raw register value read from the device.
    pub fn register(target_register: Register8) -> (target_value: Self)
        ensures
            target_value.word() == target_register.word(),
    {
        WakeUpSrc(target_register)
    }

    /// Retrieve an immutable handle to the `ff_ia` bit of this register.
    ///
    /// Free-fall event status.
    ///
    /// # Values
    ///
    /// | Bit | Event Status         |
    /// |-----|----------------------|
    /// | `0` | No free-fall (default) |
    /// | `1` | Free-fall detected   |
    ///
    pub fn ff_ia(&self) -> (target_bit: Bit<'_, Self, 0>)
        ensures
            target_bit.target() == *self,
    {
        Bit::wrap(self)
    }

    /// Retrieve a mutable handle to the `ff_ia` bit of this register.
    ///
    /// Free-fall event status.
    ///
    /// # Values
    ///
    /// | Bit | Event Status         |
    /// |-----|----------------------|
    /// | `0` | No free-fall (default) |
    /// | `1` | Free-fall detected   |
    ///
    pub fn ff_ia_mut(&mut self) -> (target_bit: BitMut<'_, Self, 0>)
        ensures
            target_bit.current() == *old(self),
            has_resolved(target_bit) ==> *final(self) == target_bit.current(),
    {
        BitMut::wrap(self)
    }

    /// Retrieve an immutable handle to the `sleep_state_ia` bit of this register.
    ///
    /// Sleep event status.
    ///
    /// # Values
    ///
    /// | Bit | Sleep Status         |
    /// |-----|----------------------|
    /// | `0` | No event (default)   |
    /// | `1` | Sleep event detected |
    ///
    pub fn sleep_state_ia(&self) -> (target_bit: Bit<'_, Self, 1>)
        ensures
            target_bit.target() == *self,
    {
        Bit::wrap(self)
    }

    /// Retrieve a mutable handle to the `sleep_state_ia` bit of this register.
    ///
    /// Sleep event status.
    ///
    /// # Values
    ///
    /// | Bit | Sleep Status         |
    /// |-----|----------------------|
    /// | `0` | No event (default)   |
    /// | `1` | Sleep event detected |
    ///
    pub fn sleep_state_ia_mut(&mut self) -> (target_bit: BitMut<'_, Self, 1>)
        ensures
            target_bit.current() == *old(self),
            has_resolved(target_bit) ==> *final(self) == target_bit.current(),
    {
        BitMut::wrap(self)
    }

    /// Retrieve an immutable handle to the `wu_ia` bit of this register.
    ///
    /// Wake-up event status.
    ///
    /// # Values
    ///
    /// | Bit | Wake-Up Event        |
    /// |-----|----------------------|
    /// | `0` | Not detected (default)|
    /// | `1` | Detected             |
    ///
    pub fn wu_ia(&self) -> (target_bit: Bit<'_, Self, 2>)
        ensures
            target_bit.target() == *self,
    {
        Bit::wrap(self)
    }

    /// Retrieve a mutable handle to the `wu_ia` bit of this register.
    ///
    /// Wake-up event status.
    ///
    /// # Values
    ///
    /// | Bit | Wake-Up Event        |
    /// |-----|----------------------|
    /// | `0` | Not detected (default)|
    /// | `1` | Detected             |
    ///
    pub fn wu_ia_mut(&mut self) -> (target_bit: BitMut<'_, Self, 2>)
        ensures
            target_bit.current() == *old(self),
            has_resolved(target_bit) ==> *final(self) == target_bit.current(),
    {
        BitMut::wrap(self)
    }

    /// Retrieve an immutable handle to the `x_wu` bit of this register.
    ///
    /// X-axis wake-up event.
    ///
    /// # Values
    ///
    /// | Bit | Status               |
    /// |-----|----------------------|
    /// | `0` | Not detected (default)|
    /// | `1` | Detected             |
    ///
    pub fn x_wu(&self) -> (target_bit: Bit<'_, Self, 3>)
        ensures
            target_bit.target() == *self,
    {
        Bit::wrap(self)
    }

    /// Retrieve a mutable handle to the `x_wu` bit of this register.
    ///
    /// X-axis wake-up event.
    ///
    /// # Values
    ///
    /// | Bit | Status               |
    /// |-----|----------------------|
    /// | `0` | Not detected (default)|
    /// | `1` | Detected             |
    ///
    pub fn x_wu_mut(&mut self) -> (target_bit: BitMut<'_, Self, 3>)
        ensures
            target_bit.current() == *old(self),
            has_resolved(target_bit) ==> *final(self) == target_bit.current(),
    {
        BitMut::wrap(self)
    }

    /// Retrieve an immutable handle to the `y_wu` bit of this register.
    ///
    /// Y-axis wake-up event.
    ///
    /// # Values
    ///
    /// | Bit | Status               |
    /// |-----|----------------------|
    /// | `0` | Not detected (default)|
    /// | `1` | Detected             |
    ///
    pub fn y_wu(&self) -> (target_bit: Bit<'_, Self, 4>)
        ensures
            target_bit.target() == *self,
    {
        Bit::wrap(self)
    }

    /// Retrieve a mutable handle to the `y_wu` bit of this register.
    ///
    /// Y-axis wake-up event.
    ///
    /// # Values
    ///
    /// | Bit | Status               |
    /// |-----|----------------------|
    /// | `0` | Not detected (default)|
    /// | `1` | Detected             |
    ///
    pub fn y_wu_mut(&mut self) -> (target_bit: BitMut<'_, Self, 4>)
        ensures
            target_bit.current() == *old(self),
            has_resolved(target_bit) ==> *final(self) == target_bit.current(),
    {
        BitMut::wrap(self)
    }

    /// Retrieve an immutable handle to the `z_wu` bit of this register.
    ///
    /// Z-axis wake-up event.
    ///
    /// # Values
    ///
    /// | Bit | Status               |
    /// |-----|----------------------|
    /// | `0` | Not detected (default)|
    /// | `1` | Detected             |
    ///
    pub fn z_wu(&self) -> (target_bit: Bit<'_, Self, 5>)
        ensures
            target_bit.target() == *self,
    {
        Bit::wrap(self)
    }

    /// Retrieve a mutable handle to the `z_wu` bit of this register.
    ///
    /// Z-axis wake-up event.
    ///
    /// # Values
    ///
    /// | Bit | Status               |
    /// |-----|----------------------|
    /// | `0` | Not detected (default)|
    /// | `1` | Detected             |
    ///
    pub fn z_wu_mut(&mut self) -> (target_bit: BitMut<'_, Self, 5>)
        ensures
            target_bit.current() == *old(self),
            has_resolved(target_bit) ==> *final(self) == target_bit.current(),
    {
        BitMut::wrap(self)
    }
}

impl HasPrimitive for WakeUpSrc {
    type Primitive = u8;

    open spec fn width() -> nat {
        8
    }

    closed spec fn word(&self) -> u16 {
        self.0.word()
    }

    open spec fn primitive_word(target_value: u8) -> u16 {
        target_value as u16
    }

    proof fn lemma_layout(&self) {
        self.0.lemma_layout();
    }

    fn raw(self) -> (target_value: u8) {
        self.0.value()
    }

    fn load(&self) -> (target_word: u16) {
        self.0.load()
    }

    fn store(target_word: u16) -> (target_value: Self) {
        WakeUpSrc(Register8::store(target_word))
    }
}

impl Bits for WakeUpSrc {
    fn single<const N: usize>() -> (target_value: Self) {
        WakeUpSrc(Register8::single::<N>())
    }
}

impl Extract for WakeUpSrc {
}

impl Register for WakeUpSrc {
    const ADDRESS: u8 = 0x1B;
}

/// Temperature data output register (r).
///
/// The temperature sensor output data is expressed as a 16-bit word in two’s complement.
///
/// The `OUT_TEMP_L` register represents the least significant byte, while `OUT_TEMP_H` represents the most significant byte.
///
/// This register is read-only.
#[derive(Debug, Clone, Copy, PartialEq, Eq, Structural, PartialOrd, Ord)]
pub struct OutTemp(Register16);

impl OutTemp {
    /// Wrap a raw register value read from the device.
    pub fn register(target_register: Register16) -> (target_value: Self)
        ensures
            target_value.word() == target_register.word(),
    {
        OutTemp(target_register)
    }

    /// Extract the `temp_lsb` bit sequence of this register.
    ///
    /// Temperature sensor output data (LSbyte).
    ///
    /// This field represents the lower 8 bits of the temperature data.
    pub fn temp_lsb(&self) -> (target_bits: Extracted<0, 7, Self>)
        ensures
            target_bits.wf(),
            target_bits.target() == *self,
    {
        Extracted::wrap(self)
    }

    /// Extract the `temp_msb` bit sequence of this register.
    ///
    /// Temperature sensor output data (MSbyte).
    ///
    /// This field represents the upper 8 bits of the temperature data.
    pub fn temp_msb(&self) -> (target_bits: Extracted<8, 15, Self>)
        ensures
            target_bits.wf(),
            target_bits.target() == *self,
    {
        Extracted::wrap(self)
    }
}

impl HasPrimitive for OutTemp {
    type Primitive = u16;

    open spec fn width() -> nat {
        16
    }

    closed spec fn word(&self) -> u16 {
        self.0.word()
    }

    open spec fn primitive_word(target_value: u16) -> u16 {
        target_value as u16
    }

    proof fn lemma_layout(&self) {
        self.0.lemma_layout();
    }

    fn raw(self) -> (target_value: u16) {
        self.0.value()
    }

    fn load(&self) -> (target_word: u16) {
        self.0.load()
    }

    fn store(target_word: u16) -> (target_value: Self) {
        OutTemp(Register16::store(target_word))
    }
}

impl Bits for OutTemp {
    fn single<const N: usize>() -> (target_value: Self) {
        OutTemp(Register16::single::<N>())
    }
}

impl Extract for OutTemp {
}

impl Register for OutTemp {
    const ADDRESS: u8 = 0x20;
}

/// Angular rate sensor pitch axis (X) output register (r).
///
/// The value is expressed as a 16-bit word in two’s complement.
///
/// The `OUTX_L_G` register represents the least significant byte, while `OUTX_H_G` represents the most significant byte.
///
/// This register is read-only.
#[derive(Debug, Clone, Copy, PartialEq, Eq, Structural, PartialOrd, Ord)]
pub struct OutXG(Register16);

impl OutXG {
    /// Wrap a raw register value read from the device.
    pub fn register(target_register: Register16) -> (target_value: Self)
        ensures
            target_value.word() == target_register.word(),
    {
        OutXG(target_register)
    }

    /// Extract the `x_lsb` bit sequence of this register.
    ///
    /// Pitch axis (X) angular rate value (LSbyte).
    pub fn x_lsb(&self) -> (target_bits: Extracted<0, 7, Self>)
        ensures
            target_bits.wf(),
            target_bits.target() == *self,
    {
        Extracted::wrap(self)
    }

    /// Extract the `x_msb` bit sequence of this register.
    ///
    /// Pitch axis (X) angular rate value (MSbyte).
    pub fn x_msb(&self) -> (target_bits: Extracted<8, 15, Self>)
        ensures
            target_bits.wf(),
            target_bits.target() == *self,
    {
        Extracted::wrap(self)
    }
}

impl HasPrimitive for OutXG {
    type Primitive = u16;

    open spec fn width() -> nat {
        16
    }

    closed spec fn word(&self) -> u16 {
        self.0.word()
    }

    open spec fn primitive_word(target_value: u16) -> u16 {
        target_value as u16
    }

    proof fn lemma_layout(&self) {
        self.0.lemma_layout();
    }

    fn raw(self) -> (target_value: u16) {
        self.0.value()
    }

    fn load(&self) -> (target_word: u16) {
        self.0.load()
    }

    fn store(target_word: u16) -> (target_value: Self) {
        OutXG(Register16::store(target_word))
    }
}

impl Bits for OutXG {
    fn single<const N: usize>() -> (target_value: Self) {
        OutXG(Register16::single::<N>())
    }
}

impl Extract for OutXG {
}

impl Register for OutXG {
    const ADDRESS: u8 = 0x22;
}

/// Angular rate sensor roll axis (Y) output register (r).
///
/// The value is expressed as a 16-bit word in two’s complement.
/// The `OUTY_L_G` register represents the least significant byte, while `OUTY_H_G` represents the most significant byte.
///
/// This register is read-only.
#[derive(Debug, Clone, Copy, PartialEq, Eq, Structural, PartialOrd, Ord)]
pub struct OutYG(Register16);

impl OutYG {
    /// Wrap a raw register value read from the device.
    pub fn register(target_register: Register16) -> (target_value: Self)
        ensures
            target_value.word() == target_register.word(),
    {
        OutYG(target_register)
    }

    /// Extract the `y_lsb` bit sequence of this register.
    ///
    /// Roll axis (Y) angular rate value (LSbyte).
    pub fn y_lsb(&self) -> (target_bits: Extracted<0, 7, Self>)
        ensures
            target_bits.wf(),
            target_bits.target() == *self,
    {
        Extracted::wrap(self)
    }

    /// Extract the `y_msb` bit sequence of this register.
    ///
    /// Roll axis (Y) angular rate value (MSbyte).
    pub fn y_msb(&self) -> (target_bits: Extracted<8, 15, Self>)
        ensures
            target_bits.wf(),
            target_bits.target() == *self,
    {
        Extracted::wrap(self)
    }
}

impl HasPrimitive for OutYG {
    type Primitive = u16;

    open spec fn width() -> nat {
        16
    }

    closed spec fn word(&self) -> u16 {
        self.0.word()
    }

    open spec fn primitive_word(target_value: u16) -> u16 {
        target_value as u16
    }

    proof fn lemma_layout(&self) {
        self.0.lemma_layout();
    }

    fn raw(self) -> (target_value: u16) {
        self.0.value()
    }

    fn load(&self) -> (target_word: u16) {
        self.0.load()
    }

    fn store(target_word: u16) -> (target_value: Self) {
        OutYG(Register16::store(target_word))
    }
}

impl Bits for OutYG {
    fn single<const N: usize>() -> (target_value: Self) {
        OutYG(Register16::single::<N>())
    }
}

impl Extract for OutYG {
}

impl Register for OutYG {
    const ADDRESS: u8 = 0x24;
}

/// Angular rate sensor yaw axis (Z) output register (r).
///
/// The value is expressed as a 16-bit word in two’s complement.
/// The `OUTZ_L_G` register represents the least significant byte, while `OUTZ_H_G` represents the most significant byte.
///
/// This register is read-only.
#[derive(Debug, Clone, Copy, PartialEq, Eq, Structural, PartialOrd, Ord)]
pub struct OutZG(Register16);

impl OutZG {
    /// Wrap a raw register value read from the device.
    pub fn register(target_register: Register16) -> (target_value: Self)
        ensures
            target_value.word() == target_register.word(),
    {
        OutZG(target_register)
    }

    /// Extract the `z_lsb` bit sequence of this register.
    ///
    /// Yaw axis (Z) angular rate value (LSbyte).
    pub fn z_lsb(&self) -> (target_bits: Extracted<0, 7, Self>)
        ensures
            target_bits.wf(),
            target_bits.target() == *self,
    {
        Extracted::wrap(self)
    }

    /// Extract the `z_msb` bit sequence of this register.
    ///
    /// Yaw axis (Z) angular rate value (MSbyte).
    pub fn z_msb(&self) -> (target_bits: Extracted<8, 15, Self>)
        ensures
            target_bits.wf(),
            target_bits.target() == *self,
    {
        Extracted::wrap(self)
    }
}

impl HasPrimitive for OutZG {
    type Primitive = u16;

    open spec fn width() -> nat {
        16
    }

    closed spec fn word(&self) -> u16 {
        self.0.word()
    }

    open spec fn primitive_word(target_value: u16) -> u16 {
        target_value as u16
    }

    proof fn lemma_layout(&self) {
        self.0.lemma_layout();
    }

    fn raw(self) -> (target_value: u16) {
        self.0.value()
    }

    fn load(&self) -> (target_word: u16) {
        self.0.load()
    }

    fn store(target_word: u16) -> (target_value: Self) {
        OutZG(Register16::store(target_word))
    }
}

impl Bits for OutZG {
    fn single<const N: usize>() -> (target_value: Self) {
        OutZG(Register16::single::<N>())
    }
}

impl Extract for OutZG {
}

impl Register for OutZG {
    const ADDRESS: u8 = 0x26;
}

/// Linear acceleration sensor X-axis output register (r).
///
/// The value is expressed as a 16-bit word in two’s complement.
///
/// The `OUTX_L_XL` register represents the least significant byte, while `OUTX_H_XL` represents the most significant byte.
///
/// This register is read-only.
#[derive(Debug, Clone, Copy, PartialEq, Eq, Structural, PartialOrd, Ord)]
pub struct OutXL(Register16);

impl OutXL {
    /// Wrap a raw register value read from the device.
    pub fn register(target_register: Register16) -> (target_value: Self)
        ensures
            target_value.word() == target_register.word(),
    {
        OutXL(target_register)
    }

    /// Extract the `xl_lsb` bit sequence of this register.
    ///
    /// X-axis linear acceleration value (LSbyte).
    pub fn xl_lsb(&self) -> (target_bits: Extracted<0, 7, Self>)
        ensures
            target_bits.wf(),
            target_bits.target() == *self,
    {
        Extracted::wrap(self)
    }

    /// Extract the `xl_msb` bit sequence of this register.
    ///
    /// X-axis linear acceleration value (MSbyte).
    pub fn xl_msb(&self) -> (target_bits: Extracted<8, 15, Self>)
        ensures
            target_bits.wf(),
            target_bits.target() == *self,
    {
        Extracted::wrap(self)
    }
}

impl HasPrimitive for OutXL {
    type Primitive = u16;

    open spec fn width() -> nat {
        16
    }

    closed spec fn word(&self) -> u16 {
        self.0.word()
    }

    open spec fn primitive_word(target_value: u16) -> u16 {
        target_value as u16
    }

    proof fn lemma_layout(&self) {
        self.0.lemma_layout();
    }

    fn raw(self) -> (target_value: u16) {
        self.0.value()
    }

    fn load(&self) -> (target_word: u16) {
        self.0.load()
    }

    fn store(target_word: u16) -> (target_value: Self) {
        OutXL(Register16::store(target_word))
    }
}

impl Bits for OutXL {
    fn single<const N: usize>() -> (target_value: Self) {
        OutXL(Register16::single::<N>())
    }
}

impl Extract for OutXL {
}

impl Register for OutXL {
    const ADDRESS: u8 = 0x28;
}

/// Linear acceleration sensor Y-axis output register (r).
///
/// The value is expressed as a 16-bit word in two’s complement.
///
/// The `OUTY_L_XL` register represents the least significant byte, while `OUTY_H_XL` represents the most significant byte.
///
/// This register is read-only.
#[derive(Debug, Clone, Copy, PartialEq, Eq, Structural, PartialOrd, Ord)]
pub struct OutYL(Register16);

impl OutYL {
    /// Wrap a raw register value read from the device.
    pub fn register(target_register: Register16) -> (target_value: Self)
        ensures
            target_value.word() == target_register.word(),
    {
        OutYL(target_register)
    }

    /// Extract the `yl_lsb` bit sequence of this register.
    ///
    /// Y-axis linear acceleration value (LSbyte).
    pub fn yl_lsb(&self) -> (target_bits: Extracted<0, 7, Self>)
        ensures
            target_bits.wf(),
            target_bits.target() == *self,
    {
        Extracted::wrap(self)
    }

    /// Extract the `yl_msb` bit sequence of this register.
    ///
    /// Y-axis linear acceleration value (MSbyte).
    pub fn yl_msb(&self) -> (target_bits: Extracted<8, 15, Self>)
        ensures
            target_bits.wf(),
            target_bits.target() == *self,
    {
        Extracted::wrap(self)
    }
}

impl HasPrimitive for OutYL {
    type Primitive = u16;

    open spec fn width() -> nat {
        16
    }

    closed spec fn word(&self) -> u16 {
        self.0.word()
    }

    open spec fn primitive_word(target_value: u16) -> u16 {
        target_value as u16
    }

    proof fn lemma_layout(&self) {
        self.0.lemma_layout();
    }

    fn raw(self) -> (target_value: u16) {
        self.0.value()
    }

    fn load(&self) -> (target_word: u16) {
        self.0.load()
    }

    fn store(target_word: u16) -> (target_value: Self) {
        OutYL(Register16::store(target_word))
    }
}

impl Bits for OutYL {
    fn single<const N: usize>() -> (target_value: Self) {
        OutYL(Register16::single::<N>())
    }
}

impl Extract for OutYL {
}

impl Register for OutYL {
    const ADDRESS: u8 = 0x2A;
}

/// Linear acceleration sensor Z-axis output register (r).
///
/// The value is expressed as a 16-bit word in two’s complement.
///
/// The `OUTZ_L_XL` register represents the least significant byte, while `OUTZ_H_XL` represents the most significant byte.
///
/// This register is read-only.
#[derive(Debug, Clone, Copy, PartialEq, Eq, Structural, PartialOrd, Ord)]
pub struct OutZL(Register16);

impl OutZL {
    /// Wrap a raw register value read from the device.
    pub fn register(target_register: Register16) -> (target_value: Self)
        ensures
            target_value.word() == target_register.word(),
    {
        OutZL(target_register)
    }

    /// Extract the `zl_lsb` bit sequence of this register.
    ///
    /// Z-axis linear acceleration value (LSbyte).
    pub fn zl_lsb(&self) -> (target_bits: Extracted<0, 7, Self>)
        ensures
            target_bits.wf(),
            target_bits.target() == *self,
    {
        Extracted::wrap(self)
    }

    /// Extract the `zl_msb` bit sequence of this register.
    ///
    /// Z-axis linear acceleration value (MSbyte).
    pub fn zl_msb(&self) -> (target_bits: Extracted<8, 15, Self>)
        ensures
            target_bits.wf(),
            target_bits.target() == *self,
    {
        Extracted::wrap(self)
    }
}

impl HasPrimitive for OutZL {
    type Primitive = u16;

    open spec fn width() -> nat {
        16
    }

    closed spec fn word(&self) -> u16 {
        self.0.word()
    }

    open spec fn primitive_word(target_value: u16) -> u16 {
        target_value as u16
    }

    proof fn lemma_layout(&self) {
        self.0.lemma_layout();
    }

    fn raw(self) -> (target_value: u16) {
        self.0.value()
    }

    fn load(&self) -> (target_word: u16) {
        self.0.load()
    }

    fn store(target_word: u16) -> (target_value: Self) {
        OutZL(Register16::store(target_word))
    }
}

impl Bits for OutZL {
    fn single<const N: usize>() -> (target_value: Self) {
        OutZL(Register16::single::<N>())
    }
}

impl Extract for OutZL {
}

impl Register for OutZL {
    const ADDRESS: u8 = 0x2C;
}


} // verus!
