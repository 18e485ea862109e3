//! FIFO buffer settings.
//!
//! The bus transfers live with the device driver; this module holds the settings and the
//! register values that apply them.

use vstd::prelude::*;

use crate::bit::many::{Extract, field, fused, lemma_field_after_disjoint_fuse, lemma_read_back, low_mask, span};
use crate::bit::take::HasPrimitive;
use crate::imu::lsm6ds3::config::DataRate;
use crate::imu::lsm6ds3::register::file::{FifoCtrl1, FifoCtrl2, FifoCtrl3, FifoCtrl5};

verus! {

/// The FIFO mode of the device.
///
/// This is not exhaustive over all behavior; the device datasheet has the details.
#[derive(Debug, Clone, Copy, PartialEq, Eq, Structural, PartialOrd, Ord, Hash)]
pub enum FifoMode {
    /// No data is written to the FIFO buffer, i.e. it is bypassed completely.
    ///
    /// This is the default mode.
    Bypass,
    /// Data is written to the FIFO buffer until it is full; no data is overwritten after that.
    Fifo,
    /// The FIFO buffer is continuously written to, discarding the oldest data when it is full.
    ///
    /// This mode supports a "FIFO threshold", a level at which an interrupt can be generated.
    Continous,
    /// A hybrid mode: [`FifoMode::Fifo`] while the interrupt bit in one of the device interrupt
    /// registers is `1`, [`FifoMode::Continous`] otherwise.
    ContinuousToFifo,
    /// A hybrid mode: [`FifoMode::Bypass`] while the interrupt bit in one of the device
    /// interrupt registers is `1`, [`FifoMode::Fifo`] otherwise.
    BypassToFifo,
}

impl FifoMode {
    /// The register encoding of the mode.
    pub open spec fn encoding(self) -> u8 {
        match self {
            FifoMode::Bypass => 0b000,
            FifoMode::Fifo => 0b001,
            FifoMode::Continous => 0b110,
            FifoMode::ContinuousToFifo => 0b011,
            FifoMode::BypassToFifo => 0b100,
        }
    }

    /// The register encoding of the mode.
    pub fn code(self) -> (target_code: u8)
        ensures
            target_code == self.encoding(),
    {
        match self {
            FifoMode::Bypass => 0b000,
            FifoMode::Fifo => 0b001,
            FifoMode::Continous => 0b110,
            FifoMode::ContinuousToFifo => 0b011,
            FifoMode::BypassToFifo => 0b100,
        }
    }
}

impl Default for FifoMode {
    fn default() -> (target_mode: Self)
        ensures
            target_mode == FifoMode::Bypass,
    {
        FifoMode::Bypass
    }
}

/// The watermark level of the FIFO buffer.
///
/// Only its 12 least significant bits reach the device.
#[derive(Debug, Clone, Copy, PartialEq, Eq, Structural, PartialOrd, Ord, Hash)]
pub struct Watermark(u16);

impl Watermark {
    /// The level.
    pub closed spec fn level_of(&self) -> u16 {
        self.0
    }

    /// Construct a new [`Watermark`] level.
    pub fn level(target_value: u16) -> (target_watermark: Self)
        ensures
            target_watermark.level_of() == target_value,
    {
        Watermark(target_value)
    }

    /// The level.
    pub fn value(&self) -> (target_value: u16)
        ensures
            target_value == self.level_of(),
    {
        self.0
    }
}

impl Default for Watermark {
    fn default() -> (target_watermark: Self)
        ensures
            target_watermark.level_of() == 0,
    {
        Watermark(0)
    }
}

/// The decimation factor of a FIFO buffer component.
#[derive(Debug, Clone, Copy, PartialEq, Eq, Structural, PartialOrd, Ord, Hash)]
pub enum Decimation {
    /// No decimation at all (a decimation factor of `1`).
    ///
    /// This is the default value.
    D1,
    /// A decimation factor of `2`.
    D2,
    /// A decimation factor of `4`.
    D4,
    /// A decimation factor of `8`.
    D8,
    /// A decimation factor of `16`.
    D16,
    /// A decimation factor of `32`.
    D32,
}

impl Decimation {
    /// The register encoding of the decimation factor.
    pub open spec fn encoding(self) -> u8 {
        match self {
            Decimation::D1 => 0b001,
            Decimation::D2 => 0b010,
            Decimation::D4 => 0b011,
            Decimation::D8 => 0b100,
            Decimation::D16 => 0b101,
            Decimation::D32 => 0b110,
        }
    }

    /// The register encoding of the decimation factor.
    pub fn code(self) -> (target_code: u8)
        ensures
            target_code == self.encoding(),
    {
        match self {
            Decimation::D1 => 0b001,
            Decimation::D2 => 0b010,
            Decimation::D4 => 0b011,
            Decimation::D8 => 0b100,
            Decimation::D16 => 0b101,
            Decimation::D32 => 0b110,
        }
    }
}

impl Default for Decimation {
    fn default() -> (target_decimation: Self)
        ensures
            target_decimation == Decimation::D1,
    {
        Decimation::D1
    }
}

/// Whether a component appears in the FIFO buffer.
#[derive(Debug, Clone, Copy, PartialEq, Eq, Structural, PartialOrd, Ord, Hash)]
pub enum Appearance {
    /// The component does not appear in the FIFO buffer.
    ///
    /// This is the default value.
    No,
    /// The component appears in the FIFO buffer, with the given decimation.
    Yes(Decimation),
}

impl Appearance {
    /// The register encoding of the appearance: `0` for none, else the decimation's encoding.
    pub open spec fn encoding(self) -> u8 {
        match self {
            Appearance::No => 0b000,
            Appearance::Yes(decimation) => decimation.encoding(),
        }
    }

    /// The register encoding of the appearance.
    pub fn code(self) -> (target_code: u8)
        ensures
            target_code == self.encoding(),
    {
        match self {
            Appearance::No => 0b000,
            Appearance::Yes(decimation) => decimation.code(),
        }
    }
}

impl Default for Appearance {
    fn default() -> (target_appearance: Self)
        ensures
            target_appearance == Appearance::No,
    {
        Appearance::No
    }
}

/// The settings of the FIFO buffer.
#[derive(Debug, Clone, Copy, PartialEq, Eq, Structural, PartialOrd, Ord, Hash)]
pub struct FifoSettings {
    /// The mode of the FIFO buffer.
    pub mode: FifoMode,
    /// The data rate of the FIFO buffer.
    pub rate: DataRate,
    /// The FIFO buffer watermark, if any.
    pub watermark: Option<Watermark>,
    /// The appearance of the accelerometer in the FIFO buffer.
    pub accelerometer: Appearance,
    /// The appearance of the gyroscope in the FIFO buffer.
    pub gyroscope: Appearance,
}

impl Default for FifoSettings {
    fn default() -> (target_settings: Self)
        ensures
            target_settings.mode == FifoMode::Bypass,
            target_settings.rate == DataRate::Rate52,
            target_settings.watermark is None,
            target_settings.accelerometer == Appearance::No,
            target_settings.gyroscope == Appearance::No,
    {
        FifoSettings {
            mode: FifoMode::Bypass,
            rate: DataRate::Rate52,
            watermark: None,
            accelerometer: Appearance::No,
            gyroscope: Appearance::No,
        }
    }
}

impl FifoSettings {
    /// The new values of the two threshold registers that hold a watermark, given their
    /// current values: bits `0..=7` of the level go to `FIFO_CTRL1`, bits `8..=11` to bits
    /// `0..=3` of `FIFO_CTRL2`.
    pub fn watermark_registers(
        target_watermark: Watermark,
        fifo_ctrl1: FifoCtrl1,
        fifo_ctrl2: FifoCtrl2,
    ) -> (target_registers: (FifoCtrl1, FifoCtrl2))
        ensures
            target_registers.0.word() == fused(
                fifo_ctrl1.word(),
                0,
                7,
                field(target_watermark.level_of(), 0, 7),
            ),
            target_registers.1.word() == fused(
                fifo_ctrl2.word(),
                0,
                3,
                field(target_watermark.level_of(), 8, 11),
            ),
    {
        let level = target_watermark.value();
        let low_part = level.extract::<0, 7>();
        let high_part = level.extract::<8, 11>();
        let new_ctrl1 = fifo_ctrl1.fth().overwrite(low_part).value();
        let new_ctrl2 = fifo_ctrl2.fth_11_8().overwrite(high_part).value();
        (new_ctrl1, new_ctrl2)
    }

    /// The new value of `FIFO_CTRL3` that applies the components' appearances, given its
    /// current value: the gyroscope's in bits `0..=2`, the accelerometer's in bits `3..=5`.
    pub fn decimation_register(&self, fifo_ctrl3: FifoCtrl3) -> (new_value: FifoCtrl3)
        ensures
            new_value.word() == fused(
                fused(fifo_ctrl3.word(), 0, 2, self.gyroscope.encoding() as u16),
                3,
                5,
                self.accelerometer.encoding() as u16,
            ),
    {
        fifo_ctrl3.dec_fifo_gyro().overwrite(self.gyroscope.code() as u16).value().dec_fifo_xl().overwrite(
            self.accelerometer.code() as u16,
        ).value()
    }

    /// The new value of `FIFO_CTRL5` that applies the mode and the data rate, given its current
    /// value: the mode in bits `4..=6`, the rate in bits `0..=3`.
    pub fn mode_register(&self, fifo_ctrl5: FifoCtrl5) -> (new_value: FifoCtrl5)
        ensures
            new_value.word() == fused(
                fused(fifo_ctrl5.word(), 4, 6, self.mode.encoding() as u16),
                0,
                3,
                self.rate.encoding() as u16,
            ),
    {
        fifo_ctrl5.fifo_mode().overwrite(self.mode.code() as u16).value().odr_fifo().overwrite(
            self.rate.code() as u16,
        ).value()
    }

    /// The new value of `FIFO_CTRL5` that disables the FIFO buffer, given its current value:
    /// the default mode and a rate code of `0`.
    pub fn disabled_register(fifo_ctrl5: FifoCtrl5) -> (new_value: FifoCtrl5)
        ensures
            new_value.word() == fused(
                fused(fifo_ctrl5.word(), 4, 6, FifoMode::Bypass.encoding() as u16),
                0,
                3,
                0,
            ),
    {
        fifo_ctrl5.fifo_mode().overwrite(FifoMode::Bypass.code() as u16).value().odr_fifo().overwrite(
            0b000,
        ).value()
    }
}

/// Writing a watermark to the two threshold registers and reading their fields back gives the
/// level's 12 least significant bits.
pub proof fn lemma_watermark_read_back(level: u16, ctrl1_word: u16, ctrl2_word: u16)
    ensures
        ({
            let low_part = field(fused(ctrl1_word, 0, 7, field(level, 0, 7)), 0, 7);
            let high_part = field(fused(ctrl2_word, 0, 3, field(level, 8, 11)), 0, 3);
            (high_part << 8u16) | low_part == level & 0xfff
        }),
{
    assert(field(level, 0, 7) <= low_mask(span(0, 7))) by (bit_vector);
    assert(field(level, 8, 11) <= low_mask(span(0, 3))) by (bit_vector);
    lemma_read_back(ctrl1_word, 0, 7, field(level, 0, 7));
    lemma_read_back(ctrl2_word, 0, 3, field(level, 8, 11));
    assert((field(level, 8, 11) << 8u16) | field(level, 0, 7) == level & 0xfff) by (bit_vector);
}

/// Applying the FIFO settings to `FIFO_CTRL3` and `FIFO_CTRL5` and reading the fields back
/// gives the settings' encodings.
pub proof fn lemma_settings_read_back(settings: FifoSettings, ctrl3_word: u16, ctrl5_word: u16)
    ensures
        ({
            let ctrl3 = fused(
                fused(ctrl3_word, 0, 2, settings.gyroscope.encoding() as u16),
                3,
                5,
                settings.accelerometer.encoding() as u16,
            );
            let ctrl5 = fused(
                fused(ctrl5_word, 4, 6, settings.mode.encoding() as u16),
                0,
                3,
                settings.rate.encoding() as u16,
            );
            &&& field(ctrl3, 0, 2) == settings.gyroscope.encoding()
            &&& field(ctrl3, 3, 5) == settings.accelerometer.encoding()
            &&& field(ctrl5, 4, 6) == settings.mode.encoding()
            &&& field(ctrl5, 0, 3) == settings.rate.encoding()
        }),
{
    assert(low_mask(span(0, 2)) == 7) by (bit_vector);
    assert(low_mask(span(3, 5)) == 7) by (bit_vector);
    assert(low_mask(span(4, 6)) == 7) by (bit_vector);
    assert(low_mask(span(0, 3)) == 15) by (bit_vector);
    let gyro_code = settings.gyroscope.encoding() as u16;
    let accel_code = settings.accelerometer.encoding() as u16;
    let mode_code = settings.mode.encoding() as u16;
    let rate_code = settings.rate.encoding() as u16;
    let inner3 = fused(ctrl3_word, 0, 2, gyro_code);
    lemma_read_back(ctrl3_word, 0, 2, gyro_code);
    lemma_read_back(inner3, 3, 5, accel_code);
    lemma_field_after_disjoint_fuse(inner3, 3, 5, accel_code, 0, 2);
    let inner5 = fused(ctrl5_word, 4, 6, mode_code);
    lemma_read_back(ctrl5_word, 4, 6, mode_code);
    lemma_read_back(inner5, 0, 3, rate_code);
    lemma_field_after_disjoint_fuse(inner5, 0, 3, rate_code, 4, 6);
}

/// The FIFO fields that the settings write hold the device's codes, whatever the registers
/// held before:
///  - `FIFO_CTRL5` bits `4..=6` (`FIFO_MODE`): `000` bypass, `001` FIFO (stop when full),
///    `011` continuous-to-FIFO, `100` bypass-to-continuous, `110` continuous;
///  - `FIFO_CTRL5` bits `0..=3` (`ODR_FIFO`): `0001` for 12.5 Hz up to `1010` for 6.66 kHz;
///  - `FIFO_CTRL3` bits `0..=2` (gyroscope) and `3..=5` (accelerometer): `000` when the sensor
///    is left out of the buffer, else `001`..`110` for a decimation by 1, 2, 4, 8, 16 or 32.
pub proof fn lemma_fifo_fields_are_device_codes(
    settings: FifoSettings,
    ctrl3_word: u16,
    ctrl5_word: u16,
)
    ensures
        ({
            let ctrl3 = fused(
                fused(ctrl3_word, 0, 2, settings.gyroscope.encoding() as u16),
                3,
                5,
                settings.accelerometer.encoding() as u16,
            );
            let ctrl5 = fused(
                fused(ctrl5_word, 4, 6, settings.mode.encoding() as u16),
                0,
                3,
                settings.rate.encoding() as u16,
            );
            &&& field(ctrl5, 4, 6) == match settings.mode {
                FifoMode::Bypass => 0b000u16,
                FifoMode::Fifo => 0b001u16,
                FifoMode::ContinuousToFifo => 0b011u16,
                FifoMode::BypassToFifo => 0b100u16,
                FifoMode::Continous => 0b110u16,
            }
            &&& field(ctrl5, 0, 3) == match settings.rate {
                DataRate::Rate12_5 => 0b0001u16,
                DataRate::Rate26 => 0b0010u16,
                DataRate::Rate52 => 0b0011u16,
                DataRate::Rate104 => 0b0100u16,
                DataRate::Rate208 => 0b0101u16,
                DataRate::Rate416 => 0b0110u16,
                DataRate::Rate833 => 0b0111u16,
                DataRate::Rate1_66k => 0b1000u16,
                DataRate::Rate3_33k => 0b1001u16,
                DataRate::Rate6_66k => 0b1010u16,
            }
            &&& field(ctrl3, 0, 2) == match settings.gyroscope {
                Appearance::No => 0b000u16,
                Appearance::Yes(Decimation::D1) => 0b001u16,
                Appearance::Yes(Decimation::D2) => 0b010u16,
                Appearance::Yes(Decimation::D4) => 0b011u16,
                Appearance::Yes(Decimation::D8) => 0b100u16,
                Appearance::Yes(Decimation::D16) => 0b101u16,
                Appearance::Yes(Decimation::D32) => 0b110u16,
            }
            &&& field(ctrl3, 3, 5) == match settings.accelerometer {
                Appearance::No => 0b000u16,
                Appearance::Yes(Decimation::D1) => 0b001u16,
                Appearance::Yes(Decimation::D2) => 0b010u16,
                Appearance::Yes(Decimation::D4) => 0b011u16,
                Appearance::Yes(Decimation::D8) => 0b100u16,
                Appearance::Yes(Decimation::D16) => 0b101u16,
                Appearance::Yes(Decimation::D32) => 0b110u16,
            }
        }),
{
    lemma_settings_read_back(settings, ctrl3_word, ctrl5_word);
}

/// Distinct FIFO modes, and distinct appearances of a sensor in the buffer, write distinct
/// fields: the device can tell every setting apart.
pub proof fn lemma_fifo_codes_distinct(
    mode: FifoMode,
    other_mode: FifoMode,
    appearance: Appearance,
    other_appearance: Appearance,
)
    ensures
        mode.encoding() == other_mode.encoding() <==> mode == other_mode,
        appearance.encoding() == other_appearance.encoding() <==> appearance == other_appearance,
        mode.encoding() < 8,
        appearance.encoding() < 8,
{
}

} // verus!
