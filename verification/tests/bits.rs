use yakka::bit::handle::{Bit, BitMut};
use yakka::bit::many::{Extract, Extracted, ExtractedMut};
use yakka::bit::state::State;
use yakka::bit::take::{Bits, HasPrimitive};
use yakka::register::{Register16, Register8};

#[test]
fn state_bool_and_not() {
    assert!(State::Enabled.bool());
    assert!(!State::Cleared.bool());
    assert_eq!(State::Enabled.not(), State::Cleared);
    assert_eq!(State::Cleared.not(), State::Enabled);
    assert_eq!(State::default(), State::Cleared);
}

#[test]
fn set_returns_previous_state() {
    let mut value: u8 = 0b0000_0100;
    assert_eq!(value.set::<2>(State::Cleared), State::Enabled);
    assert_eq!(value, 0);
    assert_eq!(value.set::<7>(State::Enabled), State::Cleared);
    assert_eq!(value, 0b1000_0000);
    assert_eq!(value.set::<7>(State::Enabled), State::Enabled);
    assert_eq!(value, 0b1000_0000);
}

#[test]
fn get_reads_each_bit() {
    let value: u16 = 0b1000_0000_0000_0001;
    assert_eq!(value.get::<0>(), State::Enabled);
    assert_eq!(value.get::<1>(), State::Cleared);
    assert_eq!(value.get::<15>(), State::Enabled);
}

#[test]
fn single_toggle_and_copies() {
    assert_eq!(<u8 as Bits>::single::<3>(), 0b1000);
    assert_eq!(<u16 as Bits>::single::<12>(), 0x1000);
    let mut value: u8 = 0b1010;
    assert_eq!(value.toggle::<1>(), State::Enabled);
    assert_eq!(value, 0b1000);
    assert_eq!(value.toggled::<0>(), 0b1001);
    assert_eq!(value.toggled::<0>().toggled::<0>(), value);
    assert_eq!(0xffu8.cleared::<4>(), 0xef);
    assert_eq!(0u8.enabled::<5>(), 0x20);
    assert_eq!(value, 0b1000);
}

#[test]
fn extract_inclusive_range() {
    let value: u8 = 0b1011_0110;
    assert_eq!(value.extract::<0, 3>(), 0b0110);
    assert_eq!(value.extract::<4, 7>(), 0b1011);
    assert_eq!(value.extract::<0, 7>(), 0b1011_0110);
    assert_eq!(value.extract::<2, 2>(), 1);
    let word: u16 = 0xabcd;
    assert_eq!(word.extract::<8, 15>(), 0xab);
    assert_eq!(word.extract::<0, 15>(), 0xabcd);
}

#[test]
fn fuse_replaces_only_the_range() {
    let mut value: u8 = 0b1111_0000;
    assert_eq!(value.fuse::<2, 5>(0b0101), 0b1100);
    assert_eq!(value, 0b1101_0100);
    assert_eq!(value.extract::<2, 5>(), 0b0101);
    let mut word: u16 = 0x1234;
    assert_eq!(word.fuse::<4, 11>(0x1ff), 0x23);
    assert_eq!(word, 0x1ff4);
}

#[test]
fn extracted_copy_and_overwrite() {
    let value: u8 = 0b0110_1001;
    let extracted = Extracted::<4, 6, u8>::wrap(&value);
    assert_eq!(extracted.output(), 0b110);
    assert_eq!(extracted.value(), value);
    let overwritten = extracted.overwrite(0b001);
    assert_eq!(overwritten.value(), 0b0001_1001);
    assert_eq!(overwritten.output(), 0b001);
    assert_eq!(value, 0b0110_1001);
}

#[test]
fn extracted_mut_reads_current_field() {
    let mut value: u16 = 0x0f00;
    let handle = ExtractedMut::<8, 11, u16>::wrap(&mut value);
    assert_eq!(handle.value(), 0xf);
    assert_eq!(value, 0x0f00);
    let mut byte: u8 = 0x0f;
    assert_eq!(ExtractedMut::<0, 3, u8>::wrap(&mut byte).value(), 0x0f);
    assert_eq!(byte, 0x0f);
}

#[test]
fn bit_handles() {
    let value: u8 = 0b0001_0000;
    let bit = Bit::<u8, 4>::wrap(&value);
    assert_eq!(bit.state(), State::Enabled);
    assert_eq!(bit.cleared(), 0);
    assert_eq!(Bit::<u8, 0>::wrap(&value).enabled(), 0b0001_0001);
    let mut target: u8 = 0;
    let _ = BitMut::<u8, 3>::wrap(&mut target);
    assert_eq!(target, 0);
}

#[test]
fn register_bytes_are_little_endian() {
    let register = Register16::bytes([0x34, 0x12]);
    assert_eq!(register.value(), 0x1234);
    assert_eq!(register.extract::<0, 7>(), 0x34);
    assert_eq!(register.extract::<8, 15>(), 0x12);
    assert_eq!(Register16::raw(0xbeef).value(), 0xbeef);
    assert_eq!(Register8::raw(0x5a).value(), 0x5a);
}

#[test]
fn register_bits() {
    let mut register = Register8::raw(0);
    assert_eq!(register.set::<6>(State::Enabled), State::Cleared);
    assert_eq!(register.value(), 0x40);
    assert_eq!(register.fuse::<0, 2>(0b111), 0);
    assert_eq!(register.value(), 0x47);
}
