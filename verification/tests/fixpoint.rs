use yakka::fixpoint::{Fixed, Fixpoint, Partwise};

fn approx_eq(a: f64, b: f64, epsilon: f64) -> bool {
    (a - b).abs() < epsilon
}

/// The decomposition of the absolute value of a float: its integer part, and its fractional
/// part as a fraction of `2^64`.
fn partwise_of(target_value: f64) -> Partwise {
    let absolute_value = target_value.abs();
    let truncated_value = absolute_value as u64;
    let fractional_value = absolute_value - (truncated_value as f64);
    let fractional_value = (fractional_value * u64::MAX as f64).abs() as u64;
    Partwise::parts(truncated_value, fractional_value)
}

/// The float that a decomposition stands for, keeping `mantissa_bits` of its fraction.
fn float_of(target_partwise: Partwise, mantissa_bits: u32) -> f64 {
    let integer_part = target_partwise.integer() as f64;
    let fractional_bits = target_partwise.fractional() >> (u64::BITS - mantissa_bits);
    let fractional_part = (fractional_bits as f64) / (1u64 << mantissa_bits) as f64;
    integer_part + fractional_part.abs()
}

fn convert_u32_8(target_value: f64) -> Fixpoint<u32, 8> {
    Fixpoint::<u32, 8>::raw(<u32 as Fixed>::interpret::<8>(partwise_of(target_value)))
}

fn float_u32_8(target_number: Fixpoint<u32, 8>) -> f64 {
    float_of(target_number.value().partwise::<8>(), f64::MANTISSA_DIGITS)
}

#[test]
fn test_float_to_fixpoint_and_back_f32() {
    let values = [0.0_f32, -1.0, 1.5, -2.75, 123.456, 0.0001];

    for &val in &values {
        let fp = Fixpoint::<u32, 16>::raw(<u32 as Fixed>::interpret::<16>(partwise_of(val as f64)));

        let roundtrip = float_of(fp.value().partwise::<16>(), f32::MANTISSA_DIGITS) as f32;

        assert!(
            approx_eq(val.abs() as f64, roundtrip as f64, 0.00001),
            "Failed roundtrip: {} -> {:?} -> {}",
            val,
            fp,
            roundtrip
        );
    }
}

#[test]
fn test_float_to_fixpoint_and_back_f64() {
    let values = [0.0_f64, 12.0, -21.0, -1.0, 1.5, -2.75, 123.456, -0.0001];

    for &val in &values {
        let fp = Fixpoint::<u64, 32>::raw(<u64 as Fixed>::interpret::<32>(partwise_of(val)));

        let roundtrip = float_of(fp.value().partwise::<32>(), f64::MANTISSA_DIGITS);

        assert!(
            approx_eq(val.abs(), roundtrip, 0.00001),
            "Failed roundtrip: {} -> {:?} -> {}",
            val,
            fp,
            roundtrip
        );
    }
}

#[test]
fn test_raw_construction_and_conversion() {
    let target_value: u32 = 12345;

    let target_number = Fixpoint::<u32, 8>::raw(target_value);

    let converted_number = Fixpoint::<u32, 8>::raw(target_number.value());

    assert_eq!(target_number, converted_number);
}

#[test]
fn test_addition() {
    let a = convert_u32_8(1.5);
    let b = convert_u32_8(2.25);

    let result = a + b;

    assert!(approx_eq(float_u32_8(result), 3.75, 0.01));
}

#[test]
fn test_subtraction() {
    let a = convert_u32_8(5.0);
    let b = convert_u32_8(3.0);

    let result = a - b;

    assert!(approx_eq(float_u32_8(result), 2.0, 0.01));
}

#[test]
fn test_multiplication() {
    let a = convert_u32_8(2.0);
    let b = convert_u32_8(3.5);

    let result = a * b;

    assert!(approx_eq(float_u32_8(result), 7.0, 0.1));
}

#[test]
fn test_division() {
    let a = convert_u32_8(7.0);
    let b = convert_u32_8(2.0);

    let result = a / b;

    assert!(approx_eq(float_u32_8(result), 3.5, 0.1));
}

#[test]
fn test_remainder() {
    let a = convert_u32_8(7.0);
    let b = convert_u32_8(2.0);

    let result = a % b;

    assert!(approx_eq(float_u32_8(result), 1.0, 0.1));
}

#[test]
fn test_zero() {
    let zero = convert_u32_8(0.0);

    let back = float_u32_8(zero);

    assert!(approx_eq(back, 0.0, 0.0001));
}

#[test]
fn test_negative() {
    let neg = convert_u32_8(-42.625);

    let back = float_u32_8(neg);

    assert!(back > 1.0, "{}", back);

    assert!(approx_eq(back, 42.625, 0.01));
}

#[test]
fn fixpoint_raw_words_of_operations() {
    let a = Fixpoint::<u32, 8>::raw(0x180);
    let b = Fixpoint::<u32, 8>::raw(0x240);
    assert_eq!(a.add(b).value(), 0x3c0);
    assert_eq!(b.sub(a).value(), 0xc0);
    assert_eq!(a.mul(b).value(), (0x180 * 0x240) >> 8);
    assert_eq!(b.div(a).value(), (0x240 << 8) / 0x180);
    assert_eq!(b.rem(a).value(), 0x240 % 0x180);
    assert_eq!(a.shl(Fixpoint::raw(4)).value(), 0x1800);
    assert_eq!(a.shr(Fixpoint::raw(4)).value(), 0x18);
}

#[test]
fn fixpoint_scalar_shifts_up() {
    assert_eq!(Fixpoint::<u32, 12>::scalar(16384).value(), 16384 << 12);
    assert_eq!(Fixpoint::<u8, 4>::scalar(0x1f).value(), 0xf0);
    assert_eq!(Fixpoint::<u16, 8>::scalar(3).value(), 0x300);
}

#[test]
fn fixpoint_division_drops_overflowing_bits() {
    let dividend = Fixpoint::<u8, 4>::raw(0x30);
    let divisor = Fixpoint::<u8, 4>::raw(0x10);
    assert_eq!(dividend.div(divisor).value(), 0x00);
}

#[test]
fn partwise_split_and_join() {
    let parts = 0x1234_u16.partwise::<8>();
    assert_eq!(parts.integer(), 0x12);
    assert_eq!(parts.fractional(), 0x34_u64 << 56);
    assert_eq!(<u16 as Fixed>::interpret::<8>(parts), 0x1234);
    let whole = 200_u8.partwise::<0>();
    assert_eq!(whole.integer(), 200);
    assert_eq!(whole.fractional(), 0);
}

#[test]
fn interpret_truncates_large_integer_part() {
    let parts = Partwise::parts(0x1ff, 1_u64 << 63);
    assert_eq!(<u8 as Fixed>::interpret::<1>(parts), 0xff);
    assert_eq!(<u16 as Fixed>::interpret::<1>(parts), 0x3ff);
}

#[test]
fn fixpoint_operators_match_methods() {
    let a = Fixpoint::<u16, 4>::raw(0x0230);
    let b = Fixpoint::<u16, 4>::raw(0x0018);
    assert_eq!(a + b, a.add(b));
    assert_eq!((a + b).value(), 0x0248);
    assert_eq!((a - b).value(), 0x0218);
    assert_eq!((a * b).value(), (0x0230 * 0x0018) >> 4);
    assert_eq!((a / b).value(), ((0x0230_u32 << 4) & 0xffff) as u16 / 0x0018);
    assert_eq!((a % b).value(), 0x0230 % 0x0018);
    assert_eq!((a << Fixpoint::raw(4)).value(), 0x2300);
    assert_eq!((a >> Fixpoint::raw(4)).value(), 0x0023);
}
