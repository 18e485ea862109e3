use yakka::number::normal::Normal;
use yakka::number::ratio::{Const, Ratio, Transform};
use yakka::number::scalar::Zero;

/// The float a normal number stands for: its level over `u8::MAX`.
fn float_of(target_value: Normal) -> f32 {
    target_value.value() as f32 / u8::MAX as f32
}

#[test]
fn normal_test_zero() {
    let zero = Normal::zero();

    assert_eq!(float_of(zero), 0.0);
}

#[test]
fn test_one() {
    let one = Normal::one();

    assert_eq!(float_of(one), 1.0);
}

#[test]
fn normal_level_round_trip() {
    assert_eq!(Normal::level(42).value(), 42);
    assert!(Normal::zero() < Normal::one());
}

#[test]
fn ratio_rejects_zero() {
    assert!(Ratio::new(0).is_none());
    assert_eq!(Ratio::new(7).map(|ratio| ratio.get()), Some(7));
    assert_eq!(Const::<1000>::ratio().get(), 1000);
}

#[test]
fn transform_up_and_down() {
    let thousand = Const::<1000>::ratio();
    assert_eq!(3_u32.up(thousand), 3000);
    assert_eq!(3500_u32.down(thousand), 3);
    assert_eq!((-7_i32).up(Const::<3>::ratio()), -21);
    assert_eq!((-7_i32).down(Const::<2>::ratio()), -3);
    assert_eq!(200_u8.down(Const::<7>::ratio()), 28);
    assert_eq!(9_u8.up(Const::<1>::ratio()), 9);
}

#[test]
fn transform_down_undoes_up() {
    let ratio = Const::<60>::ratio();
    for value in [0_u64, 1, 59, 60, 12345] {
        assert_eq!(value.up(ratio).down(ratio), value);
    }
    for value in [-100_i64, -1, 0, 1, 100] {
        assert_eq!(value.up(ratio).down(ratio), value);
    }
}

#[test]
fn zero_of_every_scalar() {
    assert_eq!(<u8 as Zero>::zero(), 0);
    assert_eq!(<u64 as Zero>::zero(), 0);
    assert_eq!(<i16 as Zero>::zero(), 0);
    assert_eq!(<i64 as Zero>::zero(), 0);
}

#[test]
fn transform_down_by_large_ratio() {
    assert_eq!(5_u8.down(Const::<1000>::ratio()), 0);
    assert_eq!(255_u8.down(Const::<255>::ratio()), 1);
    assert_eq!((-128_i8).down(Const::<128>::ratio()), -1);
    assert_eq!((-100_i8).down(Const::<300>::ratio()), 0);
    assert_eq!(40000_u16.down(Const::<1000000>::ratio()), 0);
    assert_eq!((-7_i64).down(Const::<2>::ratio()), -3);
}
