use yakka::number::ratio::Const;
use yakka::time::{Day, Hour, Microsecond, Millisecond, Minute, Nanosecond, Second};
use yakka::unit::unit::{to, Measure, Scale, Unit};

#[test]
fn millisecond_to_second_truncates() {
    let elapsed = Millisecond::<u32>::raw(3500);
    assert_eq!(elapsed.value().magnitude(), 3);
    assert_eq!(Millisecond::<u32>::base(Second::raw(3)).magnitude(), 3000);
}

#[test]
fn multiples_of_the_second() {
    assert_eq!(Minute::<u64>::raw(2).value().magnitude(), 120);
    assert_eq!(Hour::<u64>::raw(1).value().magnitude(), 3600);
    assert_eq!(Day::<u64>::raw(1).value().magnitude(), 86400);
    assert_eq!(Hour::<u64>::base(Second::raw(7200)).magnitude(), 2);
}

#[test]
fn fractions_of_the_second() {
    assert_eq!(Microsecond::<u64>::base(Second::raw(2)).magnitude(), 2_000_000);
    assert_eq!(Nanosecond::<u64>::base(Second::raw(1)).magnitude(), 1_000_000_000);
    assert_eq!(Second::<u64>::raw(9).value().magnitude(), 9);
}

#[test]
fn conversion_between_units() {
    let minutes = Minute::<u64>::raw(2);
    let millis: Millisecond<u64> = to(minutes);
    assert_eq!(millis.magnitude(), 120_000);
    let hours: Hour<i64> = to(Minute::<i64>::raw(-180));
    assert_eq!(hours.magnitude(), -3);
}

#[test]
fn scale_apply_and_inverse() {
    let sixty = Scale::Multiple(Const::<60>::ratio());
    assert_eq!(sixty.apply(3_i32), 180);
    assert_eq!(sixty.inversed(180_i32), 3);
    assert_eq!(sixty.inversed(sixty.apply(-7_i32)), -7);
    let thousandth = Scale::Fractional(Const::<1000>::ratio());
    assert_eq!(thousandth.apply(2500_u32), 2);
    assert_eq!(thousandth.inversed(2_u32), 2000);
    assert_eq!(Scale::Same.apply(5_u8), 5);
    assert!(Millisecond::<u32>::scale_to_base() == thousandth);
}

#[test]
fn small_magnitudes_to_the_second() {
    assert_eq!(Millisecond::<u8>::raw(200).value().magnitude(), 0);
    assert_eq!(Microsecond::<u16>::raw(60000).value().magnitude(), 0);
    assert_eq!(Millisecond::<u16>::raw(2500).value().magnitude(), 2);
}

#[test]
fn fractional_round_trip_from_the_base() {
    let thousandth = Scale::Fractional(Const::<1000>::ratio());
    assert_eq!(thousandth.apply(thousandth.inversed(4_u32)), 4);
    let sixty = Scale::Multiple(Const::<60>::ratio());
    assert_eq!(sixty.inversed(120_u32), 2);
    assert_eq!(Scale::Multiple(Const::<60>::ratio()).inversed(0_u8), 0);
}
