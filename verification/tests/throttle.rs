use std::cmp::Ordering;

use yakka::motor::setting::Limit;
use yakka::motor::throttle::Throttle;
use yakka::number::normal::Normal;
use yakka::signed_motor::throttle::Throttle as SignedThrottle;

#[test]
fn throttle_neutral_is_none() {
    assert_eq!(Throttle::neutral().raw(), None);
}

#[test]
fn throttle_max_is_nonzero_max() {
    assert_eq!(Throttle::max().raw(), Some(u8::MAX));
}

#[test]
fn throttle_min_is_nonzero_min() {
    assert_eq!(Throttle::min().raw(), Some(1));
}

#[test]
fn throttle_throttle_neutral_is_none() {
    assert_eq!(SignedThrottle::neutral().raw(), None);
}

#[test]
fn throttle_throttle_max_is_nonzero_max() {
    assert_eq!(SignedThrottle::max().raw(), Some(u8::MAX));
}

#[test]
fn throttle_throttle_min_is_nonzero_min() {
    assert_eq!(SignedThrottle::min().raw(), Some(1));
}

#[test]
fn throttle_zero_is_bias_value() {
    assert_eq!(SignedThrottle::zero().raw(), Some(SignedThrottle::RAW_BIAS));
}

#[test]
fn throttle_level_zero_gives_min() {
    assert_eq!(Throttle::level(0), Throttle::min());
    assert_eq!(Throttle::level(200).raw(), Some(200));
    assert_eq!(SignedThrottle::level(0), SignedThrottle::min());
    assert_eq!(SignedThrottle::level(200).raw(), Some(200));
}

#[test]
fn throttle_magnitude_of_neutral() {
    assert_eq!(Throttle::neutral().magnitude(), 1);
    assert_eq!(Throttle::max().magnitude(), 255);
    assert_eq!(SignedThrottle::neutral().magnitude(), 127);
    assert_eq!(SignedThrottle::min().magnitude(), 1);
}

#[test]
fn throttle_order_neutral_below_active() {
    assert!(Throttle::neutral() < Throttle::min());
    assert!(Throttle::min() < Throttle::max());
}

#[test]
fn signed_throttle_order_places_neutral_just_below_zero() {
    assert!(SignedThrottle::min() < SignedThrottle::neutral());
    assert!(SignedThrottle::level(100) < SignedThrottle::neutral());
    assert!(SignedThrottle::level(126) < SignedThrottle::neutral());
    assert!(SignedThrottle::neutral() < SignedThrottle::zero());
    assert!(SignedThrottle::neutral() < SignedThrottle::max());
    assert_eq!(
        SignedThrottle::neutral().partial_cmp(&SignedThrottle::zero()),
        Some(Ordering::Less)
    );
    assert_eq!(SignedThrottle::neutral().cmp(&SignedThrottle::level(100)), Ordering::Greater);
    assert_eq!(SignedThrottle::neutral().cmp(&SignedThrottle::neutral()), Ordering::Equal);
    assert_eq!(
        SignedThrottle::zero().cmp(&SignedThrottle::level(SignedThrottle::RAW_BIAS)),
        Ordering::Equal
    );
    assert_ne!(SignedThrottle::neutral(), SignedThrottle::zero());
    let mut throttles = vec![
        SignedThrottle::max(),
        SignedThrottle::zero(),
        SignedThrottle::neutral(),
        SignedThrottle::min(),
    ];
    throttles.sort();
    assert_eq!(
        throttles,
        vec![
            SignedThrottle::min(),
            SignedThrottle::neutral(),
            SignedThrottle::zero(),
            SignedThrottle::max(),
        ]
    );
}

#[test]
fn limit_wraps_normal() {
    let Limit(level) = Limit(Normal::level(128));
    assert_eq!(level.value(), 128);
}
