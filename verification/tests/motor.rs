use yakka::motor::actuate::{Axes, ControlVector, Quad};
use yakka::motor::driver::Motor;
use yakka::motor::setting::Limit;
use yakka::motor::throttle::Throttle;
use yakka::number::normal::Normal;

/// A motor that only records what it is told.
#[derive(Debug, Default)]
struct Recorder {
    commanded: Option<Throttle>,
    imposed: Option<Limit>,
}

impl Motor for Recorder {
    fn commanded(&self) -> Option<Throttle> {
        self.commanded
    }

    fn imposed(&self) -> Option<Limit> {
        self.imposed
    }

    fn control(&mut self, target_throttle: Throttle) -> Option<Throttle> {
        self.commanded.replace(target_throttle)
    }

    fn limit(&mut self, target_limit: Limit) -> Option<Limit> {
        self.imposed.replace(target_limit)
    }
}

fn recorders() -> (Recorder, Recorder, Recorder, Recorder) {
    (Recorder::default(), Recorder::default(), Recorder::default(), Recorder::default())
}

#[test]
fn quad_drive_hands_one_throttle_to_each_motor() {
    let mut quad = Quad::tuple(recorders());
    let first = quad.drive([
        Throttle::level(10),
        Throttle::level(20),
        Throttle::level(30),
        Throttle::level(40),
    ]);
    assert_eq!(first, [None, None, None, None]);
    let second = quad.drive([Throttle::min(); 4]);
    assert_eq!(
        second,
        [
            Some(Throttle::level(10)),
            Some(Throttle::level(20)),
            Some(Throttle::level(30)),
            Some(Throttle::level(40)),
        ]
    );
}

#[test]
fn quad_limit_applies_to_every_motor() {
    let mut quad = Quad::tuple(recorders());
    let half = Limit(Normal::level(128));
    assert_eq!(quad.limit(half), [None; 4]);
    let full = Limit(Normal::one());
    assert_eq!(quad.limit(full), [Some(half); 4]);
}

#[test]
fn bare_control_vector() {
    let vector = ControlVector::bare(Throttle::max());
    assert_eq!(vector.baseline(), Throttle::max());
    assert_eq!(vector.axes(), Axes::zero());
    let axes = Axes::zero();
    assert_eq!(axes.pitch(), Throttle::min());
    assert_eq!(axes.yaw(), Throttle::min());
    assert_eq!(axes.roll(), Throttle::min());
}

#[test]
fn quad_limit_survives_drive_and_throttle_survives_limit() {
    let mut quad = Quad::tuple(recorders());
    let half = Limit(Normal::level(128));
    let _ = quad.limit(half);
    let _ = quad.drive([Throttle::max(); 4]);
    assert_eq!(quad.limit(Limit(Normal::one())), [Some(half); 4]);
    assert_eq!(quad.drive([Throttle::min(); 4]), [Some(Throttle::max()); 4]);
}
