use yakka::control::cycle::{Delta, Output};
use yakka::control::pid::gain::{Gain, Integral};
use yakka::control::pid::{Pid, PidContext};
use yakka::control::system::{Error, Setpoint, Variable};
use yakka::time::Millisecond;
use yakka::unit::unit::Measure;

#[test]
fn output_raw_and_take() {
    assert_eq!(Output::raw(42_i32).take(), 42);
}

#[test]
fn system_values() {
    assert_eq!(Setpoint::raw(3_i32).value(), 3);
    assert_eq!(Variable::raw(-4_i32).value(), -4);
    assert_eq!(Error::raw(5_i32).value(), 5);
}

#[test]
fn delta_time_unit() {
    let delta = Delta::time(Millisecond::<u8>::raw(20));
    assert_eq!(delta.unit().magnitude(), 20);
}

#[test]
fn pid_context_elapsed_milliseconds() {
    let context = PidContext::cycle(Variable::raw(1_i32), Delta::time(Millisecond::<u8>::raw(0)), 0);
    assert_eq!(context.elapsed_milliseconds(), 1);
    assert_eq!(context.cycle_index(), None);
    let context = PidContext::cycle(Variable::raw(1_i32), Delta::time(Millisecond::<u8>::raw(25)), 9);
    assert_eq!(context.elapsed_milliseconds(), 25);
    assert_eq!(context.cycle_index(), Some(9));
    assert_eq!(context.variable().value(), 1);
}

#[test]
fn pid_state_and_accessors() {
    let mut pid = Pid::state(
        Gain::tuple((2_i32, 3, 4)),
        Setpoint::raw(10),
        Integral::zero(),
        Error::zero(),
    );
    assert_eq!(pid.gain().p().value(), 2);
    assert_eq!(pid.gain().i().value(), 3);
    assert_eq!(pid.gain().d().value(), 4);
    assert_eq!(pid.setpoint().value(), 10);
    *pid.setpoint_mut() = Setpoint::raw(12);
    assert_eq!(pid.setpoint().value(), 12);
    {
        let (integral, previous_error) = pid.cycle_state_mut();
        assert_eq!(integral.value(), 0);
        assert_eq!(previous_error.value(), 0);
        *integral = Integral::raw(7);
        *previous_error = Error::raw(-1);
    }
    let (integral, previous_error) = pid.cycle_state_mut();
    assert_eq!(integral.value(), 7);
    assert_eq!(previous_error.value(), -1);
    assert_eq!(pid.setpoint().value(), 12);
}
