use rpizw_test::hal::Level;
use rpizw_test::motor::{BridgeIc, Command, Motor};
use rpizw_test::sim::{SimPin, SimPwm};

fn fresh_motor() -> Motor<SimPin, SimPin, SimPwm<f64>> {
    Motor::l298(SimPin::new(), SimPin::new(), SimPwm::new(0.0)).unwrap()
}

#[test]
fn l298_starts_braked_with_pwm_enabled() {
    let m = fresh_motor();
    assert_eq!(m.in1.raw.state, Level::High);
    assert_eq!(m.in2.raw.state, Level::High);
    assert!(m.pwm.raw.is_enabled);
    assert_eq!(m.bridge_ic(), BridgeIc::L298);
}

#[test]
fn tb6612fng_starts_braked_with_pwm_enabled() {
    let m: Motor<SimPin, SimPin, SimPwm<f64>> =
        Motor::tb6612fng(SimPin::new(), SimPin::new(), SimPwm::new(0.0)).unwrap();
    assert_eq!(m.in1.raw.state, Level::High);
    assert_eq!(m.in2.raw.state, Level::High);
    assert!(m.pwm.raw.is_enabled);
    assert_eq!(m.bridge_ic(), BridgeIc::Tb6612Fng);
}

#[test]
fn run_clockwise_sets_pin1_high_pin2_low_and_the_duty() {
    let mut m = fresh_motor();
    m.run(Command::ClockWise, 0.5).unwrap();
    assert_eq!(m.in1.raw.state, Level::High);
    assert_eq!(m.in2.raw.state, Level::Low);
    assert_eq!(m.pwm.raw.current_duty, 0.5);
    assert!(m.pwm.raw.is_enabled);
}

#[test]
fn run_counter_clockwise_sets_pin1_low_pin2_high() {
    let mut m = fresh_motor();
    m.run(Command::CounterClockWise, 0.25).unwrap();
    assert_eq!(m.in1.raw.state, Level::Low);
    assert_eq!(m.in2.raw.state, Level::High);
    assert_eq!(m.pwm.raw.current_duty, 0.25);
}

#[test]
fn run_coast_sets_both_pins_low() {
    let mut m = fresh_motor();
    m.run(Command::Coast, 0.0).unwrap();
    assert_eq!(m.in1.raw.state, Level::Low);
    assert_eq!(m.in2.raw.state, Level::Low);
    assert_eq!(m.pwm.raw.current_duty, 0.0);
}

#[test]
fn run_break_sets_both_pins_high_whatever_the_duty() {
    for duty in [0.0, 0.5, 1.0] {
        let mut m = fresh_motor();
        m.run(Command::ClockWise, 0.75).unwrap();
        m.run(Command::Break, duty).unwrap();
        assert_eq!(m.in1.raw.state, Level::High);
        assert_eq!(m.in2.raw.state, Level::High);
        assert_eq!(m.pwm.raw.current_duty, duty);
    }
}

#[test]
fn bridge_ic_query_does_not_change_the_motor() {
    let m = fresh_motor();
    assert_eq!(m.bridge_ic(), BridgeIc::L298);
    assert_eq!(m.bridge_ic(), BridgeIc::L298);
    assert_eq!(m.in1.raw.state, Level::High);
    assert_eq!(m.in2.raw.state, Level::High);
}
