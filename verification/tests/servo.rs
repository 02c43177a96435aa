use rpizw_test::servo::angle_to_pulse_width;

// The SG90 maps 0..=180 degrees onto 500..=2500 microseconds, truncated to
// 11111 nanoseconds per degree; steering angle 0 sits at servo angle 80
// after the -10 degree offset.

#[test]
fn centre_angle() {
    assert_eq!(angle_to_pulse_width(0), 500_000 + 11_111 * 80);
}

#[test]
fn extreme_angles() {
    assert_eq!(angle_to_pulse_width(30), 500_000 + 11_111 * 50);
    assert_eq!(angle_to_pulse_width(-30), 500_000 + 11_111 * 110);
}

#[test]
fn out_of_range_angles_are_clamped() {
    assert_eq!(angle_to_pulse_width(100), angle_to_pulse_width(30));
    assert_eq!(angle_to_pulse_width(i32::MAX), angle_to_pulse_width(30));
    assert_eq!(angle_to_pulse_width(-100), angle_to_pulse_width(-30));
    assert_eq!(angle_to_pulse_width(i32::MIN), angle_to_pulse_width(-30));
}

#[test]
fn pulse_width_stays_in_the_servo_range() {
    for angle in -60..=60 {
        let ns = angle_to_pulse_width(angle);
        assert!((500_000..=2_500_000).contains(&ns));
    }
}
