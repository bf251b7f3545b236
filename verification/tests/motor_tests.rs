use bot::motors::{DutyPair, Motors, MAX_DUTY};

fn pair(forward_duty: u16, reverse_duty: u16) -> DutyPair {
    DutyPair { forward_duty, reverse_duty }
}

#[test]
fn zero_speed_rests_both_directions() {
    assert_eq!(Motors::conf_for_speed(0), pair(0, 0));
}

#[test]
fn positive_speed_drives_forward_only() {
    assert_eq!(Motors::conf_for_speed(1), pair(1, 0));
    assert_eq!(Motors::conf_for_speed(1234), pair(1234, 0));
    assert_eq!(Motors::conf_for_speed(3500), pair(3500, 0));
}

#[test]
fn negative_speed_drives_reverse_only() {
    assert_eq!(Motors::conf_for_speed(-1), pair(0, 1));
    assert_eq!(Motors::conf_for_speed(-1234), pair(0, 1234));
    assert_eq!(Motors::conf_for_speed(-3500), pair(0, 3500));
}

#[test]
fn out_of_range_speed_saturates() {
    assert_eq!(Motors::conf_for_speed(3501), Motors::conf_for_speed(3500));
    assert_eq!(Motors::conf_for_speed(-3501), Motors::conf_for_speed(-3500));
    assert_eq!(Motors::conf_for_speed(i16::MAX), pair(3500, 0));
    assert_eq!(Motors::conf_for_speed(i16::MIN), pair(0, 3500));
}

#[test]
fn at_most_one_direction_is_driven() {
    for speed in [i16::MIN, -3501, -3500, -7, -1, 0, 1, 7, 3500, 3501, i16::MAX] {
        let d = Motors::conf_for_speed(speed);
        assert_eq!(d.forward_duty as u32 * d.reverse_duty as u32, 0);
        let both_zero = d.forward_duty == 0 && d.reverse_duty == 0;
        assert_eq!(both_zero, speed == 0);
    }
}

#[test]
fn driven_duty_equals_magnitude_in_range() {
    for speed in [-3500i16, -600, -1, 0, 1, 600, 3500] {
        let d = Motors::conf_for_speed(speed);
        let magnitude = d.forward_duty.max(d.reverse_duty);
        assert_eq!(magnitude as i32, (speed as i32).abs());
    }
}

#[test]
fn set_speed_round_trips_at_boundary_values() {
    let max = MAX_DUTY as i16;
    for speed in [-max, -1, 0, 1, max] {
        let mut motors = Motors::new(pair(0, 0), pair(0, 0));
        motors.set_left_speed(speed);
        assert_eq!(motors.left, Motors::conf_for_speed(speed));
        assert_eq!(motors.right, pair(0, 0));
        motors.set_right_speed(speed);
        assert_eq!(motors.right, Motors::conf_for_speed(speed));
        assert_eq!(motors.left, Motors::conf_for_speed(speed));
    }
}

#[test]
fn maneuvers_set_both_wheels_at_full_magnitude() {
    let mut motors = Motors::new(pair(0, 0), pair(0, 0));

    motors.turn_left();
    assert_eq!(motors.left, pair(0, 3500));
    assert_eq!(motors.right, pair(3500, 0));

    motors.turn_right();
    assert_eq!(motors.left, pair(3500, 0));
    assert_eq!(motors.right, pair(0, 3500));

    motors.CHARGEEEEE();
    assert_eq!(motors.left, pair(3500, 0));
    assert_eq!(motors.right, pair(3500, 0));

    motors.reverse();
    assert_eq!(motors.left, pair(0, 3500));
    assert_eq!(motors.right, pair(0, 3500));
}
