use oxido::angle::{clamped_pitch_sum, saturating_sum, HALF_TURN, PITCH_LIMIT};
use oxido::units::ANGLE_UNITS_PER_DEGREE;

#[test]
fn the_pitch_limit_is_89_degrees() {
    assert_eq!(PITCH_LIMIT, 89_000_000);
    assert_eq!(PITCH_LIMIT, 89 * ANGLE_UNITS_PER_DEGREE);
    assert_eq!(i64::from(HALF_TURN), 180 * ANGLE_UNITS_PER_DEGREE);
}

#[test]
fn saturating_sum_is_the_sum_where_it_fits() {
    assert_eq!(saturating_sum(0, 0), 0);
    assert_eq!(saturating_sum(-90_000_000, 1_000_000), -89_000_000);
    assert_eq!(saturating_sum(5, -7), -2);
    assert_eq!(saturating_sum(i64::MAX, 0), i64::MAX);
    assert_eq!(saturating_sum(i64::MIN, 0), i64::MIN);
    assert_eq!(saturating_sum(i64::MAX, i64::MIN), -1);
    assert_eq!(saturating_sum(i64::MAX - 1, 1), i64::MAX);
    assert_eq!(saturating_sum(i64::MIN + 1, -1), i64::MIN);
}

#[test]
fn saturating_sum_stops_at_the_ends() {
    assert_eq!(saturating_sum(i64::MAX, 1), i64::MAX);
    assert_eq!(saturating_sum(1, i64::MAX), i64::MAX);
    assert_eq!(saturating_sum(i64::MAX, i64::MAX), i64::MAX);
    assert_eq!(saturating_sum(i64::MIN, -1), i64::MIN);
    assert_eq!(saturating_sum(-1, i64::MIN), i64::MIN);
    assert_eq!(saturating_sum(i64::MIN, i64::MIN), i64::MIN);
}

#[test]
fn clamped_pitch_sum_keeps_what_lies_within_the_limits() {
    assert_eq!(clamped_pitch_sum(0, 0), 0);
    assert_eq!(clamped_pitch_sum(10_000_000, 5_000_000), 15_000_000);
    assert_eq!(clamped_pitch_sum(10_000_000, -30_000_000), -20_000_000);
    assert_eq!(clamped_pitch_sum(88_999_999, 1), 89_000_000);
    assert_eq!(clamped_pitch_sum(-88_999_999, -1), -89_000_000);
    assert_eq!(clamped_pitch_sum(120_000_000, -100_000_000), 20_000_000);
}

#[test]
fn clamped_pitch_sum_stops_exactly_at_the_limits() {
    assert_eq!(clamped_pitch_sum(89_000_000, 1), 89_000_000);
    assert_eq!(clamped_pitch_sum(0, 89_000_001), 89_000_000);
    assert_eq!(clamped_pitch_sum(0, i64::MAX), 89_000_000);
    assert_eq!(clamped_pitch_sum(i64::MAX, i64::MAX), 89_000_000);
    assert_eq!(clamped_pitch_sum(-89_000_000, -1), -89_000_000);
    assert_eq!(clamped_pitch_sum(0, -89_000_001), -89_000_000);
    assert_eq!(clamped_pitch_sum(0, i64::MIN), -89_000_000);
    assert_eq!(clamped_pitch_sum(i64::MIN, i64::MIN), -89_000_000);
}
