use oxido::angle::HALF_TURN;
use oxido::settings::{
    CameraSettings, ConfigError, ASPECT_RATIO, FAR_PLANE, FIELD_OF_VIEW, MOVEMENT_SPEED,
    NEAR_PLANE, SENSITIVITY,
};

#[test]
fn fresh_settings_hold_the_defaults() {
    let s = CameraSettings::new(250);
    assert_eq!(s.sensitivity(), 250);
    assert_eq!(s.movement_speed(), 1000);
    assert_eq!(s.aspect_ratio(), 1000);
    assert_eq!(s.fov(), 45_000_000);
    assert_eq!(s.near(), 100);
    assert_eq!(s.far(), 100_000);
}

#[test]
fn default_constants_have_their_documented_values() {
    assert_eq!(SENSITIVITY, 100);
    assert_eq!(MOVEMENT_SPEED, 1000);
    assert_eq!(ASPECT_RATIO, 1000);
    assert_eq!(FIELD_OF_VIEW, 45_000_000);
    assert_eq!(NEAR_PLANE, 100);
    assert_eq!(FAR_PLANE, 100_000);
    assert_eq!(HALF_TURN, 180_000_000);
}

#[test]
fn near_of_zero_is_refused_by_the_setter() {
    let mut s = CameraSettings::new(SENSITIVITY);
    let before = s;
    assert_eq!(s.set_near(0), Err(ConfigError::NonPositiveNear));
    assert_eq!(s, before);
    assert_eq!(s.near(), 100);
}

#[test]
fn negative_near_is_refused() {
    let mut s = CameraSettings::new(SENSITIVITY);
    assert_eq!(s.set_near(-1), Err(ConfigError::NonPositiveNear));
    assert_eq!(s.set_near(i32::MIN), Err(ConfigError::NonPositiveNear));
    assert_eq!(s.near(), 100);
}

#[test]
fn near_at_or_beyond_far_is_refused() {
    let mut s = CameraSettings::new(SENSITIVITY);
    assert_eq!(s.set_near(100_000), Err(ConfigError::FarNotBeyondNear));
    assert_eq!(s.set_near(100_001), Err(ConfigError::FarNotBeyondNear));
    assert_eq!(s.near(), 100);
    assert_eq!(s.set_near(99_999), Ok(()));
    assert_eq!(s.near(), 99_999);
    assert_eq!(s.far(), 100_000);
}

#[test]
fn near_is_replaced_when_valid() {
    let mut s = CameraSettings::new(SENSITIVITY);
    assert_eq!(s.set_near(1), Ok(()));
    assert_eq!(s.near(), 1);
    assert_eq!(s.far(), 100_000);
    assert_eq!(s.fov(), 45_000_000);
    assert_eq!(s.aspect_ratio(), 1000);
    assert_eq!(s.movement_speed(), 1000);
    assert_eq!(s.sensitivity(), 100);
}

#[test]
fn far_not_beyond_near_is_refused() {
    let mut s = CameraSettings::new(SENSITIVITY);
    let before = s;
    assert_eq!(s.set_far(100), Err(ConfigError::FarNotBeyondNear));
    assert_eq!(s.set_far(99), Err(ConfigError::FarNotBeyondNear));
    assert_eq!(s.set_far(0), Err(ConfigError::FarNotBeyondNear));
    assert_eq!(s.set_far(-5), Err(ConfigError::FarNotBeyondNear));
    assert_eq!(s, before);
    assert_eq!(s.set_far(101), Ok(()));
    assert_eq!(s.far(), 101);
    assert_eq!(s.near(), 100);
}

#[test]
fn aspect_ratio_must_be_positive() {
    let mut s = CameraSettings::new(SENSITIVITY);
    assert_eq!(s.set_aspect_ratio(0), Err(ConfigError::NonPositiveAspectRatio));
    assert_eq!(s.set_aspect_ratio(-1000), Err(ConfigError::NonPositiveAspectRatio));
    assert_eq!(s.aspect_ratio(), 1000);
    assert_eq!(s.set_aspect_ratio(1778), Ok(()));
    assert_eq!(s.aspect_ratio(), 1778);
    assert_eq!(s.set_aspect_ratio(1), Ok(()));
    assert_eq!(s.aspect_ratio(), 1);
}

#[test]
fn field_of_view_lies_strictly_between_zero_and_half_a_turn() {
    let mut s = CameraSettings::new(SENSITIVITY);
    assert_eq!(s.set_fov(0), Err(ConfigError::FieldOfViewOutOfRange));
    assert_eq!(s.set_fov(-1), Err(ConfigError::FieldOfViewOutOfRange));
    assert_eq!(s.set_fov(180_000_000), Err(ConfigError::FieldOfViewOutOfRange));
    assert_eq!(s.set_fov(i32::MAX), Err(ConfigError::FieldOfViewOutOfRange));
    assert_eq!(s.fov(), 45_000_000);
    assert_eq!(s.set_fov(1), Ok(()));
    assert_eq!(s.fov(), 1);
    assert_eq!(s.set_fov(179_999_999), Ok(()));
    assert_eq!(s.fov(), 179_999_999);
    assert_eq!(s.set_fov(90_000_000), Ok(()));
    assert_eq!(s.fov(), 90_000_000);
}

#[test]
fn sensitivity_and_speed_take_any_value() {
    let mut s = CameraSettings::new(SENSITIVITY);
    s.change_sensitivity(-7);
    assert_eq!(s.sensitivity(), -7);
    s.change_sensitivity(i32::MAX);
    assert_eq!(s.sensitivity(), i32::MAX);
    s.set_movement_speed(0);
    assert_eq!(s.movement_speed(), 0);
    s.set_movement_speed(i32::MIN);
    assert_eq!(s.movement_speed(), i32::MIN);
    assert_eq!(s.near(), 100);
    assert_eq!(s.far(), 100_000);
    assert_eq!(s.fov(), 45_000_000);
    assert_eq!(s.aspect_ratio(), 1000);
}

#[test]
fn errors_say_what_is_wrong() {
    assert_eq!(
        ConfigError::NonPositiveNear.message(),
        "the near plane must lie in front of the eye"
    );
    assert_eq!(
        ConfigError::FarNotBeyondNear.message(),
        "the far plane must lie beyond the near plane"
    );
    assert_eq!(
        ConfigError::NonPositiveAspectRatio.message(),
        "the aspect ratio must be positive"
    );
    assert_eq!(
        ConfigError::FieldOfViewOutOfRange.message(),
        "the field of view must lie strictly between 0 and 180 degrees"
    );
}
