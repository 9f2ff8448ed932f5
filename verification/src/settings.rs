use vstd::prelude::*;
use crate::angle::HALF_TURN;

verus! {

/// Pointer sensitivity of a camera that was given none: a tenth of a degree per pixel.
pub const SENSITIVITY: i32 = 100;

/// Width over height of the picture, in thousandths, of fresh settings: a square.
pub const ASPECT_RATIO: i32 = 1000;

/// Speed of fresh settings: one world unit per second.
pub const MOVEMENT_SPEED: i32 = 1000;

/// Vertical field of view of fresh settings: 45 degrees.
pub const FIELD_OF_VIEW: i32 = 45_000_000;

/// Near plane of fresh settings: a tenth of a world unit.
pub const NEAR_PLANE: i32 = 100;

/// Far plane of fresh settings: a hundred world units.
pub const FAR_PLANE: i32 = 100_000;

/// Why a value was refused as part of a camera's configuration.
#[derive(Clone, Copy, Debug, PartialEq, Eq)]
pub enum ConfigError {
    /// The near plane would lie at or behind the eye.
    NonPositiveNear,
    /// The far plane would not lie beyond the near plane.
    FarNotBeyondNear,
    /// The picture would have no width or no height.
    NonPositiveAspectRatio,
    /// The vertical field of view would not lie strictly between 0 and 180 degrees.
    FieldOfViewOutOfRange,
}

impl ConfigError {
    /// What `message` says of each error.
    pub open spec fn text(self) -> Seq<char> {
        match self {
            ConfigError::NonPositiveNear => "the near plane must lie in front of the eye"@,
            ConfigError::FarNotBeyondNear => "the far plane must lie beyond the near plane"@,
            ConfigError::NonPositiveAspectRatio => "the aspect ratio must be positive"@,
            ConfigError::FieldOfViewOutOfRange => {
                "the field of view must lie strictly between 0 and 180 degrees"@
            },
        }
    }

    /// The error in words.
    pub fn message(&self) -> (message: String)
        ensures
            message@ == self.text(),
    {
        match self {
            ConfigError::NonPositiveNear => {
                "the near plane must lie in front of the eye".to_owned()
            },
            ConfigError::FarNotBeyondNear => {
                "the far plane must lie beyond the near plane".to_owned()
            },
            ConfigError::NonPositiveAspectRatio => "the aspect ratio must be positive".to_owned(),
            ConfigError::FieldOfViewOutOfRange => {
                "the field of view must lie strictly between 0 and 180 degrees".to_owned()
            },
        }
    }
}

/// What a camera's settings hold.
pub struct SettingsView {
    /// Length units per second.
    pub movement_speed: i32,
    /// Width over height, in thousandths.
    pub aspect_ratio: i32,
    /// Angle units turned per pointer unit moved.
    pub sensitivity: i32,
    /// Vertical field of view, in angle units.
    pub fovy: i32,
    /// Distance of the near plane, in length units.
    pub near: i32,
    /// Distance of the far plane, in length units.
    pub far: i32,
}

impl SettingsView {
    /// The configuration describes a frustum that is not degenerate.
    pub open spec fn valid(self) -> bool {
        &&& 0 < self.near < self.far
        &&& 0 < self.aspect_ratio
        &&& 0 < self.fovy < HALF_TURN
    }

    /// The settings that `CameraSettings::new` builds around `sensitivity`.
    pub open spec fn fresh(sensitivity: i32) -> SettingsView {
        SettingsView {
            movement_speed: MOVEMENT_SPEED,
            aspect_ratio: ASPECT_RATIO,
            sensitivity,
            fovy: FIELD_OF_VIEW,
            near: NEAR_PLANE,
            far: FAR_PLANE,
        }
    }

    /// Whether `near` may replace the near plane of these settings.
    pub open spec fn near_verdict(self, near: i32) -> Result<(), ConfigError> {
        if near <= 0 {
            Err(ConfigError::NonPositiveNear)
        } else if self.far <= near {
            Err(ConfigError::FarNotBeyondNear)
        } else {
            Ok(())
        }
    }

    /// Whether `far` may replace the far plane of these settings.
    pub open spec fn far_verdict(self, far: i32) -> Result<(), ConfigError> {
        if far <= self.near {
            Err(ConfigError::FarNotBeyondNear)
        } else {
            Ok(())
        }
    }

    /// Whether `aspect_ratio` is the shape of a picture.
    pub open spec fn aspect_ratio_verdict(aspect_ratio: i32) -> Result<(), ConfigError> {
        if aspect_ratio <= 0 {
            Err(ConfigError::NonPositiveAspectRatio)
        } else {
            Ok(())
        }
    }

    /// Whether `fovy` is an opening angle strictly between 0 and 180 degrees.
    pub open spec fn fov_verdict(fovy: i32) -> Result<(), ConfigError> {
        if fovy <= 0 || fovy >= HALF_TURN {
            Err(ConfigError::FieldOfViewOutOfRange)
        } else {
            Ok(())
        }
    }
}

/// Speed, sensitivity and frustum of a camera. Every value of this type is a valid
/// configuration: the setters refuse what would make the frustum degenerate.
#[derive(Clone, Copy, Debug, PartialEq, Eq)]
pub struct CameraSettings {
    movement_speed: i32,
    aspect_ratio: i32,
    sensitivity: i32,
    fovy: i32,
    near: i32,
    far: i32,
}

impl View for CameraSettings {
    type V = SettingsView;

    closed spec fn view(&self) -> SettingsView {
        SettingsView {
            movement_speed: self.movement_speed,
            aspect_ratio: self.aspect_ratio,
            sensitivity: self.sensitivity,
            fovy: self.fovy,
            near: self.near,
            far: self.far,
        }
    }
}

impl CameraSettings {
    #[verifier::type_invariant]
    pub open spec fn well_formed(self) -> bool {
        self@.valid()
    }

    /// Settings with the given pointer sensitivity, unit speed, a square picture,
    /// a field of view of 45 degrees, and planes at 0.1 and 100 world units.
    pub fn new(sensitivity: i32) -> (settings: CameraSettings)
        ensures
            settings@ == SettingsView::fresh(sensitivity),
            settings@.valid(),
    {
        CameraSettings {
            aspect_ratio: ASPECT_RATIO,
            sensitivity,
            movement_speed: MOVEMENT_SPEED,
            fovy: FIELD_OF_VIEW,
            near: NEAR_PLANE,
            far: FAR_PLANE,
        }
    }

    /// Replaces the pointer sensitivity. Every value is accepted.
    pub fn change_sensitivity(&mut self, new_sen: i32)
        ensures
            final(self)@ == (SettingsView { sensitivity: new_sen, ..old(self)@ }),
            final(self)@.valid(),
    {
        proof {
            use_type_invariant(&*self);
        }
        self.sensitivity = new_sen;
    }

    /// Replaces the movement speed. Every value is accepted.
    pub fn set_movement_speed(&mut self, speed: i32)
        ensures
            final(self)@ == (SettingsView { movement_speed: speed, ..old(self)@ }),
            final(self)@.valid(),
    {
        proof {
            use_type_invariant(&*self);
        }
        self.movement_speed = speed;
    }

    /// Replaces the near plane, unless it would lie at or behind the eye, or at or
    /// beyond the far plane; then the settings stay as they were.
    pub fn set_near(&mut self, near: i32) -> (r: Result<(), ConfigError>)
        ensures
            r == old(self)@.near_verdict(near),
            r is Ok ==> final(self)@ == (SettingsView { near: near, ..old(self)@ }),
            r is Err ==> final(self)@ == old(self)@,
            final(self)@.valid(),
    {
        proof {
            use_type_invariant(&*self);
        }
        if near <= 0 {
            Err(ConfigError::NonPositiveNear)
        } else if self.far <= near {
            Err(ConfigError::FarNotBeyondNear)
        } else {
            self.near = near;
            Ok(())
        }
    }

    /// Replaces the far plane, unless it would not lie beyond the near plane; then
    /// the settings stay as they were.
    pub fn set_far(&mut self, far: i32) -> (r: Result<(), ConfigError>)
        ensures
            r == old(self)@.far_verdict(far),
            r is Ok ==> final(self)@ == (SettingsView { far: far, ..old(self)@ }),
            r is Err ==> final(self)@ == old(self)@,
            final(self)@.valid(),
    {
        proof {
            use_type_invariant(&*self);
        }
        if far <= self.near {
            Err(ConfigError::FarNotBeyondNear)
        } else {
            self.far = far;
            Ok(())
        }
    }

    /// Replaces the aspect ratio, unless it is zero or negative; then the settings
    /// stay as they were.
    pub fn set_aspect_ratio(&mut self, aspect_ratio: i32) -> (r: Result<(), ConfigError>)
        ensures
            r == SettingsView::aspect_ratio_verdict(aspect_ratio),
            r is Ok ==> final(self)@ == (SettingsView {
                aspect_ratio: aspect_ratio,
                ..old(self)@
            }),
            r is Err ==> final(self)@ == old(self)@,
            final(self)@.valid(),
    {
        proof {
            use_type_invariant(&*self);
        }
        if aspect_ratio <= 0 {
            Err(ConfigError::NonPositiveAspectRatio)
        } else {
            self.aspect_ratio = aspect_ratio;
            Ok(())
        }
    }

    /// Replaces the vertical field of view, unless it does not lie strictly between
    /// 0 and 180 degrees; then the settings stay as they were.
    pub fn set_fov(&mut self, fovy: i32) -> (r: Result<(), ConfigError>)
        ensures
            r == SettingsView::fov_verdict(fovy),
            r is Ok ==> final(self)@ == (SettingsView { fovy: fovy, ..old(self)@ }),
            r is Err ==> final(self)@ == old(self)@,
            final(self)@.valid(),
    {
        proof {
            use_type_invariant(&*self);
        }
        if fovy <= 0 || fovy >= HALF_TURN {
            Err(ConfigError::FieldOfViewOutOfRange)
        } else {
            self.fovy = fovy;
            Ok(())
        }
    }

    /// Length units covered per second of movement.
    pub fn movement_speed(&self) -> (r: i32)
        ensures
            r == self@.movement_speed,
    {
        self.movement_speed
    }

    /// Angle units turned per pointer unit moved.
    pub fn sensitivity(&self) -> (r: i32)
        ensures
            r == self@.sensitivity,
    {
        self.sensitivity
    }

    /// Width over height of the picture, in thousandths; positive.
    pub fn aspect_ratio(&self) -> (r: i32)
        ensures
            r == self@.aspect_ratio,
            r > 0,
    {
        proof {
            use_type_invariant(self);
        }
        self.aspect_ratio
    }

    /// Vertical field of view in angle units; strictly between 0 and 180 degrees.
    pub fn fov(&self) -> (r: i32)
        ensures
            r == self@.fovy,
            0 < r < HALF_TURN,
    {
        proof {
            use_type_invariant(self);
        }
        self.fovy
    }

    /// Distance of the near plane in length units; positive.
    pub fn near(&self) -> (r: i32)
        ensures
            r == self@.near,
            0 < r < self@.far,
    {
        proof {
            use_type_invariant(self);
        }
        self.near
    }

    /// Distance of the far plane in length units; beyond the near plane.
    pub fn far(&self) -> (r: i32)
        ensures
            r == self@.far,
            self@.near < r,
    {
        proof {
            use_type_invariant(self);
        }
        self.far
    }
}

} // verus!
