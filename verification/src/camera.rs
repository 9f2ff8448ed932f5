use vstd::prelude::*;
use crate::angle::{clamp_pitch, clamped_pitch_sum, pitch_in_limits, saturate, saturating_sum};
use crate::angle::PITCH_LIMIT;
use crate::input::{binding, bound_motion, frame_steps, offset, pointer_offset, travel, travelled};
use crate::input::{InputEvent, KeyCode, Motion, MovementFlags, Step};
use crate::settings::{CameraSettings, SettingsView, SENSITIVITY};

verus! {

/// What a camera's controls hold.
pub struct CameraView {
    /// Turn around the world's up axis, in angle units. Never wrapped.
    pub yaw: i64,
    /// Turn around the camera's right axis, in angle units.
    pub pitch: i64,
    /// Where the pointer was last reported; `None` until its first report.
    pub last_cursor_pos: Option<(i32, i32)>,
    pub camera_settings: SettingsView,
    pub moving: MovementFlags,
}

impl CameraView {
    /// A camera that looks along the given angles, is at rest, has not seen the
    /// pointer yet, and has fresh settings with the default sensitivity.
    pub open spec fn initial(yaw: i64, pitch: i64) -> CameraView {
        CameraView {
            yaw,
            pitch,
            last_cursor_pos: None,
            camera_settings: SettingsView::fresh(SENSITIVITY),
            moving: MovementFlags::at_rest(),
        }
    }

    /// This camera turned by the given offsets: the yaw grows without wrapping, as far
    /// as an `i64` reaches; the pitch stops at 89 degrees up and down.
    pub open spec fn rotate(self, yaw_offset: int, pitch_offset: int) -> CameraView {
        CameraView {
            yaw: saturate(self.yaw + yaw_offset) as i64,
            pitch: clamp_pitch(self.pitch + pitch_offset) as i64,
            ..self
        }
    }

    /// This camera after a key went down or came up: the flag of the motion that the
    /// key is bound to follows the key; a key bound to nothing changes nothing.
    pub open spec fn key(self, code: KeyCode, pressed: bool) -> CameraView {
        match bound_motion(code) {
            Some(motion) => CameraView { moving: self.moving.with(motion, pressed), ..self },
            None => self,
        }
    }

    /// This camera after the pointer was reported at (`x`, `y`): turned by what the
    /// pointer moved since its last report, to the right for a larger `x` and up for
    /// a smaller `y`; not turned by the first report. The report is remembered.
    pub open spec fn pointer(self, x: i32, y: i32) -> CameraView {
        let turned = match self.last_cursor_pos {
            Some((last_x, last_y)) => self.rotate(
                pointer_offset(last_x, x, self.camera_settings.sensitivity),
                pointer_offset(y, last_y, self.camera_settings.sensitivity),
            ),
            None => self,
        };
        CameraView { last_cursor_pos: Some((x, y)), ..turned }
    }

    /// This camera after `event`.
    pub open spec fn input(self, event: InputEvent) -> CameraView {
        match event {
            InputEvent::Key { code, pressed } => self.key(code, pressed),
            InputEvent::PointerMove { x, y } => self.pointer(x, y),
        }
    }

    /// The steps of a frame that lasted `delta_time` microseconds: each motion
    /// whose flag is up travels the movement speed times the frame's length.
    pub open spec fn frame(self, delta_time: u32) -> Seq<Step> {
        frame_steps(self.moving, travel(self.camera_settings.movement_speed, delta_time) as i64)
    }
}

/// The controls of a free-fly camera: where it looks, which ways it is asked to
/// travel, where the pointer was, and its settings.
#[derive(Clone, Copy, Debug)]
pub struct Camera {
    yaw: i64,
    pitch: i64,
    last_cursor_pos: Option<(i32, i32)>,
    camera_settings: CameraSettings,
    moving: MovementFlags,
}

impl View for Camera {
    type V = CameraView;

    closed spec fn view(&self) -> CameraView {
        CameraView {
            yaw: self.yaw,
            pitch: self.pitch,
            last_cursor_pos: self.last_cursor_pos,
            camera_settings: self.camera_settings@,
            moving: self.moving,
        }
    }
}

impl Camera {
    /// A camera that looks along the given angles, stored as they are given.
    pub fn new(yaw: i64, pitch: i64) -> (camera: Camera)
        ensures
            camera@ == CameraView::initial(yaw, pitch),
    {
        Camera {
            yaw,
            pitch,
            last_cursor_pos: None,
            camera_settings: CameraSettings::new(SENSITIVITY),
            moving: MovementFlags::idle(),
        }
    }

    /// Turns the camera by the given offsets, in angle units.
    pub fn rotate(&mut self, yaw_offset: i64, pitch_offset: i64)
        ensures
            final(self)@ == old(self)@.rotate(yaw_offset as int, pitch_offset as int),
            pitch_in_limits(final(self)@.pitch as int),
    {
        self.yaw = saturating_sum(self.yaw, yaw_offset);
        self.pitch = clamped_pitch_sum(self.pitch, pitch_offset);
    }

    /// Takes in one event of the host.
    pub fn process_input(&mut self, event: InputEvent)
        ensures
            final(self)@ == old(self)@.input(event),
    {
        match event {
            InputEvent::Key { code, pressed } => {
                match binding(code) {
                    Some(motion) => self.moving.set(motion, pressed),
                    None => {},
                }
            },
            InputEvent::PointerMove { x, y } => {
                match self.last_cursor_pos {
                    Some((last_x, last_y)) => {
                        let sensitivity: i32 = self.camera_settings.sensitivity();
                        let x_offset: i64 = offset(last_x, x, sensitivity);
                        let y_offset: i64 = offset(y, last_y, sensitivity);
                        self.rotate(x_offset, y_offset);
                    },
                    None => {},
                }
                self.last_cursor_pos = Some((x, y));
            },
        }
    }

    /// The steps that a frame of `delta_time` microseconds asks for, in the
    /// order in which they are to be applied.
    pub fn update(&self, delta_time: u32) -> (steps: Vec<Step>)
        ensures
            steps@ == self@.frame(delta_time),
    {
        let velocity: i64 = travelled(self.camera_settings.movement_speed(), delta_time);
        self.moving.plan(velocity)
    }

    /// Replaces the settings. They take effect with the next event and frame.
    pub fn set_settings(&mut self, settings: CameraSettings)
        ensures
            final(self)@ == (CameraView { camera_settings: settings@, ..old(self)@ }),
    {
        self.camera_settings = settings;
    }

    /// The current settings: a valid configuration.
    pub fn settings(&self) -> (settings: CameraSettings)
        ensures
            settings@ == self@.camera_settings,
            settings@.valid(),
    {
        let settings = self.camera_settings;
        proof {
            use_type_invariant(&settings);
        }
        settings
    }

    /// The yaw, in angle units.
    pub fn yaw(&self) -> (yaw: i64)
        ensures
            yaw == self@.yaw,
    {
        self.yaw
    }

    /// The pitch, in angle units.
    pub fn pitch(&self) -> (pitch: i64)
        ensures
            pitch == self@.pitch,
    {
        self.pitch
    }

    /// Where the pointer was last reported, if it ever was.
    pub fn last_cursor_pos(&self) -> (pos: Option<(i32, i32)>)
        ensures
            pos == self@.last_cursor_pos,
    {
        self.last_cursor_pos
    }

    /// The movement intents.
    pub fn moving(&self) -> (flags: MovementFlags)
        ensures
            flags == self@.moving,
    {
        self.moving
    }
}

/// A rotation never leaves the pitch beyond 89 degrees: a sum beyond a limit stops
/// exactly at that limit, and a sum within the limits is kept as it is. The yaw is the
/// exact sum wherever an `i64` can hold it.
pub proof fn lemma_rotate_clamps_pitch(camera: CameraView, yaw_offset: int, pitch_offset: int)
    ensures
        pitch_in_limits(camera.rotate(yaw_offset, pitch_offset).pitch as int),
        camera.pitch + pitch_offset >= PITCH_LIMIT ==> camera.rotate(
            yaw_offset,
            pitch_offset,
        ).pitch == PITCH_LIMIT,
        camera.pitch + pitch_offset <= -PITCH_LIMIT ==> camera.rotate(
            yaw_offset,
            pitch_offset,
        ).pitch == -PITCH_LIMIT,
        pitch_in_limits(camera.pitch + pitch_offset) ==> camera.rotate(
            yaw_offset,
            pitch_offset,
        ).pitch == camera.pitch + pitch_offset,
        i64::MIN <= camera.yaw + yaw_offset <= i64::MAX ==> camera.rotate(
            yaw_offset,
            pitch_offset,
        ).yaw == camera.yaw + yaw_offset,
{
}

/// A rotation followed by the rotation with the negated offsets leaves the camera as
/// it was, provided that the pitch stays within its limits in both and that the yaw
/// in between fits an `i64`.
pub proof fn lemma_rotate_there_and_back(camera: CameraView, yaw_offset: int, pitch_offset: int)
    requires
        pitch_in_limits(camera.pitch as int),
        pitch_in_limits(camera.pitch + pitch_offset),
        i64::MIN <= camera.yaw + yaw_offset <= i64::MAX,
    ensures
        camera.rotate(yaw_offset, pitch_offset).rotate(-yaw_offset, -pitch_offset) == camera,
{
}

/// A frame of any length asks a camera at rest for no step.
pub proof fn lemma_frame_at_rest(camera: CameraView, delta_time: u32)
    requires
        camera.moving.none_set(),
    ensures
        camera.frame(delta_time) == Seq::<Step>::empty(),
{
    assert(camera.frame(delta_time) =~= Seq::<Step>::empty());
}

/// A frame asks a camera whose only intent is to go forward for one step:
/// forward, by the movement speed times the length of the frame, exactly.
pub proof fn lemma_frame_forward_only(camera: CameraView, delta_time: u32)
    requires
        camera.moving == MovementFlags::at_rest().with(Motion::Forward, true),
    ensures
        camera.frame(delta_time).len() == 1,
        camera.frame(delta_time)[0].motion == Motion::Forward,
        camera.frame(delta_time)[0].distance == camera.camera_settings.movement_speed
            * delta_time,
{
    let speed = camera.camera_settings.movement_speed;
    assert(-0x8000_0000_0000_0000 <= speed * delta_time <= 0x7fff_ffff_ffff_ffff)
        by (nonlinear_arith)
        requires
            -0x8000_0000 <= speed <= 0x7fff_ffff,
            0 <= delta_time <= 0xffff_ffff,
    ;
    let distance = travel(speed, delta_time) as i64;
    assert(camera.frame(delta_time) =~= seq![Step { motion: Motion::Forward, distance }]);
}

/// The first report of the pointer turns nothing and is remembered; the next one turns
/// the camera by what the pointer moved since, times the sensitivity: to the right for
/// a larger `x`, up for a smaller `y`.
pub proof fn lemma_pointer_reports(camera: CameraView, x1: i32, y1: i32, x2: i32, y2: i32)
    requires
        camera.last_cursor_pos is None,
    ensures
        camera.pointer(x1, y1) == (CameraView { last_cursor_pos: Some((x1, y1)), ..camera }),
        camera.pointer(x1, y1).pointer(x2, y2) == (CameraView {
            last_cursor_pos: Some((x2, y2)),
            ..camera.rotate(
                (x2 - x1) * camera.camera_settings.sensitivity,
                (y1 - y2) * camera.camera_settings.sensitivity,
            )
        }),
{
}

/// A key event touches nothing but the flag of the motion that its key is bound to.
pub proof fn lemma_key_touches_one_flag(camera: CameraView, code: KeyCode, pressed: bool)
    ensures
        camera.key(code, pressed).yaw == camera.yaw,
        camera.key(code, pressed).pitch == camera.pitch,
        camera.key(code, pressed).last_cursor_pos == camera.last_cursor_pos,
        camera.key(code, pressed).camera_settings == camera.camera_settings,
        forall|motion: Motion|
            bound_motion(code) != Some(motion) ==> camera.key(code, pressed).moving.is_set(motion)
                == camera.moving.is_set(motion),
        forall|motion: Motion|
            bound_motion(code) == Some(motion) ==> camera.key(code, pressed).moving.is_set(motion)
                == pressed,
{
}

} // verus!
