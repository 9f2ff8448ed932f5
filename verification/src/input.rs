use vstd::prelude::*;

verus! {

/// The physical keys that the camera tells apart. Every key that it has no use for
/// is `Other`.
#[derive(Clone, Copy, Debug, PartialEq, Eq)]
pub enum KeyCode {
    KeyW,
    KeyA,
    KeyS,
    KeyD,
    Space,
    ControlLeft,
    Other,
}

/// The six ways in which the camera travels.
#[derive(Clone, Copy, Debug, PartialEq, Eq)]
pub enum Motion {
    /// Along the viewing direction.
    Forward,
    /// Against the viewing direction.
    Backward,
    /// Against the right axis.
    Left,
    /// Along the right axis.
    Right,
    /// Along the up axis.
    Up,
    /// Against the up axis.
    Down,
}

/// The three axes of the camera's own frame.
#[derive(Clone, Copy, Debug, PartialEq, Eq)]
pub enum Axis {
    /// The viewing direction.
    Direction,
    /// To the right of the viewing direction.
    Right,
    /// Upwards, at right angles to the other two.
    Up,
}

/// What the host reports to the camera.
#[derive(Clone, Copy, Debug, PartialEq, Eq)]
pub enum InputEvent {
    /// A key went down (`pressed`) or came up.
    Key { code: KeyCode, pressed: bool },
    /// The pointer is now at the absolute position (`x`, `y`), in pointer units;
    /// `y` grows downwards.
    PointerMove { x: i32, y: i32 },
}

/// One call of a movement primitive: travel `distance` in the way `motion` names.
/// The distance is signed, and in distance units: billionths of a world unit.
#[derive(Clone, Copy, Debug, PartialEq, Eq)]
pub struct Step {
    pub motion: Motion,
    pub distance: i64,
}

/// The movement intents: one flag for each motion, up while its key is held down.
#[derive(Clone, Copy, Debug, PartialEq, Eq)]
pub struct MovementFlags {
    pub forward: bool,
    pub backward: bool,
    pub left: bool,
    pub right: bool,
    pub up: bool,
    pub down: bool,
}

/// The motion that a key is bound to, if any: W, S, A, D for the plane of view,
/// the space bar for up, the left control key for down.
pub open spec fn bound_motion(code: KeyCode) -> Option<Motion> {
    match code {
        KeyCode::KeyW => Some(Motion::Forward),
        KeyCode::KeyS => Some(Motion::Backward),
        KeyCode::KeyA => Some(Motion::Left),
        KeyCode::KeyD => Some(Motion::Right),
        KeyCode::Space => Some(Motion::Up),
        KeyCode::ControlLeft => Some(Motion::Down),
        KeyCode::Other => None,
    }
}

/// The distance, in distance units, covered in `delta_time` microseconds at `speed`
/// length units per second.
pub open spec fn travel(speed: i32, delta_time: u32) -> int {
    speed * delta_time
}

/// The turn, in angle units, that a pointer makes by going from `from` to `to`
/// at the given sensitivity.
pub open spec fn pointer_offset(from: i32, to: i32, sensitivity: i32) -> int {
    (to - from) * sensitivity
}

/// The step that `motion` contributes to a frame: one, if its flag is up.
pub open spec fn contribution(flags: MovementFlags, motion: Motion, distance: i64) -> Seq<
    Step,
> {
    if flags.is_set(motion) {
        seq![Step { motion, distance }]
    } else {
        Seq::empty()
    }
}

/// The steps of one frame: one for each flag that is up, each by `distance`,
/// in the order forward, backward, left, right, up, down. Opposing flags both count.
pub open spec fn frame_steps(flags: MovementFlags, distance: i64) -> Seq<Step> {
    contribution(flags, Motion::Forward, distance)
        + contribution(flags, Motion::Backward, distance)
        + contribution(flags, Motion::Left, distance)
        + contribution(flags, Motion::Right, distance)
        + contribution(flags, Motion::Up, distance)
        + contribution(flags, Motion::Down, distance)
}

impl Motion {
    /// The axis that the motion runs along, or against.
    pub open spec fn axis_of(self) -> Axis {
        match self {
            Motion::Forward | Motion::Backward => Axis::Direction,
            Motion::Right | Motion::Left => Axis::Right,
            Motion::Up | Motion::Down => Axis::Up,
        }
    }

    /// Whether the motion runs against its axis: backward, left and down do.
    pub open spec fn against(self) -> bool {
        match self {
            Motion::Backward | Motion::Left | Motion::Down => true,
            Motion::Forward | Motion::Right | Motion::Up => false,
        }
    }

    /// The axis that the motion runs along, or against.
    pub fn axis(self) -> (axis: Axis)
        ensures
            axis == self.axis_of(),
    {
        match self {
            Motion::Forward | Motion::Backward => Axis::Direction,
            Motion::Right | Motion::Left => Axis::Right,
            Motion::Up | Motion::Down => Axis::Up,
        }
    }

    /// Whether the motion runs against its axis.
    pub fn is_against(self) -> (against: bool)
        ensures
            against == self.against(),
    {
        match self {
            Motion::Backward | Motion::Left | Motion::Down => true,
            Motion::Forward | Motion::Right | Motion::Up => false,
        }
    }
}

impl Step {
    /// How far the step carries the camera along `axis`: its distance along the
    /// axis of its motion, negated where the motion runs against that axis, and
    /// nothing along the other two.
    pub open spec fn along(self, axis: Axis) -> int {
        if self.motion.axis_of() != axis {
            0
        } else if self.motion.against() {
            -self.distance
        } else {
            self.distance as int
        }
    }
}

/// How far a run of steps carries the camera along `axis`, all in all.
pub open spec fn net_travel(steps: Seq<Step>, axis: Axis) -> int
    decreases steps.len(),
{
    if steps.len() == 0 {
        0
    } else {
        net_travel(steps.drop_last(), axis) + steps.last().along(axis)
    }
}

impl MovementFlags {
    /// The flag of `motion`.
    pub open spec fn is_set(self, motion: Motion) -> bool {
        match motion {
            Motion::Forward => self.forward,
            Motion::Backward => self.backward,
            Motion::Left => self.left,
            Motion::Right => self.right,
            Motion::Up => self.up,
            Motion::Down => self.down,
        }
    }

    /// These flags with the one of `motion` replaced by `on`.
    pub open spec fn with(self, motion: Motion, on: bool) -> MovementFlags {
        match motion {
            Motion::Forward => MovementFlags { forward: on, ..self },
            Motion::Backward => MovementFlags { backward: on, ..self },
            Motion::Left => MovementFlags { left: on, ..self },
            Motion::Right => MovementFlags { right: on, ..self },
            Motion::Up => MovementFlags { up: on, ..self },
            Motion::Down => MovementFlags { down: on, ..self },
        }
    }

    /// No flag is up.
    pub open spec fn none_set(self) -> bool {
        !self.forward && !self.backward && !self.left && !self.right && !self.up && !self.down
    }

    /// The flags of a camera at rest.
    pub open spec fn at_rest() -> MovementFlags {
        MovementFlags {
            forward: false,
            backward: false,
            left: false,
            right: false,
            up: false,
            down: false,
        }
    }

    /// Flags with none up.
    pub fn idle() -> (flags: MovementFlags)
        ensures
            flags == MovementFlags::at_rest(),
    {
        MovementFlags {
            forward: false,
            backward: false,
            left: false,
            right: false,
            up: false,
            down: false,
        }
    }

    /// Puts the flag of `motion` up or down and leaves the others alone.
    pub fn set(&mut self, motion: Motion, on: bool)
        ensures
            *final(self) == old(self).with(motion, on),
    {
        match motion {
            Motion::Forward => self.forward = on,
            Motion::Backward => self.backward = on,
            Motion::Left => self.left = on,
            Motion::Right => self.right = on,
            Motion::Up => self.up = on,
            Motion::Down => self.down = on,
        }
    }

    /// The steps of one frame in which each motion whose flag is up travels
    /// `distance`.
    pub fn plan(&self, distance: i64) -> (steps: Vec<Step>)
        ensures
            steps@ == frame_steps(*self, distance),
    {
        let mut steps: Vec<Step> = Vec::new();
        if self.forward {
            steps.push(Step { motion: Motion::Forward, distance });
        }
        assert(steps@ =~= contribution(*self, Motion::Forward, distance));
        let ghost first = steps@;
        if self.backward {
            steps.push(Step { motion: Motion::Backward, distance });
        }
        assert(steps@ =~= first + contribution(*self, Motion::Backward, distance));
        let ghost second = steps@;
        if self.left {
            steps.push(Step { motion: Motion::Left, distance });
        }
        assert(steps@ =~= second + contribution(*self, Motion::Left, distance));
        let ghost third = steps@;
        if self.right {
            steps.push(Step { motion: Motion::Right, distance });
        }
        assert(steps@ =~= third + contribution(*self, Motion::Right, distance));
        let ghost fourth = steps@;
        if self.up {
            steps.push(Step { motion: Motion::Up, distance });
        }
        assert(steps@ =~= fourth + contribution(*self, Motion::Up, distance));
        let ghost fifth = steps@;
        if self.down {
            steps.push(Step { motion: Motion::Down, distance });
        }
        assert(steps@ =~= fifth + contribution(*self, Motion::Down, distance));
        steps
    }
}

/// The motion that a key is bound to, if any.
pub fn binding(code: KeyCode) -> (motion: Option<Motion>)
    ensures
        motion == bound_motion(code),
{
    match code {
        KeyCode::KeyW => Some(Motion::Forward),
        KeyCode::KeyS => Some(Motion::Backward),
        KeyCode::KeyA => Some(Motion::Left),
        KeyCode::KeyD => Some(Motion::Right),
        KeyCode::Space => Some(Motion::Up),
        KeyCode::ControlLeft => Some(Motion::Down),
        KeyCode::Other => None,
    }
}

/// The distance, in distance units, covered in `delta_time` microseconds at `speed`
/// length units per second. The product of the two always fits.
pub fn travelled(speed: i32, delta_time: u32) -> (distance: i64)
    ensures
        distance == travel(speed, delta_time),
{
    let s: i64 = speed as i64;
    let t: i64 = delta_time as i64;
    assert(-0x8000_0000_0000_0000 <= s * t <= 0x7fff_ffff_ffff_ffff) by (nonlinear_arith)
        requires
            -0x8000_0000 <= s <= 0x7fff_ffff,
            0 <= t <= 0xffff_ffff,
    ;
    s * t
}

/// The turn, in angle units, that a pointer makes by going from `from` to `to` at
/// the given sensitivity. The product always fits.
pub fn offset(from: i32, to: i32, sensitivity: i32) -> (turn: i64)
    ensures
        turn == pointer_offset(from, to, sensitivity),
{
    let d: i64 = to as i64 - from as i64;
    let s: i64 = sensitivity as i64;
    assert(-0x8000_0000_0000_0000 <= d * s <= 0x7fff_ffff_ffff_ffff) by (nonlinear_arith)
        requires
            -0xffff_ffff <= d <= 0xffff_ffff,
            -0x8000_0000 <= s <= 0x7fff_ffff,
    ;
    d * s
}

/// What two runs of steps cover one after the other is the sum of what each
/// covers.
pub proof fn lemma_net_travel_of_two_runs(
    first: Seq<Step>,
    second: Seq<Step>,
    axis: Axis,
)
    ensures
        net_travel(first + second, axis) == net_travel(first, axis) + net_travel(second, axis),
    decreases second.len(),
{
    if second.len() == 0 {
        assert(first + second =~= first);
    } else {
        assert((first + second).drop_last() =~= first + second.drop_last());
        assert((first + second).last() == second.last());
        lemma_net_travel_of_two_runs(first, second.drop_last(), axis);
    }
}

/// A single step covers what it covers.
pub proof fn lemma_net_travel_of_one(step: Step, axis: Axis)
    ensures
        net_travel(seq![step], axis) == step.along(axis),
{
    let run = seq![step];
    assert(run.drop_last() =~= Seq::<Step>::empty());
    assert(run.last() == step);
    assert(net_travel(run.drop_last(), axis) == 0);
}

/// Going one way and then the opposite way by the same distance covers nothing:
/// forward and backward, right and left, up and down undo each other exactly.
pub proof fn lemma_there_and_back_covers_nothing(
    there: Motion,
    back: Motion,
    distance: i64,
    axis: Axis,
)
    requires
        there.axis_of() == back.axis_of(),
        there.against() != back.against(),
    ensures
        net_travel(
            seq![
                Step { motion: there, distance },
                Step { motion: back, distance },
            ],
            axis,
        ) == 0,
{
    let a = Step { motion: there, distance };
    let b = Step { motion: back, distance };
    assert(seq![a, b] =~= seq![a] + seq![b]);
    lemma_net_travel_of_two_runs(seq![a], seq![b], axis);
    lemma_net_travel_of_one(a, axis);
    lemma_net_travel_of_one(b, axis);
}

/// What a frame covers along each axis: the distance once for the flag along the
/// axis, less the distance once for the flag against it.
pub proof fn lemma_net_travel_of_a_frame(flags: MovementFlags, distance: i64)
    ensures
        net_travel(frame_steps(flags, distance), Axis::Direction) == distance * (if flags.forward {
            1int
        } else {
            0int
        }) - distance * (if flags.backward {
            1int
        } else {
            0int
        }),
        net_travel(frame_steps(flags, distance), Axis::Right) == distance * (if flags.right {
            1int
        } else {
            0int
        }) - distance * (if flags.left {
            1int
        } else {
            0int
        }),
        net_travel(frame_steps(flags, distance), Axis::Up) == distance * (if flags.up {
            1int
        } else {
            0int
        }) - distance * (if flags.down {
            1int
        } else {
            0int
        }),
{
    let c1 = contribution(flags, Motion::Forward, distance);
    let c2 = contribution(flags, Motion::Backward, distance);
    let c3 = contribution(flags, Motion::Left, distance);
    let c4 = contribution(flags, Motion::Right, distance);
    let c5 = contribution(flags, Motion::Up, distance);
    let c6 = contribution(flags, Motion::Down, distance);
    assert forall|axis: Axis|
        net_travel(frame_steps(flags, distance), axis) == net_travel(c1, axis) + net_travel(
            c2,
            axis,
        ) + net_travel(c3, axis) + net_travel(c4, axis) + net_travel(c5, axis) + net_travel(
            c6,
            axis,
        ) by {
        lemma_net_travel_of_two_runs(c1, c2, axis);
        lemma_net_travel_of_two_runs(c1 + c2, c3, axis);
        lemma_net_travel_of_two_runs(c1 + c2 + c3, c4, axis);
        lemma_net_travel_of_two_runs(c1 + c2 + c3 + c4, c5, axis);
        lemma_net_travel_of_two_runs(c1 + c2 + c3 + c4 + c5, c6, axis);
    }
    assert forall|motion: Motion, axis: Axis|
        #[trigger] net_travel(contribution(flags, motion, distance), axis) == (if flags.is_set(
            motion,
        ) {
            (Step { motion, distance }).along(axis)
        } else {
            0
        }) by {
        if flags.is_set(motion) {
            lemma_net_travel_of_one(Step { motion, distance }, axis);
        }
    }
}

} // verus!
