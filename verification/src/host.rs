use vstd::prelude::*;
use crate::input::{InputEvent, KeyCode};

verus! {

/// What the window reports, as far as the program tells its reports apart.
#[derive(Clone, Copy, Debug, PartialEq, Eq)]
pub enum WindowInput {
    /// The window now has this size, in pixels.
    Resized { width: u32, height: u32 },
    /// The user asked to close the window.
    CloseRequested,
    /// The window wants to be drawn again.
    RedrawRequested,
    /// A key went down or came up; `escape` says whether it is the escape key.
    Keyboard { escape: bool, code: KeyCode, pressed: bool },
    /// The pointer is now at (`x`, `y`), in pointer units.
    CursorMoved { x: i32, y: i32 },
    /// Any other report.
    Other,
}

/// What the program does about a report of the window.
#[derive(Clone, Copy, Debug, PartialEq, Eq)]
pub enum Reaction {
    /// Fit the drawing surface and the viewport to this size.
    Resize { width: u32, height: u32 },
    /// Leave the event loop.
    Exit,
    /// Hand the event to the camera.
    Camera(InputEvent),
    /// Do nothing.
    Nothing,
}

/// The reaction to a report: a size with no zero in it resizes; a request to close
/// and the escape key, down or up, end the program; every other key and the pointer
/// go to the camera; the rest is passed over.
pub open spec fn reaction(input: WindowInput) -> Reaction {
    match input {
        WindowInput::Resized { width, height } => if width != 0 && height != 0 {
            Reaction::Resize { width, height }
        } else {
            Reaction::Nothing
        },
        WindowInput::CloseRequested => Reaction::Exit,
        WindowInput::RedrawRequested => Reaction::Nothing,
        WindowInput::Keyboard { escape, code, pressed } => if escape {
            Reaction::Exit
        } else {
            Reaction::Camera(InputEvent::Key { code, pressed })
        },
        WindowInput::CursorMoved { x, y } => Reaction::Camera(InputEvent::PointerMove { x, y }),
        WindowInput::Other => Reaction::Nothing,
    }
}

/// The smaller of `micros` and the longest frame that a `u32` can hold.
pub open spec fn capped(micros: u128) -> int {
    if micros > u32::MAX {
        u32::MAX as int
    } else {
        micros as int
    }
}

/// Decides what to do about a report of the window.
pub fn dispatch(input: WindowInput) -> (r: Reaction)
    ensures
        r == reaction(input),
{
    match input {
        WindowInput::Resized { width, height } => {
            if width != 0 && height != 0 {
                Reaction::Resize { width, height }
            } else {
                Reaction::Nothing
            }
        },
        WindowInput::CloseRequested => Reaction::Exit,
        WindowInput::RedrawRequested => Reaction::Nothing,
        WindowInput::Keyboard { escape, code, pressed } => {
            if escape {
                Reaction::Exit
            } else {
                Reaction::Camera(InputEvent::Key { code, pressed })
            }
        },
        WindowInput::CursorMoved { x, y } => Reaction::Camera(InputEvent::PointerMove { x, y }),
        WindowInput::Other => Reaction::Nothing,
    }
}

/// The length of a frame in microseconds, from the time that has passed since the
/// last one; a time too long for a `u32` counts as the longest that it holds.
pub fn frame_length(micros: u128) -> (delta_time: u32)
    ensures
        delta_time == capped(micros),
{
    if micros > 0xffff_ffff {
        0xffff_ffff
    } else {
        micros as u32
    }
}

} // verus!
