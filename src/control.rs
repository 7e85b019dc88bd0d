//! Decisions of the window's event loop: what each window event leads to,
//! and how a failure to get a frame is handled.
use vstd::prelude::*;
use crate::camera::{CameraModel, CursorShape, InputEvent, ZoomState, at_least_one};
use crate::units::WindowSize;

verus! {

/// What the window system reports.
#[derive(Clone, Copy, Debug, PartialEq, Eq)]
pub enum WindowInput {
    Pointer(InputEvent),
    Resized(WindowSize),
    CloseRequested,
    EscapePressed,
    RedrawRequested,
    Other,
}

/// What the loop does next.
#[derive(Clone, Copy, Debug, PartialEq, Eq)]
pub enum LoopAction {
    /// Nothing to do until the next event.
    Wait,
    /// Ask the window for a redraw.
    RequestRedraw,
    /// Draw a frame now.
    Render,
    /// Rebuild the presentation surface at this size.
    Reconfigure(WindowSize),
    /// Leave the loop and end the program.
    Exit,
}

#[derive(Clone, Copy, Debug, PartialEq, Eq)]
pub struct Reaction {
    pub action: LoopAction,
    /// The cursor icon to show, if it changes.
    pub cursor: Option<CursorShape>,
}

/// Why the presentation surface gave no frame.
#[derive(Clone, Copy, Debug, PartialEq, Eq)]
pub enum FrameError {
    Lost,
    Outdated,
    Timeout,
    OutOfMemory,
}

/// What to do about a frame that could not be had.
#[derive(Clone, Copy, Debug, PartialEq, Eq)]
pub enum Recovery {
    /// Rebuild the presentation surface; the next frame is tried as usual.
    RecreateSurface,
    /// End the program.
    Exit,
    /// Report the error and skip this frame.
    SkipFrame,
}

pub open spec fn recovery_spec(e: FrameError) -> Recovery {
    match e {
        FrameError::Lost => Recovery::RecreateSurface,
        FrameError::OutOfMemory => Recovery::Exit,
        _ => Recovery::SkipFrame,
    }
}

/// A lost surface is rebuilt, running out of memory ends the program, and
/// any other failure skips the frame.
pub fn recovery_for(e: FrameError) -> (r: Recovery)
    ensures
        r == recovery_spec(e),
{
    match e {
        FrameError::Lost => Recovery::RecreateSurface,
        FrameError::OutOfMemory => Recovery::Exit,
        _ => Recovery::SkipFrame,
    }
}

/// The camera after `input`.
pub open spec fn camera_after(m: CameraModel, input: WindowInput) -> CameraModel {
    match input {
        WindowInput::Pointer(ev) => m.next(ev),
        WindowInput::Resized(size) => CameraModel {
            width: at_least_one(size.width as int),
            height: at_least_one(size.height as int),
            ..m
        },
        _ => m,
    }
}

/// What the loop does after `input`.
pub open spec fn reaction_spec(m: CameraModel, input: WindowInput) -> Reaction {
    match input {
        WindowInput::Pointer(ev) => Reaction {
            action: if m.response(ev).redraw {
                LoopAction::RequestRedraw
            } else {
                LoopAction::Wait
            },
            cursor: m.response(ev).cursor,
        },
        WindowInput::Resized(size) => Reaction {
            action: LoopAction::Reconfigure(
                WindowSize {
                    width: at_least_one(size.width as int) as u32,
                    height: at_least_one(size.height as int) as u32,
                },
            ),
            cursor: None,
        },
        WindowInput::CloseRequested => Reaction { action: LoopAction::Exit, cursor: None },
        WindowInput::EscapePressed => Reaction { action: LoopAction::Exit, cursor: None },
        WindowInput::RedrawRequested => Reaction { action: LoopAction::Render, cursor: None },
        WindowInput::Other => Reaction { action: LoopAction::Wait, cursor: None },
    }
}

/// Hands pointer input to the camera and decides what the loop does next.
pub fn react(camera: &mut ZoomState, input: WindowInput) -> (r: Reaction)
    requires
        old(camera)@.wf(),
    ensures
        final(camera)@.wf(),
        final(camera)@ == camera_after(old(camera)@, input),
        r == reaction_spec(old(camera)@, input),
{
    match input {
        WindowInput::Pointer(ev) => {
            let resp = camera.handle_event(ev);
            let action = if resp.redraw {
                LoopAction::RequestRedraw
            } else {
                LoopAction::Wait
            };
            Reaction { action, cursor: resp.cursor }
        },
        WindowInput::Resized(size) => {
            camera.set_size(size);
            Reaction { action: LoopAction::Reconfigure(camera.window_size()), cursor: None }
        },
        WindowInput::CloseRequested => Reaction { action: LoopAction::Exit, cursor: None },
        WindowInput::EscapePressed => Reaction { action: LoopAction::Exit, cursor: None },
        WindowInput::RedrawRequested => Reaction { action: LoopAction::Render, cursor: None },
        WindowInput::Other => Reaction { action: LoopAction::Wait, cursor: None },
    }
}

} // verus!
