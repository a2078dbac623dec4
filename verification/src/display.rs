//! What the engine does on an event of the window: which events end the
//! event loop, which move the camera, and how the state of the mouse button
//! is kept. The caller runs the loop and owns window and camera.

use vstd::prelude::*;

verus! {

/// Whether a key or a button went down or up.
#[derive(Clone, Copy, Debug, PartialEq, Eq, Structural)]
pub enum ElementState {
    Pressed,
    Released,
}

/// An event, as far as the engine reads it.
#[derive(Clone, Copy, Debug, PartialEq, Eq, Structural)]
pub enum InputEvent {
    /// A window is asked to close. `own_window` says whether it is the
    /// engine's.
    CloseRequested { own_window: bool },
    /// A key of the keyboard changed, with the key's code if it has one.
    KeyboardInput { key: Option<u32>, state: ElementState },
    /// A button of the mouse changed.
    MouseInput { state: ElementState },
    /// The wheel of the mouse turned.
    MouseWheel,
    /// The mouse moved.
    MouseMotion,
    /// Any other event.
    Other,
}

/// How the event loop goes on.
#[derive(Clone, Copy, Debug, PartialEq, Eq, Structural)]
pub enum ControlFlow {
    /// Go on at once, whether or not events wait.
    Poll,
    /// End the loop.
    Exit,
}

/// What the camera is to be told of an event.
#[derive(Clone, Copy, Debug, PartialEq, Eq, Structural)]
pub enum CameraAction {
    /// Nothing.
    Ignore,
    /// That a key changed.
    ProcessKeyboard { key: u32, state: ElementState },
    /// How far the wheel turned.
    ProcessScroll,
    /// How far the mouse moved.
    ProcessMouse,
}

/// What follows from an event.
#[derive(Clone, Copy, Debug, PartialEq, Eq, Structural)]
pub struct InputOutcome {
    pub control_flow: ControlFlow,
    pub mouse_pressed: bool,
    pub camera: CameraAction,
}

/// What follows from `event` while the mouse button is down or not.
///
/// The loop ends when the engine's own window is asked to close, and polls
/// on otherwise. A key with a code and a turn of the wheel go to the camera.
/// A movement of the mouse goes to the camera while a button is down. A
/// change of a mouse button is remembered.
pub open spec fn input_outcome(event: InputEvent, mouse_pressed: bool) -> InputOutcome {
    InputOutcome {
        control_flow: if event == (InputEvent::CloseRequested { own_window: true }) {
            ControlFlow::Exit
        } else {
            ControlFlow::Poll
        },
        mouse_pressed: match event {
            InputEvent::MouseInput { state } => state == ElementState::Pressed,
            _ => mouse_pressed,
        },
        camera: match event {
            InputEvent::KeyboardInput { key: Some(key), state } => CameraAction::ProcessKeyboard {
                key,
                state,
            },
            InputEvent::MouseWheel => CameraAction::ProcessScroll,
            InputEvent::MouseMotion => if mouse_pressed {
                CameraAction::ProcessMouse
            } else {
                CameraAction::Ignore
            },
            _ => CameraAction::Ignore,
        },
    }
}

/// Decides what follows from an event.
pub fn handle_inputs(event: InputEvent, mouse_pressed: bool) -> (r: InputOutcome)
    ensures
        r == input_outcome(event, mouse_pressed),
{
    let mut outcome = InputOutcome {
        control_flow: ControlFlow::Poll,
        mouse_pressed,
        camera: CameraAction::Ignore,
    };
    match event {
        InputEvent::CloseRequested { own_window } => {
            if own_window {
                outcome.control_flow = ControlFlow::Exit;
            }
        },
        InputEvent::KeyboardInput { key, state } => {
            if let Some(key) = key {
                outcome.camera = CameraAction::ProcessKeyboard { key, state };
            }
        },
        InputEvent::MouseInput { state } => {
            outcome.mouse_pressed = match state {
                ElementState::Pressed => true,
                ElementState::Released => false,
            };
        },
        InputEvent::MouseWheel => {
            outcome.camera = CameraAction::ProcessScroll;
        },
        InputEvent::MouseMotion => {
            if mouse_pressed {
                outcome.camera = CameraAction::ProcessMouse;
            }
        },
        InputEvent::Other => {},
    }
    outcome
}

} // verus!
