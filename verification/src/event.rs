//! Quit handling: the only input surface of the runtime core. A generic
//! quit request and a key press carrying the quit key code end the
//! application with the success outcome; every other event is a no-op.

use vstd::prelude::*;

verus! {

/// Key code of the escape key.
pub const SCANCODE_ESCAPE: u32 = 41;

/// Key code of the Q key.
pub const SCANCODE_Q: u32 = 20;

/// What the application tells its external driver after handling an event
/// or a frame.
#[derive(Clone, Copy, PartialEq, Eq, Structural, Debug)]
pub enum AppResult {
    /// Keep driving frames and events.
    Continue,
    /// End the application; it ran to a normal completion.
    Success,
    /// End the application; something went wrong.
    Failure,
}

/// An input event, already reduced to plain values by the platform layer.
#[derive(Clone, Copy, PartialEq, Eq, Structural, Debug)]
pub enum AppEvent {
    /// The platform asked the application to quit.
    QuitRequested,
    /// A key was pressed.
    KeyPressed { scancode: u32 },
    /// Any event the core does not react to.
    Other,
}

/// A key press quits exactly when it carries one of the two quit key codes.
pub open spec fn spec_handle_key_event(scancode: u32) -> AppResult {
    if scancode == SCANCODE_ESCAPE || scancode == SCANCODE_Q {
        AppResult::Success
    } else {
        AppResult::Continue
    }
}

/// React to a key press: escape and Q quit, every other key is a no-op.
pub fn handle_key_event(scancode: u32) -> (r: AppResult)
    ensures
        r == spec_handle_key_event(scancode),
{
    if scancode == SCANCODE_ESCAPE || scancode == SCANCODE_Q {
        AppResult::Success
    } else {
        AppResult::Continue
    }
}

/// Event dispatch: a quit request succeeds immediately, a key press is
/// judged by its key code, anything else continues.
pub open spec fn spec_handle_event(event: AppEvent) -> AppResult {
    match event {
        AppEvent::QuitRequested => AppResult::Success,
        AppEvent::KeyPressed { scancode } => spec_handle_key_event(scancode),
        AppEvent::Other => AppResult::Continue,
    }
}

/// React to one input event.
pub fn handle_event(event: AppEvent) -> (r: AppResult)
    ensures
        r == spec_handle_event(event),
{
    match event {
        AppEvent::QuitRequested => AppResult::Success,
        AppEvent::KeyPressed { scancode } => handle_key_event(scancode),
        AppEvent::Other => AppResult::Continue,
    }
}

} // verus!
