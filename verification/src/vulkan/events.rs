//! The decision the event loop makes on each event it is handed.

use vstd::prelude::*;

verus! {

/// What the event loop reads off an event before deciding: a request to close
/// the window, a key press (of which only Escape matters), or anything else.
pub enum LoopEvent {
    CloseRequested,
    KeyboardInput { escape_pressed: bool },
    Other,
}

/// Whether an event asks the application to shut down.
pub open spec fn is_exit_event(event: LoopEvent) -> bool {
    match event {
        LoopEvent::CloseRequested => true,
        LoopEvent::KeyboardInput { escape_pressed } => escape_pressed,
        LoopEvent::Other => false,
    }
}

/// The event loop exits on a close request or on the Escape key, and keeps
/// running on everything else.
pub fn exit_requested(event: &LoopEvent) -> (r: bool)
    ensures
        r == is_exit_event(*event),
{
    match event {
        LoopEvent::CloseRequested => true,
        LoopEvent::KeyboardInput { escape_pressed } => *escape_pressed,
        LoopEvent::Other => false,
    }
}

} // verus!
