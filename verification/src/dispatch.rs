//! Event dispatch: which action each event delivered by the loop
//! triggers.
//!
//! The loop is single-threaded and cooperative: window, input and timer
//! events arrive serially, in delivery order, and each is mapped to one
//! action. Events of a window other than the application's are ignored.

use vstd::prelude::*;

verus! {

/// A window event, stripped to what the dispatch rules read.
#[derive(Clone, Copy, PartialEq, Eq, Structural, Debug)]
pub enum WindowMessage {
    /// The window's close control was activated.
    CloseRequested,
    /// The platform asked for the window to be redrawn.
    RedrawRequested,
    /// The pointer moved to a new position.
    CursorMoved,
    /// The left mouse button was pressed.
    LeftMousePressed,
    /// A key was pressed or released.
    KeyboardInput,
    /// The window was resized.
    Resized,
    /// Any other window event.
    OtherWindow,
}

/// An event delivered by the loop.
#[derive(Clone, Copy, PartialEq, Eq, Structural, Debug)]
pub enum LoopEvent {
    /// An event of some window; `ours` says whether that window is the
    /// application's own.
    Window { ours: bool, message: WindowMessage },
    /// The loop has just started.
    Init,
    /// The fixed-interval timer fired.
    TimerFired,
    /// Any other event source.
    Other,
}

/// What the application does in response to one event.
#[derive(Clone, Copy, PartialEq, Eq, Structural, Debug)]
pub enum Action {
    /// Leave the loop and end the process.
    Exit,
    /// Run the draw hook on the frame buffer, then render the surface.
    RenderFrame,
    /// Arm the fixed-interval timer for one tick from now.
    StartTimer,
    /// Run the update hook, request a redraw, then rearm the timer for
    /// one tick from now. The timer is rearmed after each tick rather
    /// than kept periodic, so drift accumulates.
    Tick,
    /// Record the pointer's new physical position.
    TrackCursor,
    /// Report the recorded pointer position and, where it maps into the
    /// surface, the surface pixel it maps to.
    ReportClick,
    /// Report the key's identity, press state and repeat flag.
    ReportKey,
    /// Report the new physical size and rescale the surface texture.
    ResizeSurface,
    /// Do nothing.
    Ignore,
}

/// The dispatch rule: the action each event triggers. A window event is
/// acted on only when the window is the application's; the loop's start
/// arms the timer, and a tick of the timer drives one update and redraw.
pub open spec fn spec_dispatch(event: LoopEvent) -> Action {
    match event {
        LoopEvent::Window { ours: false, .. } => Action::Ignore,
        LoopEvent::Window { ours: true, message } => match message {
            WindowMessage::CloseRequested => Action::Exit,
            WindowMessage::RedrawRequested => Action::RenderFrame,
            WindowMessage::CursorMoved => Action::TrackCursor,
            WindowMessage::LeftMousePressed => Action::ReportClick,
            WindowMessage::KeyboardInput => Action::ReportKey,
            WindowMessage::Resized => Action::ResizeSurface,
            WindowMessage::OtherWindow => Action::Ignore,
        },
        LoopEvent::Init => Action::StartTimer,
        LoopEvent::TimerFired => Action::Tick,
        LoopEvent::Other => Action::Ignore,
    }
}

/// Maps one delivered event to the action the application takes.
pub fn dispatch(event: LoopEvent) -> (action: Action)
    ensures
        action == spec_dispatch(event),
{
    match event {
        LoopEvent::Window { ours: false, message: _ } => Action::Ignore,
        LoopEvent::Window { ours: true, message } => match message {
            WindowMessage::CloseRequested => Action::Exit,
            WindowMessage::RedrawRequested => Action::RenderFrame,
            WindowMessage::CursorMoved => Action::TrackCursor,
            WindowMessage::LeftMousePressed => Action::ReportClick,
            WindowMessage::KeyboardInput => Action::ReportKey,
            WindowMessage::Resized => Action::ResizeSurface,
            WindowMessage::OtherWindow => Action::Ignore,
        },
        LoopEvent::Init => Action::StartTimer,
        LoopEvent::TimerFired => Action::Tick,
        LoopEvent::Other => Action::Ignore,
    }
}

} // verus!
