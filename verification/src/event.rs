//! What the windowing layer reports and what it is asked to do in return.
//!
//! The library never touches a window or a GPU. Whoever runs the event loop
//! turns each thing the window reports into an [`Event`], hands it to a
//! [`HandleEvent`] and carries out the [`Request`] that comes back.

use vstd::prelude::*;

verus! {

/// A button of the pointer.
#[derive(Debug, Copy, Clone, PartialEq, Eq, Structural)]
pub enum MouseButton {
    Left,
    Right,
    Middle,
    Other,
}

/// Whether a button went down or came up.
#[derive(Debug, Copy, Clone, PartialEq, Eq, Structural)]
pub enum ElementState {
    Pressed,
    Released,
}

/// A size in physical pixels.
#[derive(Debug, Copy, Clone, PartialEq, Eq, Structural)]
pub struct PhysicalSize {
    pub width: u32,
    pub height: u32,
}

/// One thing that the window reports.
#[derive(Debug, Copy, Clone, PartialEq, Eq, Structural)]
pub enum Event {
    /// The user asked to close the window.
    CloseRequested,
    /// The window has a new size.
    Resized(PhysicalSize),
    /// The scale factor changed; the window has the given new size.
    ScaleFactorChanged(PhysicalSize),
    /// The pointer moved to the pixel `(x, y)`, counted from the top left
    /// corner of a window that has the size `window` at that moment.
    CursorMoved { x: i64, y: i64, window: PhysicalSize },
    /// A pointer button changed its state.
    MouseInput { state: ElementState, button: MouseButton },
    /// The window wants its content drawn anew.
    RedrawRequested,
    /// Anything else.
    Other,
}

/// Whether the event loop goes on.
#[derive(Debug, Copy, Clone, PartialEq, Eq, Structural)]
pub enum ControlFlow {
    Poll,
    Exit,
}

/// How frames are handed to the display.
#[derive(Debug, Copy, Clone, PartialEq, Eq, Structural)]
pub enum PresentMode {
    Immediate,
    Mailbox,
    Fifo,
}

/// The part of a surface configuration that the library decides.
#[derive(Debug, Copy, Clone, PartialEq, Eq, Structural)]
pub struct SurfaceConfiguration {
    pub width: u32,
    pub height: u32,
    pub present_mode: PresentMode,
}

/// What the event loop has to do after an event was handled.
#[derive(Debug, Copy, Clone, PartialEq, Eq, Structural)]
pub enum Request {
    /// Nothing.
    Nothing,
    /// Ask the window for a redraw.
    Redraw,
    /// Configure the surface anew.
    Configure(SurfaceConfiguration),
    /// Acquire the next surface image and draw a frame on it.
    Draw,
}

/// Something that reacts to events.
pub trait HandleEvent {
    /// What has to hold of the handler for it to take an event.
    spec fn ready(&self) -> bool;

    /// Reacts to `event`. Sets `flow` to `Exit` where the event loop has to
    /// end and leaves it alone otherwise. The handler can take the next
    /// event afterwards.
    fn handle(&mut self, event: Event, flow: &mut ControlFlow) -> (request: Request)
        requires
            old(self).ready(),
        ensures
            final(self).ready(),
    ;
}

} // verus!
