//! The application-facing event vocabulary.
//!
//! Pointer coordinates and continuous scroll deltas are kept in the
//! protocol's signed fixed-point units (256ths of a logical pixel), so that
//! every accumulation the dispatcher performs is exact integer arithmetic.

use vstd::prelude::*;

verus! {

/// Identifies one application window.
#[derive(Clone, Copy, Debug, PartialEq, Eq, Structural)]
pub struct WindowId(pub u64);

/// Whether a button was pressed or released.
#[derive(Clone, Copy, Debug, PartialEq, Eq, Structural)]
pub enum ElementState {
    Pressed,
    Released,
}

/// The closed set of mouse buttons the dispatcher reports.  Button codes
/// outside this set are dropped silently, by design.
#[derive(Clone, Copy, Debug, PartialEq, Eq, Structural)]
pub enum MouseButton {
    Left,
    Right,
    Middle,
}

/// Where a scroll gesture stands.  Axis deltas move the phase to `Started`
/// or `Moved`; an axis-stop callback forces `Ended`.
#[derive(Clone, Copy, Debug, PartialEq, Eq, Structural)]
pub enum TouchPhase {
    Started,
    Moved,
    Ended,
    Cancelled,
}

/// A wheel delta: continuous, in fixed-point pixel units, or discrete, in
/// whole scroll lines.
#[derive(Clone, Copy, Debug, PartialEq, Eq, Structural)]
pub enum MouseScrollDelta {
    LineDelta(i64, i64),
    PixelDelta(i64, i64),
}

/// The two scroll axes of the pointer protocol.
#[derive(Clone, Copy, Debug, PartialEq, Eq, Structural)]
pub enum ScrollAxis {
    VerticalScroll,
    HorizontalScroll,
}

/// An event concerning one window.
#[derive(Clone, Copy, Debug, PartialEq, Eq, Structural)]
pub enum WindowEvent {
    /// The window surface was resized, in unsigned pixel dimensions.
    Resized(u32, u32),
    /// The window asks to be redrawn.
    Refresh,
    /// The window was closed.
    Closed,
    /// The pointer entered the window.
    MouseEntered,
    /// The pointer left the window.
    MouseLeft,
    /// The pointer moved, position in fixed-point units.
    MouseMoved { x: i64, y: i64 },
    /// A mouse button changed state.
    MouseInput { state: ElementState, button: MouseButton },
    /// A scroll wheel tick.
    MouseWheel { delta: MouseScrollDelta, phase: TouchPhase },
}

/// A fully-formed application event, as buffered by the sink.
#[derive(Clone, Copy, Debug, PartialEq, Eq, Structural)]
pub enum Event {
    WindowEvent { window_id: WindowId, event: WindowEvent },
    /// Synthesized when a wakeup request was seen since the last dispatch.
    Awakened,
}

/// The signal a callback returns to `run_forever`: keep looping or stop.
#[derive(Clone, Copy, Debug, PartialEq, Eq, Structural)]
pub enum ControlFlow {
    Continue,
    Break,
}

} // verus!
