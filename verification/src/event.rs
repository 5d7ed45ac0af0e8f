//! The events the windowing integration consumes and the commands it emits.
//!
//! An [`Event`] carries, as plain values, everything the integration reads
//! while handling one window-system event: timestamps in milliseconds,
//! sizes and positions, and the readings it takes from the GUI engine's
//! input/output block at that moment. A [`Command`] names one side effect
//! the integration has decided on — a call into the window system, the GL
//! surface or the engine — for the surrounding shell to perform.

use vstd::prelude::*;
use crate::conv::{ImGuiKey, Key, MouseButton};
use crate::geom::{LogicalPosition, LogicalSize, PhysicalPosition, PhysicalSize, valid_scale_pct};

verus! {

/// What the event loop should do once the queue is empty: keep polling for
/// new frames, block until the next event, or shut down.
#[derive(Clone, Copy, Debug, PartialEq, Eq, Structural)]
pub enum ControlFlow {
    Poll,
    Wait,
    Exit,
}

/// An event aimed at the window itself.
#[derive(Clone, Copy, Debug, PartialEq, Eq, Structural)]
pub enum WindowEventKind {
    /// The user asked to close the window.
    CloseRequested,
    /// The window was resized; the size is in physical pixels.
    Resized(PhysicalSize),
    /// The window moved to a monitor with a different DPI scale. The size
    /// is the new inner size in physical pixels.
    ScaleFactorChanged { scale_pct: u32, new_inner_size: PhysicalSize },
    /// The set of held modifier keys changed.
    ModifiersChanged { ctrl: bool, shift: bool, alt: bool, logo: bool },
    /// A key went down or up.
    KeyboardInput { key: Key, pressed: bool },
    /// The keyboard produced a character.
    ReceivedCharacter(char),
    /// The mouse moved; the position is window-relative, in physical
    /// pixels.
    CursorMoved(PhysicalPosition),
    /// The mouse wheel turned. `moved` is whether the gesture is in its
    /// moving phase; deltas outside that phase are ignored.
    MouseWheel { horizontal: i32, vertical: i32, moved: bool },
    /// A mouse button went down or up.
    MouseInput { button: MouseButton, pressed: bool },
    /// The mouse left the window.
    CursorLeft,
    /// The window gained or lost keyboard focus.
    Focused(bool),
    /// Any window event the integration does not react to.
    Other,
}

/// One event handed to the integration, together with the readings it
/// takes at that moment.
#[derive(Clone, Copy, Debug, PartialEq, Eq, Structural)]
pub enum Event {
    /// A new burst of events begins; `now_ms` is the current time.
    NewEvents { now_ms: u64 },
    /// The burst's events are all dispatched. `want_set_mouse_pos` and
    /// `mouse_pos` are the engine's request to warp the OS mouse, read
    /// from its input/output block.
    MainEventsCleared { want_set_mouse_pos: bool, mouse_pos: LogicalPosition },
    /// All redraws of the burst are done; time to pick the control flow.
    /// `any_mouse_down` is the engine's report of any held mouse button.
    RedrawEventsCleared { now_ms: u64, any_mouse_down: bool },
    /// The window must be redrawn. `cursor_change_disabled` is the
    /// engine's flag that cursor changes are suppressed, `draw_cursor` its
    /// request to draw the cursor itself, and `cursor_bits` its raw
    /// current cursor value.
    RedrawRequested { cursor_change_disabled: bool, draw_cursor: bool, cursor_bits: i32 },
    /// An event aimed at a window; `is_main_window` says whether it is
    /// this integration's window, and `now_ms` is the current time.
    WindowEvent { is_main_window: bool, now_ms: u64, kind: WindowEventKind },
    /// Any other event of the loop.
    Other,
}

/// One side effect the integration has decided on.
#[derive(Clone, Copy, Debug, PartialEq, Eq, Structural)]
pub enum Command {
    /// Tell the engine how much time passed since the previous burst.
    SetDeltaTime { millis: u64 },
    /// Warp the OS mouse to a logical position, as the engine asked.
    SetMousePos(LogicalPosition),
    /// Ask the window system for a redraw.
    RequestRedraw,
    /// Show this cursor icon on the window.
    SetCursorIcon(crate::conv::CursorIcon),
    /// Show or hide the OS cursor over the window.
    SetCursorVisible(bool),
    /// Render one frame of the application.
    RenderFrame,
    /// Present the rendered frame on the GL surface.
    SwapBuffers,
    /// Resize the GL surface; the size is in physical pixels and both
    /// sides are nonzero.
    ResizeSurface(PhysicalSize),
    /// Tell the engine its display size, in logical pixels.
    SetDisplaySize(LogicalSize),
    /// Rescale the engine's remembered mouse position from its old DPI
    /// scale to this one, where that position is meaningful.
    RescaleMousePos { scale_pct: u32 },
    /// Tell the renderer its logical size and DPI scale.
    SetRendererSize { size: LogicalSize, scale_pct: u32 },
    /// Hand the engine a key transition.
    AddKeyEvent { key: ImGuiKey, pressed: bool },
    /// Hand the engine a typed character.
    AddInputCharacter(char),
    /// Hand the engine the mouse position, in logical pixels.
    AddMousePosEvent(LogicalPosition),
    /// Tell the engine the mouse is nowhere over the window.
    ClearMousePos,
    /// Hand the engine a mouse-wheel turn, in lines.
    AddMouseWheelEvent { horizontal: i32, vertical: i32 },
    /// Hand the engine a mouse-button transition, by the engine's button
    /// index.
    AddMouseButtonEvent { button: u32, pressed: bool },
    /// Tell the engine the window gained or lost focus.
    AddFocusEvent(bool),
}

impl WindowEventKind {
    /// The bounds the model asks of a window event's payload: a reported
    /// DPI scale lies within the scales the model admits.
    pub open spec fn wf(self) -> bool {
        match self {
            WindowEventKind::ScaleFactorChanged { scale_pct, new_inner_size: _ } =>
                valid_scale_pct(scale_pct),
            _ => true,
        }
    }
}

impl Event {
    /// The bounds the model asks of an event's payload.
    pub open spec fn wf(self) -> bool {
        match self {
            Event::WindowEvent { is_main_window: _, now_ms: _, kind } => kind.wf(),
            _ => true,
        }
    }
}

} // verus!
