//! The events that the coordinator takes in, and what it asks for in return.
//!
//! The coordinator decides; it performs nothing itself. Each call hands back
//! an action, and whoever drives the coordinator carries that action out on
//! the platform and on the window's own state.

use crate::timer::{ControlFlow, Timer};
use crate::window::{Modifiers, Point, Scalar, WindowAttributes, WindowConfig, WindowId};
use vstd::prelude::*;

verus! {

/// What wakes the event loop from outside the platform.
#[derive(Clone, Copy, Debug, PartialEq, Eq, Structural)]
pub enum UserEvent {
    /// Requests are waiting in the update queue.
    AppUpdate,
    /// The loop has run out of events.
    Idle,
    /// The application is to end.
    QuitApp,
}

/// A request to the application as a whole.
#[derive(Debug, PartialEq, Eq)]
pub enum AppUpdateEvent<V, A> {
    /// Open a window. What builds the window's view is carried along and
    /// handed back with the attributes to ask the platform for.
    NewWindow { view_fn: V, config: Option<WindowConfig> },
    /// Close a window.
    CloseWindow { window_id: WindowId },
    /// Start a timer.
    RequestTimer { timer: Timer<A> },
    /// An entry of a native menu was chosen for a window.
    MenuAction { window_id: WindowId, action_id: usize },
}

/// What the platform reports of one window. An event carries only what the
/// coordinator reads; whatever else the platform sent with it stays with the
/// caller, who forwards it.
#[derive(Clone, Copy, Debug, PartialEq, Eq, Structural)]
pub enum WindowEvent {
    ActivationTokenDone,
    /// The new size, in physical units.
    Resized { width: u32, height: u32 },
    /// The new position, in physical units.
    Moved { x: i32, y: i32 },
    CloseRequested,
    Destroyed,
    DroppedFile,
    HoveredFile,
    HoveredFileCancelled,
    Focused(bool),
    KeyboardInput,
    /// The modifier keys that are now held.
    ModifiersChanged(Modifiers),
    Ime,
    /// The pointer's position, in physical units.
    CursorMoved { position: Point },
    CursorEntered,
    CursorLeft,
    MouseWheel,
    MouseInput,
    TouchpadMagnify,
    SmartMagnify,
    TouchpadRotate,
    TouchpadPressure,
    AxisMotion,
    Touch,
    /// The new display scale.
    ScaleFactorChanged(Scalar),
    ThemeChanged,
    Occluded,
    /// The entry of a native menu that was chosen.
    MenuAction(usize),
    RedrawRequested,
}

/// What is owed to a window's own state after an event. Where an action
/// carries physical units it carries the scale to divide them by as well.
#[derive(Clone, Copy, Debug, PartialEq, Eq, Structural)]
pub enum WindowAction {
    /// Nothing: the window is not live, or the event is one that is ignored
    /// or that only the coordinator records.
    Nothing,
    /// Tell the window its size.
    Size { width: u32, height: u32, scale: Scalar },
    /// Tell the window its position.
    Position { x: i32, y: i32, scale: Scalar },
    /// Tell the window whether it has the focus.
    Focused(bool),
    /// Forward the key event.
    KeyEvent,
    /// Forward the composition event.
    Ime,
    /// Tell the window where the pointer is.
    PointerMove { position: Point, scale: Scalar },
    /// Tell the window that the pointer has left.
    PointerLeave,
    /// Forward the wheel's movement.
    MouseWheel,
    /// Forward the button's change.
    MouseInput,
    /// Tell the window its display scale.
    Scale(Scalar),
    /// Forward the change of theme.
    ThemeChanged,
    /// Tell the window which menu entry was chosen.
    MenuAction(usize),
    /// Have the window paint.
    Paint,
    /// The window has given up its platform window: notify it of its teardown,
    /// then finish the close.
    Teardown,
}

/// What is owed after a request to the application.
#[derive(Debug, PartialEq, Eq)]
pub enum UpdateAction<V> {
    /// Nothing: the request named a window that is not live.
    Nothing,
    /// Ask the platform for a window with these attributes, build its view
    /// once if the platform builds the window, and report the outcome.
    BuildWindow { view_fn: V, attributes: WindowAttributes },
    /// The window has given up its platform window: notify it of its teardown,
    /// then finish the close.
    Teardown(WindowId),
    /// Tell the event loop when to wake.
    SetControlFlow(ControlFlow),
    /// Tell the window which menu entry was chosen.
    MenuAction { window_id: WindowId, action_id: usize },
}

/// Whether the coordinator ignores an event by design: it records nothing and
/// forwards nothing, whichever window the event names.
pub open spec fn is_ignored(event: WindowEvent) -> bool {
    match event {
        WindowEvent::ActivationTokenDone
        | WindowEvent::DroppedFile
        | WindowEvent::HoveredFile
        | WindowEvent::HoveredFileCancelled
        | WindowEvent::CursorEntered
        | WindowEvent::TouchpadMagnify
        | WindowEvent::SmartMagnify
        | WindowEvent::TouchpadRotate
        | WindowEvent::TouchpadPressure
        | WindowEvent::AxisMotion
        | WindowEvent::Touch
        | WindowEvent::Occluded => true,
        _ => false,
    }
}

/// What is owed to a live window with the cached `scale` after `event`.
pub open spec fn forwarded(event: WindowEvent, scale: Scalar) -> WindowAction {
    match event {
        WindowEvent::Resized { width, height } => WindowAction::Size { width, height, scale },
        WindowEvent::Moved { x, y } => WindowAction::Position { x, y, scale },
        WindowEvent::CloseRequested | WindowEvent::Destroyed => WindowAction::Teardown,
        WindowEvent::Focused(focused) => WindowAction::Focused(focused),
        WindowEvent::KeyboardInput => WindowAction::KeyEvent,
        WindowEvent::ModifiersChanged(_) => WindowAction::Nothing,
        WindowEvent::Ime => WindowAction::Ime,
        WindowEvent::CursorMoved { position } => WindowAction::PointerMove { position, scale },
        WindowEvent::CursorLeft => WindowAction::PointerLeave,
        WindowEvent::MouseWheel => WindowAction::MouseWheel,
        WindowEvent::MouseInput => WindowAction::MouseInput,
        WindowEvent::ScaleFactorChanged(new_scale) => WindowAction::Scale(new_scale),
        WindowEvent::ThemeChanged => WindowAction::ThemeChanged,
        WindowEvent::MenuAction(action_id) => WindowAction::MenuAction(action_id),
        WindowEvent::RedrawRequested => WindowAction::Paint,
        _ => WindowAction::Nothing,
    }
}

} // verus!
