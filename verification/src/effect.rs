//! What the window manager asks the shell to do.
use vstd::prelude::*;

use crate::event::{AxisDirection, AxisSource, ButtonState, RelativeMotion, ResizeEdge, Stamp};
use crate::geometry::{IntPoint, IntSize, Position};
use crate::scalar::Scalar;

verus! {

/// The handler that an input event goes to.
#[derive(Clone, Copy, Debug, PartialEq, Eq, Structural)]
pub enum Handler {
    Keyboard,
    PointerMotionRelative,
    PointerMotionAbsolute,
    PointerButton,
    PointerAxis,
    GestureSwipeBegin,
    GestureSwipeUpdate,
    GestureSwipeEnd,
    GesturePinchBegin,
    GesturePinchUpdate,
    GesturePinchEnd,
    GestureHoldBegin,
    GestureHoldEnd,
}

/// Where a focused surface begins.
#[derive(Clone, Copy, Debug, PartialEq, Eq, Structural)]
pub enum Origin {
    /// In the coordinates that the pointer is reported in.
    Fixed(IntPoint),
    /// On the screen, while the pointer is reported on the canvas. The shell
    /// shifts the point by the pointer's canvas position less its screen
    /// position, which keeps surface-local coordinates right.
    OnScreen(IntPoint),
}

/// The surface that gets pointer events.
#[derive(Clone, Copy, Debug, PartialEq, Eq, Structural)]
pub struct Focus {
    pub surface: u64,
    pub origin: Origin,
}

/// How far a scroll frame scrolls, and which way.
#[derive(Clone, Copy, Debug, PartialEq, Eq, Structural)]
pub struct AxisValue {
    pub amount: Scalar,
    pub direction: AxisDirection,
}

/// What a scroll frame says of one axis.
#[derive(Clone, Copy, Debug, PartialEq, Eq, Structural)]
pub struct AxisPart {
    pub value: Option<AxisValue>,
    pub v120: Option<i32>,
}

/// A scroll frame for the focused client.
#[derive(Clone, Copy, Debug, PartialEq, Eq, Structural)]
pub struct AxisFrame {
    pub time: u32,
    pub source: Option<AxisSource>,
    pub horizontal: AxisPart,
    pub vertical: AxisPart,
}

/// How a pointer grab began.
#[derive(Clone, Copy, Debug, PartialEq, Eq, Structural)]
pub struct GrabStartData {
    pub focus: Option<Focus>,
    pub button: u32,
    pub location: Position,
}

/// A window follows the pointer.
#[derive(Clone, Copy, Debug, PartialEq, Eq, Structural)]
pub struct MoveSurfaceGrab {
    pub start_data: GrabStartData,
    pub window: u64,
    pub initial_window_location: IntPoint,
}

/// An edge of a window follows the pointer.
#[derive(Clone, Copy, Debug, PartialEq, Eq, Structural)]
pub struct ResizeSurfaceGrab {
    pub start_data: GrabStartData,
    pub window: u64,
    pub edges: ResizeEdge,
    pub initial_window_location: IntPoint,
    pub initial_window_size: IntSize,
    pub last_window_size: IntSize,
}

/// The viewport follows the pointer.
#[derive(Clone, Copy, Debug, PartialEq, Eq, Structural)]
pub struct PanGrab {
    pub start_data: GrabStartData,
    pub last_screen_pos: Position,
    pub start_screen_pos: Position,
    pub from_empty_canvas: bool,
    pub dragged: bool,
}

#[derive(Clone, Copy, Debug, PartialEq, Eq, Structural)]
pub enum Grab {
    Move(MoveSurfaceGrab),
    Resize(ResizeSurfaceGrab),
    Pan(PanGrab),
}

/// How a window's commits are to be followed by repositioning it.
#[derive(Clone, Copy, Debug, PartialEq, Eq, Structural)]
pub enum ResizeState {
    Idle,
    Resizing {
        edges: ResizeEdge,
        initial_window_location: IntPoint,
        initial_window_size: IntSize,
    },
}

/// What a title bar is drawn from, besides the configured colours.
#[derive(Clone, Copy, Debug, PartialEq, Eq, Structural)]
pub struct TitleBar {
    pub width: i32,
    pub focused: bool,
    pub close_hovered: bool,
}

/// One thing for the shell to do. A list of effects is carried out in order.
#[derive(Clone, Copy, Debug, PartialEq, Eq, Structural)]
pub enum Effect {
    /// Schedule every output for a redraw.
    MarkAllDirty,
    /// Go on with the handler for the event at hand.
    Handle(Handler),
    /// Send a button event to the pointer's focus.
    PointerButton { button: u32, state: ButtonState, stamp: Stamp },
    /// End a group of pointer events.
    PointerFrame,
    /// Send a scroll frame to the pointer's focus.
    PointerAxis(AxisFrame),
    /// Move the pointer and its focus.
    PointerMotion { focus: Option<Focus>, location: Position, stamp: Stamp },
    /// Report relative motion.
    PointerRelativeMotion { focus: Option<Focus>, motion: RelativeMotion },
    /// Let a compositor grab take over the pointer, with no focus.
    SetGrab { grab: Grab, serial: u32 },
    /// Hand the motion on from within a grab, with no focus.
    GrabMotion,
    /// End the current grab and restore the pointer's focus.
    UnsetGrab,
    /// Place a window on the canvas without activating it.
    MapWindow { window: u64, at: IntPoint },
    /// Put a window on top and activate it.
    RaiseWindow { window: u64 },
    /// Unmap a window.
    UnmapWindow { window: u64 },
    /// Give keyboard focus to a surface.
    FocusKeyboard { surface: u64, serial: u32 },
    /// Take keyboard focus away from whatever has it.
    ClearKeyboardFocus,
    /// Draw the title bar of a surface's decoration anew.
    DrawTitleBar { surface: u64, title_bar: TitleBar },
    /// Remember how a surface is being resized.
    StoreResizeState { surface: u64, resize: ResizeState },
    /// Tell a window's client that it is being resized.
    MarkResizing { window: u64 },
    /// Leave fullscreen and keep the pointer in place on the screen.
    ExitFullscreen,
    /// Stop the viewport's momentum.
    StopMomentum,
    /// Bring the outputs in line with the camera and zoom.
    UpdateOutput,
    /// Give an output back the camera and zoom that it had.
    RestoreView { output: u64, camera: Position, zoom: Scalar },
    /// Carry out a key action.
    ExecuteAction { action: u64 },
    /// Point the environment at an X11 display.
    SetDisplay { display: u32 },
    /// Publish the environment's X11 display to the session's services.
    ExportDisplay,
    /// Start the X11 window manager on the display's socket.
    StartX11Wm,
    /// Take the X11 display out of the environment.
    RemoveDisplay,
    /// Start XWayland.
    SpawnXwayland,
    /// Tell the user that XWayland crashed.
    NotifyCrash,
}

} // verus!
