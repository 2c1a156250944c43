//! What the shell reports to the window manager, in plain values.
use vstd::prelude::*;

use crate::geometry::{IntPoint, IntSize, Position};
use crate::scalar::Scalar;

verus! {

/// Evdev code of the left mouse button.
pub const BTN_LEFT: u32 = 0x110;

/// Serial number and time under which an event is handed to clients.
#[derive(Clone, Copy, Debug, PartialEq, Eq, Structural)]
pub struct Stamp {
    pub serial: u32,
    /// Milliseconds, as the input device reported them.
    pub time: u32,
}

#[derive(Clone, Copy, Debug, PartialEq, Eq, Structural)]
pub enum ButtonState {
    Pressed,
    Released,
}

/// A pointer button changed state.
#[derive(Clone, Copy, Debug, PartialEq, Eq, Structural)]
pub struct ButtonInput {
    pub button: u32,
    pub state: ButtonState,
    pub stamp: Stamp,
}

/// What produced a scroll event.
#[derive(Clone, Copy, Debug, PartialEq, Eq, Structural)]
pub enum AxisSource {
    Finger,
    Continuous,
    Wheel,
    WheelTilt,
}

/// Whether content scrolls along with the physical motion or against it.
#[derive(Clone, Copy, Debug, PartialEq, Eq, Structural)]
pub enum AxisDirection {
    Identical,
    Inverted,
}

/// What a scroll event says of one axis.
#[derive(Clone, Copy, Debug, PartialEq, Eq, Structural)]
pub struct AxisAmount {
    /// Distance scrolled, in the unit of pointer motion.
    pub amount: Option<Scalar>,
    pub direction: AxisDirection,
    /// Wheel travel in units of one notch divided by 120.
    pub v120: Option<i32>,
}

/// A scroll event.
#[derive(Clone, Copy, Debug, PartialEq, Eq, Structural)]
pub struct AxisInput {
    pub time: u32,
    pub source: AxisSource,
    pub horizontal: AxisAmount,
    pub vertical: AxisAmount,
}

/// A key changed state.
#[derive(Clone, Copy, Debug, PartialEq, Eq, Structural)]
pub struct KeyInput {
    pub keycode: u32,
    pub pressed: bool,
}

/// An input event as it arrives from the backend. Kinds whose handlers are
/// told more later on carry no payload here.
#[derive(Clone, Copy, Debug, PartialEq, Eq, Structural)]
pub enum InputEvent {
    Keyboard,
    PointerMotion,
    PointerMotionAbsolute,
    PointerButton(ButtonInput),
    PointerAxis(AxisInput),
    GestureSwipeBegin,
    GestureSwipeUpdate,
    GestureSwipeEnd,
    GesturePinchBegin,
    GesturePinchUpdate,
    GesturePinchEnd,
    GestureHoldBegin,
    GestureHoldEnd,
    Other,
}

/// What a mouse binding asks for.
#[derive(Clone, Copy, Debug, PartialEq, Eq, Structural)]
pub enum MouseAction {
    MoveWindow,
    ResizeWindow,
    PanViewport,
    Zoom,
}

/// A configured key action: its number in the shell's action table, and whether
/// holding the key repeats it.
#[derive(Clone, Copy, Debug, PartialEq, Eq, Structural)]
pub struct BoundAction {
    pub action: u64,
    pub repeatable: bool,
}

/// An edge or corner by which a window is resized.
#[derive(Clone, Copy, Debug, PartialEq, Eq, Structural)]
pub enum ResizeEdge {
    NoEdge,
    Top,
    Bottom,
    Left,
    Right,
    TopLeft,
    TopRight,
    BottomLeft,
    BottomRight,
}

/// Where the pointer stands within a window.
#[derive(Clone, Copy, Debug, PartialEq, Eq, Structural)]
pub struct WithinWindow {
    /// The pointer, relative to the window's top left corner.
    pub rel: Position,
    /// One half of the window's width and height.
    pub half: Position,
}

/// The window under the pointer.
#[derive(Clone, Copy, Debug, PartialEq, Eq, Structural)]
pub struct WindowUnder {
    pub window: u64,
    pub surface: u64,
    pub location: IntPoint,
    pub size: IntSize,
    pub pointer: WithinWindow,
}

/// A layer of the layer shell.
#[derive(Clone, Copy, Debug, PartialEq, Eq, Structural)]
pub enum WlrLayer {
    Background,
    Bottom,
    Top,
    Overlay,
}

/// A client surface found under a point, and its location within the tree that
/// was searched.
#[derive(Clone, Copy, Debug, PartialEq, Eq, Structural)]
pub struct SurfaceHit {
    pub surface: u64,
    pub location: IntPoint,
}

/// What lies under a point on one window.
#[derive(Clone, Copy, Debug, PartialEq, Eq, Structural)]
pub struct WindowProbe {
    pub window: u64,
    /// The window's toplevel surface.
    pub surface: u64,
    /// A window rule keeps the window from getting focus.
    pub no_focus: bool,
    /// Where the window's geometry begins on the canvas, if it is mapped.
    pub location: Option<IntPoint>,
    /// Where the geometry begins within the window's own surface.
    pub geometry_offset: IntPoint,
    /// The client surface of this window under the point.
    pub content: Option<SurfaceHit>,
    /// The point is on the close button that a decoration of this window would have.
    pub on_close_button: bool,
    /// The point is on the title bar that a decoration of this window would have.
    pub on_title_bar: bool,
    /// The resize border that a decoration of this window would have at the point.
    pub on_resize_border: Option<ResizeEdge>,
}

/// What lies under a point on one layer surface that is placed on the canvas.
#[derive(Clone, Copy, Debug, PartialEq, Eq, Structural)]
pub struct CanvasLayerProbe {
    pub no_focus: bool,
    pub position: Option<IntPoint>,
    pub hit: Option<SurfaceHit>,
}

/// What lies under a point on one layer of the screen.
#[derive(Clone, Copy, Debug, PartialEq, Eq, Structural)]
pub struct LayerProbe {
    /// Where the layer surface begins on the screen, if it has been arranged.
    pub location: Option<IntPoint>,
    pub hit: Option<SurfaceHit>,
}

/// The layer surface under a point for each layer of the screen. Without an
/// output there is none.
#[derive(Clone, Copy, Debug, PartialEq, Eq, Structural)]
pub struct LayerProbes {
    pub background: Option<LayerProbe>,
    pub bottom: Option<LayerProbe>,
    pub top: Option<LayerProbe>,
    pub overlay: Option<LayerProbe>,
}

/// Everything that lies under one point.
pub struct Scene {
    pub layers: LayerProbes,
    pub canvas_layers: Vec<CanvasLayerProbe>,
    /// Bottommost window first.
    pub windows: Vec<WindowProbe>,
}

/// The motion of a relative pointing device, as clients are told of it.
#[derive(Clone, Copy, Debug, PartialEq, Eq, Structural)]
pub struct RelativeMotion {
    pub delta: Position,
    pub delta_unaccel: Position,
    /// Microseconds.
    pub utime: u64,
}

/// A mapped window, as far as XWayland is concerned.
#[derive(Clone, Copy, Debug, PartialEq, Eq, Structural)]
pub struct SpaceWindow {
    pub window: u64,
    pub is_x11: bool,
    /// The window's Wayland surface. An X11 window may have none yet.
    pub surface: Option<u64>,
}

/// A window that a moving window may snap to.
#[derive(Clone, Copy, Debug, PartialEq, Eq, Structural)]
pub struct SnapWindow {
    pub surface: u64,
    /// A window rule makes the window a widget.
    pub widget: bool,
    pub location: Option<IntPoint>,
    pub size: IntSize,
}

} // verus!
