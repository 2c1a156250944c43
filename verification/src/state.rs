//! The window manager's state.
use std::collections::{HashMap, HashSet};
use vstd::prelude::*;

use crate::effect::TitleBar;
use crate::geometry::Position;
use crate::scalar::Scalar;

verus! {

broadcast use vstd::std_specs::hash::group_hash_axioms;

/// A cursor shape.
#[derive(Clone, Copy, Debug, PartialEq, Eq, Structural)]
pub enum CursorIcon {
    Default,
    Pointer,
    NResize,
    SResize,
    WResize,
    EResize,
    NwResize,
    NeResize,
    SwResize,
    SeResize,
}

/// What the cursor shows.
#[derive(Clone, Copy, Debug, PartialEq, Eq, Structural)]
pub enum CursorStatus {
    /// A shape that the window manager chose.
    Named(CursorIcon),
    /// What a client chose: a shape, a surface or nothing at all.
    Client(u64),
}

/// A server-side decoration.
#[derive(Clone, Copy, Debug, PartialEq, Eq, Structural)]
pub struct Decoration {
    pub width: i32,
    pub focused: bool,
    pub close_hovered: bool,
    /// What the title bar was last drawn from.
    pub title_bar: TitleBar,
}

impl Decoration {
    /// Whether the title bar shows the decoration as it is.
    pub open spec fn in_sync(self) -> bool {
        self.title_bar == (TitleBar {
            width: self.width,
            focused: self.focused,
            close_hovered: self.close_hovered,
        })
    }

    /// The decoration with its close button hovered or not. The title bar is
    /// drawn anew when that changes something.
    pub open spec fn hovered(self, hovered: bool) -> Decoration {
        if self.close_hovered == hovered {
            self
        } else {
            Decoration {
                close_hovered: hovered,
                title_bar: TitleBar { width: self.width, focused: self.focused, close_hovered: hovered },
                ..self
            }
        }
    }
}

/// A window that fills an output, and the view to go back to.
#[derive(Clone, Copy, Debug, PartialEq, Eq, Structural)]
pub struct Fullscreen {
    pub window: u64,
    pub saved_camera: Position,
    pub saved_zoom: Scalar,
}

/// A key action that repeats while its key is held.
#[derive(Clone, Copy, Debug, PartialEq, Eq, Structural)]
pub struct HeldAction {
    pub keycode: u32,
    pub action: u64,
    /// When the action is due again, in nanoseconds since the start.
    pub due: u128,
}

/// A view to return to.
#[derive(Clone, Copy, Debug, PartialEq, Eq, Structural)]
pub struct Viewpoint {
    pub camera: Position,
    pub zoom: Scalar,
}

/// The settings that decide how input is handled.
#[derive(Clone, Copy, Debug, PartialEq, Eq, Structural)]
pub struct Config {
    /// Height of a decoration's title bar.
    pub title_bar_height: i32,
    /// Whether moving windows snap to others.
    pub snap_enabled: bool,
    /// Milliseconds before a held key repeats.
    pub repeat_delay: u64,
}

/// The window manager. Windows, surfaces, outputs and clients are referred to
/// by numbers that the shell hands out.
pub struct DriftWm {
    pub config: Config,
    pub session_locked: bool,
    pub lock_surface: Option<u64>,
    pub pointer_over_layer: bool,
    pub panning: bool,
    /// A grab has chosen the cursor.
    pub grab_cursor: bool,
    /// A decoration has chosen the cursor.
    pub decoration_cursor: bool,
    pub cursor_status: CursorStatus,
    /// The decorated windows, by toplevel surface.
    pub decorations: HashMap<u64, Decoration>,
    /// The fullscreen windows, by output.
    pub fullscreen: HashMap<u64, Fullscreen>,
    pub held_action: Option<HeldAction>,
    pub active_layout: String,
    /// When scrolling last panned the viewport, in nanoseconds since the start.
    pub last_scroll_pan: Option<u64>,
    pub camera: Position,
    pub zoom: Scalar,
    pub camera_target: Option<Position>,
    pub zoom_target: Option<Scalar>,
    pub overview_return: Option<Viewpoint>,
    /// How fast the viewport pans while a window is dragged along an edge.
    pub edge_pan_velocity: Option<Position>,
    pub x11_display: Option<u32>,
    pub xwayland_client: Option<u64>,
    pub x11_wm: Option<u64>,
    pub x11_override_redirect: Vec<u64>,
    /// Surfaces that await a server-side decoration.
    pub pending_ssd: HashSet<u64>,
    /// Surfaces that await centering.
    pub pending_center: HashSet<u64>,
    /// Windows by how recently they had focus.
    pub focus_history: Vec<u64>,
}

/// The window manager's state as a mathematical value.
#[verifier::ext_equal]
pub struct WmModel {
    pub config: Config,
    pub session_locked: bool,
    pub lock_surface: Option<u64>,
    pub pointer_over_layer: bool,
    pub panning: bool,
    pub grab_cursor: bool,
    pub decoration_cursor: bool,
    pub cursor_status: CursorStatus,
    pub decorations: Map<u64, Decoration>,
    pub fullscreen: Map<u64, Fullscreen>,
    pub held_action: Option<HeldAction>,
    pub active_layout: Seq<char>,
    pub last_scroll_pan: Option<u64>,
    pub camera: Position,
    pub zoom: Scalar,
    pub camera_target: Option<Position>,
    pub zoom_target: Option<Scalar>,
    pub overview_return: Option<Viewpoint>,
    pub edge_pan_velocity: Option<Position>,
    pub x11_display: Option<u32>,
    pub xwayland_client: Option<u64>,
    pub x11_wm: Option<u64>,
    pub x11_override_redirect: Seq<u64>,
    pub pending_ssd: Set<u64>,
    pub pending_center: Set<u64>,
    pub focus_history: Seq<u64>,
}

impl View for DriftWm {
    type V = WmModel;

    open spec fn view(&self) -> WmModel {
        WmModel {
            config: self.config,
            session_locked: self.session_locked,
            lock_surface: self.lock_surface,
            pointer_over_layer: self.pointer_over_layer,
            panning: self.panning,
            grab_cursor: self.grab_cursor,
            decoration_cursor: self.decoration_cursor,
            cursor_status: self.cursor_status,
            decorations: self.decorations@,
            fullscreen: self.fullscreen@,
            held_action: self.held_action,
            active_layout: self.active_layout@,
            last_scroll_pan: self.last_scroll_pan,
            camera: self.camera,
            zoom: self.zoom,
            camera_target: self.camera_target,
            zoom_target: self.zoom_target,
            overview_return: self.overview_return,
            edge_pan_velocity: self.edge_pan_velocity,
            x11_display: self.x11_display,
            xwayland_client: self.xwayland_client,
            x11_wm: self.x11_wm,
            x11_override_redirect: self.x11_override_redirect@,
            pending_ssd: self.pending_ssd@,
            pending_center: self.pending_center@,
            focus_history: self.focus_history@,
        }
    }
}

impl WmModel {
    /// Every title bar shows its decoration as it is.
    pub open spec fn title_bars_in_sync(self) -> bool {
        forall|s: u64| #[trigger] self.decorations.contains_key(s) ==> self.decorations[s].in_sync()
    }

    /// Some output shows a fullscreen window.
    pub open spec fn is_fullscreen(self) -> bool {
        self.fullscreen.len() > 0
    }
}

impl DriftWm {
    /// A window manager with nothing mapped, seen through the given view.
    pub fn new(config: Config, camera: Position, zoom: Scalar) -> (wm: DriftWm)
        ensures
            wm@ == (WmModel {
                config,
                session_locked: false,
                lock_surface: None,
                pointer_over_layer: false,
                panning: false,
                grab_cursor: false,
                decoration_cursor: false,
                cursor_status: CursorStatus::Named(CursorIcon::Default),
                decorations: Map::empty(),
                fullscreen: Map::empty(),
                held_action: None,
                active_layout: Seq::empty(),
                last_scroll_pan: None,
                camera,
                zoom,
                camera_target: None,
                zoom_target: None,
                overview_return: None,
                edge_pan_velocity: None,
                x11_display: None,
                xwayland_client: None,
                x11_wm: None,
                x11_override_redirect: Seq::empty(),
                pending_ssd: Set::empty(),
                pending_center: Set::empty(),
                focus_history: Seq::empty(),
            }),
            wm@.title_bars_in_sync(),
    {
        DriftWm {
            config,
            session_locked: false,
            lock_surface: None,
            pointer_over_layer: false,
            panning: false,
            grab_cursor: false,
            decoration_cursor: false,
            cursor_status: CursorStatus::Named(CursorIcon::Default),
            decorations: HashMap::new(),
            fullscreen: HashMap::new(),
            held_action: None,
            active_layout: String::new(),
            last_scroll_pan: None,
            camera,
            zoom,
            camera_target: None,
            zoom_target: None,
            overview_return: None,
            edge_pan_velocity: None,
            x11_display: None,
            xwayland_client: None,
            x11_wm: None,
            x11_override_redirect: Vec::new(),
            pending_ssd: HashSet::new(),
            pending_center: HashSet::new(),
            focus_history: Vec::new(),
        }
    }

    /// Whether some output shows a fullscreen window.
    pub(crate) fn has_fullscreen(&self) -> (r: bool)
        ensures
            r == self@.is_fullscreen(),
    {
        self.fullscreen.len() > 0
    }
}

/// The window manager is in fullscreen exactly if some output shows a fullscreen
/// window.
pub proof fn law_fullscreen_is_shown_somewhere(wm: WmModel)
    requires
        wm.fullscreen.dom().finite(),
    ensures
        wm.is_fullscreen() <==> exists|output: u64| #[trigger] wm.fullscreen.contains_key(output),
{
    if wm.fullscreen.dom().len() > 0 {
        assert(wm.fullscreen.contains_key(wm.fullscreen.dom().choose()));
    }
    if exists|output: u64| #[trigger] wm.fullscreen.contains_key(output) {
        let output = choose|output: u64| #[trigger] wm.fullscreen.contains_key(output);
        assert(wm.fullscreen.dom().contains(output));
        if wm.fullscreen.dom().len() == 0 {
            assert(wm.fullscreen.dom() =~= Set::empty());
        }
    }
}

} // verus!
