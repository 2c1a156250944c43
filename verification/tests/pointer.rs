use driftwm::effect::{
    Effect, Grab, GrabStartData, MoveSurfaceGrab, PanGrab, ResizeState, ResizeSurfaceGrab,
};
use driftwm::event::{
    ButtonInput, ButtonState, MouseAction, ResizeEdge, Stamp, WindowUnder, WithinWindow,
    BTN_LEFT,
};
use driftwm::geometry::{IntPoint, IntSize, Position};
use driftwm::pointer::{ButtonNext, Press};
use driftwm::scalar::Scalar;
use driftwm::state::{Config, CursorIcon, CursorStatus, DriftWm, Fullscreen};

fn s(v: f64) -> Scalar {
    Scalar { bits: v.to_bits() }
}

fn at(x: f64, y: f64) -> Position {
    Position { x: s(x), y: s(y) }
}

fn wm() -> DriftWm {
    DriftWm::new(
        Config { title_bar_height: 30, snap_enabled: true, repeat_delay: 200 },
        at(0.0, 0.0),
        s(1.0),
    )
}

const STAMP: Stamp = Stamp { serial: 11, time: 22 };

fn input(button: u32, state: ButtonState) -> ButtonInput {
    ButtonInput { button, state, stamp: STAMP }
}

fn press(button: u32) -> Press {
    Press {
        input: input(button, ButtonState::Pressed),
        canvas: at(310.5, 420.5),
        screen: at(10.0, 20.0),
    }
}

fn forwarded(button: u32, state: ButtonState) -> Vec<Effect> {
    vec![Effect::PointerButton { button, state, stamp: STAMP }, Effect::PointerFrame]
}

fn start(button: u32) -> GrabStartData {
    GrabStartData { focus: None, button, location: at(310.5, 420.5) }
}

fn within(x: f64, y: f64) -> WithinWindow {
    WithinWindow { rel: at(x, y), half: at(150.0, 75.0) }
}

fn under(x: f64, y: f64) -> Option<WindowUnder> {
    Some(WindowUnder {
        window: 1,
        surface: 101,
        location: IntPoint { x: 300, y: 400 },
        size: IntSize { w: 300, h: 150 },
        pointer: within(x, y),
    })
}

fn fullscreen() -> Fullscreen {
    Fullscreen { window: 5, saved_camera: at(1.0, 2.0), saved_zoom: s(0.5) }
}

fn pan(button: u32, from_empty_canvas: bool) -> Vec<Effect> {
    let grab = Grab::Pan(PanGrab {
        start_data: start(button),
        last_screen_pos: at(10.0, 20.0),
        start_screen_pos: at(10.0, 20.0),
        from_empty_canvas,
        dragged: false,
    });
    vec![Effect::SetGrab { grab, serial: 11 }]
}

#[test]
fn releases_are_forwarded() {
    let mut wm = wm();
    wm.last_scroll_pan = Some(5);
    wm.fullscreen.insert(1, fullscreen());
    let released = input(BTN_LEFT, ButtonState::Released);
    assert_eq!(
        wm.on_pointer_button(&released, Some(MouseAction::MoveWindow)),
        (forwarded(BTN_LEFT, ButtonState::Released), ButtonNext::Done)
    );
    assert_eq!(wm.last_scroll_pan, Some(5));
}

#[test]
fn presses_stop_the_viewport() {
    let mut wm = wm();
    wm.last_scroll_pan = Some(5);
    let pressed = input(BTN_LEFT, ButtonState::Pressed);
    assert_eq!(
        wm.on_pointer_button(&pressed, None),
        (vec![Effect::StopMomentum], ButtonNext::Resolve)
    );
    assert_eq!(wm.last_scroll_pan, None);
}

#[test]
fn bound_presses_leave_fullscreen_and_plain_ones_do_not() {
    let mut wm = wm();
    wm.fullscreen.insert(1, fullscreen());
    let pressed = input(BTN_LEFT, ButtonState::Pressed);
    assert_eq!(
        wm.on_pointer_button(&pressed, Some(MouseAction::Zoom)),
        (vec![Effect::StopMomentum, Effect::ExitFullscreen], ButtonNext::Resolve)
    );
    let mut effects = vec![Effect::StopMomentum];
    effects.extend(forwarded(BTN_LEFT, ButtonState::Pressed));
    assert_eq!(wm.on_pointer_button(&pressed, None), (effects, ButtonNext::Done));
}

#[test]
fn layer_surfaces_get_their_presses() {
    let mut wm = wm();
    wm.pointer_over_layer = true;
    for binding in [
        None,
        Some(MouseAction::MoveWindow),
        Some(MouseAction::ResizeWindow),
        Some(MouseAction::PanViewport),
        Some(MouseAction::Zoom),
    ] {
        for window in [None, under(1.0, 1.0)] {
            assert_eq!(
                wm.resolve_press(&press(BTN_LEFT), binding, &window),
                forwarded(BTN_LEFT, ButtonState::Pressed)
            );
        }
    }
    assert!(!wm.panning && !wm.grab_cursor);
}

#[test]
fn move_binding_grabs_the_window() {
    let mut wm = wm();
    let effects = wm.resolve_press(&press(0x111), Some(MouseAction::MoveWindow), &under(1.0, 1.0));
    let grab = Grab::Move(MoveSurfaceGrab {
        start_data: start(0x111),
        window: 1,
        initial_window_location: IntPoint { x: 300, y: 400 },
    });
    assert_eq!(effects, vec![Effect::SetGrab { grab, serial: 11 }]);
    assert!(!wm.panning && !wm.grab_cursor);
}

#[test]
fn resize_binding_grabs_the_corner_of_the_quadrant() {
    let mut wm = wm();
    let window = under(10.0, 140.0);
    let effects = wm.resolve_press(&press(0x111), Some(MouseAction::ResizeWindow), &window);
    let edges = ResizeEdge::BottomLeft;
    let initial_window_location = IntPoint { x: 300, y: 400 };
    let initial_window_size = IntSize { w: 300, h: 150 };
    let grab = Grab::Resize(ResizeSurfaceGrab {
        start_data: start(0x111),
        window: 1,
        edges,
        initial_window_location,
        initial_window_size,
        last_window_size: initial_window_size,
    });
    assert_eq!(
        effects,
        vec![
            Effect::StoreResizeState {
                surface: 101,
                resize: ResizeState::Resizing { edges, initial_window_location, initial_window_size },
            },
            Effect::MarkResizing { window: 1 },
            Effect::SetGrab { grab, serial: 11 },
        ]
    );
    assert!(wm.grab_cursor);
    assert_eq!(wm.cursor_status, CursorStatus::Named(CursorIcon::SwResize));
}

#[test]
fn pan_binding_grabs_the_viewport_anywhere() {
    for window in [None, under(1.0, 1.0)] {
        let mut wm = wm();
        let effects = wm.resolve_press(&press(0x112), Some(MouseAction::PanViewport), &window);
        assert_eq!(effects, pan(0x112, false));
        assert!(wm.panning);
    }
}

#[test]
fn clicks_on_windows_activate_them() {
    for binding in [None, Some(MouseAction::Zoom)] {
        let mut wm = wm();
        let mut want = vec![
            Effect::RaiseWindow { window: 1 },
            Effect::FocusKeyboard { surface: 101, serial: 11 },
        ];
        want.extend(forwarded(BTN_LEFT, ButtonState::Pressed));
        assert_eq!(wm.resolve_press(&press(BTN_LEFT), binding, &under(1.0, 1.0)), want);
        assert!(!wm.panning);
    }
}

#[test]
fn left_clicks_on_empty_canvas_pan() {
    for binding in [
        None,
        Some(MouseAction::Zoom),
        Some(MouseAction::MoveWindow),
        Some(MouseAction::ResizeWindow),
    ] {
        let mut wm = wm();
        assert_eq!(wm.resolve_press(&press(0x110), binding, &None), pan(0x110, true));
        assert!(wm.panning);
        let mut wm = self::wm();
        assert_eq!(
            wm.resolve_press(&press(0x111), binding, &None),
            forwarded(0x111, ButtonState::Pressed)
        );
        assert!(!wm.panning);
    }
}

fn edges_of(window: &WindowUnder) -> ResizeEdge {
    let mut wm = wm();
    let effects = wm.start_compositor_resize(&press(BTN_LEFT), window);
    match effects[2] {
        Effect::SetGrab { grab: Grab::Resize(grab), .. } => grab.edges,
        _ => panic!("no grab"),
    }
}

#[test]
fn edges_follow_the_quadrant() {
    let cases = [
        (10.0, 10.0, ResizeEdge::TopLeft),
        (149.9, 74.9, ResizeEdge::TopLeft),
        (20.0, 70.0, ResizeEdge::TopLeft),
        (-5.0, -5.0, ResizeEdge::TopLeft),
        (150.0, 10.0, ResizeEdge::TopRight),
        (290.0, 74.9, ResizeEdge::TopRight),
        (10.0, 75.0, ResizeEdge::BottomLeft),
        (149.9, 140.0, ResizeEdge::BottomLeft),
        (150.0, 75.0, ResizeEdge::BottomRight),
        (290.0, 140.0, ResizeEdge::BottomRight),
    ];
    for (x, y, edges) in cases {
        assert_eq!(edges_of(&under(x, y).unwrap()), edges, "{x} {y}");
    }
}

#[test]
fn a_quadrant_reaches_to_the_middle_of_the_window() {
    let window = WindowUnder {
        location: IntPoint { x: 0, y: 0 },
        size: IntSize { w: 300, h: 300 },
        pointer: WithinWindow { rel: at(20.0, 140.0), half: at(150.0, 150.0) },
        ..under(0.0, 0.0).unwrap()
    };
    assert_eq!(edges_of(&window), ResizeEdge::TopLeft);
}

#[test]
fn pan_grabs_begin_undragged() {
    let grab = wm().make_pan_grab(&press(0x112), true);
    assert_eq!(Effect::SetGrab { grab: Grab::Pan(grab), serial: 11 }, pan(0x112, true)[0]);
    assert!(!grab.dragged && grab.from_empty_canvas);
}
