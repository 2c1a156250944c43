use driftwm::effect::{Effect, GrabStartData, MoveSurfaceGrab, TitleBar};
use driftwm::event::SnapWindow;
use driftwm::geometry::{IntPoint, IntSize, Position};
use driftwm::move_grab::{EdgeDistances, EdgePan, EdgePushes, SnapRect};
use driftwm::scalar::Scalar;
use driftwm::state::{Config, Decoration, DriftWm};

fn s(v: f64) -> Scalar {
    Scalar { bits: v.to_bits() }
}

fn at(x: f64, y: f64) -> Position {
    Position { x: s(x), y: s(y) }
}

fn wm() -> DriftWm {
    DriftWm::new(
        Config { title_bar_height: 30, snap_enabled: true, repeat_delay: 200 },
        at(0.0, 0.0),
        s(1.0),
    )
}

fn grab() -> MoveSurfaceGrab {
    MoveSurfaceGrab {
        start_data: GrabStartData { focus: None, button: 0x110, location: at(1.0, 1.0) },
        window: 1,
        initial_window_location: IntPoint { x: 0, y: 0 },
    }
}

fn window(surface: u64) -> SnapWindow {
    SnapWindow {
        surface,
        widget: false,
        location: Some(IntPoint { x: 100, y: 200 }),
        size: IntSize { w: 40, h: 50 },
    }
}

fn decorate(wm: &mut DriftWm, surface: u64) {
    let title_bar = TitleBar { width: 40, focused: false, close_hovered: false };
    let plain = Decoration { width: 40, focused: false, close_hovered: false, title_bar };
    wm.decorations.insert(surface, plain);
}

#[test]
fn snapping_can_be_switched_off() {
    let mut wm = wm();
    wm.config.snap_enabled = false;
    assert!(grab().snap_query(&wm, 1, IntSize { w: 10, h: 10 }, &vec![window(2)]).is_none());
}

#[test]
fn snapping_ignores_self_widgets_and_unmapped_windows() {
    let wm = wm();
    let widget = SnapWindow { widget: true, ..window(3) };
    let unmapped = SnapWindow { location: None, ..window(4) };
    let windows = vec![window(1), widget, unmapped, window(5)];
    let query = grab().snap_query(&wm, 1, IntSize { w: 10, h: 20 }, &windows).unwrap();
    assert_eq!(
        query.others,
        vec![SnapRect { x_low: 100, x_high: 140, y_low: 200, y_high: 250 }]
    );
    assert_eq!((query.extent_x, query.extent_y, query.bar), (10, 20, 0));
}

#[test]
fn outlines_include_title_bars() {
    let mut wm = wm();
    decorate(&mut wm, 1);
    decorate(&mut wm, 2);
    let windows = vec![window(2), window(3)];
    let query = grab().snap_query(&wm, 1, IntSize { w: 10, h: 20 }, &windows).unwrap();
    assert_eq!(
        query.others,
        vec![
            SnapRect { x_low: 100, x_high: 140, y_low: 170, y_high: 250 },
            SnapRect { x_low: 100, x_high: 140, y_low: 200, y_high: 250 },
        ]
    );
    assert_eq!((query.extent_x, query.extent_y, query.bar), (10, 50, 30));
}

#[test]
fn outlines_do_not_overflow() {
    let mut wm = wm();
    wm.config.title_bar_height = i32::MAX;
    decorate(&mut wm, 2);
    let far = SnapWindow {
        location: Some(IntPoint { x: i32::MAX, y: i32::MIN }),
        size: IntSize { w: i32::MAX, h: i32::MAX },
        ..window(2)
    };
    let query = grab().snap_query(&wm, 1, IntSize { w: 1, h: 1 }, &vec![far]).unwrap();
    assert_eq!(
        query.others,
        vec![SnapRect { x_low: 2147483647, x_high: 4294967294, y_low: -4294967295, y_high: -1 }]
    );
}

#[test]
fn motion_places_the_window() {
    let place = IntPoint { x: 7, y: -8 };
    assert_eq!(
        grab().motion(place),
        vec![Effect::MapWindow { window: 1, at: place }, Effect::GrabMotion]
    );
}

#[test]
fn edges_push_within_their_zone() {
    let d = |left, right, top, bottom| EdgeDistances {
        left: s(left),
        right: s(right),
        top: s(top),
        bottom: s(bottom),
    };
    let zone = s(100.0);
    let pushes = |left, right, top, bottom| Some(EdgePushes { left, right, top, bottom });
    let of = |d: EdgeDistances| MoveSurfaceGrab::edge_pushes(&d, zone);
    assert_eq!(of(d(500.0, 1420.0, 500.0, 580.0)), None);
    assert_eq!(of(d(100.0, 1820.0, 100.0, 980.0)), None);
    assert_eq!(of(d(99.0, 1821.0, 500.0, 580.0)), pushes(true, false, false, false));
    assert_eq!(of(d(1910.0, 10.0, -3.0, 1083.0)), pushes(false, true, true, false));
    assert_eq!(of(d(50.0, 50.0, 50.0, 50.0)), pushes(true, true, true, true));
}

#[test]
fn edges_push_as_the_nearest_measured_distance_says() {
    let nan = f64::NAN;
    for (l, r, t, b, zone) in [
        (nan, nan, 500.0, 500.0, 100.0),
        (nan, nan, 50.0, 500.0, 100.0),
        (nan, nan, nan, nan, 100.0),
        (500.0, 500.0, 500.0, 500.0, nan),
        (500.0, nan, 500.0, 20.0, 100.0),
        (0.0, -0.0, 0.0, 0.0, 0.0),
    ] {
        let d = EdgeDistances { left: s(l), right: s(r), top: s(t), bottom: s(b) };
        let outside = l.min(r).min(t).min(b) >= zone;
        assert_eq!(MoveSurfaceGrab::edge_pushes(&d, s(zone)).is_none(), outside);
    }
}

#[test]
fn the_viewport_pans_as_measured() {
    let mut wm = wm();
    wm.set_edge_pan(Some(EdgePan { velocity: Some(at(-3.0, 0.0)) }));
    assert_eq!(wm.edge_pan_velocity, Some(at(-3.0, 0.0)));
    wm.set_edge_pan(None);
    assert_eq!(wm.edge_pan_velocity, Some(at(-3.0, 0.0)));
    wm.set_edge_pan(Some(EdgePan { velocity: Some(at(9.0, 9.0)) }));
    wm.set_edge_pan(Some(EdgePan { velocity: None }));
    assert_eq!(wm.edge_pan_velocity, None);
}

#[test]
fn the_last_release_ends_the_grab() {
    let mut wm = wm();
    wm.edge_pan_velocity = Some(at(1.0, 1.0));
    assert_eq!(grab().button(&mut wm, true), vec![]);
    assert_eq!(wm.edge_pan_velocity, Some(at(1.0, 1.0)));
    assert_eq!(grab().button(&mut wm, false), vec![Effect::UnsetGrab]);
    assert_eq!(wm.edge_pan_velocity, None);
}

#[test]
fn ending_the_grab_stops_panning() {
    let mut wm = wm();
    wm.edge_pan_velocity = Some(at(1.0, 1.0));
    grab().unset(&mut wm);
    assert_eq!(wm.edge_pan_velocity, None);
}
