use driftwm::effect::{Effect, Focus, Origin, TitleBar};
use driftwm::event::{
    CanvasLayerProbe, LayerProbe, LayerProbes, RelativeMotion, Scene, Stamp, SurfaceHit, WindowProbe,
};
use driftwm::geometry::{IntPoint, IntSize, Position};
use driftwm::motion::{clamp_to_output, output_size, Landing, MotionNext};
use driftwm::scalar::Scalar;
use driftwm::state::{Config, Decoration, DriftWm};

fn s(v: f64) -> Scalar {
    Scalar { bits: v.to_bits() }
}

fn at(x: f64, y: f64) -> Position {
    Position { x: s(x), y: s(y) }
}

fn wm() -> DriftWm {
    DriftWm::new(
        Config { title_bar_height: 30, snap_enabled: true, repeat_delay: 200 },
        at(0.0, 0.0),
        s(1.0),
    )
}

const STAMP: Stamp = Stamp { serial: 11, time: 22 };

fn hit(surface: u64) -> Option<SurfaceHit> {
    Some(SurfaceHit { surface, location: IntPoint { x: 0, y: 0 } })
}

fn layer(surface: u64) -> Option<LayerProbe> {
    Some(LayerProbe { location: Some(IntPoint { x: 5, y: 6 }), hit: hit(surface) })
}

/// Surfaces: 1 overlay, 2 canvas layer, 3 window, 4 background.
fn scene(upper: bool, canvas: bool, window: bool, lower: bool) -> Scene {
    Scene {
        layers: LayerProbes {
            background: if lower { layer(4) } else { None },
            bottom: None,
            top: None,
            overlay: if upper { layer(1) } else { None },
        },
        canvas_layers: if canvas {
            vec![CanvasLayerProbe {
                no_focus: false,
                position: Some(IntPoint { x: 7, y: 8 }),
                hit: hit(2),
            }]
        } else {
            vec![]
        },
        windows: if window {
            vec![WindowProbe {
                window: 30,
                surface: 3,
                no_focus: false,
                location: Some(IntPoint { x: 9, y: 10 }),
                geometry_offset: IntPoint { x: 0, y: 0 },
                content: hit(3),
                on_close_button: false,
                on_title_bar: false,
                on_resize_border: None,
            }]
        } else {
            vec![]
        },
    }
}

fn landing(scene: Scene) -> Option<Landing> {
    Some(Landing { screen: at(100.0, 200.0), canvas: at(300.5, 400.5), scene })
}

fn moved(focus: Option<Focus>, location: Position) -> Vec<Effect> {
    vec![Effect::PointerMotion { focus, location, stamp: STAMP }, Effect::PointerFrame]
}

fn fixed(surface: u64, x: i32, y: i32) -> Option<Focus> {
    Some(Focus { surface, origin: Origin::Fixed(IntPoint { x, y }) })
}

fn on_screen(surface: u64) -> Option<Focus> {
    Some(Focus { surface, origin: Origin::OnScreen(IntPoint { x: 5, y: 6 }) })
}

fn relative() -> RelativeMotion {
    RelativeMotion { delta: at(1.0, 2.0), delta_unaccel: at(0.5, 1.0), utime: 77 }
}

#[test]
fn without_an_output_nothing_moves() {
    let mut wm = wm();
    wm.pointer_over_layer = true;
    assert_eq!(wm.on_pointer_motion_absolute(&None, STAMP), (vec![], MotionNext::Done));
    assert_eq!(
        wm.on_pointer_motion_relative(at(1.0, 1.0), &None, relative(), STAMP),
        (vec![], MotionNext::Done)
    );
    assert!(wm.pointer_over_layer);
    wm.session_locked = true;
    assert_eq!(wm.on_pointer_motion_absolute(&None, STAMP), (vec![], MotionNext::Done));
}

#[test]
fn targets_have_an_order() {
    let canvas = at(300.5, 400.5);
    let cases = [
        ((true, true, true, true), on_screen(1), true, MotionNext::Done),
        ((false, true, true, true), fixed(2, 7, 8), false, MotionNext::Done),
        ((false, false, true, true), fixed(3, 9, 10), false, MotionNext::UpdateCursor),
        ((false, false, false, true), on_screen(4), true, MotionNext::Done),
        ((false, false, false, false), None, false, MotionNext::UpdateCursor),
    ];
    for ((u, c, w, l), focus, over_layer, next) in cases {
        let mut wm = wm();
        wm.pointer_over_layer = !over_layer;
        let (effects, got) = wm.on_pointer_motion_absolute(&landing(scene(u, c, w, l)), STAMP);
        assert_eq!(effects, moved(focus, canvas));
        assert_eq!(got, next);
        assert_eq!(wm.pointer_over_layer, over_layer);
    }
}

#[test]
fn relative_motion_agrees_with_absolute_motion() {
    let cases = [
        (true, true, true, true),
        (false, true, true, true),
        (false, false, true, true),
        (false, false, false, true),
        (false, false, false, false),
    ];
    for (u, c, w, l) in cases {
        let (mut a, mut b) = (wm(), wm());
        let (absolute, a_next) = a.on_pointer_motion_absolute(&landing(scene(u, c, w, l)), STAMP);
        let (relative, b_next) = b.on_pointer_motion_relative(
            at(0.0, 0.0),
            &landing(scene(u, c, w, l)),
            relative(),
            STAMP,
        );
        let focus = if w { fixed(3, 9, 10) } else { None };
        let motion = RelativeMotion { delta: at(1.0, 2.0), delta_unaccel: at(0.5, 1.0), utime: 77 };
        assert_eq!(relative[0], Effect::PointerRelativeMotion { focus, motion });
        assert_eq!(relative[1..], absolute[..]);
        assert_eq!(a_next, b_next);
        assert_eq!(a.pointer_over_layer, b.pointer_over_layer);
    }
}

#[test]
fn locked_pointer_only_targets_the_lock_surface() {
    let mut wm = wm();
    wm.session_locked = true;
    let all = || landing(scene(true, true, true, true));
    assert_eq!(
        wm.on_pointer_motion_absolute(&all(), STAMP),
        (moved(None, at(100.0, 200.0)), MotionNext::Done)
    );
    wm.lock_surface = Some(66);
    assert_eq!(
        wm.on_pointer_motion_absolute(&all(), STAMP),
        (moved(fixed(66, 0, 0), at(100.0, 200.0)), MotionNext::Done)
    );
    assert_eq!(
        wm.on_pointer_motion_relative(at(-4.0, 9000.0), &all(), relative(), STAMP),
        (moved(fixed(66, 0, 0), at(-4.0, 9000.0)), MotionNext::Done)
    );
    assert_eq!(
        wm.on_pointer_motion_relative(at(-4.0, 9000.0), &None, relative(), STAMP),
        (moved(fixed(66, 0, 0), at(-4.0, 9000.0)), MotionNext::Done)
    );
    assert!(!wm.pointer_over_layer);
}

#[test]
fn the_pointer_cannot_leave_the_output() {
    let last = at(1919.0, 1079.0);
    assert_eq!(clamp_to_output(at(-3.0, 2000.0), last), at(0.0, 1079.0));
    assert_eq!(clamp_to_output(at(1919.5, -0.5), last), at(1919.0, 0.0));
    assert_eq!(clamp_to_output(at(12.5, 13.5), last), at(12.5, 13.5));
    assert_eq!(clamp_to_output(at(12.5, 13.5), at(0.0, 0.0)), at(0.0, 0.0));
}

#[test]
fn outputs_without_a_mode_are_one_pixel() {
    assert_eq!(output_size(None), IntSize { w: 1, h: 1 });
    assert_eq!(output_size(Some(IntSize { w: 1920, h: 1080 })), IntSize { w: 1920, h: 1080 });
}

#[test]
fn motion_leaves_decorations_alone() {
    let mut wm = wm();
    let title_bar = TitleBar { width: 40, focused: true, close_hovered: true };
    let decoration = Decoration { width: 40, focused: true, close_hovered: true, title_bar };
    wm.decorations.insert(3, decoration);
    wm.on_pointer_motion_absolute(&landing(scene(false, false, true, true)), STAMP);
    assert_eq!(wm.decorations.len(), 1);
    assert_eq!(wm.decorations[&3], decoration);
}
