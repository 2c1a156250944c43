use driftwm::decorations::resize_cursor;
use driftwm::effect::{Effect, Focus, Origin, TitleBar};
use driftwm::event::{
    CanvasLayerProbe, LayerProbe, LayerProbes, ResizeEdge, SurfaceHit, WindowProbe, WlrLayer,
};
use driftwm::geometry::{IntPoint, Position};
use driftwm::hit::{surface_origin, DecorationHit, DecorationUnder};
use driftwm::scalar::Scalar;
use driftwm::state::{Config, CursorIcon, CursorStatus, Decoration, DriftWm};

fn s(v: f64) -> Scalar {
    Scalar { bits: v.to_bits() }
}

fn wm() -> DriftWm {
    DriftWm::new(
        Config { title_bar_height: 30, snap_enabled: true, repeat_delay: 200 },
        Position { x: s(0.0), y: s(0.0) },
        s(1.0),
    )
}

fn decoration(width: i32, hovered: bool) -> Decoration {
    Decoration {
        width,
        focused: true,
        close_hovered: hovered,
        title_bar: TitleBar { width, focused: true, close_hovered: hovered },
    }
}

fn probe(n: u64) -> WindowProbe {
    WindowProbe {
        window: n,
        surface: 100 + n,
        no_focus: false,
        location: Some(IntPoint { x: 50, y: 60 }),
        geometry_offset: IntPoint { x: 8, y: 9 },
        content: None,
        on_close_button: false,
        on_title_bar: false,
        on_resize_border: None,
    }
}

fn content(surface: u64) -> Option<SurfaceHit> {
    Some(SurfaceHit { surface, location: IntPoint { x: 1, y: 2 } })
}

fn fixed(surface: u64, x: i32, y: i32) -> Option<Focus> {
    Some(Focus { surface, origin: Origin::Fixed(IntPoint { x, y }) })
}

#[test]
fn content_is_offset_by_the_surface_origin() {
    let w = WindowProbe { content: content(777), ..probe(1) };
    assert_eq!(wm().surface_under(&vec![w]), fixed(777, 43, 53));
    assert_eq!(
        surface_origin(IntPoint { x: 50, y: 60 }, IntPoint { x: 8, y: 9 }),
        IntPoint { x: 42, y: 51 }
    );
}

#[test]
fn the_topmost_window_takes_the_pointer() {
    let low = WindowProbe { content: content(1), ..probe(1) };
    let high = WindowProbe { content: content(2), ..probe(2) };
    assert_eq!(wm().surface_under(&vec![low, high]), fixed(2, 43, 53));
    assert_eq!(wm().surface_under(&vec![low, high, probe(3)]), fixed(2, 43, 53));
    assert_eq!(wm().surface_under(&vec![probe(3)]), None);
    assert_eq!(wm().surface_under(&vec![]), None);
}

#[test]
fn content_hides_decorations_below() {
    let mut wm = wm();
    wm.decorations.insert(101, decoration(400, false));
    let low = WindowProbe { on_title_bar: true, ..probe(1) };
    let high = WindowProbe { content: content(2), ..probe(2) };
    assert_eq!(wm.surface_under(&vec![low, high]), fixed(2, 43, 53));
    assert_eq!(wm.surface_under(&vec![high, low]), fixed(101, 50, 60));
}

#[test]
fn only_decorated_windows_have_decorations() {
    let mut wm = wm();
    let bar = WindowProbe { on_title_bar: true, ..probe(1) };
    let close = WindowProbe { on_close_button: true, ..probe(1) };
    let border = WindowProbe { on_resize_border: Some(ResizeEdge::Left), ..probe(1) };
    for w in [bar, close, border] {
        assert_eq!(wm.surface_under(&vec![w]), None);
        assert_eq!(wm.decoration_under(&vec![w]), None);
    }
    wm.decorations.insert(101, decoration(400, false));
    for w in [bar, close, border] {
        assert_eq!(wm.surface_under(&vec![w]), fixed(101, 50, 60));
        assert!(wm.decoration_under(&vec![w]).is_some());
    }
}

#[test]
fn unfocusable_and_unmapped_windows_are_passed_over() {
    let mut wm = wm();
    wm.decorations.insert(101, decoration(400, false));
    let barred = WindowProbe { no_focus: true, content: content(1), on_title_bar: true, ..probe(1) };
    let unmapped = WindowProbe { location: None, content: content(1), on_title_bar: true, ..probe(1) };
    assert_eq!(wm.surface_under(&vec![barred]), None);
    assert_eq!(wm.surface_under(&vec![unmapped]), None);
    assert_eq!(wm.decoration_under(&vec![unmapped]), None);
    assert_eq!(
        wm.decoration_under(&vec![barred]),
        Some(DecorationUnder { window: 1, surface: 101, hit: DecorationHit::TitleBar })
    );
}

#[test]
fn parts_of_a_decoration_have_an_order() {
    let mut wm = wm();
    wm.decorations.insert(101, decoration(400, false));
    let all = WindowProbe {
        on_close_button: true,
        on_title_bar: true,
        on_resize_border: Some(ResizeEdge::Top),
        ..probe(1)
    };
    let under = |wm: &DriftWm, w: WindowProbe| wm.decoration_under(&vec![w]).unwrap().hit;
    assert_eq!(under(&wm, all), DecorationHit::CloseButton);
    let w = WindowProbe { on_close_button: false, ..all };
    assert_eq!(under(&wm, w), DecorationHit::TitleBar);
    let w = WindowProbe { on_title_bar: false, ..w };
    assert_eq!(under(&wm, w), DecorationHit::ResizeBorder(ResizeEdge::Top));
}

#[test]
fn canvas_layers_are_searched_in_order() {
    let hit = CanvasLayerProbe {
        no_focus: false,
        position: Some(IntPoint { x: 10, y: 20 }),
        hit: content(5),
    };
    let barred = CanvasLayerProbe { no_focus: true, ..hit };
    let unplaced = CanvasLayerProbe { position: None, ..hit };
    let missed = CanvasLayerProbe { hit: None, ..hit };
    let later = CanvasLayerProbe { hit: content(6), ..hit };
    let layers = vec![barred, unplaced, missed, hit, later];
    assert_eq!(wm().canvas_layer_under(&layers), fixed(5, 11, 22));
    assert_eq!(wm().canvas_layer_under(&vec![barred, unplaced, missed]), None);
}

#[test]
fn screen_layers_are_searched_in_the_given_order() {
    let probes = LayerProbes {
        background: Some(LayerProbe { location: None, hit: content(1) }),
        bottom: Some(LayerProbe { location: Some(IntPoint { x: 3, y: 4 }), hit: None }),
        top: Some(LayerProbe { location: Some(IntPoint { x: 3, y: 4 }), hit: content(2) }),
        overlay: None,
    };
    let on_screen =
        |surface, x, y| Some(Focus { surface, origin: Origin::OnScreen(IntPoint { x, y }) });
    let wm = wm();
    assert_eq!(
        wm.layer_surface_under(&probes, &[WlrLayer::Overlay, WlrLayer::Top]),
        on_screen(2, 4, 6)
    );
    assert_eq!(
        wm.layer_surface_under(&probes, &[WlrLayer::Bottom, WlrLayer::Background]),
        on_screen(1, 1, 2)
    );
    assert_eq!(
        wm.layer_surface_under(&probes, &[WlrLayer::Background, WlrLayer::Top]),
        on_screen(1, 1, 2)
    );
    assert_eq!(wm.layer_surface_under(&probes, &[WlrLayer::Overlay]), None);
}

#[test]
fn hovering_draws_the_title_bar_once() {
    let mut wm = wm();
    wm.decorations.insert(101, decoration(400, false));
    wm.decorations.insert(102, decoration(500, false));
    let bar = TitleBar { width: 400, focused: true, close_hovered: true };
    assert_eq!(
        wm.set_close_hovered(101, true),
        vec![Effect::DrawTitleBar { surface: 101, title_bar: bar }]
    );
    assert_eq!(wm.decorations[&101], decoration(400, true));
    assert_eq!(wm.decorations[&102], decoration(500, false));
    assert_eq!(wm.set_close_hovered(101, true), vec![]);
    assert_eq!(wm.set_close_hovered(999, true), vec![]);
}

#[test]
fn clearing_hover_leaves_nothing_hovered() {
    let mut wm = wm();
    wm.decorations.insert(101, decoration(400, true));
    wm.decorations.insert(102, decoration(500, false));
    wm.decorations.insert(103, decoration(600, true));
    let mut effects = wm.clear_all_close_hovered();
    effects.sort_by_key(|e| match e {
        Effect::DrawTitleBar { surface, .. } => *surface,
        _ => 0,
    });
    let bar = |width| TitleBar { width, focused: true, close_hovered: false };
    assert_eq!(
        effects,
        vec![
            Effect::DrawTitleBar { surface: 101, title_bar: bar(400) },
            Effect::DrawTitleBar { surface: 103, title_bar: bar(600) },
        ]
    );
    assert_eq!(wm.decorations.len(), 3);
    assert_eq!(wm.decorations[&101], decoration(400, false));
    assert_eq!(wm.decorations[&102], decoration(500, false));
    assert_eq!(wm.decorations[&103], decoration(600, false));
    assert_eq!(wm.clear_all_close_hovered(), vec![]);
}

#[test]
fn the_cursor_follows_the_decoration() {
    let mut wm = wm();
    wm.decorations.insert(101, decoration(400, false));
    let close = vec![WindowProbe { on_close_button: true, ..probe(1) }];
    let border = vec![WindowProbe { on_resize_border: Some(ResizeEdge::TopLeft), ..probe(1) }];
    let bar = vec![WindowProbe { on_title_bar: true, ..probe(1) }];

    assert_eq!(wm.update_decoration_cursor(&close).len(), 1);
    assert!(wm.decoration_cursor);
    assert_eq!(wm.cursor_status, CursorStatus::Named(CursorIcon::Pointer));
    assert!(wm.decorations[&101].close_hovered);

    assert_eq!(wm.update_decoration_cursor(&border).len(), 1);
    assert_eq!(wm.cursor_status, CursorStatus::Named(CursorIcon::NwResize));
    assert!(!wm.decorations[&101].close_hovered);

    assert_eq!(wm.update_decoration_cursor(&bar), vec![]);
    assert_eq!(wm.cursor_status, CursorStatus::Named(CursorIcon::Default));
    assert!(wm.decoration_cursor);
}

#[test]
fn leaving_decorations_resets_the_cursor() {
    let mut wm = wm();
    wm.decorations.insert(101, decoration(400, true));
    wm.decoration_cursor = true;
    wm.cursor_status = CursorStatus::Named(CursorIcon::Pointer);
    assert_eq!(wm.update_decoration_cursor(&vec![]).len(), 1);
    assert!(!wm.decoration_cursor);
    assert_eq!(wm.cursor_status, CursorStatus::Named(CursorIcon::Default));
    assert!(!wm.decorations[&101].close_hovered);

    wm.cursor_status = CursorStatus::Client(9);
    assert_eq!(wm.update_decoration_cursor(&vec![]), vec![]);
    assert_eq!(wm.cursor_status, CursorStatus::Client(9));
}

#[test]
fn grabs_and_layers_keep_the_cursor() {
    for over_layer in [true, false] {
        let mut wm = wm();
        wm.decorations.insert(101, decoration(400, false));
        wm.pointer_over_layer = over_layer;
        wm.grab_cursor = !over_layer;
        wm.cursor_status = CursorStatus::Client(3);
        let close = vec![WindowProbe { on_close_button: true, ..probe(1) }];
        assert_eq!(wm.update_decoration_cursor(&close), vec![]);
        assert_eq!(wm.cursor_status, CursorStatus::Client(3));
        assert!(!wm.decoration_cursor);
        assert!(!wm.decorations[&101].close_hovered);
    }
}

#[test]
fn resize_cursors_point_outwards() {
    let cases = [
        (ResizeEdge::Top, CursorIcon::NResize),
        (ResizeEdge::Bottom, CursorIcon::SResize),
        (ResizeEdge::Left, CursorIcon::WResize),
        (ResizeEdge::Right, CursorIcon::EResize),
        (ResizeEdge::TopLeft, CursorIcon::NwResize),
        (ResizeEdge::TopRight, CursorIcon::NeResize),
        (ResizeEdge::BottomLeft, CursorIcon::SwResize),
        (ResizeEdge::BottomRight, CursorIcon::SeResize),
        (ResizeEdge::NoEdge, CursorIcon::Default),
    ];
    for (edge, icon) in cases {
        assert_eq!(resize_cursor(edge), icon);
    }
}
