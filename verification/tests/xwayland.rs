use driftwm::effect::{Effect, TitleBar};
use driftwm::event::SpaceWindow;
use driftwm::geometry::Position;
use driftwm::scalar::Scalar;
use driftwm::state::{Config, Decoration, DriftWm, Fullscreen};
use driftwm::xwayland::display_name;

fn s(v: f64) -> Scalar {
    Scalar { bits: v.to_bits() }
}

fn at(x: f64, y: f64) -> Position {
    Position { x: s(x), y: s(y) }
}

fn full(window: u64) -> Fullscreen {
    Fullscreen { window, saved_camera: at(window as f64, 2.0), saved_zoom: s(0.5) }
}

/// Windows 1 and 3 are X11, window 4 is X11 without a surface, window 2 is not X11.
fn windows() -> Vec<SpaceWindow> {
    vec![
        SpaceWindow { window: 1, is_x11: true, surface: Some(101) },
        SpaceWindow { window: 2, is_x11: false, surface: Some(102) },
        SpaceWindow { window: 3, is_x11: true, surface: Some(103) },
        SpaceWindow { window: 4, is_x11: true, surface: None },
    ]
}

fn wm() -> DriftWm {
    let mut wm = DriftWm::new(
        Config { title_bar_height: 30, snap_enabled: true, repeat_delay: 200 },
        at(0.0, 0.0),
        s(1.0),
    );
    let title_bar = TitleBar { width: 4, focused: false, close_hovered: false };
    let plain = Decoration { width: 4, focused: false, close_hovered: false, title_bar };
    for surface in [101, 102, 103] {
        wm.decorations.insert(surface, plain);
        wm.pending_ssd.insert(surface);
        wm.pending_center.insert(surface);
    }
    wm.focus_history = vec![3, 2, 1, 2, 4, 9];
    wm.fullscreen.insert(70, full(1));
    wm.fullscreen.insert(71, full(2));
    wm.x11_display = Some(1);
    wm.xwayland_client = Some(6);
    wm.x11_wm = Some(8);
    wm.x11_override_redirect = vec![50, 51];
    wm
}

#[test]
fn display_names_are_decimal() {
    for n in [0, 1, 9, 10, 42, 100, 1_000_007, u32::MAX] {
        assert_eq!(display_name(n), format!(":{n}"));
    }
}

#[test]
fn readiness_sets_up_the_display() {
    let mut wm = DriftWm::new(
        Config { title_bar_height: 30, snap_enabled: true, repeat_delay: 200 },
        at(0.0, 0.0),
        s(1.0),
    );
    assert_eq!(
        wm.xwayland_ready(3, 77),
        vec![Effect::SetDisplay { display: 3 }, Effect::ExportDisplay, Effect::StartX11Wm]
    );
    assert_eq!((wm.x11_display, wm.xwayland_client, wm.x11_wm), (Some(3), Some(77), None));
    wm.x11_wm_started(None);
    assert_eq!(wm.x11_wm, None);
    wm.x11_wm_started(Some(5));
    assert_eq!(wm.x11_wm, Some(5));
    wm.x11_wm_started(None);
    assert_eq!(wm.x11_wm, Some(5));
}

#[test]
fn a_crash_restores_views_and_takes_focus_away() {
    let mut wm = wm();
    assert_eq!(
        wm.xwayland_crashed(&windows(), Some(103)),
        vec![
            Effect::RemoveDisplay,
            Effect::RestoreView { output: 70, camera: at(1.0, 2.0), zoom: s(0.5) },
            Effect::UpdateOutput,
            Effect::ClearKeyboardFocus,
        ]
    );
    assert_eq!(wm.fullscreen.len(), 1);
    assert_eq!(wm.fullscreen[&71], full(2));
    assert_eq!((wm.x11_display, wm.xwayland_client, wm.x11_wm), (None, None, None));
    assert!(wm.x11_override_redirect.is_empty());
    assert_eq!(wm.decorations.len(), 3);
}

#[test]
fn a_crash_leaves_focus_on_other_windows() {
    for focused in [None, Some(102), Some(999)] {
        let mut wm = wm();
        let effects = wm.xwayland_crashed(&windows(), focused);
        assert!(!effects.contains(&Effect::ClearKeyboardFocus));
    }
}

#[test]
fn a_crash_restores_every_output_that_showed_an_x11_window() {
    let mut wm = wm();
    wm.fullscreen.insert(72, full(4));
    let effects = wm.xwayland_crashed(&windows(), None);
    assert_eq!(effects.len(), 4);
    for (output, window) in [(70, 1.0), (72, 4.0)] {
        let restore = Effect::RestoreView { output, camera: at(window, 2.0), zoom: s(0.5) };
        assert!(effects[1..3].contains(&restore));
    }
    assert_eq!(effects[3], Effect::UpdateOutput);
}

#[test]
fn a_crash_without_x11_windows_only_forgets_xwayland() {
    let mut wm = wm();
    let others = vec![SpaceWindow { window: 2, is_x11: false, surface: Some(102) }];
    assert_eq!(wm.xwayland_crashed(&others, Some(102)), vec![Effect::RemoveDisplay]);
    assert_eq!(wm.fullscreen.len(), 2);
    assert_eq!(
        wm.forget_x11_windows(&others),
        vec![Effect::SpawnXwayland, Effect::NotifyCrash]
    );
    assert_eq!(wm.decorations.len(), 3);
    assert_eq!(wm.focus_history, vec![3, 2, 1, 2, 4, 9]);
}

#[test]
fn x11_windows_leave_no_trace() {
    let mut wm = wm();
    wm.xwayland_crashed(&windows(), None);
    assert_eq!(
        wm.forget_x11_windows(&windows()),
        vec![
            Effect::UnmapWindow { window: 1 },
            Effect::UnmapWindow { window: 3 },
            Effect::UnmapWindow { window: 4 },
            Effect::SpawnXwayland,
            Effect::NotifyCrash,
        ]
    );
    let mut kept: Vec<u64> = wm.decorations.keys().copied().collect();
    kept.sort();
    assert_eq!(kept, vec![102]);
    let title_bar = TitleBar { width: 4, focused: false, close_hovered: false };
    assert_eq!(wm.decorations[&102].title_bar, title_bar);
    assert!(wm.pending_ssd.contains(&102) && wm.pending_ssd.len() == 1);
    assert!(wm.pending_center.contains(&102) && wm.pending_center.len() == 1);
    assert_eq!(wm.focus_history, vec![2, 2, 9]);
}

#[test]
fn cleaning_up_twice_changes_nothing() {
    let mut wm = wm();
    wm.xwayland_crashed(&windows(), None);
    wm.forget_x11_windows(&windows());
    let effects = wm.xwayland_crashed(&windows(), None);
    assert_eq!(effects, vec![Effect::RemoveDisplay, Effect::UpdateOutput]);
    wm.forget_x11_windows(&windows());
    assert_eq!(wm.focus_history, vec![2, 2, 9]);
    assert_eq!((wm.decorations.len(), wm.fullscreen.len()), (1, 1));
}
