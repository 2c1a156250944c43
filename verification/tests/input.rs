use driftwm::effect::{AxisFrame, AxisPart, AxisValue, Effect, Handler};
use driftwm::event::{
    AxisAmount, AxisDirection, AxisInput, AxisSource, BoundAction, ButtonInput, ButtonState,
    InputEvent, KeyInput, Stamp,
};
use driftwm::geometry::Position;
use driftwm::keyboard::{KeyFacts, KeyPath, KeyVerdict};
use driftwm::scalar::Scalar;
use driftwm::state::{Config, DriftWm, HeldAction};

fn s(v: f64) -> Scalar {
    Scalar { bits: v.to_bits() }
}

fn wm() -> DriftWm {
    DriftWm::new(
        Config { title_bar_height: 30, snap_enabled: true, repeat_delay: 200 },
        Position { x: s(0.0), y: s(0.0) },
        s(1.0),
    )
}

fn button() -> ButtonInput {
    ButtonInput { button: 0x111, state: ButtonState::Pressed, stamp: Stamp { serial: 7, time: 99 } }
}

fn axis() -> AxisInput {
    AxisInput {
        time: 42,
        source: AxisSource::Wheel,
        horizontal: AxisAmount { amount: None, direction: AxisDirection::Inverted, v120: None },
        vertical: AxisAmount {
            amount: Some(s(15.0)),
            direction: AxisDirection::Inverted,
            v120: Some(120),
        },
    }
}

fn facts() -> KeyFacts {
    KeyFacts { pressed: true, keysym: 0x61, cycling: false, cycle_modifier_held: false, binding: None }
}

#[test]
fn unlocked_events_go_to_their_handlers() {
    let wm = wm();
    let cases = [
        (InputEvent::Keyboard, Handler::Keyboard),
        (InputEvent::PointerMotion, Handler::PointerMotionRelative),
        (InputEvent::PointerMotionAbsolute, Handler::PointerMotionAbsolute),
        (InputEvent::PointerButton(button()), Handler::PointerButton),
        (InputEvent::PointerAxis(axis()), Handler::PointerAxis),
        (InputEvent::GestureSwipeBegin, Handler::GestureSwipeBegin),
        (InputEvent::GestureSwipeUpdate, Handler::GestureSwipeUpdate),
        (InputEvent::GestureSwipeEnd, Handler::GestureSwipeEnd),
        (InputEvent::GesturePinchBegin, Handler::GesturePinchBegin),
        (InputEvent::GesturePinchUpdate, Handler::GesturePinchUpdate),
        (InputEvent::GesturePinchEnd, Handler::GesturePinchEnd),
        (InputEvent::GestureHoldBegin, Handler::GestureHoldBegin),
        (InputEvent::GestureHoldEnd, Handler::GestureHoldEnd),
    ];
    for (event, handler) in cases {
        assert_eq!(
            wm.process_input_event(&event),
            vec![Effect::MarkAllDirty, Effect::Handle(handler)]
        );
    }
    assert_eq!(wm.process_input_event(&InputEvent::Other), vec![Effect::MarkAllDirty]);
}

#[test]
fn locked_session_has_no_gestures() {
    let mut wm = wm();
    wm.session_locked = true;
    for event in [
        InputEvent::GestureSwipeBegin,
        InputEvent::GestureSwipeUpdate,
        InputEvent::GestureSwipeEnd,
        InputEvent::GesturePinchBegin,
        InputEvent::GesturePinchUpdate,
        InputEvent::GesturePinchEnd,
        InputEvent::GestureHoldBegin,
        InputEvent::GestureHoldEnd,
        InputEvent::Other,
    ] {
        assert_eq!(wm.process_input_event(&event), vec![Effect::MarkAllDirty]);
    }
    assert_eq!(
        wm.process_input_event(&InputEvent::Keyboard),
        vec![Effect::MarkAllDirty, Effect::Handle(Handler::Keyboard)]
    );
}

#[test]
fn locked_session_forwards_buttons_and_scrolling() {
    let mut wm = wm();
    wm.session_locked = true;
    assert_eq!(
        wm.process_input_event(&InputEvent::PointerButton(button())),
        vec![
            Effect::MarkAllDirty,
            Effect::PointerButton {
                button: 0x111,
                state: ButtonState::Pressed,
                stamp: Stamp { serial: 7, time: 99 }
            },
            Effect::PointerFrame,
        ]
    );
    let frame = AxisFrame {
        time: 42,
        source: Some(AxisSource::Wheel),
        horizontal: AxisPart { value: None, v120: None },
        vertical: AxisPart {
            value: Some(AxisValue { amount: s(15.0), direction: AxisDirection::Inverted }),
            v120: Some(120),
        },
    };
    assert_eq!(
        wm.process_input_event(&InputEvent::PointerAxis(axis())),
        vec![Effect::MarkAllDirty, Effect::PointerAxis(frame), Effect::PointerFrame]
    );
}

#[test]
fn vt_keysyms_map_to_terminals() {
    for vt in 1..=12 {
        let f = KeyFacts { keysym: 0x1008FE00 + vt as u32, ..facts() };
        assert_eq!(DriftWm::filter_key(KeyPath::Locked, &f), KeyVerdict::SwitchVtAndForward(vt));
        assert_eq!(DriftWm::filter_key(KeyPath::Bindings, &f), KeyVerdict::SwitchVt(vt));
    }
    for keysym in [0x1008FE00, 0x1008FE0D] {
        let f = KeyFacts { keysym, ..facts() };
        assert_eq!(DriftWm::filter_key(KeyPath::Locked, &f), KeyVerdict::Forward);
        assert_eq!(DriftWm::filter_key(KeyPath::Bindings, &f), KeyVerdict::Forward);
    }
}

#[test]
fn vt_keys_come_before_bindings() {
    let bound = BoundAction { action: 3, repeatable: true };
    let f = KeyFacts { keysym: 0x1008FE04, binding: Some(bound), ..facts() };
    assert_eq!(DriftWm::filter_key(KeyPath::Bindings, &f), KeyVerdict::SwitchVt(4));
}

#[test]
fn released_keys_trigger_nothing() {
    let bound = BoundAction { action: 3, repeatable: true };
    let f = KeyFacts { pressed: false, keysym: 0x1008FE04, binding: Some(bound), ..facts() };
    assert_eq!(DriftWm::filter_key(KeyPath::Bindings, &f), KeyVerdict::Forward);
    assert_eq!(DriftWm::filter_key(KeyPath::Locked, &f), KeyVerdict::Forward);
}

#[test]
fn letting_go_of_the_cycle_modifier_ends_cycling() {
    let bound = BoundAction { action: 3, repeatable: false };
    let f = KeyFacts { cycling: true, binding: Some(bound), ..facts() };
    assert_eq!(DriftWm::filter_key(KeyPath::Bindings, &f), KeyVerdict::EndCycle);
    let held = KeyFacts { cycle_modifier_held: true, ..f };
    assert_eq!(DriftWm::filter_key(KeyPath::Bindings, &held), KeyVerdict::Act(bound));
    assert_eq!(DriftWm::filter_key(KeyPath::Locked, &f), KeyVerdict::Forward);
}

#[test]
fn bound_keys_act() {
    let bound = BoundAction { action: 9, repeatable: false };
    let f = KeyFacts { binding: Some(bound), ..facts() };
    assert_eq!(DriftWm::filter_key(KeyPath::Bindings, &f), KeyVerdict::Act(bound));
    assert_eq!(DriftWm::filter_key(KeyPath::Locked, &f), KeyVerdict::Forward);
}

#[test]
fn repeatable_actions_repeat_until_release() {
    let mut wm = wm();
    let key = KeyInput { keycode: 30, pressed: true };
    assert_eq!(wm.on_keyboard(key), KeyPath::Bindings);
    let bound = BoundAction { action: 5, repeatable: true };
    let effects = wm.conclude_key(key, "English (US)".to_string(), Some(bound), 1_000);
    assert_eq!(effects, vec![Effect::ExecuteAction { action: 5 }]);
    assert_eq!(wm.active_layout, "English (US)");
    let held = Some(HeldAction { keycode: 30, action: 5, due: 200_001_000 });
    assert_eq!(wm.held_action, held);
    wm.on_keyboard(KeyInput { keycode: 31, pressed: false });
    assert_eq!(wm.held_action, held);
    wm.on_keyboard(KeyInput { keycode: 30, pressed: true });
    assert_eq!(wm.held_action, held);
    wm.on_keyboard(KeyInput { keycode: 30, pressed: false });
    assert_eq!(wm.held_action, None);
}

#[test]
fn locked_session_keeps_held_action() {
    let mut wm = wm();
    wm.held_action = Some(HeldAction { keycode: 30, action: 5, due: 1 });
    wm.session_locked = true;
    assert_eq!(wm.on_keyboard(KeyInput { keycode: 30, pressed: false }), KeyPath::Locked);
    assert_eq!(wm.held_action, Some(HeldAction { keycode: 30, action: 5, due: 1 }));
}

#[test]
fn other_actions_cancel_repeating() {
    let mut wm = wm();
    wm.held_action = Some(HeldAction { keycode: 30, action: 5, due: 1 });
    let key = KeyInput { keycode: 40, pressed: true };
    let once = BoundAction { action: 6, repeatable: false };
    let effects = wm.conclude_key(key, String::new(), Some(once), 0);
    assert_eq!(effects, vec![Effect::ExecuteAction { action: 6 }]);
    assert_eq!(wm.held_action, None);
}

#[test]
fn plain_keys_change_the_layout_only() {
    let mut wm = wm();
    wm.held_action = Some(HeldAction { keycode: 30, action: 5, due: 1 });
    let key = KeyInput { keycode: 40, pressed: true };
    assert_eq!(wm.conclude_key(key, "German".to_string(), None, 0), vec![]);
    assert_eq!(wm.active_layout, "German");
    assert_eq!(wm.held_action, Some(HeldAction { keycode: 30, action: 5, due: 1 }));
}

#[test]
fn the_longest_delay_does_not_overflow() {
    let mut wm = wm();
    wm.config.repeat_delay = u64::MAX;
    let key = KeyInput { keycode: 1, pressed: true };
    let bound = BoundAction { action: 1, repeatable: true };
    wm.conclude_key(key, String::new(), Some(bound), u64::MAX);
    let due = u64::MAX as u128 + u64::MAX as u128 * 1_000_000;
    assert_eq!(wm.held_action, Some(HeldAction { keycode: 1, action: 1, due }));
}
