//! Routing of input events.
use vstd::prelude::*;

use crate::axis::{axis_frame, forwarded_frame, hands_on, law_forwarding_hands_on};
use crate::effect::{Effect, Handler};
use crate::event::InputEvent;
use crate::state::DriftWm;

verus! {

/// The handler for an event while the session is unlocked.
pub open spec fn handler_of(event: InputEvent) -> Option<Handler> {
    match event {
        InputEvent::Keyboard => Some(Handler::Keyboard),
        InputEvent::PointerMotion => Some(Handler::PointerMotionRelative),
        InputEvent::PointerMotionAbsolute => Some(Handler::PointerMotionAbsolute),
        InputEvent::PointerButton(_) => Some(Handler::PointerButton),
        InputEvent::PointerAxis(_) => Some(Handler::PointerAxis),
        InputEvent::GestureSwipeBegin => Some(Handler::GestureSwipeBegin),
        InputEvent::GestureSwipeUpdate => Some(Handler::GestureSwipeUpdate),
        InputEvent::GestureSwipeEnd => Some(Handler::GestureSwipeEnd),
        InputEvent::GesturePinchBegin => Some(Handler::GesturePinchBegin),
        InputEvent::GesturePinchUpdate => Some(Handler::GesturePinchUpdate),
        InputEvent::GesturePinchEnd => Some(Handler::GesturePinchEnd),
        InputEvent::GestureHoldBegin => Some(Handler::GestureHoldBegin),
        InputEvent::GestureHoldEnd => Some(Handler::GestureHoldEnd),
        InputEvent::Other => None,
    }
}

/// What is done with an event. While the session is locked, buttons and
/// scrolling go straight to the client, and gestures nowhere.
pub open spec fn routed(locked: bool, event: InputEvent) -> Seq<Effect> {
    let handled = match handler_of(event) {
        Some(handler) => seq![Effect::Handle(handler)],
        None => seq![],
    };
    let what = if !locked {
        handled
    } else {
        match event {
            InputEvent::Keyboard => handled,
            InputEvent::PointerMotion => handled,
            InputEvent::PointerMotionAbsolute => handled,
            InputEvent::PointerButton(b) => seq![
                Effect::PointerButton { button: b.button, state: b.state, stamp: b.stamp },
                Effect::PointerFrame,
            ],
            InputEvent::PointerAxis(a) => seq![
                Effect::PointerAxis(forwarded_frame(a)),
                Effect::PointerFrame,
            ],
            _ => seq![],
        }
    };
    seq![Effect::MarkAllDirty] + what
}

impl DriftWm {
    /// Decides which handler an input event goes to, if any.
    pub fn process_input_event(&self, event: &InputEvent) -> (effects: Vec<Effect>)
        ensures
            effects@ == routed(self@.session_locked, *event),
    {
        let mut effects: Vec<Effect> = Vec::new();
        effects.push(Effect::MarkAllDirty);
        if self.session_locked {
            match event {
                InputEvent::Keyboard => effects.push(Effect::Handle(Handler::Keyboard)),
                InputEvent::PointerMotion => effects.push(
                    Effect::Handle(Handler::PointerMotionRelative),
                ),
                InputEvent::PointerMotionAbsolute => effects.push(
                    Effect::Handle(Handler::PointerMotionAbsolute),
                ),
                InputEvent::PointerButton(b) => {
                    effects.push(
                        Effect::PointerButton { button: b.button, state: b.state, stamp: b.stamp },
                    );
                    effects.push(Effect::PointerFrame);
                },
                InputEvent::PointerAxis(a) => {
                    effects.push(Effect::PointerAxis(axis_frame(a)));
                    effects.push(Effect::PointerFrame);
                },
                _ => {},
            }
            return effects;
        }
        match event {
            InputEvent::Keyboard => effects.push(Effect::Handle(Handler::Keyboard)),
            InputEvent::PointerMotion => effects.push(Effect::Handle(Handler::PointerMotionRelative)),
            InputEvent::PointerMotionAbsolute => effects.push(
                Effect::Handle(Handler::PointerMotionAbsolute),
            ),
            InputEvent::PointerButton(_) => effects.push(Effect::Handle(Handler::PointerButton)),
            InputEvent::PointerAxis(_) => effects.push(Effect::Handle(Handler::PointerAxis)),
            InputEvent::GestureSwipeBegin => effects.push(Effect::Handle(Handler::GestureSwipeBegin)),
            InputEvent::GestureSwipeUpdate => effects.push(Effect::Handle(Handler::GestureSwipeUpdate)),
            InputEvent::GestureSwipeEnd => effects.push(Effect::Handle(Handler::GestureSwipeEnd)),
            InputEvent::GesturePinchBegin => effects.push(Effect::Handle(Handler::GesturePinchBegin)),
            InputEvent::GesturePinchUpdate => effects.push(Effect::Handle(Handler::GesturePinchUpdate)),
            InputEvent::GesturePinchEnd => effects.push(Effect::Handle(Handler::GesturePinchEnd)),
            InputEvent::GestureHoldBegin => effects.push(Effect::Handle(Handler::GestureHoldBegin)),
            InputEvent::GestureHoldEnd => effects.push(Effect::Handle(Handler::GestureHoldEnd)),
            InputEvent::Other => {},
        }
        effects
    }
}

/// Whether an effect only hands an event on to where a locked session may get it.
pub open spec fn allowed_when_locked(effect: Effect) -> bool {
    match effect {
        Effect::MarkAllDirty => true,
        Effect::Handle(Handler::Keyboard) => true,
        Effect::Handle(Handler::PointerMotionRelative) => true,
        Effect::Handle(Handler::PointerMotionAbsolute) => true,
        Effect::PointerButton { .. } => true,
        Effect::PointerAxis(_) => true,
        Effect::PointerFrame => true,
        _ => false,
    }
}

/// While the session is locked, no event starts a gesture or reaches the
/// handlers that start compositor grabs, pan or zoom.
pub proof fn law_locked_session_has_no_gestures(event: InputEvent, at: int)
    requires
        0 <= at < routed(true, event).len(),
    ensures
        allowed_when_locked(routed(true, event)[at]),
{
}

/// Every event has the outputs drawn anew, first of all.
pub proof fn law_every_event_redraws(locked: bool, event: InputEvent)
    ensures
        routed(locked, event).len() > 0,
        routed(locked, event)[0] is MarkAllDirty,
{
}

/// While the session is unlocked, an event goes to its own handler alone.
pub proof fn law_unlocked_events_have_one_handler(event: InputEvent)
    ensures
        routed(false, event) == (match handler_of(event) {
            Some(handler) => seq![Effect::MarkAllDirty, Effect::Handle(handler)],
            None => seq![Effect::MarkAllDirty],
        }),
{
    assert(routed(false, event) =~= (match handler_of(event) {
        Some(handler) => seq![Effect::MarkAllDirty, Effect::Handle(handler)],
        None => seq![Effect::MarkAllDirty],
    }));
}

/// While the session is unlocked, each handler gets its own kind of event and no
/// other, whatever the event holds, and nothing reaches a client directly.
pub proof fn law_handlers_get_their_own_events(event: InputEvent)
    ensures
        ({
            let effects = routed(false, event);
            &&& effects.len() == (if event is Other { 1int } else { 2int })
            &&& effects[0] is MarkAllDirty
            &&& !(event is Other) ==> effects[1] is Handle && {
                let handler = effects[1]->Handle_0;
                &&& event is Keyboard <==> handler is Keyboard
                &&& event is PointerMotion <==> handler is PointerMotionRelative
                &&& event is PointerMotionAbsolute <==> handler is PointerMotionAbsolute
                &&& event is PointerButton <==> handler is PointerButton
                &&& event is PointerAxis <==> handler is PointerAxis
                &&& event is GestureSwipeBegin <==> handler is GestureSwipeBegin
                &&& event is GestureSwipeUpdate <==> handler is GestureSwipeUpdate
                &&& event is GestureSwipeEnd <==> handler is GestureSwipeEnd
                &&& event is GesturePinchBegin <==> handler is GesturePinchBegin
                &&& event is GesturePinchUpdate <==> handler is GesturePinchUpdate
                &&& event is GesturePinchEnd <==> handler is GesturePinchEnd
                &&& event is GestureHoldBegin <==> handler is GestureHoldBegin
                &&& event is GestureHoldEnd <==> handler is GestureHoldEnd
            }
        }),
{
}

/// While the session is locked, keys and motion are handled as ever, buttons and
/// scrolling reach the client as they came, and all else is dropped.
pub proof fn law_locked_events_reach_client(event: InputEvent)
    ensures
        ({
            let effects = routed(true, event);
            &&& effects[0] is MarkAllDirty
            &&& event is Keyboard || event is PointerMotion || event is PointerMotionAbsolute
                ==> effects == routed(false, event)
            &&& event matches InputEvent::PointerButton(b) ==> {
                &&& effects.len() == 3
                &&& effects[1] == (Effect::PointerButton {
                    button: b.button,
                    state: b.state,
                    stamp: b.stamp,
                })
                &&& effects[2] is PointerFrame
            }
            &&& event matches InputEvent::PointerAxis(a) ==> {
                &&& effects.len() == 3
                &&& effects[1] is PointerAxis
                &&& hands_on(a, effects[1]->PointerAxis_0)
                &&& effects[2] is PointerFrame
            }
            &&& !(event is Keyboard || event is PointerMotion || event is PointerMotionAbsolute
                || event is PointerButton || event is PointerAxis) ==> effects.len() == 1
        }),
{
    if let InputEvent::PointerAxis(a) = event {
        law_forwarding_hands_on(a);
    }
}

} // verus!
