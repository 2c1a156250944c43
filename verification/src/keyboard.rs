//! Keys: virtual terminals, bindings and repeating.
use vstd::prelude::*;

use crate::effect::Effect;
use crate::event::{BoundAction, KeyInput};
use crate::state::{DriftWm, HeldAction, WmModel};

verus! {

/// The keysym that asks for the first virtual terminal.
pub const SWITCH_VT_1: u32 = 0x1008FE01;

/// The keysym that asks for the twelfth virtual terminal.
pub const SWITCH_VT_12: u32 = 0x1008FE0C;

/// The virtual terminal that a keysym asks for.
pub open spec fn vt_of(keysym: u32) -> Option<i32> {
    if SWITCH_VT_1 <= keysym <= SWITCH_VT_12 {
        Some((keysym - SWITCH_VT_1 + 1) as i32)
    } else {
        None
    }
}

/// How a key event goes on once it has been noted.
#[derive(Clone, Copy, Debug, PartialEq, Eq, Structural)]
pub enum KeyPath {
    /// The session is locked: only virtual terminals can be switched.
    Locked,
    /// Bindings apply.
    Bindings,
}

/// What becomes of a key.
#[derive(Clone, Copy, Debug, PartialEq, Eq, Structural)]
pub enum KeyVerdict {
    /// The client gets it.
    Forward,
    /// Window cycling ends, and the client gets it.
    EndCycle,
    /// A virtual terminal is switched to, and the client gets the key too.
    SwitchVtAndForward(i32),
    /// A virtual terminal is switched to in place of the key.
    SwitchVt(i32),
    /// An action is carried out in place of the key.
    Act(BoundAction),
}

/// What is known of a key once the keyboard state includes it.
#[derive(Clone, Copy, Debug, PartialEq, Eq, Structural)]
pub struct KeyFacts {
    pub pressed: bool,
    /// The keysym under the current modifiers.
    pub keysym: u32,
    /// Window cycling is going on.
    pub cycling: bool,
    /// The modifier that keeps window cycling going is held.
    pub cycle_modifier_held: bool,
    /// What the key is bound to under the current modifiers.
    pub binding: Option<BoundAction>,
}

/// What becomes of a key while the session is locked.
pub open spec fn locked_verdict(facts: KeyFacts) -> KeyVerdict {
    match vt_of(facts.keysym) {
        Some(vt) if facts.pressed => KeyVerdict::SwitchVtAndForward(vt),
        _ => KeyVerdict::Forward,
    }
}

/// What becomes of a key while the session is unlocked. Letting go of the cycle
/// modifier comes first, then virtual terminals, then bindings.
pub open spec fn unlocked_verdict(facts: KeyFacts) -> KeyVerdict {
    if facts.cycling && !facts.cycle_modifier_held {
        KeyVerdict::EndCycle
    } else if !facts.pressed {
        KeyVerdict::Forward
    } else {
        match (vt_of(facts.keysym), facts.binding) {
            (Some(vt), _) => KeyVerdict::SwitchVt(vt),
            (None, Some(bound)) => KeyVerdict::Act(bound),
            (None, None) => KeyVerdict::Forward,
        }
    }
}

/// When a key pressed now repeats for the first time.
pub open spec fn repeat_due(now: u64, delay: u64) -> int {
    now + delay * 1_000_000
}

/// What a released key leaves of a held action.
pub open spec fn released(held: Option<HeldAction>, key: KeyInput) -> Option<HeldAction> {
    match held {
        Some(h) if !key.pressed && h.keycode == key.keycode => None,
        _ => held,
    }
}

/// What an action leaves to be repeated.
pub open spec fn held_after(key: KeyInput, bound: BoundAction, now: u64, delay: u64) -> Option<
    HeldAction,
> {
    if bound.repeatable {
        Some(HeldAction {
            keycode: key.keycode,
            action: bound.action,
            due: repeat_due(now, delay) as u128,
        })
    } else {
        None
    }
}

/// The path that key events take.
pub open spec fn path_of(wm: WmModel) -> KeyPath {
    if wm.session_locked {
        KeyPath::Locked
    } else {
        KeyPath::Bindings
    }
}

/// The state once a key event has been noted.
pub open spec fn noted(wm: WmModel, key: KeyInput) -> WmModel {
    WmModel {
        held_action: if wm.session_locked {
            wm.held_action
        } else {
            released(wm.held_action, key)
        },
        ..wm
    }
}

/// What becomes of a key on its path.
pub open spec fn verdict_on(path: KeyPath, facts: KeyFacts) -> KeyVerdict {
    match path {
        KeyPath::Locked => locked_verdict(facts),
        KeyPath::Bindings => unlocked_verdict(facts),
    }
}

/// The state once a key event has been concluded.
pub open spec fn concluded(
    wm: WmModel,
    key: KeyInput,
    layout: Seq<char>,
    acted: Option<BoundAction>,
    now: u64,
) -> WmModel {
    WmModel {
        active_layout: layout,
        held_action: match acted {
            Some(bound) => held_after(key, bound, now, wm.config.repeat_delay),
            None => wm.held_action,
        },
        ..wm
    }
}

/// What concluding a key event leads to.
pub open spec fn concluded_effects(acted: Option<BoundAction>) -> Seq<Effect> {
    match acted {
        Some(bound) => seq![Effect::ExecuteAction { action: bound.action }],
        None => seq![],
    }
}

fn vt_requested(keysym: u32) -> (r: Option<i32>)
    ensures
        r == vt_of(keysym),
{
    if SWITCH_VT_1 <= keysym && keysym <= SWITCH_VT_12 {
        Some((keysym - SWITCH_VT_1 + 1) as i32)
    } else {
        None
    }
}

impl DriftWm {
    /// Notes a key event before the keyboard state includes it: unless the
    /// session is locked, letting go of a held key ends its repeating.
    pub fn on_keyboard(&mut self, key: KeyInput) -> (path: KeyPath)
        ensures
            path == path_of(old(self)@),
            final(self)@ == noted(old(self)@, key),
    {
        if self.session_locked {
            return KeyPath::Locked;
        }
        if !key.pressed {
            if let Some(held) = self.held_action {
                if held.keycode == key.keycode {
                    self.held_action = None;
                }
            }
        }
        KeyPath::Bindings
    }

    /// Decides what becomes of a key once the keyboard state includes it.
    pub fn filter_key(path: KeyPath, facts: &KeyFacts) -> (verdict: KeyVerdict)
        ensures
            verdict == verdict_on(path, *facts),
    {
        match path {
            KeyPath::Locked => {
                if facts.pressed {
                    if let Some(vt) = vt_requested(facts.keysym) {
                        return KeyVerdict::SwitchVtAndForward(vt);
                    }
                }
                KeyVerdict::Forward
            },
            KeyPath::Bindings => {
                if facts.cycling && !facts.cycle_modifier_held {
                    return KeyVerdict::EndCycle;
                }
                if facts.pressed {
                    if let Some(vt) = vt_requested(facts.keysym) {
                        return KeyVerdict::SwitchVt(vt);
                    }
                    if let Some(bound) = facts.binding {
                        return KeyVerdict::Act(bound);
                    }
                }
                KeyVerdict::Forward
            },
        }
    }

    /// Concludes a key event under bindings: takes over the keyboard layout now
    /// active, and carries out the action that replaced the key, if any. `now`
    /// is in nanoseconds since the start.
    pub fn conclude_key(
        &mut self,
        key: KeyInput,
        layout: String,
        acted: Option<BoundAction>,
        now: u64,
    ) -> (effects: Vec<Effect>)
        ensures
            final(self)@ == concluded(old(self)@, key, layout@, acted, now),
            effects@ == concluded_effects(acted),
    {
        if self.active_layout != layout {
            self.active_layout = layout;
        }
        let mut effects: Vec<Effect> = Vec::new();
        if let Some(bound) = acted {
            if bound.repeatable {
                let delay: u128 = self.config.repeat_delay as u128;
                self.held_action = Some(
                    HeldAction {
                        keycode: key.keycode,
                        action: bound.action,
                        due: now as u128 + delay * 1_000_000,
                    },
                );
            } else {
                self.held_action = None;
            }
            effects.push(Effect::ExecuteAction { action: bound.action });
        }
        effects
    }
}

/// Exactly the twelve switching keysyms ask for a virtual terminal, each for
/// its own.
pub proof fn law_vt_keysyms(keysym: u32, vt: i32)
    ensures
        vt_of(keysym) == Some(vt) <==> 1 <= vt <= 12 && keysym == SWITCH_VT_1 + vt - 1,
{
}

/// While the session is locked, every key reaches the client, and nothing but
/// switching virtual terminals happens besides.
pub proof fn law_locked_keys_reach_client(facts: KeyFacts)
    ensures
        locked_verdict(facts) is Forward || locked_verdict(facts) is SwitchVtAndForward,
{
}

/// A pressed switching key switches virtual terminals whether or not the
/// session is locked and whatever it is bound to. Only the end of window
/// cycling comes before it.
pub proof fn law_vt_switching_always_works(facts: KeyFacts)
    requires
        facts.pressed,
        vt_of(facts.keysym) is Some,
        !facts.cycling || facts.cycle_modifier_held,
    ensures
        locked_verdict(facts) == KeyVerdict::SwitchVtAndForward(vt_of(facts.keysym)->0),
        unlocked_verdict(facts) == KeyVerdict::SwitchVt(vt_of(facts.keysym)->0),
{
}

/// A released key never triggers a binding or a switch.
pub proof fn law_release_triggers_nothing(facts: KeyFacts)
    requires
        !facts.pressed,
    ensures
        locked_verdict(facts) is Forward,
        unlocked_verdict(facts) is Forward || unlocked_verdict(facts) is EndCycle,
{
}

/// An action repeats until its own key is let go, whichever other keys are.
pub proof fn law_repeat_lasts_until_release(
    key: KeyInput,
    bound: BoundAction,
    now: u64,
    delay: u64,
    other: KeyInput,
)
    requires
        !other.pressed,
    ensures
        released(held_after(key, bound, now, delay), other) == (if other.keycode == key.keycode {
            None
        } else {
            held_after(key, bound, now, delay)
        }),
{
}

/// Under bindings, window cycling ends exactly if it is going on and its
/// modifier is not held, whether the key was pressed or let go.
pub proof fn law_cycling_ends_with_its_modifier(facts: KeyFacts)
    ensures
        verdict_on(KeyPath::Bindings, facts) is EndCycle <==> facts.cycling
            && !facts.cycle_modifier_held,
        !(verdict_on(KeyPath::Locked, facts) is EndCycle),
{
}

/// Unless window cycling ends, a pressed key switches virtual terminals exactly
/// if it is one of the twelve that do, and is acted upon exactly if it is none of
/// them and is bound. Every other key is the client's.
pub proof fn law_keys_under_bindings(facts: KeyFacts)
    requires
        !facts.cycling || facts.cycle_modifier_held,
    ensures
        ({
            let verdict = verdict_on(KeyPath::Bindings, facts);
            let switches = 0x1008FE01 <= facts.keysym <= 0x1008FE0C;
            &&& verdict is SwitchVt <==> facts.pressed && switches
            &&& verdict is SwitchVt ==> verdict->SwitchVt_0 == facts.keysym - 0x1008FE00
            &&& verdict is Act <==> facts.pressed && !switches && facts.binding is Some
            &&& verdict is Act ==> facts.binding == Some(verdict->Act_0)
            &&& verdict is Forward <==> !facts.pressed || (!switches && facts.binding is None)
        }),
{
}

/// While the session is locked, a pressed key switches virtual terminals exactly
/// if it is one of the twelve that do. Nothing else that is known of a key counts.
pub proof fn law_keys_while_locked(facts: KeyFacts)
    ensures
        ({
            let verdict = verdict_on(KeyPath::Locked, facts);
            let switches = 0x1008FE01 <= facts.keysym <= 0x1008FE0C;
            &&& verdict is SwitchVtAndForward <==> facts.pressed && switches
            &&& verdict is SwitchVtAndForward ==> verdict->SwitchVtAndForward_0 == facts.keysym
                - 0x1008FE00
            &&& verdict is Forward <==> !(facts.pressed && switches)
        }),
{
}

/// A key event takes the path of the session's lock. It ends a repeating action
/// exactly if the session is unlocked and the action's own key is let go, and
/// changes nothing else.
pub proof fn law_release_ends_repeating(wm: WmModel, key: KeyInput)
    ensures
        path_of(wm) is Locked <==> wm.session_locked,
        noted(wm, key) == (WmModel { held_action: noted(wm, key).held_action, ..wm }),
        noted(wm, key).held_action is Some ==> noted(wm, key).held_action == wm.held_action,
        wm.held_action is Some ==> (noted(wm, key).held_action is None <==> !wm.session_locked
            && !key.pressed && wm.held_action->0.keycode == key.keycode),
{
}

/// An action that replaced a key is carried out once, and a key without one
/// leads to nothing.
pub proof fn law_actions_are_carried_out(acted: Option<BoundAction>)
    ensures
        acted is None ==> concluded_effects(acted).len() == 0,
        acted matches Some(bound) ==> concluded_effects(acted).len() == 1 && concluded_effects(acted)[0]
            == (Effect::ExecuteAction { action: bound.action }),
{
}

/// Concluding a key event takes over the layout. An action that repeats is held
/// by its key and due once the configured delay, in milliseconds, has passed. One
/// that does not repeat ends whatever was repeating, and without an action that
/// goes on. Nothing else changes.
pub proof fn law_actions_repeat_after_delay(
    wm: WmModel,
    key: KeyInput,
    layout: Seq<char>,
    acted: Option<BoundAction>,
    now: u64,
)
    ensures
        ({
            let after = concluded(wm, key, layout, acted, now);
            &&& after == (WmModel {
                active_layout: layout,
                held_action: after.held_action,
                ..wm
            })
            &&& acted is None ==> after.held_action == wm.held_action
            &&& acted is Some ==> (after.held_action is Some <==> acted->0.repeatable)
            &&& acted is Some && acted->0.repeatable ==> {
                &&& after.held_action->0.keycode == key.keycode
                &&& after.held_action->0.action == acted->0.action
                &&& after.held_action->0.due == now + wm.config.repeat_delay * 1_000_000
            }
        }),
{
    assert(now + wm.config.repeat_delay * 1_000_000 <= u128::MAX);
}

} // verus!
