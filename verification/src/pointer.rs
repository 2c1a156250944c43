//! Pointer buttons, and the grabs that they start.
use vstd::prelude::*;

use crate::decorations::{edge_cursor, resize_cursor};
use crate::effect::{
    Effect, Grab, GrabStartData, MoveSurfaceGrab, PanGrab, ResizeState, ResizeSurfaceGrab,
};
use crate::event::{
    ButtonInput, ButtonState, MouseAction, ResizeEdge, WindowUnder, WithinWindow, BTN_LEFT,
};
use crate::geometry::Position;
use crate::state::{CursorStatus, DriftWm, WmModel};

verus! {

impl WithinWindow {
    /// Whether the pointer is in the upper half of the window.
    pub open spec fn in_top(self) -> bool {
        self.rel.y.lt(self.half.y)
    }

    /// Whether the pointer is in the left half of the window.
    pub open spec fn in_left(self) -> bool {
        self.rel.x.lt(self.half.x)
    }

    /// The edges to resize by: the corner of the quadrant that the pointer is in.
    pub open spec fn edges(self) -> ResizeEdge {
        match (self.in_top(), self.in_left()) {
            (true, true) => ResizeEdge::TopLeft,
            (true, false) => ResizeEdge::TopRight,
            (false, true) => ResizeEdge::BottomLeft,
            (false, false) => ResizeEdge::BottomRight,
        }
    }

    fn resize_edges(&self) -> (r: ResizeEdge)
        ensures
            r == self.edges(),
    {
        let in_top: bool = self.rel.y.less_than(self.half.y);
        let in_left: bool = self.rel.x.less_than(self.half.x);
        match (in_top, in_left) {
            (true, true) => ResizeEdge::TopLeft,
            (true, false) => ResizeEdge::TopRight,
            (false, true) => ResizeEdge::BottomLeft,
            (false, false) => ResizeEdge::BottomRight,
        }
    }
}

/// How a button event goes on.
#[derive(Clone, Copy, Debug, PartialEq, Eq, Structural)]
pub enum ButtonNext {
    /// It has been dealt with.
    Done,
    /// It remains to be seen what was pressed.
    Resolve,
}

/// Where a button was pressed.
#[derive(Clone, Copy, Debug, PartialEq, Eq, Structural)]
pub struct Press {
    pub input: ButtonInput,
    /// The pointer on the canvas, after fullscreen has been left.
    pub canvas: Position,
    /// The same position on the screen.
    pub screen: Position,
}

/// Hands a button event on to the client.
pub open spec fn forward_button(input: ButtonInput) -> Seq<Effect> {
    seq![
        Effect::PointerButton { button: input.button, state: input.state, stamp: input.stamp },
        Effect::PointerFrame,
    ]
}

/// A grab that begins at a press.
pub open spec fn started(press: Press) -> GrabStartData {
    GrabStartData { focus: None, button: press.input.button, location: press.canvas }
}

/// The grab that moves a window.
pub open spec fn move_grab(press: Press, under: WindowUnder) -> MoveSurfaceGrab {
    MoveSurfaceGrab {
        start_data: started(press),
        window: under.window,
        initial_window_location: under.location,
    }
}

/// The grab that pans the viewport.
pub open spec fn pan_grab(press: Press, from_empty_canvas: bool) -> PanGrab {
    PanGrab {
        start_data: started(press),
        last_screen_pos: press.screen,
        start_screen_pos: press.screen,
        from_empty_canvas,
        dragged: false,
    }
}

/// The grab that resizes a window.
pub open spec fn resize_grab(press: Press, under: WindowUnder) -> ResizeSurfaceGrab {
    ResizeSurfaceGrab {
        start_data: started(press),
        window: under.window,
        edges: under.pointer.edges(),
        initial_window_location: under.location,
        initial_window_size: under.size,
        last_window_size: under.size,
    }
}

/// Lets a grab take over the pointer.
pub open spec fn grabbed(press: Press, grab: Grab) -> Effect {
    Effect::SetGrab { grab, serial: press.input.stamp.serial }
}

/// What a press on a window leads to that resizes it.
pub open spec fn resize_effects(press: Press, under: WindowUnder) -> Seq<Effect> {
    seq![
        Effect::StoreResizeState {
            surface: under.surface,
            resize: ResizeState::Resizing {
                edges: under.pointer.edges(),
                initial_window_location: under.location,
                initial_window_size: under.size,
            },
        },
        Effect::MarkResizing { window: under.window },
        grabbed(press, Grab::Resize(resize_grab(press, under))),
    ]
}

/// The state while a window is resized.
pub open spec fn resizing(wm: WmModel, under: WindowUnder) -> WmModel {
    WmModel {
        grab_cursor: true,
        cursor_status: CursorStatus::Named(edge_cursor(under.pointer.edges())),
        ..wm
    }
}

/// What a press does.
pub enum PressOutcome {
    /// The client gets it.
    Forward,
    Move(WindowUnder),
    Resize(WindowUnder),
    Pan { from_empty_canvas: bool },
    /// The window gets focus and comes to the top, and the client gets the press.
    Activate(WindowUnder),
}

/// What a press does. Layer surfaces come first, then bindings, then what a
/// plain click does: on a window, activate it; with the left button on empty
/// canvas, pan.
pub open spec fn press_outcome(
    wm: WmModel,
    button: u32,
    binding: Option<MouseAction>,
    under: Option<WindowUnder>,
) -> PressOutcome {
    if wm.pointer_over_layer {
        PressOutcome::Forward
    } else {
        match (binding, under) {
            (Some(MouseAction::PanViewport), _) => PressOutcome::Pan { from_empty_canvas: false },
            (Some(MouseAction::MoveWindow), Some(window)) => PressOutcome::Move(window),
            (Some(MouseAction::ResizeWindow), Some(window)) => PressOutcome::Resize(window),
            (_, Some(window)) => PressOutcome::Activate(window),
            (_, None) => if button == BTN_LEFT {
                PressOutcome::Pan { from_empty_canvas: true }
            } else {
                PressOutcome::Forward
            },
        }
    }
}

/// The state after a press.
pub open spec fn pressed(wm: WmModel, outcome: PressOutcome) -> WmModel {
    match outcome {
        PressOutcome::Pan { .. } => WmModel { panning: true, ..wm },
        PressOutcome::Resize(under) => resizing(wm, under),
        _ => wm,
    }
}

/// What a press leads to.
pub open spec fn press_effects(press: Press, outcome: PressOutcome) -> Seq<Effect> {
    match outcome {
        PressOutcome::Forward => forward_button(press.input),
        PressOutcome::Move(under) => seq![grabbed(press, Grab::Move(move_grab(press, under)))],
        PressOutcome::Resize(under) => resize_effects(press, under),
        PressOutcome::Pan { from_empty_canvas } => seq![
            grabbed(press, Grab::Pan(pan_grab(press, from_empty_canvas))),
        ],
        PressOutcome::Activate(under) => seq![
            Effect::RaiseWindow { window: under.window },
            Effect::FocusKeyboard { surface: under.surface, serial: press.input.stamp.serial },
        ] + forward_button(press.input),
    }
}

/// The state once a button event has begun.
pub open spec fn begun(wm: WmModel, input: ButtonInput) -> WmModel {
    if input.state is Released {
        wm
    } else {
        WmModel { last_scroll_pan: None, ..wm }
    }
}

/// What a button event leads to at first.
pub open spec fn begun_effects(
    wm: WmModel,
    input: ButtonInput,
    binding: Option<MouseAction>,
) -> Seq<Effect> {
    if input.state is Released {
        forward_button(input)
    } else {
        seq![Effect::StopMomentum] + (if !wm.is_fullscreen() {
            seq![]
        } else if binding is Some {
            seq![Effect::ExitFullscreen]
        } else {
            forward_button(input)
        })
    }
}

/// How a button event goes on at first.
pub open spec fn begun_next(
    wm: WmModel,
    input: ButtonInput,
    binding: Option<MouseAction>,
) -> ButtonNext {
    if input.state is Released || (wm.is_fullscreen() && binding is None) {
        ButtonNext::Done
    } else {
        ButtonNext::Resolve
    }
}

fn button_effects(input: &ButtonInput) -> (effects: Vec<Effect>)
    ensures
        effects@ == forward_button(*input),
{
    let mut effects: Vec<Effect> = Vec::new();
    effects.push(
        Effect::PointerButton { button: input.button, state: input.state, stamp: input.stamp },
    );
    effects.push(Effect::PointerFrame);
    effects
}

impl Press {
    fn start_data(&self) -> (r: GrabStartData)
        ensures
            r == started(*self),
    {
        GrabStartData { focus: None, button: self.input.button, location: self.canvas }
    }

    fn grab(&self, grab: Grab) -> (effects: Vec<Effect>)
        ensures
            effects@ == seq![grabbed(*self, grab)],
    {
        let mut effects: Vec<Effect> = Vec::new();
        effects.push(Effect::SetGrab { grab, serial: self.input.stamp.serial });
        effects
    }
}

impl DriftWm {
    /// Begins to deal with a button event. A press stops the viewport where it
    /// is. In fullscreen, a press that is bound to something leaves it first,
    /// and any other is the client's.
    pub fn on_pointer_button(&mut self, input: &ButtonInput, binding: Option<MouseAction>) -> (r: (
        Vec<Effect>,
        ButtonNext,
    ))
        ensures
            final(self)@ == begun(old(self)@, *input),
            r.0@ == begun_effects(old(self)@, *input, binding),
            r.1 == begun_next(old(self)@, *input, binding),
    {
        if input.state == ButtonState::Released {
            return (button_effects(input), ButtonNext::Done);
        }
        self.last_scroll_pan = None;
        let mut effects: Vec<Effect> = Vec::new();
        effects.push(Effect::StopMomentum);
        if self.has_fullscreen() {
            if binding.is_some() {
                effects.push(Effect::ExitFullscreen);
            } else {
                let mut rest: Vec<Effect> = button_effects(input);
                effects.append(&mut rest);
                return (effects, ButtonNext::Done);
            }
        }
        (effects, ButtonNext::Resolve)
    }

    /// Concludes a press, once it is known which window is under the pointer.
    pub fn resolve_press(
        &mut self,
        press: &Press,
        binding: Option<MouseAction>,
        under: &Option<WindowUnder>,
    ) -> (effects: Vec<Effect>)
        ensures
            final(self)@ == pressed(
                old(self)@,
                press_outcome(old(self)@, press.input.button, binding, *under),
            ),
            effects@ == press_effects(
                *press,
                press_outcome(old(self)@, press.input.button, binding, *under),
            ),
    {
        if self.pointer_over_layer {
            return button_effects(&press.input);
        }
        if let Some(action) = binding {
            match action {
                MouseAction::MoveWindow => {
                    if let Some(window) = under {
                        return press.grab(
                            Grab::Move(
                                MoveSurfaceGrab {
                                    start_data: press.start_data(),
                                    window: window.window,
                                    initial_window_location: window.location,
                                },
                            ),
                        );
                    }
                },
                MouseAction::ResizeWindow => {
                    if let Some(window) = under {
                        return self.start_compositor_resize(press, window);
                    }
                },
                MouseAction::PanViewport => {
                    self.panning = true;
                    return press.grab(Grab::Pan(self.make_pan_grab(press, false)));
                },
                MouseAction::Zoom => {},
            }
        }
        let mut effects: Vec<Effect> = Vec::new();
        match under {
            Some(window) => {
                effects.push(Effect::RaiseWindow { window: window.window });
                effects.push(
                    Effect::FocusKeyboard {
                        surface: window.surface,
                        serial: press.input.stamp.serial,
                    },
                );
            },
            None => {
                if press.input.button == BTN_LEFT {
                    self.panning = true;
                    return press.grab(Grab::Pan(self.make_pan_grab(press, true)));
                }
            },
        }
        let mut rest: Vec<Effect> = button_effects(&press.input);
        effects.append(&mut rest);
        effects
    }

    /// Starts to resize a window by the corner of the quadrant that the pointer
    /// is in.
    pub fn start_compositor_resize(&mut self, press: &Press, window: &WindowUnder) -> (effects: Vec<
        Effect,
    >)
        ensures
            final(self)@ == resizing(old(self)@, *window),
            effects@ == resize_effects(*press, *window),
    {
        let edges: ResizeEdge = window.pointer.resize_edges();
        let mut effects: Vec<Effect> = Vec::new();
        effects.push(
            Effect::StoreResizeState {
                surface: window.surface,
                resize: ResizeState::Resizing {
                    edges,
                    initial_window_location: window.location,
                    initial_window_size: window.size,
                },
            },
        );
        effects.push(Effect::MarkResizing { window: window.window });
        self.grab_cursor = true;
        self.cursor_status = CursorStatus::Named(resize_cursor(edges));
        let mut rest: Vec<Effect> = press.grab(
            Grab::Resize(
                ResizeSurfaceGrab {
                    start_data: press.start_data(),
                    window: window.window,
                    edges,
                    initial_window_location: window.location,
                    initial_window_size: window.size,
                    last_window_size: window.size,
                },
            ),
        );
        effects.append(&mut rest);
        effects
    }

    /// Builds the grab that pans the viewport.
    pub fn make_pan_grab(&self, press: &Press, from_empty_canvas: bool) -> (r: PanGrab)
        ensures
            r == pan_grab(*press, from_empty_canvas),
    {
        PanGrab {
            start_data: press.start_data(),
            last_screen_pos: press.screen,
            start_screen_pos: press.screen,
            from_empty_canvas,
            dragged: false,
        }
    }
}

/// Whether an effect starts a compositor grab.
pub open spec fn starts_grab(effect: Effect) -> bool {
    effect is SetGrab
}

/// Whether an effect lets the client know of a button.
pub open spec fn tells_client(effect: Effect) -> bool {
    effect is PointerButton
}

/// A press either starts a compositor grab or reaches the client, and never both.
pub proof fn law_press_grabs_or_is_forwarded(press: Press, outcome: PressOutcome)
    ensures
        press_effects(press, outcome).any(|e: Effect| starts_grab(e)) != press_effects(
            press,
            outcome,
        ).any(|e: Effect| tells_client(e)),
{
    let effects = press_effects(press, outcome);
    let grab = |e: Effect| starts_grab(e);
    let told = |e: Effect| tells_client(e);
    match outcome {
        PressOutcome::Forward => {
            assert(told(effects[0]));
        },
        PressOutcome::Move(_) => {
            assert(grab(effects[0]));
        },
        PressOutcome::Resize(_) => {
            assert(grab(effects[2]));
        },
        PressOutcome::Pan { .. } => {
            assert(grab(effects[0]));
        },
        PressOutcome::Activate(_) => {
            assert(told(effects[2]));
        },
    }
}

/// Over a layer surface no press starts a compositor grab or changes anything.
pub proof fn law_layers_get_their_presses(
    wm: WmModel,
    press: Press,
    binding: Option<MouseAction>,
    under: Option<WindowUnder>,
)
    requires
        wm.pointer_over_layer,
    ensures
        press_outcome(wm, press.input.button, binding, under) is Forward,
        press_effects(press, press_outcome(wm, press.input.button, binding, under)) == forward_button(
            press.input,
        ),
        pressed(wm, press_outcome(wm, press.input.button, binding, under)) == wm,
{
}

/// Mouse bindings come before what a plain click does, unless they need a
/// window and there is none, or mean scrolling.
pub proof fn law_bindings_come_before_clicks(
    wm: WmModel,
    button: u32,
    action: MouseAction,
    under: Option<WindowUnder>,
)
    requires
        !wm.pointer_over_layer,
    ensures
        action is PanViewport ==> press_outcome(wm, button, Some(action), under) == (PressOutcome::Pan {
            from_empty_canvas: false,
        }),
        action is MoveWindow && under is Some ==> press_outcome(wm, button, Some(action), under)
            == PressOutcome::Move(under->0),
        action is ResizeWindow && under is Some ==> press_outcome(wm, button, Some(action), under)
            == PressOutcome::Resize(under->0),
        action is Zoom || (under is None && !(action is PanViewport)) ==> press_outcome(
            wm,
            button,
            Some(action),
            under,
        ) == press_outcome(wm, button, None, under),
{
}

/// A plain click on a window raises and focuses it, and on empty canvas pans
/// with the left button only.
pub proof fn law_plain_click(wm: WmModel, button: u32, under: Option<WindowUnder>)
    requires
        !wm.pointer_over_layer,
    ensures
        under is Some ==> press_outcome(wm, button, None, under) == PressOutcome::Activate(under->0),
        under is None ==> (press_outcome(wm, button, None, under) is Pan <==> button == BTN_LEFT),
        under is None && button != BTN_LEFT ==> press_outcome(wm, button, None, under) is Forward,
{
}

/// Whether resizing by these edges moves the top edge.
pub open spec fn touches_top(edges: ResizeEdge) -> bool {
    edges is Top || edges is TopLeft || edges is TopRight
}

/// Whether resizing by these edges moves the bottom edge.
pub open spec fn touches_bottom(edges: ResizeEdge) -> bool {
    edges is Bottom || edges is BottomLeft || edges is BottomRight
}

/// Whether resizing by these edges moves the left edge.
pub open spec fn touches_left(edges: ResizeEdge) -> bool {
    edges is Left || edges is TopLeft || edges is BottomLeft
}

/// Whether resizing by these edges moves the right edge.
pub open spec fn touches_right(edges: ResizeEdge) -> bool {
    edges is Right || edges is TopRight || edges is BottomRight
}

/// The edges to resize by are those of the quadrant that the pointer is in: one
/// of top and bottom, and one of left and right.
pub proof fn law_resize_edges_follow_quadrant(pointer: WithinWindow)
    ensures
        touches_top(pointer.edges()) <==> pointer.in_top(),
        touches_bottom(pointer.edges()) <==> !pointer.in_top(),
        touches_left(pointer.edges()) <==> pointer.in_left(),
        touches_right(pointer.edges()) <==> !pointer.in_left(),
{
}

/// A button event that is handed on reaches the client as it came, in one group.
pub proof fn law_forwarded_button_is_unchanged(input: ButtonInput)
    ensures
        forward_button(input).len() == 2,
        forward_button(input)[0] is PointerButton,
        forward_button(input)[0]->PointerButton_button == input.button,
        forward_button(input)[0]->PointerButton_state == input.state,
        forward_button(input)[0]->PointerButton_stamp == input.stamp,
        forward_button(input)[1] is PointerFrame,
{
}

/// A released button changes nothing and is the client's. A pressed one stops the
/// viewport and makes scrolling forget that it panned. In fullscreen it leaves
/// fullscreen if it is bound to anything, and otherwise is the client's.
pub proof fn law_buttons_begin(wm: WmModel, input: ButtonInput, binding: Option<MouseAction>)
    ensures
        ({
            let effects = begun_effects(wm, input, binding);
            let next = begun_next(wm, input, binding);
            let full = wm.fullscreen.len() > 0;
            let client = forward_button(input);
            &&& next is Done <==> input.state is Released || (full && binding is None)
            &&& input.state is Released ==> begun(wm, input) == wm && effects == client
            &&& input.state is Pressed ==> {
                &&& begun(wm, input).last_scroll_pan is None
                &&& begun(wm, input) == (WmModel { last_scroll_pan: None, ..wm })
                &&& effects.len() == (if !full {
                    1int
                } else if binding is Some {
                    2int
                } else {
                    3int
                })
                &&& effects[0] is StopMomentum
                &&& full && binding is Some ==> effects[1] is ExitFullscreen
                &&& full && binding is None ==> effects[1] == client[0] && effects[2] == client[1]
            }
        }),
{
    if input.state is Pressed {
        law_forwarded_button_is_unchanged(input);
    }
}

/// Whether a grab began where and with what a button was pressed, and with no
/// focus.
pub open spec fn began_at(start: GrabStartData, press: Press) -> bool {
    &&& start.focus is None
    &&& start.button == press.input.button
    &&& start.location == press.canvas
}

/// A press bound to moving, on a window, changes nothing by itself and lets that
/// window follow the pointer from where it is.
pub proof fn law_move_binding_moves(wm: WmModel, press: Press, under: WindowUnder)
    requires
        !wm.pointer_over_layer,
    ensures
        ({
            let outcome = press_outcome(
                wm,
                press.input.button,
                Some(MouseAction::MoveWindow),
                Some(under),
            );
            let effects = press_effects(press, outcome);
            &&& pressed(wm, outcome) == wm
            &&& effects.len() == 1
            &&& effects[0] is SetGrab
            &&& effects[0]->SetGrab_serial == press.input.stamp.serial
            &&& effects[0]->SetGrab_grab matches Grab::Move(grab) && {
                &&& began_at(grab.start_data, press)
                &&& grab.window == under.window
                &&& grab.initial_window_location == under.location
            }
        }),
{
}

/// A press bound to resizing, on a window, remembers how the window is resized,
/// tells its client, and lets the edges of the pointer's quadrant follow the
/// pointer. The cursor shows those edges and is the grab's.
pub proof fn law_resize_binding_resizes(wm: WmModel, press: Press, under: WindowUnder)
    requires
        !wm.pointer_over_layer,
    ensures
        ({
            let outcome = press_outcome(
                wm,
                press.input.button,
                Some(MouseAction::ResizeWindow),
                Some(under),
            );
            let after = pressed(wm, outcome);
            let effects = press_effects(press, outcome);
            let edges = under.pointer.edges();
            &&& after == resizing(wm, under)
            &&& effects == resize_effects(press, under)
            &&& after == (WmModel {
                grab_cursor: true,
                cursor_status: CursorStatus::Named(edge_cursor(edges)),
                ..wm
            })
            &&& effects.len() == 3
            &&& effects[0] is StoreResizeState
            &&& effects[0]->StoreResizeState_surface == under.surface
            &&& effects[0]->StoreResizeState_resize matches ResizeState::Resizing {
                edges: stored,
                initial_window_location,
                initial_window_size,
            } && stored == edges && initial_window_location == under.location && initial_window_size
                == under.size
            &&& effects[1] is MarkResizing
            &&& effects[1]->MarkResizing_window == under.window
            &&& effects[2] is SetGrab
            &&& effects[2]->SetGrab_serial == press.input.stamp.serial
            &&& effects[2]->SetGrab_grab matches Grab::Resize(grab) && {
                &&& began_at(grab.start_data, press)
                &&& grab.window == under.window
                &&& grab.edges == edges
                &&& grab.initial_window_location == under.location
                &&& grab.initial_window_size == under.size
                &&& grab.last_window_size == under.size
            }
        }),
{
}

/// A press pans the viewport if it is bound to that, or if it is the left button
/// on empty canvas and bound to nothing that applies there. Only the latter
/// counts as begun on empty canvas, and neither has been dragged yet.
pub proof fn law_presses_pan(
    wm: WmModel,
    press: Press,
    binding: Option<MouseAction>,
    under: Option<WindowUnder>,
)
    requires
        !wm.pointer_over_layer,
    ensures
        ({
            let outcome = press_outcome(wm, press.input.button, binding, under);
            let effects = press_effects(press, outcome);
            let bound = binding == Some(MouseAction::PanViewport);
            &&& outcome is Pan <==> bound || (under is None && press.input.button == 0x110)
            &&& outcome is Pan ==> {
                &&& pressed(wm, outcome) == (WmModel { panning: true, ..wm })
                &&& effects.len() == 1
                &&& effects[0] is SetGrab
                &&& effects[0]->SetGrab_serial == press.input.stamp.serial
                &&& effects[0]->SetGrab_grab matches Grab::Pan(grab) && {
                    &&& began_at(grab.start_data, press)
                    &&& grab.last_screen_pos == press.screen
                    &&& grab.start_screen_pos == press.screen
                    &&& grab.from_empty_canvas == !bound
                    &&& !grab.dragged
                    &&& grab == pan_grab(press, !bound)
                }
            }
        }),
{
}

/// Any other press changes nothing by itself and reaches the client. On a window
/// that window comes to the top and gets keyboard focus first.
pub proof fn law_other_presses_reach_client(
    wm: WmModel,
    press: Press,
    binding: Option<MouseAction>,
    under: Option<WindowUnder>,
)
    requires
        !wm.pointer_over_layer,
        binding != Some(MouseAction::PanViewport),
        under is Some ==> binding is None || binding == Some(MouseAction::Zoom),
        under is None ==> press.input.button != 0x110,
    ensures
        ({
            let outcome = press_outcome(wm, press.input.button, binding, under);
            let effects = press_effects(press, outcome);
            let client = forward_button(press.input);
            &&& pressed(wm, outcome) == wm
            &&& under is None ==> effects == client
            &&& under matches Some(window) ==> {
                &&& effects.len() == 4
                &&& effects[0] is RaiseWindow
                &&& effects[0]->RaiseWindow_window == window.window
                &&& effects[1] is FocusKeyboard
                &&& effects[1]->FocusKeyboard_surface == window.surface
                &&& effects[1]->FocusKeyboard_serial == press.input.stamp.serial
                &&& effects[2] == client[0]
                &&& effects[3] == client[1]
            }
        }),
{
    law_forwarded_button_is_unchanged(press.input);
}

/// The edges to resize by, by where the pointer is: left of the middle or not,
/// and above it or not.
pub proof fn law_resize_corner_is_nearest(pointer: WithinWindow)
    ensures
        pointer.edges() is TopLeft <==> pointer.rel.x.lt(pointer.half.x) && pointer.rel.y.lt(
            pointer.half.y,
        ),
        pointer.edges() is TopRight <==> !pointer.rel.x.lt(pointer.half.x) && pointer.rel.y.lt(
            pointer.half.y,
        ),
        pointer.edges() is BottomLeft <==> pointer.rel.x.lt(pointer.half.x) && !pointer.rel.y.lt(
            pointer.half.y,
        ),
        pointer.edges() is BottomRight <==> !pointer.rel.x.lt(pointer.half.x) && !pointer.rel.y.lt(
            pointer.half.y,
        ),
{
}

/// A grab that pans the viewport begins where the button was pressed, on the
/// canvas and on the screen, has not been dragged, and remembers whether it began
/// on empty canvas.
pub proof fn law_pan_grab_begins_at_press(press: Press, from_empty_canvas: bool)
    ensures
        began_at(pan_grab(press, from_empty_canvas).start_data, press),
        pan_grab(press, from_empty_canvas).start_screen_pos == press.screen,
        pan_grab(press, from_empty_canvas).last_screen_pos == press.screen,
        pan_grab(press, from_empty_canvas).from_empty_canvas == from_empty_canvas,
        !pan_grab(press, from_empty_canvas).dragged,
{
}

/// While a window is resized, the cursor is the grab's and shows the edges, and
/// the rest of the state stays as it was.
pub proof fn law_resizing_shows_edges(wm: WmModel, under: WindowUnder)
    ensures
        resizing(wm, under).grab_cursor,
        resizing(wm, under).cursor_status == CursorStatus::Named(edge_cursor(under.pointer.edges())),
        resizing(wm, under) == (WmModel {
            grab_cursor: true,
            cursor_status: resizing(wm, under).cursor_status,
            ..wm
        }),
{
}

} // verus!
