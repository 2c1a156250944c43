//! Scrolling: forwarding, zooming and panning.
use vstd::prelude::*;

use crate::effect::{AxisFrame, AxisPart, AxisValue, Effect};
use crate::event::{AxisAmount, AxisInput, Stamp, WindowProbe};
use crate::geometry::Position;
use crate::hit::{law_topmost_window_takes_pointer, window_focus};
use crate::scalar::Scalar;
use crate::state::{DriftWm, WmModel};

verus! {

/// How long after scrolling panned the viewport further scrolling goes on
/// doing so, in nanoseconds. A window that slides under the pointer meanwhile
/// does not steal the scroll.
pub const SCROLL_PAN_MEMORY: u64 = 150_000_000;

/// What one axis of a scroll frame holds of what the device reported.
pub open spec fn forwarded_part(amount: AxisAmount) -> AxisPart {
    AxisPart {
        value: match amount.amount {
            Some(v) => Some(AxisValue { amount: v, direction: amount.direction }),
            None => None,
        },
        v120: amount.v120,
    }
}

/// The scroll frame that hands a scroll event on as it is.
pub open spec fn forwarded_frame(input: AxisInput) -> AxisFrame {
    AxisFrame {
        time: input.time,
        source: Some(input.source),
        horizontal: forwarded_part(input.horizontal),
        vertical: forwarded_part(input.vertical),
    }
}

/// The scroll frame that tells a client only that time has passed.
pub open spec fn blank_frame(time: u32) -> AxisFrame {
    AxisFrame {
        time,
        source: None,
        horizontal: AxisPart { value: None, v120: None },
        vertical: AxisPart { value: None, v120: None },
    }
}

fn axis_part(amount: &AxisAmount) -> (r: AxisPart)
    ensures
        r == forwarded_part(*amount),
{
    AxisPart {
        value: match amount.amount {
            Some(v) => Some(AxisValue { amount: v, direction: amount.direction }),
            None => None,
        },
        v120: amount.v120,
    }
}

/// Builds the scroll frame that hands a scroll event on as it is.
pub fn axis_frame(input: &AxisInput) -> (r: AxisFrame)
    ensures
        r == forwarded_frame(*input),
{
    AxisFrame {
        time: input.time,
        source: Some(input.source),
        horizontal: axis_part(&input.horizontal),
        vertical: axis_part(&input.vertical),
    }
}

/// Hands a scroll event on to the client.
pub open spec fn forward_axis(input: AxisInput) -> Seq<Effect> {
    seq![Effect::PointerAxis(forwarded_frame(input)), Effect::PointerFrame]
}

/// Keeps a scroll event from the client.
pub open spec fn swallow_axis(time: u32) -> Seq<Effect> {
    seq![Effect::PointerAxis(blank_frame(time)), Effect::PointerFrame]
}

/// How a scroll event goes on.
#[derive(Clone, Copy, Debug, PartialEq, Eq, Structural)]
pub enum AxisNext {
    /// It has been dealt with.
    Done,
    /// It may zoom.
    Zoom,
    /// It may pan.
    Scroll,
}

/// How a scroll event goes on that may pan.
#[derive(Clone, Copy, Debug, PartialEq, Eq, Structural)]
pub enum ScrollNext {
    /// It has been dealt with.
    Done,
    /// The viewport pans by these amounts, in screen pixels before the
    /// configured scroll speed applies.
    Pan { horizontal: Scalar, vertical: Scalar },
}

/// Whether a scroll event is left to the client from the outset: over a layer
/// surface always, and in fullscreen unless it is bound to zooming.
pub open spec fn axis_is_forwarded(wm: WmModel, bound_to_zoom: bool) -> bool {
    wm.pointer_over_layer || (wm.is_fullscreen() && !bound_to_zoom)
}

/// The amount scrolled on an axis. None counts as zero.
pub open spec fn amount_or_zero(amount: AxisAmount) -> Scalar {
    match amount.amount {
        Some(v) => v,
        None => Scalar { bits: 0 },
    }
}

/// The amount by which to zoom, unless it is zero: what a smooth device
/// reported, or else what its wheel's notches amount to.
pub open spec fn zoom_amount(smooth: Option<Scalar>, notched: Option<Scalar>) -> Option<Scalar> {
    let amount = match (smooth, notched) {
        (Some(v), _) => v,
        (None, Some(v)) => v,
        (None, None) => Scalar { bits: 0 },
    };
    if amount.equal(Scalar { bits: 0 }) {
        None
    } else {
        Some(amount)
    }
}

/// The zoom that scrolling leads to, if it is another than the current one.
pub open spec fn zoom_change(wm: WmModel, scaled: Scalar, min: Scalar, max: Scalar) -> Option<Scalar> {
    let zoom = scaled.clamped(min, max);
    if zoom.equal(wm.zoom) {
        None
    } else {
        Some(zoom)
    }
}

/// What a step of zooming leads to: if nothing is left to do, the scroll event
/// ends there, kept from the client.
pub open spec fn ended_unless(next: Option<Scalar>, time: u32) -> Seq<Effect> {
    if next is None {
        swallow_axis(time)
    } else {
        seq![]
    }
}

/// The state once scrolling has led to a zoom.
pub open spec fn zoomed(wm: WmModel, zoom: Scalar, camera: Position) -> WmModel {
    WmModel {
        overview_return: None,
        camera,
        zoom,
        zoom_target: None,
        camera_target: None,
        ..wm
    }
}

/// What a zoom that scrolling led to entails.
pub open spec fn zoomed_effects(
    wm: WmModel,
    pos: Position,
    windows: Seq<WindowProbe>,
    stamp: Stamp,
) -> Seq<Effect> {
    seq![
        Effect::StopMomentum,
        Effect::UpdateOutput,
        Effect::PointerMotion {
            focus: window_focus(wm.decorations, windows),
            location: pos,
            stamp,
        },
    ] + swallow_axis(stamp.time)
}

/// Whether scrolling panned the viewport a moment ago.
pub open spec fn panned_recently(last: Option<u64>, now: u64) -> bool {
    match last {
        Some(at) => now - at < SCROLL_PAN_MEMORY,
        None => false,
    }
}

/// Whether a scroll event pans the viewport.
pub open spec fn scroll_pans(wm: WmModel, over_window: bool, now: u64) -> bool {
    !over_window || panned_recently(wm.last_scroll_pan, now)
}

/// What a scroll event leads to at first.
pub open spec fn axis_effects(wm: WmModel, input: AxisInput, bound_to_zoom: bool) -> Seq<Effect> {
    if axis_is_forwarded(wm, bound_to_zoom) {
        forward_axis(input)
    } else if wm.is_fullscreen() {
        seq![Effect::ExitFullscreen]
    } else {
        seq![]
    }
}

/// How a scroll event goes on at first.
pub open spec fn axis_next(wm: WmModel, bound_to_zoom: bool) -> AxisNext {
    if axis_is_forwarded(wm, bound_to_zoom) {
        AxisNext::Done
    } else if bound_to_zoom {
        AxisNext::Zoom
    } else {
        AxisNext::Scroll
    }
}

/// The state after a scroll event that is not bound to zooming.
pub open spec fn scrolled(wm: WmModel, over_window: bool, now: u64) -> WmModel {
    WmModel {
        last_scroll_pan: if scroll_pans(wm, over_window, now) {
            Some(now)
        } else {
            wm.last_scroll_pan
        },
        ..wm
    }
}

/// How a scroll event goes on that is not bound to zooming.
pub open spec fn scroll_next(wm: WmModel, input: AxisInput, over_window: bool, now: u64) -> ScrollNext {
    let h = amount_or_zero(input.horizontal);
    let v = amount_or_zero(input.vertical);
    let zero = Scalar { bits: 0 };
    if scroll_pans(wm, over_window, now) && !(h.equal(zero) && v.equal(zero)) {
        ScrollNext::Pan { horizontal: h, vertical: v }
    } else {
        ScrollNext::Done
    }
}

/// What a scroll event leads to that is not bound to zooming.
pub open spec fn scroll_effects(
    wm: WmModel,
    input: AxisInput,
    over_window: bool,
    now: u64,
) -> Seq<Effect> {
    if !scroll_pans(wm, over_window, now) {
        forward_axis(input)
    } else if scroll_next(wm, input, over_window, now) is Done {
        swallow_axis(input.time)
    } else {
        seq![]
    }
}

/// What a scroll event entails once it has panned the viewport.
pub open spec fn panned_effects(
    wm: WmModel,
    pos: Position,
    windows: Seq<WindowProbe>,
    stamp: Stamp,
) -> Seq<Effect> {
    seq![
        Effect::PointerMotion {
            focus: window_focus(wm.decorations, windows),
            location: pos,
            stamp,
        },
    ] + swallow_axis(stamp.time)
}

fn zero_if_none(amount: &AxisAmount) -> (r: Scalar)
    ensures
        r == amount_or_zero(*amount),
{
    match amount.amount {
        Some(v) => v,
        None => Scalar::zero(),
    }
}

/// Keeps a scroll event from the client, who gets an empty frame.
pub fn quiet_axis(time: u32) -> (effects: Vec<Effect>)
    ensures
        effects@ == swallow_axis(time),
{
    let blank: AxisPart = AxisPart { value: None, v120: None };
    let frame: AxisFrame = AxisFrame { time, source: None, horizontal: blank, vertical: blank };
    let mut effects: Vec<Effect> = Vec::new();
    effects.push(Effect::PointerAxis(frame));
    effects.push(Effect::PointerFrame);
    effects
}

/// Hands a scroll event on to the client as it is.
fn loud_axis(input: &AxisInput) -> (effects: Vec<Effect>)
    ensures
        effects@ == forward_axis(*input),
{
    let mut effects: Vec<Effect> = Vec::new();
    effects.push(Effect::PointerAxis(axis_frame(input)));
    effects.push(Effect::PointerFrame);
    effects
}

/// The amount by which a scroll event that is bound to zooming zooms.
/// `smooth` is what a smooth device reported, `notched` what the notches of a
/// wheel amount to.
pub fn zoom_scroll_amount(smooth: Option<Scalar>, notched: Option<Scalar>) -> (r: Option<Scalar>)
    ensures
        r == zoom_amount(smooth, notched),
{
    let amount: Scalar = match smooth {
        Some(v) => v,
        None => match notched {
            Some(v) => v,
            None => Scalar::zero(),
        },
    };
    if amount.equals(Scalar::zero()) {
        None
    } else {
        Some(amount)
    }
}

/// Begins to zoom by a scroll event that is bound to it, and gives the amount to
/// zoom by. Without one the scroll event ends here, kept from the client.
pub fn begin_zoom(smooth: Option<Scalar>, notched: Option<Scalar>, time: u32) -> (r: (
    Vec<Effect>,
    Option<Scalar>,
))
    ensures
        r.0@ == ended_unless(zoom_amount(smooth, notched), time),
        r.1 == zoom_amount(smooth, notched),
{
    let amount: Option<Scalar> = zoom_scroll_amount(smooth, notched);
    if amount.is_none() {
        (quiet_axis(time), None)
    } else {
        (Vec::new(), amount)
    }
}

impl DriftWm {
    /// Begins to deal with a scroll event. `bound_to_zoom` says whether
    /// scrolling is bound to zooming under the modifiers held.
    pub fn on_pointer_axis(&self, input: &AxisInput, bound_to_zoom: bool) -> (r: (
        Vec<Effect>,
        AxisNext,
    ))
        ensures
            r.0@ == axis_effects(self@, *input, bound_to_zoom),
            r.1 == axis_next(self@, bound_to_zoom),
    {
        if self.pointer_over_layer {
            return (loud_axis(input), AxisNext::Done);
        }
        let mut effects: Vec<Effect> = Vec::new();
        if self.has_fullscreen() {
            if bound_to_zoom {
                effects.push(Effect::ExitFullscreen);
            } else {
                return (loud_axis(input), AxisNext::Done);
            }
        }
        if bound_to_zoom {
            (effects, AxisNext::Zoom)
        } else {
            (effects, AxisNext::Scroll)
        }
    }

    /// The zoom that scrolling leads to, if it is another than the current one.
    /// `scaled` is the current zoom multiplied by the scrolled factor.
    pub fn zoom_after_scroll(&self, scaled: Scalar, min: Scalar, max: Scalar) -> (r: Option<Scalar>)
        requires
            min.le(max),
        ensures
            r == zoom_change(self@, scaled, min, max),
    {
        let zoom: Scalar = scaled.clamp(min, max);
        if zoom.equals(self.zoom) {
            None
        } else {
            Some(zoom)
        }
    }

    /// Goes on with zooming, and gives the zoom to take over. If the zoom stays
    /// as it is, the scroll event ends here, kept from the client. `scaled` is
    /// the current zoom multiplied by the scrolled factor.
    pub fn zoom_scrolled(&self, scaled: Scalar, min: Scalar, max: Scalar, time: u32) -> (r: (
        Vec<Effect>,
        Option<Scalar>,
    ))
        requires
            min.le(max),
        ensures
            r.0@ == ended_unless(zoom_change(self@, scaled, min, max), time),
            r.1 == zoom_change(self@, scaled, min, max),
    {
        let zoom: Option<Scalar> = self.zoom_after_scroll(scaled, min, max);
        if zoom.is_none() {
            (quiet_axis(time), None)
        } else {
            (Vec::new(), zoom)
        }
    }

    /// Takes over a zoom that scrolling led to, with the camera that keeps the
    /// pointer in place, and lets the pointer find its focus anew at its
    /// unchanged position on the canvas.
    pub fn apply_scroll_zoom(
        &mut self,
        zoom: Scalar,
        camera: Position,
        pos: Position,
        windows: &Vec<WindowProbe>,
        stamp: Stamp,
    ) -> (effects: Vec<Effect>)
        ensures
            final(self)@ == zoomed(old(self)@, zoom, camera),
            effects@ == zoomed_effects(old(self)@, pos, windows@, stamp),
    {
        self.overview_return = None;
        self.camera = camera;
        self.zoom = zoom;
        self.zoom_target = None;
        self.camera_target = None;
        let mut effects: Vec<Effect> = Vec::new();
        effects.push(Effect::StopMomentum);
        effects.push(Effect::UpdateOutput);
        effects.push(
            Effect::PointerMotion { focus: self.surface_under(windows), location: pos, stamp },
        );
        let mut rest: Vec<Effect> = quiet_axis(stamp.time);
        effects.append(&mut rest);
        effects
    }

    /// Goes on with a scroll event that is not bound to zooming. It pans the
    /// viewport over empty canvas, or shortly after it did so; elsewhere it is
    /// the client's. `now` is in nanoseconds since the start.
    pub fn scroll(&mut self, input: &AxisInput, over_window: bool, now: u64) -> (r: (
        Vec<Effect>,
        ScrollNext,
    ))
        ensures
            final(self)@ == scrolled(old(self)@, over_window, now),
            r.0@ == scroll_effects(old(self)@, *input, over_window, now),
            r.1 == scroll_next(old(self)@, *input, over_window, now),
    {
        let recent: bool = match self.last_scroll_pan {
            Some(at) => now < at || now - at < SCROLL_PAN_MEMORY,
            None => false,
        };
        if over_window && !recent {
            return (loud_axis(input), ScrollNext::Done);
        }
        self.last_scroll_pan = Some(now);
        let horizontal: Scalar = zero_if_none(&input.horizontal);
        let vertical: Scalar = zero_if_none(&input.vertical);
        if horizontal.equals(Scalar::zero()) && vertical.equals(Scalar::zero()) {
            (quiet_axis(input.time), ScrollNext::Done)
        } else {
            (Vec::new(), ScrollNext::Pan { horizontal, vertical })
        }
    }

    /// Concludes a scroll event once it has panned the viewport: the pointer
    /// moves along on the canvas, and so stays in place on the screen.
    pub fn conclude_scroll_pan(&self, pos: Position, windows: &Vec<WindowProbe>, stamp: Stamp) -> (effects:
        Vec<Effect>)
        ensures
            effects@ == panned_effects(self@, pos, windows@, stamp),
    {
        let mut effects: Vec<Effect> = Vec::new();
        effects.push(
            Effect::PointerMotion { focus: self.surface_under(windows), location: pos, stamp },
        );
        let mut rest: Vec<Effect> = quiet_axis(stamp.time);
        effects.append(&mut rest);
        effects
    }
}

/// Once scrolling pans, it goes on panning over windows too, as long as no
/// pause lasts as long as the memory of it.
pub proof fn law_scroll_pan_is_not_stolen(
    wm: WmModel,
    over_window: bool,
    now: u64,
    then_over_window: bool,
    later: u64,
)
    requires
        scroll_pans(wm, over_window, now),
        later - now < SCROLL_PAN_MEMORY,
    ensures
        scroll_pans(WmModel { last_scroll_pan: Some(now), ..wm }, then_over_window, later),
{
}

/// All that a scroll event bound to zooming leads to, from its first step to its
/// last. `scaled` is the current zoom multiplied by the scrolled factor.
pub open spec fn zoom_scroll_effects(
    wm: WmModel,
    amount: Option<Scalar>,
    scaled: Scalar,
    min: Scalar,
    max: Scalar,
    pos: Position,
    windows: Seq<WindowProbe>,
    stamp: Stamp,
) -> Seq<Effect> {
    ended_unless(amount, stamp.time) + (if amount is None {
        seq![]
    } else {
        let zoom = zoom_change(wm, scaled, min, max);
        ended_unless(zoom, stamp.time) + (if zoom is None {
            seq![]
        } else {
            zoomed_effects(wm, pos, windows, stamp)
        })
    })
}

/// However a scroll event bound to zooming comes out, it is kept from the
/// client, who gets one empty frame at the very end. If there is no amount to
/// zoom by, or the zoom stays as it is, nothing else happens.
pub proof fn law_zoom_scroll_is_swallowed(
    wm: WmModel,
    amount: Option<Scalar>,
    scaled: Scalar,
    min: Scalar,
    max: Scalar,
    pos: Position,
    windows: Seq<WindowProbe>,
    stamp: Stamp,
)
    ensures
        ({
            let effects = zoom_scroll_effects(wm, amount, scaled, min, max, pos, windows, stamp);
            &&& effects.len() >= 2
            &&& effects.skip(effects.len() - 2) == swallow_axis(stamp.time)
            &&& forall|i: int|
                0 <= i < effects.len() - 2 ==> !(#[trigger] effects[i] is PointerAxis)
            &&& amount is None || zoom_change(wm, scaled, min, max) is None ==> effects
                == swallow_axis(stamp.time)
        }),
{
    let effects = zoom_scroll_effects(wm, amount, scaled, min, max, pos, windows, stamp);
    assert(effects.skip(effects.len() - 2) =~= swallow_axis(stamp.time));
    if amount is None || zoom_change(wm, scaled, min, max) is None {
        assert(effects =~= swallow_axis(stamp.time));
    }
}

/// A zoom that scrolling leads to is within its bounds and another than before,
/// and taking it over leaves no zoom, camera or overview to go to.
pub proof fn law_scroll_zoom_is_bounded(
    wm: WmModel,
    scaled: Scalar,
    min: Scalar,
    max: Scalar,
    camera: Position,
)
    requires
        !scaled.nan(),
        min.le(max),
        zoom_change(wm, scaled, min, max) is Some,
    ensures
        ({
            let after = zoomed(wm, zoom_change(wm, scaled, min, max)->0, camera);
            &&& min.le(after.zoom)
            &&& after.zoom.le(max)
            &&& !after.zoom.equal(wm.zoom)
            &&& after.camera == camera
            &&& after.zoom_target is None
            &&& after.camera_target is None
            &&& after.overview_return is None
        }),
{
}

/// What a smooth device reported comes before the notches of a wheel, and equal
/// amounts zoom alike, whichever of the two they come from.
pub proof fn law_smooth_scrolling_comes_first(
    amount: Scalar,
    notched: Option<Scalar>,
    other: Option<Scalar>,
)
    ensures
        zoom_amount(Some(amount), notched) == zoom_amount(Some(amount), other),
        zoom_amount(None, Some(amount)) == zoom_amount(Some(amount), other),
{
}

/// Over a window, scrolling is the client's once the last pan is long past.
pub proof fn law_scroll_over_window_is_forwarded(wm: WmModel, now: u64)
    requires
        wm.last_scroll_pan is None || now - wm.last_scroll_pan->0 >= SCROLL_PAN_MEMORY,
    ensures
        !scroll_pans(wm, true, now),
{
}

/// Whether a scroll frame says of one axis just what the device reported.
pub open spec fn says_of_axis(amount: AxisAmount, part: AxisPart) -> bool {
    &&& part.value is Some <==> amount.amount is Some
    &&& part.value is Some ==> part.value->0.amount == amount.amount->0 && part.value->0.direction
        == amount.direction
    &&& part.v120 == amount.v120
}

/// Whether a scroll frame hands a scroll event on as it came.
pub open spec fn hands_on(input: AxisInput, frame: AxisFrame) -> bool {
    &&& frame.time == input.time
    &&& frame.source == Some(input.source)
    &&& says_of_axis(input.horizontal, frame.horizontal)
    &&& says_of_axis(input.vertical, frame.vertical)
}

/// Whether a scroll frame holds nothing but a time.
pub open spec fn is_blank(frame: AxisFrame, time: u32) -> bool {
    &&& frame.time == time
    &&& frame.source is None
    &&& frame.horizontal.value is None
    &&& frame.horizontal.v120 is None
    &&& frame.vertical.value is None
    &&& frame.vertical.v120 is None
}

/// A forwarded scroll event reaches the client as it came, axis by axis, in one
/// frame.
pub proof fn law_forwarding_hands_on(input: AxisInput)
    ensures
        hands_on(input, forwarded_frame(input)),
        forward_axis(input).len() == 2,
        forward_axis(input)[0] is PointerAxis,
        hands_on(input, forward_axis(input)[0]->PointerAxis_0),
        forward_axis(input)[1] is PointerFrame,
{
}

/// A scroll event that is kept from the client leaves it one empty frame.
pub proof fn law_swallowing_sends_blank(time: u32)
    ensures
        swallow_axis(time).len() == 2,
        swallow_axis(time)[0] is PointerAxis,
        is_blank(swallow_axis(time)[0]->PointerAxis_0, time),
        swallow_axis(time)[1] is PointerFrame,
{
}

/// Over a layer of the screen scrolling is the client's. In fullscreen it is too,
/// unless it is bound to zooming and so leaves fullscreen. Otherwise the binding
/// alone decides between zooming and panning.
pub proof fn law_scrolling_is_divided(wm: WmModel, input: AxisInput, bound_to_zoom: bool)
    ensures
        ({
            let effects = axis_effects(wm, input, bound_to_zoom);
            let next = axis_next(wm, bound_to_zoom);
            let full = wm.fullscreen.len() > 0;
            &&& next is Done <==> wm.pointer_over_layer || (full && !bound_to_zoom)
            &&& next is Zoom <==> !wm.pointer_over_layer && bound_to_zoom
            &&& next is Scroll <==> !wm.pointer_over_layer && !full && !bound_to_zoom
            &&& next is Done ==> effects.len() == 2 && effects[0] is PointerAxis && hands_on(
                input,
                effects[0]->PointerAxis_0,
            ) && effects[1] is PointerFrame
            &&& next is Zoom && full ==> effects.len() == 1 && effects[0] is ExitFullscreen
            &&& !(next is Done) && !full ==> effects.len() == 0
        }),
{
    law_forwarding_hands_on(input);
}

/// Scrolling zooms by what a smooth device reported, or else by what the notches
/// of a wheel amount to, unless that is one of the two zeros.
pub proof fn law_zoom_amount_cases(smooth: Option<Scalar>, notched: Option<Scalar>)
    ensures
        ({
            let source = if smooth is Some { smooth } else { notched };
            &&& source is None ==> zoom_amount(smooth, notched) is None
            &&& source is Some ==> (zoom_amount(smooth, notched) is None <==> source->0.bits == 0
                || source->0.bits == 0x8000_0000_0000_0000)
            &&& zoom_amount(smooth, notched) is Some ==> zoom_amount(smooth, notched) == source
        }),
{
}

/// Scrolling leads to the scaled zoom within its bounds: as it is, at the lower
/// bound or at the upper one. It leads nowhere exactly if that is the current one.
pub proof fn law_zoom_goes_to_bounds(wm: WmModel, scaled: Scalar, min: Scalar, max: Scalar)
    requires
        min.le(max),
    ensures
        ({
            let change = zoom_change(wm, scaled, min, max);
            &&& scaled.nan() ==> change == Some(scaled)
            &&& min.le(scaled) && scaled.le(max) ==> change == (if scaled.equal(wm.zoom) {
                None
            } else {
                Some(scaled)
            })
            &&& scaled.lt(min) ==> change == (if min.equal(wm.zoom) {
                None
            } else {
                Some(min)
            })
            &&& max.lt(scaled) ==> change == (if max.equal(wm.zoom) {
                None
            } else {
                Some(max)
            })
        }),
{
}

/// A step of zooming that leaves nothing to do ends with an empty frame, and any
/// other leads to nothing by itself.
pub proof fn law_zoom_steps_end_or_go_on(next: Option<Scalar>, time: u32)
    ensures
        next is Some ==> ended_unless(next, time).len() == 0,
        next is None ==> {
            &&& ended_unless(next, time).len() == 2
            &&& ended_unless(next, time)[0] is PointerAxis
            &&& is_blank(ended_unless(next, time)[0]->PointerAxis_0, time)
            &&& ended_unless(next, time)[1] is PointerFrame
        },
{
    law_swallowing_sends_blank(time);
}

/// Taking over a zoom changes the view, and drops what the view was on its way
/// to, and nothing else.
pub proof fn law_zoom_changes_view_only(wm: WmModel, zoom: Scalar, camera: Position)
    ensures
        zoomed(wm, zoom, camera).zoom == zoom,
        zoomed(wm, zoom, camera).camera == camera,
        zoomed(wm, zoom, camera).zoom_target is None,
        zoomed(wm, zoom, camera).camera_target is None,
        zoomed(wm, zoom, camera).overview_return is None,
        zoomed(wm, zoom, camera) == (WmModel {
            zoom,
            camera,
            zoom_target: None,
            camera_target: None,
            overview_return: None,
            ..wm
        }),
{
}

/// Zooming stops the viewport, updates the outputs, and then moves the pointer
/// exactly once: to the given position, and to the topmost window there that
/// offers a surface. It ends with an empty frame.
pub proof fn law_zoom_keeps_pointer_on_window(
    wm: WmModel,
    pos: Position,
    windows: Seq<WindowProbe>,
    stamp: Stamp,
    i: int,
)
    ensures
        ({
            let effects = zoomed_effects(wm, pos, windows, stamp);
            &&& effects.len() == 5
            &&& effects[0] is StopMomentum
            &&& effects[1] is UpdateOutput
            &&& effects[2] is PointerMotion
            &&& effects[2]->PointerMotion_location == pos
            &&& effects[2]->PointerMotion_stamp == stamp
            &&& effects[2]->PointerMotion_focus == window_focus(wm.decorations, windows)
            &&& 0 <= i < windows.len() && windows[i].focus(wm.decorations) is Some
                ==> effects[2]->PointerMotion_focus is Some
            &&& 0 <= i < windows.len() && windows[i].focus(wm.decorations) is Some && (forall|j: int|
                i < j < windows.len() ==> (#[trigger] windows[j]).focus(wm.decorations) is None)
                ==> effects[2]->PointerMotion_focus == windows[i].focus(wm.decorations)
            &&& effects[3] is PointerAxis
            &&& is_blank(effects[3]->PointerAxis_0, stamp.time)
            &&& effects[4] is PointerFrame
        }),
{
    law_swallowing_sends_blank(stamp.time);
    law_topmost_window_takes_pointer(wm.decorations, windows);
}

/// Scrolling pans over empty canvas always, and over a window exactly if it
/// panned less than 150 milliseconds ago.
pub proof fn law_scroll_pans_exactly(wm: WmModel, over_window: bool, now: u64)
    ensures
        !over_window ==> scroll_pans(wm, over_window, now),
        over_window && wm.last_scroll_pan is None ==> !scroll_pans(wm, over_window, now),
        over_window && wm.last_scroll_pan is Some ==> (scroll_pans(wm, over_window, now) <==> now
            < wm.last_scroll_pan->0 + 150_000_000),
{
}

/// Scrolling that pans notes when it did, and is kept from the client. It pans by
/// the amounts reported, where none counts as zero, unless both are zeros.
/// Scrolling that does not pan changes nothing, and reaches the client.
pub proof fn law_scrolling_pans_or_is_forwarded(
    wm: WmModel,
    input: AxisInput,
    over_window: bool,
    now: u64,
)
    ensures
        ({
            let pans = scroll_pans(wm, over_window, now);
            let effects = scroll_effects(wm, input, over_window, now);
            let next = scroll_next(wm, input, over_window, now);
            let still_h = match input.horizontal.amount {
                Some(v) => v.bits == 0 || v.bits == 0x8000_0000_0000_0000,
                None => true,
            };
            let still_v = match input.vertical.amount {
                Some(v) => v.bits == 0 || v.bits == 0x8000_0000_0000_0000,
                None => true,
            };
            &&& scrolled(wm, over_window, now) == (WmModel {
                last_scroll_pan: scrolled(wm, over_window, now).last_scroll_pan,
                ..wm
            })
            &&& pans ==> scrolled(wm, over_window, now).last_scroll_pan == Some(now)
            &&& !pans ==> scrolled(wm, over_window, now) == wm
            &&& next is Pan <==> pans && !(still_h && still_v)
            &&& next is Pan ==> effects.len() == 0
            &&& next is Pan && input.horizontal.amount is Some ==> next->Pan_horizontal
                == input.horizontal.amount->0
            &&& next is Pan && input.horizontal.amount is None ==> next->Pan_horizontal.bits == 0
            &&& next is Pan && input.vertical.amount is Some ==> next->Pan_vertical
                == input.vertical.amount->0
            &&& next is Pan && input.vertical.amount is None ==> next->Pan_vertical.bits == 0
            &&& next is Done ==> effects.len() == 2 && effects[0] is PointerAxis && effects[1] is PointerFrame
            &&& next is Done && pans ==> is_blank(effects[0]->PointerAxis_0, input.time)
            &&& next is Done && !pans ==> hands_on(input, effects[0]->PointerAxis_0)
        }),
{
    law_swallowing_sends_blank(input.time);
    law_forwarding_hands_on(input);
}

/// Once the viewport has panned, the pointer moves along exactly once: to the
/// given position, and to the topmost window there that offers a surface. The
/// scroll event ends with an empty frame.
pub proof fn law_pan_moves_pointer_along(
    wm: WmModel,
    pos: Position,
    windows: Seq<WindowProbe>,
    stamp: Stamp,
    i: int,
)
    ensures
        ({
            let effects = panned_effects(wm, pos, windows, stamp);
            &&& effects.len() == 3
            &&& effects[0] is PointerMotion
            &&& effects[0]->PointerMotion_location == pos
            &&& effects[0]->PointerMotion_stamp == stamp
            &&& effects[0]->PointerMotion_focus == window_focus(wm.decorations, windows)
            &&& 0 <= i < windows.len() && windows[i].focus(wm.decorations) is Some
                ==> effects[0]->PointerMotion_focus is Some
            &&& effects[1] is PointerAxis
            &&& is_blank(effects[1]->PointerAxis_0, stamp.time)
            &&& effects[2] is PointerFrame
        }),
{
    law_swallowing_sends_blank(stamp.time);
    law_topmost_window_takes_pointer(wm.decorations, windows);
}

} // verus!
