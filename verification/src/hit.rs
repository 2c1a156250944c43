//! Finding what lies under a point.
use vstd::prelude::*;

use crate::effect::{Focus, Origin};
use crate::event::{
    CanvasLayerProbe, LayerProbe, LayerProbes, ResizeEdge, SurfaceHit, WindowProbe, WlrLayer,
};
use crate::geometry::{saturated, IntPoint};
use crate::state::{Decoration, DriftWm};

verus! {

broadcast use vstd::std_specs::hash::group_hash_axioms;

/// A part of a decoration.
#[derive(Clone, Copy, Debug, PartialEq, Eq, Structural)]
pub enum DecorationHit {
    CloseButton,
    TitleBar,
    ResizeBorder(ResizeEdge),
}

/// A window whose decoration lies under a point.
#[derive(Clone, Copy, Debug, PartialEq, Eq, Structural)]
pub struct DecorationUnder {
    pub window: u64,
    pub surface: u64,
    pub hit: DecorationHit,
}

/// The answer of the first item that has one.
pub open spec fn first_answer<T, R>(items: Seq<T>, ask: spec_fn(T) -> Option<R>) -> Option<R>
    decreases items.len(),
{
    if items.len() == 0 {
        None
    } else if ask(items.first()) is Some {
        ask(items.first())
    } else {
        first_answer(items.drop_first(), ask)
    }
}

/// The answer of the last item that has one.
pub open spec fn last_answer<T, R>(items: Seq<T>, ask: spec_fn(T) -> Option<R>) -> Option<R>
    decreases items.len(),
{
    if items.len() == 0 {
        None
    } else if ask(items.last()) is Some {
        ask(items.last())
    } else {
        last_answer(items.drop_last(), ask)
    }
}

impl WindowProbe {
    /// Whether the point is on some part of the decoration, if the window has one.
    pub open spec fn on_decoration(self) -> bool {
        self.on_close_button || self.on_title_bar || self.on_resize_border is Some
    }

    /// The surface of this window that takes the pointer at the point. Content
    /// comes before the decoration.
    pub open spec fn focus(self, decorations: Map<u64, Decoration>) -> Option<Focus> {
        match self.location {
            Some(location) if !self.no_focus => match self.content {
                Some(hit) => Some(Focus {
                    surface: hit.surface,
                    origin: Origin::Fixed(hit.location.sum(location.difference(self.geometry_offset))),
                }),
                None => if decorations.contains_key(self.surface) && self.on_decoration() {
                    Some(Focus { surface: self.surface, origin: Origin::Fixed(location) })
                } else {
                    None
                },
            },
            _ => None,
        }
    }

    /// The part of this window's decoration at the point. The close button
    /// comes before the title bar, and both before the resize border.
    pub open spec fn decoration(self, decorations: Map<u64, Decoration>) -> Option<DecorationUnder> {
        if !decorations.contains_key(self.surface) || self.location is None || !self.on_decoration() {
            None
        } else {
            Some(DecorationUnder {
                window: self.window,
                surface: self.surface,
                hit: if self.on_close_button {
                    DecorationHit::CloseButton
                } else if self.on_title_bar {
                    DecorationHit::TitleBar
                } else {
                    DecorationHit::ResizeBorder(self.on_resize_border->0)
                },
            })
        }
    }
}

/// The surface that the topmost window at a point offers to the pointer.
pub open spec fn window_focus(decorations: Map<u64, Decoration>, windows: Seq<WindowProbe>) -> Option<
    Focus,
> {
    last_answer(windows, |w: WindowProbe| w.focus(decorations))
}

/// The decoration of the topmost decorated window at a point.
pub open spec fn window_decoration(
    decorations: Map<u64, Decoration>,
    windows: Seq<WindowProbe>,
) -> Option<DecorationUnder> {
    last_answer(windows, |w: WindowProbe| w.decoration(decorations))
}

impl CanvasLayerProbe {
    /// The surface of this canvas layer that takes the pointer at the point.
    pub open spec fn focus(self) -> Option<Focus> {
        match (self.position, self.hit) {
            (Some(position), Some(hit)) if !self.no_focus => Some(Focus {
                surface: hit.surface,
                origin: Origin::Fixed(hit.location.sum(position)),
            }),
            _ => None,
        }
    }
}

/// The surface that the first canvas layer at a point offers to the pointer.
pub open spec fn canvas_layer_focus(layers: Seq<CanvasLayerProbe>) -> Option<Focus> {
    first_answer(layers, |l: CanvasLayerProbe| l.focus())
}

impl LayerProbe {
    /// The surface of this layer that takes the pointer. A layer surface that
    /// has not been arranged counts as being at the screen's corner.
    pub open spec fn focus(self) -> Option<Focus> {
        match self.hit {
            Some(hit) => Some(Focus {
                surface: hit.surface,
                origin: Origin::OnScreen(hit.location.sum(match self.location {
                    Some(location) => location,
                    None => IntPoint { x: 0, y: 0 },
                })),
            }),
            None => None,
        }
    }
}

impl LayerProbes {
    /// What lies under the point on one layer.
    pub open spec fn on(self, layer: WlrLayer) -> Option<LayerProbe> {
        match layer {
            WlrLayer::Background => self.background,
            WlrLayer::Bottom => self.bottom,
            WlrLayer::Top => self.top,
            WlrLayer::Overlay => self.overlay,
        }
    }

    /// The surface of one layer that takes the pointer.
    pub open spec fn focus_on(self, layer: WlrLayer) -> Option<Focus> {
        match self.on(layer) {
            Some(probe) => probe.focus(),
            None => None,
        }
    }

    fn get(&self, layer: WlrLayer) -> (r: Option<LayerProbe>)
        ensures
            r == self.on(layer),
    {
        match layer {
            WlrLayer::Background => self.background,
            WlrLayer::Bottom => self.bottom,
            WlrLayer::Top => self.top,
            WlrLayer::Overlay => self.overlay,
        }
    }
}

/// The surface that the first of some layers offers to the pointer.
pub open spec fn layer_focus(probes: LayerProbes, layers: Seq<WlrLayer>) -> Option<Focus> {
    first_answer(layers, |l: WlrLayer| probes.focus_on(l))
}

/// Where a window's own surface begins on the canvas, given where its geometry
/// begins on the canvas and within the surface. Clients may draw shadows around
/// the geometry.
pub fn surface_origin(location: IntPoint, geometry_offset: IntPoint) -> (r: IntPoint)
    ensures
        r == location.difference(geometry_offset),
        r.x == saturated(location.x - geometry_offset.x),
        r.y == saturated(location.y - geometry_offset.y),
{
    location.minus(geometry_offset)
}

impl DriftWm {
    /// The surface that takes the pointer among the windows at a point. A
    /// higher window's content comes before a lower window's decoration.
    pub fn surface_under(&self, windows: &Vec<WindowProbe>) -> (r: Option<Focus>)
        ensures
            r == window_focus(self@.decorations, windows@),
    {
        let ghost ask = |w: WindowProbe| w.focus(self@.decorations);
        let mut i: usize = windows.len();
        assert(windows@.take(i as int) == windows@);
        while i > 0
            invariant
                i <= windows.len(),
                ask == (|w: WindowProbe| w.focus(self@.decorations)),
                last_answer(windows@, ask) == last_answer(windows@.take(i as int), ask),
            decreases i,
        {
            let w: WindowProbe = windows[i - 1];
            proof {
                assert(windows@.take(i as int).last() == w);
                assert(windows@.take(i as int).drop_last() =~= windows@.take(i - 1));
                assert(ask(w) == w.focus(self@.decorations));
            }
            i = i - 1;
            if w.no_focus {
                continue;
            }
            let location: IntPoint = match w.location {
                Some(location) => location,
                None => continue,
            };
            let origin: IntPoint = surface_origin(location, w.geometry_offset);
            if let Some(hit) = w.content {
                return Some(Focus {
                    surface: hit.surface,
                    origin: Origin::Fixed(hit.location.plus(origin)),
                });
            }
            if self.decorations.contains_key(&w.surface) {
                if w.on_close_button || w.on_title_bar || w.on_resize_border.is_some() {
                    return Some(Focus { surface: w.surface, origin: Origin::Fixed(location) });
                }
            }
        }
        None
    }

    /// The decoration under a point: whose it is, and which part of it.
    pub fn decoration_under(&self, windows: &Vec<WindowProbe>) -> (r: Option<DecorationUnder>)
        ensures
            r == window_decoration(self@.decorations, windows@),
    {
        let ghost ask = |w: WindowProbe| w.decoration(self@.decorations);
        let mut i: usize = windows.len();
        assert(windows@.take(i as int) == windows@);
        while i > 0
            invariant
                i <= windows.len(),
                ask == (|w: WindowProbe| w.decoration(self@.decorations)),
                last_answer(windows@, ask) == last_answer(windows@.take(i as int), ask),
            decreases i,
        {
            let w: WindowProbe = windows[i - 1];
            proof {
                assert(windows@.take(i as int).last() == w);
                assert(windows@.take(i as int).drop_last() =~= windows@.take(i - 1));
                assert(ask(w) == w.decoration(self@.decorations));
            }
            i = i - 1;
            if !self.decorations.contains_key(&w.surface) {
                continue;
            }
            if w.location.is_none() {
                continue;
            }
            if w.on_close_button {
                return Some(DecorationUnder {
                    window: w.window,
                    surface: w.surface,
                    hit: DecorationHit::CloseButton,
                });
            }
            if w.on_title_bar {
                return Some(DecorationUnder {
                    window: w.window,
                    surface: w.surface,
                    hit: DecorationHit::TitleBar,
                });
            }
            if let Some(edge) = w.on_resize_border {
                return Some(DecorationUnder {
                    window: w.window,
                    surface: w.surface,
                    hit: DecorationHit::ResizeBorder(edge),
                });
            }
        }
        None
    }

    /// The layer surface placed on the canvas that takes the pointer at a point.
    pub fn canvas_layer_under(&self, layers: &Vec<CanvasLayerProbe>) -> (r: Option<Focus>)
        ensures
            r == canvas_layer_focus(layers@),
    {
        let ghost ask = |l: CanvasLayerProbe| l.focus();
        let mut i: usize = 0;
        assert(layers@.skip(0) == layers@);
        while i < layers.len()
            invariant
                i <= layers.len(),
                ask == (|l: CanvasLayerProbe| l.focus()),
                first_answer(layers@, ask) == first_answer(layers@.skip(i as int), ask),
            decreases layers.len() - i,
        {
            let layer: CanvasLayerProbe = layers[i];
            proof {
                assert(layers@.skip(i as int).first() == layer);
                assert(layers@.skip(i as int).drop_first() =~= layers@.skip(i + 1));
                assert(ask(layer) == layer.focus());
            }
            i = i + 1;
            if layer.no_focus {
                continue;
            }
            let position: IntPoint = match layer.position {
                Some(position) => position,
                None => continue,
            };
            if let Some(hit) = layer.hit {
                return Some(Focus {
                    surface: hit.surface,
                    origin: Origin::Fixed(hit.location.plus(position)),
                });
            }
        }
        None
    }

    /// The layer surface of the screen that takes the pointer, of the given
    /// layers in order.
    pub fn layer_surface_under(&self, probes: &LayerProbes, layers: &[WlrLayer]) -> (r: Option<Focus>)
        ensures
            r == layer_focus(*probes, layers@),
    {
        let ghost ask = |l: WlrLayer| probes.focus_on(l);
        let mut i: usize = 0;
        assert(layers@.skip(0) == layers@);
        while i < layers.len()
            invariant
                i <= layers.len(),
                ask == (|l: WlrLayer| probes.focus_on(l)),
                first_answer(layers@, ask) == first_answer(layers@.skip(i as int), ask),
            decreases layers.len() - i,
        {
            let layer: WlrLayer = layers[i];
            proof {
                assert(layers@.skip(i as int).first() == layer);
                assert(layers@.skip(i as int).drop_first() =~= layers@.skip(i + 1));
                assert(ask(layer) == probes.focus_on(layer));
            }
            i = i + 1;
            if let Some(probe) = probes.get(layer) {
                if let Some(hit) = probe.hit {
                    let location: IntPoint = match probe.location {
                        Some(location) => location,
                        None => IntPoint { x: 0, y: 0 },
                    };
                    return Some(Focus {
                        surface: hit.surface,
                        origin: Origin::OnScreen(hit.location.plus(location)),
                    });
                }
            }
        }
        None
    }
}

/// A first answer is that of some item, and no item before it has one.
pub proof fn law_first_answer_is_first<T, R>(items: Seq<T>, ask: spec_fn(T) -> Option<R>)
    ensures
        match first_answer(items, ask) {
            Some(answer) => exists|at: int|
                #![trigger items[at]]
                {
                    &&& 0 <= at < items.len()
                    &&& ask(items[at]) == Some(answer)
                    &&& forall|j: int| 0 <= j < at ==> ask(#[trigger] items[j]) is None
                },
            None => forall|j: int| 0 <= j < items.len() ==> ask(#[trigger] items[j]) is None,
        },
    decreases items.len(),
{
    if items.len() == 0 {
    } else if ask(items.first()) is Some {
        assert(ask(items[0]) == first_answer(items, ask));
    } else {
        let rest = items.drop_first();
        law_first_answer_is_first(rest, ask);
        assert forall|j: int| 1 <= j < items.len() implies items[j] == #[trigger] rest[j - 1] by {}
        if let Some(answer) = first_answer(rest, ask) {
            let at = choose|at: int|
                #![trigger rest[at]]
                {
                    &&& 0 <= at < rest.len()
                    &&& ask(rest[at]) == Some(answer)
                    &&& forall|j: int| 0 <= j < at ==> ask(#[trigger] rest[j]) is None
                };
            assert(ask(items[at + 1]) == Some(answer));
            assert forall|j: int| 0 <= j < at + 1 implies ask(#[trigger] items[j]) is None by {
                if j > 0 {
                    assert(items[j] == rest[j - 1]);
                }
            }
        } else {
            assert forall|j: int| 0 <= j < items.len() implies ask(#[trigger] items[j]) is None by {
                if j > 0 {
                    assert(items[j] == rest[j - 1]);
                }
            }
        }
    }
}

/// A last answer is that of some item, and no item behind it has one.
pub proof fn law_last_answer_is_last<T, R>(items: Seq<T>, ask: spec_fn(T) -> Option<R>)
    ensures
        match last_answer(items, ask) {
            Some(answer) => exists|at: int|
                #![trigger items[at]]
                {
                    &&& 0 <= at < items.len()
                    &&& ask(items[at]) == Some(answer)
                    &&& forall|j: int| at < j < items.len() ==> ask(#[trigger] items[j]) is None
                },
            None => forall|j: int| 0 <= j < items.len() ==> ask(#[trigger] items[j]) is None,
        },
    decreases items.len(),
{
    if items.len() == 0 {
    } else if ask(items.last()) is Some {
        assert(ask(items[items.len() - 1]) == last_answer(items, ask));
    } else {
        let rest = items.drop_last();
        law_last_answer_is_last(rest, ask);
        assert forall|j: int| 0 <= j < rest.len() implies items[j] == #[trigger] rest[j] by {}
        if let Some(answer) = last_answer(rest, ask) {
            let at = choose|at: int|
                #![trigger rest[at]]
                {
                    &&& 0 <= at < rest.len()
                    &&& ask(rest[at]) == Some(answer)
                    &&& forall|j: int| at < j < rest.len() ==> ask(#[trigger] rest[j]) is None
                };
            assert(ask(items[at]) == Some(answer));
            assert forall|j: int| at < j < items.len() implies ask(#[trigger] items[j]) is None by {
                if j < rest.len() {
                    assert(items[j] == rest[j]);
                }
            }
        } else {
            assert forall|j: int| 0 <= j < items.len() implies ask(#[trigger] items[j]) is None by {
                if j < rest.len() {
                    assert(items[j] == rest[j]);
                }
            }
        }
    }
}

/// Whatever takes the pointer belongs to the topmost window that offers
/// anything, and nothing takes it only when no window does.
pub proof fn law_topmost_window_takes_pointer(
    decorations: Map<u64, Decoration>,
    windows: Seq<WindowProbe>,
)
    ensures
        match window_focus(decorations, windows) {
            Some(focus) => exists|at: int|
                #![trigger windows[at]]
                {
                    &&& 0 <= at < windows.len()
                    &&& windows[at].focus(decorations) == Some(focus)
                    &&& forall|j: int|
                        at < j < windows.len() ==> (#[trigger] windows[j]).focus(decorations) is None
                },
            None => forall|j: int|
                0 <= j < windows.len() ==> (#[trigger] windows[j]).focus(decorations) is None,
        },
{
    law_last_answer_is_last(windows, |w: WindowProbe| w.focus(decorations));
}

/// A window's content comes before every decoration and every content below it.
pub proof fn law_content_hides_what_is_below(
    decorations: Map<u64, Decoration>,
    windows: Seq<WindowProbe>,
    upper: int,
)
    requires
        0 <= upper < windows.len(),
        windows[upper].content is Some,
        windows[upper].location is Some,
        !windows[upper].no_focus,
    ensures
        exists|at: int|
            #![trigger windows[at]]
            {
                &&& upper <= at < windows.len()
                &&& window_focus(decorations, windows) == windows[at].focus(decorations)
                &&& windows[at].focus(decorations) is Some
            },
{
    law_topmost_window_takes_pointer(decorations, windows);
    assert(windows[upper].focus(decorations) is Some);
}

/// Wherever a window that may have focus shows a decoration, some surface takes
/// the pointer.
pub proof fn law_decoration_takes_pointer(
    decorations: Map<u64, Decoration>,
    windows: Seq<WindowProbe>,
    at: int,
)
    requires
        0 <= at < windows.len(),
        windows[at].decoration(decorations) is Some,
        !windows[at].no_focus,
    ensures
        window_focus(decorations, windows) is Some,
{
    law_topmost_window_takes_pointer(decorations, windows);
    assert(windows[at].focus(decorations) is Some);
}

/// A window that is not mapped, or that a rule bars from focus, offers nothing.
pub proof fn law_barred_windows_offer_nothing(decorations: Map<u64, Decoration>, w: WindowProbe)
    requires
        w.no_focus || w.location is None,
    ensures
        w.focus(decorations) is None,
{
}

/// The content of a window takes the pointer whatever is decorated. It begins
/// where it lies in the window's own surface, which begins where the window's
/// geometry does less the offset of the geometry in it.
pub proof fn law_content_begins_at_its_place(
    decorations: Map<u64, Decoration>,
    w: WindowProbe,
    location: IntPoint,
    hit: SurfaceHit,
)
    requires
        !w.no_focus,
        w.location == Some(location),
        w.content == Some(hit),
    ensures
        w.focus(decorations) is Some,
        w.focus(decorations)->0.surface == hit.surface,
        w.focus(decorations)->0.origin matches Origin::Fixed(at) && {
            &&& at.x == saturated(hit.location.x + saturated(location.x - w.geometry_offset.x))
            &&& at.y == saturated(hit.location.y + saturated(location.y - w.geometry_offset.y))
            &&& i32::MIN <= location.x - w.geometry_offset.x <= i32::MAX && i32::MIN <= hit.location.x
                + location.x - w.geometry_offset.x <= i32::MAX ==> at.x == hit.location.x + location.x
                - w.geometry_offset.x
            &&& i32::MIN <= location.y - w.geometry_offset.y <= i32::MAX && i32::MIN <= hit.location.y
                + location.y - w.geometry_offset.y <= i32::MAX ==> at.y == hit.location.y + location.y
                - w.geometry_offset.y
        },
{
}

/// Away from its content, a mapped window takes the pointer exactly where it is
/// decorated and the point is on some part of the decoration, and then as its
/// own surface at its own place.
pub proof fn law_decoration_begins_at_window(
    decorations: Map<u64, Decoration>,
    w: WindowProbe,
    location: IntPoint,
)
    requires
        !w.no_focus,
        w.location == Some(location),
        w.content is None,
    ensures
        w.focus(decorations) is Some <==> decorations.contains_key(w.surface) && (w.on_close_button
            || w.on_title_bar || w.on_resize_border is Some),
        w.focus(decorations) is Some ==> w.focus(decorations)->0.surface == w.surface
            && w.focus(decorations)->0.origin == Origin::Fixed(location),
{
}

/// A mapped window shows a decoration at a point exactly if it has one and the
/// point is on some part of it. The close button comes before the title bar, and
/// the title bar before the resize border. Whether the window may have focus,
/// and what content is there, makes no difference.
pub proof fn law_decoration_parts(decorations: Map<u64, Decoration>, w: WindowProbe)
    ensures
        w.decoration(decorations) is Some <==> {
            &&& decorations.contains_key(w.surface)
            &&& w.location is Some
            &&& w.on_close_button || w.on_title_bar || w.on_resize_border is Some
        },
        w.decoration(decorations) matches Some(under) ==> {
            &&& under.window == w.window
            &&& under.surface == w.surface
            &&& under.hit is CloseButton <==> w.on_close_button
            &&& under.hit is TitleBar <==> w.on_title_bar && !w.on_close_button
            &&& !w.on_close_button && !w.on_title_bar ==> w.on_resize_border is Some && under.hit
                == DecorationHit::ResizeBorder(w.on_resize_border->0)
        },
{
}

/// The decoration found is that of the topmost window that shows one, and none
/// is found only when no window does.
pub proof fn law_topmost_decoration_is_found(
    decorations: Map<u64, Decoration>,
    windows: Seq<WindowProbe>,
)
    ensures
        match window_decoration(decorations, windows) {
            Some(under) => exists|at: int|
                #![trigger windows[at]]
                {
                    &&& 0 <= at < windows.len()
                    &&& windows[at].decoration(decorations) == Some(under)
                    &&& forall|j: int|
                        at < j < windows.len() ==> (#[trigger] windows[j]).decoration(
                            decorations,
                        ) is None
                },
            None => forall|j: int|
                0 <= j < windows.len() ==> (#[trigger] windows[j]).decoration(decorations) is None,
        },
{
    law_last_answer_is_last(windows, |w: WindowProbe| w.decoration(decorations));
}

/// Of the layer surfaces placed on the canvas, the first takes the pointer that
/// has a position, is hit, and may have focus. It begins where it was hit beyond
/// its position.
pub proof fn law_first_canvas_layer_takes_pointer(layers: Seq<CanvasLayerProbe>)
    ensures
        match canvas_layer_focus(layers) {
            Some(focus) => exists|at: int|
                #![trigger layers[at]]
                {
                    &&& 0 <= at < layers.len()
                    &&& !layers[at].no_focus
                    &&& layers[at].position is Some
                    &&& layers[at].hit is Some
                    &&& focus.surface == layers[at].hit->0.surface
                    &&& focus.origin matches Origin::Fixed(p) && p.x == saturated(
                        layers[at].hit->0.location.x + layers[at].position->0.x,
                    ) && p.y == saturated(layers[at].hit->0.location.y + layers[at].position->0.y)
                    &&& forall|j: int|
                        0 <= j < at ==> (#[trigger] layers[j]).no_focus || layers[j].position is None
                            || layers[j].hit is None
                },
            None => forall|j: int|
                0 <= j < layers.len() ==> (#[trigger] layers[j]).no_focus || layers[j].position is None
                    || layers[j].hit is None,
        },
{
    let ask = |l: CanvasLayerProbe| l.focus();
    law_first_answer_is_first(layers, ask);
    assert forall|j: int| 0 <= j < layers.len() && ask(#[trigger] layers[j]) is None implies layers[j].no_focus
        || layers[j].position is None || layers[j].hit is None by {}
    if let Some(focus) = canvas_layer_focus(layers) {
        let at = choose|at: int|
            #![trigger layers[at]]
            {
                &&& 0 <= at < layers.len()
                &&& ask(layers[at]) == Some(focus)
                &&& forall|j: int| 0 <= j < at ==> ask(#[trigger] layers[j]) is None
            };
        assert(layers[at].focus() == Some(focus));
    }
}

/// Whether one layer of the screen offers what was hit on it, and at the place
/// where it was: beyond where the layer surface begins, or the screen's corner.
pub open spec fn offers_hit(focus: Option<Focus>, probe: Option<LayerProbe>) -> bool {
    &&& focus is Some <==> probe is Some && probe->0.hit is Some
    &&& focus is Some ==> focus->0.surface == probe->0.hit->0.surface
    &&& focus is Some && probe->0.location is Some ==> (focus->0.origin matches Origin::OnScreen(p)
        && p.x == saturated(probe->0.hit->0.location.x + probe->0.location->0.x) && p.y == saturated(
        probe->0.hit->0.location.y + probe->0.location->0.y,
    ))
    &&& focus is Some && probe->0.location is None ==> focus->0.origin == Origin::OnScreen(
        probe->0.hit->0.location,
    )
}

/// Each layer of the screen offers what was found on that very layer.
pub proof fn law_layers_offer_their_own(probes: LayerProbes)
    ensures
        offers_hit(probes.focus_on(WlrLayer::Overlay), probes.overlay),
        offers_hit(probes.focus_on(WlrLayer::Top), probes.top),
        offers_hit(probes.focus_on(WlrLayer::Bottom), probes.bottom),
        offers_hit(probes.focus_on(WlrLayer::Background), probes.background),
{
}

/// What is found on one layer of the screen does not depend on the others.
pub proof fn law_layers_are_independent(probes: LayerProbes, other: LayerProbes)
    ensures
        probes.overlay == other.overlay ==> probes.focus_on(WlrLayer::Overlay) == other.focus_on(
            WlrLayer::Overlay,
        ),
        probes.top == other.top ==> probes.focus_on(WlrLayer::Top) == other.focus_on(WlrLayer::Top),
        probes.bottom == other.bottom ==> probes.focus_on(WlrLayer::Bottom) == other.focus_on(
            WlrLayer::Bottom,
        ),
        probes.background == other.background ==> probes.focus_on(WlrLayer::Background)
            == other.focus_on(WlrLayer::Background),
{
}

/// Of some layers of the screen, the first that offers a surface decides.
pub proof fn law_layers_are_searched_in_order(probes: LayerProbes, layers: Seq<WlrLayer>)
    ensures
        match layer_focus(probes, layers) {
            Some(focus) => exists|at: int|
                #![trigger layers[at]]
                {
                    &&& 0 <= at < layers.len()
                    &&& probes.focus_on(layers[at]) == Some(focus)
                    &&& forall|j: int|
                        0 <= j < at ==> probes.focus_on(#[trigger] layers[j]) is None
                },
            None => forall|j: int|
                0 <= j < layers.len() ==> probes.focus_on(#[trigger] layers[j]) is None,
        },
{
    law_first_answer_is_first(layers, |l: WlrLayer| probes.focus_on(l));
}


} // verus!
