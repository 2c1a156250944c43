//! Moving windows: what they snap to, and when the viewport pans along.
use vstd::prelude::*;

use crate::effect::{Effect, MoveSurfaceGrab};
use crate::event::SnapWindow;
use crate::geometry::{IntPoint, IntSize, Position};
use crate::scalar::Scalar;
use crate::state::{DriftWm, WmModel};

verus! {

broadcast use vstd::std_specs::hash::group_hash_axioms;

/// The outline of a window, title bar included.
#[derive(Clone, Copy, Debug, PartialEq, Eq, Structural)]
pub struct SnapRect {
    pub x_low: i64,
    pub x_high: i64,
    pub y_low: i64,
    pub y_high: i64,
}

/// What a moving window snaps to.
pub struct SnapQuery {
    /// The moving window's width.
    pub extent_x: i64,
    /// The moving window's height, title bar included.
    pub extent_y: i64,
    /// The height of the moving window's title bar.
    pub bar: i32,
    /// The outlines of the other windows.
    pub others: Vec<SnapRect>,
}

/// The height of a window's title bar. A window without a decoration has none.
pub open spec fn bar_height(wm: WmModel, surface: u64) -> i32 {
    if wm.decorations.contains_key(surface) {
        wm.config.title_bar_height
    } else {
        0
    }
}

/// The outline that a window presents to the moving one. The moving window
/// itself, widgets and unmapped windows present none.
pub open spec fn outline(wm: WmModel, moving: u64, w: SnapWindow) -> Option<SnapRect> {
    match w.location {
        Some(location) if w.surface != moving && !w.widget => Some(SnapRect {
            x_low: location.x as i64,
            x_high: (location.x + w.size.w) as i64,
            y_low: (location.y - bar_height(wm, w.surface)) as i64,
            y_high: (location.y + w.size.h) as i64,
        }),
        _ => None,
    }
}

/// The outlines that the windows present to the moving one, in their order.
pub open spec fn outlines(wm: WmModel, moving: u64, windows: Seq<SnapWindow>) -> Seq<SnapRect> {
    windows.filter_map(|w: SnapWindow| outline(wm, moving, w))
}

/// Whether a query says what the moving window snaps to.
pub open spec fn answers_snap(
    wm: WmModel,
    surface: u64,
    size: IntSize,
    windows: Seq<SnapWindow>,
    query: SnapQuery,
) -> bool {
    &&& query.bar == bar_height(wm, surface)
    &&& query.extent_x == size.w
    &&& query.extent_y == size.h + bar_height(wm, surface)
    &&& query.others@ == outlines(wm, surface, windows)
}

/// The state once a grab that moves a window has ended.
pub open spec fn after_grab(wm: WmModel) -> WmModel {
    WmModel { edge_pan_velocity: None, ..wm }
}

/// The state after a button event within a grab.
pub open spec fn after_button(wm: WmModel, any_held: bool) -> WmModel {
    if any_held {
        wm
    } else {
        after_grab(wm)
    }
}

/// What a button event within a grab leads to.
pub open spec fn button_effects(any_held: bool) -> Seq<Effect> {
    if any_held {
        seq![]
    } else {
        seq![Effect::UnsetGrab]
    }
}

/// How far a point is from each edge of the output.
#[derive(Clone, Copy, Debug, PartialEq, Eq, Structural)]
pub struct EdgeDistances {
    pub left: Scalar,
    pub right: Scalar,
    pub top: Scalar,
    pub bottom: Scalar,
}

impl EdgeDistances {
    /// Whether the nearest edge is at least `zone` away. What is not a number
    /// is near to nothing.
    pub open spec fn clear_of(self, zone: Scalar) -> bool {
        &&& !zone.nan()
        &&& !(self.left.nan() && self.right.nan() && self.top.nan() && self.bottom.nan())
        &&& !self.left.nan() ==> zone.le(self.left)
        &&& !self.right.nan() ==> zone.le(self.right)
        &&& !self.top.nan() ==> zone.le(self.top)
        &&& !self.bottom.nan() ==> zone.le(self.bottom)
    }
}

/// The edges that push the viewport.
#[derive(Clone, Copy, Debug, PartialEq, Eq, Structural)]
pub struct EdgePushes {
    pub left: bool,
    pub right: bool,
    pub top: bool,
    pub bottom: bool,
}

/// The edges whose zones hold the point, or none if it is outside all zones.
pub open spec fn pushes(distances: EdgeDistances, zone: Scalar) -> Option<EdgePushes> {
    if distances.clear_of(zone) {
        None
    } else {
        Some(EdgePushes {
            left: distances.left.lt(zone),
            right: distances.right.lt(zone),
            top: distances.top.lt(zone),
            bottom: distances.bottom.lt(zone),
        })
    }
}

fn far_or_nan(distance: Scalar, zone: Scalar) -> (r: bool)
    ensures
        r == (!distance.nan() ==> zone.le(distance)),
{
    distance.is_nan() || zone.at_most(distance)
}

impl MoveSurfaceGrab {
    /// What the moving window snaps to, unless snapping is switched off.
    /// `surface` and `size` are those of the moving window.
    pub fn snap_query(
        &self,
        wm: &DriftWm,
        surface: u64,
        size: IntSize,
        windows: &Vec<SnapWindow>,
    ) -> (r: Option<SnapQuery>)
        ensures
            match r {
                Some(query) => {
                    &&& wm@.config.snap_enabled
                    &&& answers_snap(wm@, surface, size, windows@, query)
                },
                None => !wm@.config.snap_enabled,
            },
    {
        if !wm.config.snap_enabled {
            return None;
        }
        let bar: i32 = wm.bar_of(surface);
        let mut others: Vec<SnapRect> = Vec::new();
        let ghost ask = |w: SnapWindow| outline(wm@, surface, w);
        let mut i: usize = 0;
        assert(windows@.take(0).filter_map(ask) =~= Seq::empty()) by {
            reveal(Seq::filter_map);
        }
        while i < windows.len()
            invariant
                i <= windows.len(),
                ask == (|w: SnapWindow| outline(wm@, surface, w)),
                others@ == windows@.take(i as int).filter_map(ask),
            decreases windows.len() - i,
        {
            let w: SnapWindow = windows[i];
            proof {
                reveal(Seq::filter_map);
                assert(windows@.take(i + 1).last() == w);
                assert(windows@.take(i + 1).drop_last() =~= windows@.take(i as int));
                assert(ask(w) == outline(wm@, surface, w));
            }
            i = i + 1;
            if w.surface == surface {
                continue;
            }
            if w.widget {
                continue;
            }
            let location: IntPoint = match w.location {
                Some(location) => location,
                None => continue,
            };
            others.push(
                SnapRect {
                    x_low: location.x as i64,
                    x_high: location.x as i64 + w.size.w as i64,
                    y_low: location.y as i64 - wm.bar_of(w.surface) as i64,
                    y_high: location.y as i64 + w.size.h as i64,
                },
            );
        }
        assert(windows@.take(i as int) =~= windows@);
        Some(
            SnapQuery {
                extent_x: size.w as i64,
                extent_y: size.h as i64 + bar as i64,
                bar,
                others,
            },
        )
    }

    /// What the motion of a moving window leads to.
    pub open spec fn motion_effects(self, location: IntPoint) -> Seq<Effect> {
        seq![Effect::MapWindow { window: self.window, at: location }, Effect::GrabMotion]
    }

    /// Moves the window.
    pub fn motion(&self, location: IntPoint) -> (effects: Vec<Effect>)
        ensures
            effects@ == self.motion_effects(location),
    {
        let mut effects: Vec<Effect> = Vec::new();
        effects.push(Effect::MapWindow { window: self.window, at: location });
        effects.push(Effect::GrabMotion);
        effects
    }

    /// The edges of the output that push the viewport while a window is
    /// dragged, given how far the pointer is from each. There are none while
    /// the pointer is outside the edge zone.
    pub fn edge_pushes(distances: &EdgeDistances, zone: Scalar) -> (r: Option<EdgePushes>)
        ensures
            r == pushes(*distances, zone),
    {
        let measured: bool = !(distances.left.is_nan() && distances.right.is_nan()
            && distances.top.is_nan() && distances.bottom.is_nan());
        if !zone.is_nan() && measured && far_or_nan(distances.left, zone) && far_or_nan(
            distances.right,
            zone,
        ) && far_or_nan(distances.top, zone) && far_or_nan(distances.bottom, zone) {
            return None;
        }
        Some(
            EdgePushes {
                left: distances.left.less_than(zone),
                right: distances.right.less_than(zone),
                top: distances.top.less_than(zone),
                bottom: distances.bottom.less_than(zone),
            },
        )
    }

    /// Notes how a button event within the grab came out, once the client has
    /// it. When no button is held any more, the grab ends and the viewport
    /// stops panning.
    pub fn button(&self, wm: &mut DriftWm, any_held: bool) -> (effects: Vec<Effect>)
        ensures
            final(wm)@ == after_button(old(wm)@, any_held),
            effects@ == button_effects(any_held),
    {
        let mut effects: Vec<Effect> = Vec::new();
        if !any_held {
            wm.edge_pan_velocity = None;
            effects.push(Effect::UnsetGrab);
        }
        effects
    }

    /// Notes the end of the grab, however it came about.
    pub fn unset(&self, wm: &mut DriftWm)
        ensures
            final(wm)@ == after_grab(old(wm)@),
    {
        wm.edge_pan_velocity = None;
    }
}

/// How the viewport pans along.
#[derive(Clone, Copy, Debug, PartialEq, Eq, Structural)]
pub struct EdgePan {
    /// None while the pointer is outside the edge zone.
    pub velocity: Option<Position>,
}

/// The state once it is known how the viewport pans along. Without an output of
/// known size nothing was measured, and nothing changes.
pub open spec fn edge_panned(wm: WmModel, measured: Option<EdgePan>) -> WmModel {
    WmModel {
        edge_pan_velocity: match measured {
            Some(pan) => pan.velocity,
            None => wm.edge_pan_velocity,
        },
        ..wm
    }
}

impl DriftWm {
    fn bar_of(&self, surface: u64) -> (r: i32)
        ensures
            r == bar_height(self@, surface),
    {
        if self.decorations.contains_key(&surface) {
            self.config.title_bar_height
        } else {
            0
        }
    }

    /// Takes over how the viewport pans along with a dragged window.
    pub fn set_edge_pan(&mut self, measured: Option<EdgePan>)
        ensures
            final(self)@ == edge_panned(old(self)@, measured),
    {
        if let Some(pan) = measured {
            self.edge_pan_velocity = pan.velocity;
        }
    }
}

/// The last motion of a grab decides how the viewport pans along: earlier ones
/// leave no trace once something is measured again.
pub proof fn law_last_motion_decides_edge_pan(
    wm: WmModel,
    earlier: Seq<Option<EdgePan>>,
    last: EdgePan,
)
    ensures
        edge_panned(
            earlier.fold_left(wm, |w: WmModel, m: Option<EdgePan>| edge_panned(w, m)),
            Some(last),
        ) == edge_panned(wm, Some(last)),
    decreases earlier.len(),
{
    if earlier.len() > 0 {
        law_last_motion_decides_edge_pan(wm, earlier.drop_last(), last);
    }
}

/// A window never snaps to itself or to a widget: leaving those out beforehand
/// makes no difference.
pub proof fn law_snapping_ignores_self_and_widgets(
    wm: WmModel,
    moving: u64,
    windows: Seq<SnapWindow>,
)
    ensures
        outlines(wm, moving, windows) == outlines(
            wm,
            moving,
            windows.filter(|w: SnapWindow| w.surface != moving && !w.widget),
        ),
    decreases windows.len(),
{
    let ask = |w: SnapWindow| outline(wm, moving, w);
    let eligible = |w: SnapWindow| w.surface != moving && !w.widget;
    reveal(Seq::filter_map);
    reveal(Seq::filter);
    if windows.len() > 0 {
        law_snapping_ignores_self_and_widgets(wm, moving, windows.drop_last());
        let rest = windows.drop_last().filter(eligible);
        if eligible(windows.last()) {
            assert(rest.push(windows.last()).drop_last() =~= rest);
        }
    }
}

/// An outline of a decorated window reaches above it by the title bar, and has
/// otherwise the window's own bounds.
pub proof fn law_outline_includes_title_bar(wm: WmModel, moving: u64, w: SnapWindow)
    requires
        w.location is Some,
        w.surface != moving,
        !w.widget,
    ensures
        outline(wm, moving, w) matches Some(rect) && {
            &&& rect.x_low == w.location->0.x
            &&& rect.x_high - rect.x_low == w.size.w
            &&& rect.y_high == w.location->0.y + w.size.h
            &&& rect.y_high - rect.y_low == w.size.h + bar_height(wm, w.surface)
        },
{
}

/// As long as all is measured, the viewport is pushed exactly while some edge
/// is nearer than the zone, and then by the edges that are.
pub proof fn law_edges_push_within_zone(distances: EdgeDistances, zone: Scalar)
    requires
        !zone.nan(),
        !distances.left.nan(),
        !distances.right.nan(),
        !distances.top.nan(),
        !distances.bottom.nan(),
    ensures
        pushes(distances, zone) is Some <==> (distances.left.lt(zone) || distances.right.lt(zone)
            || distances.top.lt(zone) || distances.bottom.lt(zone)),
        pushes(distances, zone) matches Some(p) ==> p.left || p.right || p.top || p.bottom,
{
}

/// Whatever is or is not a number: each edge pushes exactly if its own distance
/// is less than the zone, and there is no push at all exactly if no measured
/// distance is less, at least one is measured, and the zone is.
pub proof fn law_each_edge_pushes_for_itself(distances: EdgeDistances, zone: Scalar)
    ensures
        pushes(distances, zone) matches Some(p) ==> {
            &&& p.left <==> distances.left.lt(zone)
            &&& p.right <==> distances.right.lt(zone)
            &&& p.top <==> distances.top.lt(zone)
            &&& p.bottom <==> distances.bottom.lt(zone)
        },
        distances.left.lt(zone) || distances.right.lt(zone) || distances.top.lt(zone)
            || distances.bottom.lt(zone) ==> pushes(distances, zone) is Some,
        pushes(distances, zone) is None <==> {
            &&& !zone.nan()
            &&& !distances.left.nan() || !distances.right.nan() || !distances.top.nan()
                || !distances.bottom.nan()
            &&& distances.left.nan() || zone.le(distances.left)
            &&& distances.right.nan() || zone.le(distances.right)
            &&& distances.top.nan() || zone.le(distances.top)
            &&& distances.bottom.nan() || zone.le(distances.bottom)
        },
{
}

/// Turning the output over swaps the pushes of opposite edges.
pub proof fn law_edges_are_symmetric(distances: EdgeDistances, zone: Scalar)
    ensures
        ({
            let turned = EdgeDistances {
                left: distances.right,
                right: distances.left,
                top: distances.bottom,
                bottom: distances.top,
            };
            &&& pushes(turned, zone) is Some <==> pushes(distances, zone) is Some
            &&& pushes(distances, zone) matches Some(p) ==> pushes(turned, zone) == Some(
                EdgePushes { left: p.right, right: p.left, top: p.bottom, bottom: p.top },
            )
        }),
{
}

/// A window presents an outline exactly if it is mapped, is no widget, and is not
/// the moving one. Its bounds are the window's own, but for the title bar that a
/// decorated one has above it.
pub proof fn law_outline_bounds(wm: WmModel, moving: u64, w: SnapWindow)
    ensures
        outline(wm, moving, w) is Some <==> w.location is Some && w.surface != moving && !w.widget,
        outline(wm, moving, w) matches Some(rect) ==> {
            &&& rect.x_low == w.location->0.x
            &&& rect.x_high == w.location->0.x + w.size.w
            &&& rect.y_high == w.location->0.y + w.size.h
            &&& wm.decorations.contains_key(w.surface) ==> rect.y_low == w.location->0.y
                - wm.config.title_bar_height
            &&& !wm.decorations.contains_key(w.surface) ==> rect.y_low == w.location->0.y
        },
{
}

/// Each window in turn adds the outline that it presents, if any, behind those of
/// the windows before it.
pub proof fn law_outlines_keep_order(
    wm: WmModel,
    moving: u64,
    windows: Seq<SnapWindow>,
    w: SnapWindow,
)
    ensures
        outlines(wm, moving, Seq::empty()).len() == 0,
        outlines(wm, moving, windows.push(w)) == (match outline(wm, moving, w) {
            Some(rect) => outlines(wm, moving, windows).push(rect),
            None => outlines(wm, moving, windows),
        }),
{
    reveal(Seq::filter_map);
    assert(windows.push(w).drop_last() =~= windows);
    if let Some(rect) = outline(wm, moving, w) {
        assert(outlines(wm, moving, windows.push(w)) =~= outlines(wm, moving, windows).push(rect));
    } else {
        assert(outlines(wm, moving, windows.push(w)) =~= outlines(wm, moving, windows));
    }
}

/// A moving window snaps with its whole outline: its width, and its height with
/// the title bar that it has if it is decorated.
pub proof fn law_moving_window_snaps_with_title_bar(
    wm: WmModel,
    surface: u64,
    size: IntSize,
    windows: Seq<SnapWindow>,
    query: SnapQuery,
)
    requires
        answers_snap(wm, surface, size, windows, query),
    ensures
        query.extent_x == size.w,
        query.others@ == outlines(wm, surface, windows),
        wm.decorations.contains_key(surface) ==> query.bar == wm.config.title_bar_height
            && query.extent_y == size.h + wm.config.title_bar_height,
        !wm.decorations.contains_key(surface) ==> query.bar == 0 && query.extent_y == size.h,
{
}

/// A moving window is mapped once, where it goes, and the motion is handed on.
pub proof fn law_motion_maps_window(grab: MoveSurfaceGrab, location: IntPoint)
    ensures
        grab.motion_effects(location).len() == 2,
        grab.motion_effects(location)[0] is MapWindow,
        grab.motion_effects(location)[0]->MapWindow_window == grab.window,
        grab.motion_effects(location)[0]->MapWindow_at == location,
        grab.motion_effects(location)[1] is GrabMotion,
{
}

/// A grab goes on while any button is held. When none is, it ends, and however it
/// ends the viewport stops panning along; nothing else changes.
pub proof fn law_grab_ends_with_last_button(wm: WmModel, any_held: bool)
    ensures
        any_held ==> after_button(wm, any_held) == wm && button_effects(any_held).len() == 0,
        !any_held ==> {
            &&& after_button(wm, any_held) == after_grab(wm)
            &&& button_effects(any_held).len() == 1
            &&& button_effects(any_held)[0] is UnsetGrab
        },
        after_grab(wm).edge_pan_velocity is None,
        after_grab(wm) == (WmModel { edge_pan_velocity: None, ..wm }),
{
}

/// The viewport pans as measured, which may be not at all. Without a measurement
/// it goes on as before, and nothing else ever changes.
pub proof fn law_viewport_pans_as_measured(wm: WmModel, measured: Option<EdgePan>)
    ensures
        measured is None ==> edge_panned(wm, measured) == wm,
        measured is Some ==> edge_panned(wm, measured).edge_pan_velocity == measured->0.velocity,
        edge_panned(wm, measured) == (WmModel {
            edge_pan_velocity: edge_panned(wm, measured).edge_pan_velocity,
            ..wm
        }),
{
}


} // verus!
