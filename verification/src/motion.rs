//! Pointer motion.
use vstd::prelude::*;

use crate::effect::{Effect, Focus, Origin};
use crate::event::{CanvasLayerProbe, RelativeMotion, Scene, Stamp, WindowProbe, WlrLayer};
use crate::geometry::{IntPoint, IntSize, Position};
use crate::hit::{
    canvas_layer_focus, law_first_answer_is_first, law_last_answer_is_last,
    law_layers_are_searched_in_order, layer_focus, window_focus,
};
use crate::scalar::Scalar;
use crate::state::{DriftWm, WmModel};

verus! {

/// Where motion takes the pointer on an output, and what lies there.
pub struct Landing {
    pub screen: Position,
    pub canvas: Position,
    pub scene: Scene,
}

/// How pointer motion goes on once its effects have been carried out.
#[derive(Clone, Copy, Debug, PartialEq, Eq, Structural)]
pub enum MotionNext {
    /// It has been dealt with.
    Done,
    /// The cursor is to be updated for the decoration under the pointer.
    UpdateCursor,
}

/// What the pointer is over.
#[derive(Clone, Copy, Debug, PartialEq, Eq, Structural)]
pub enum Target {
    /// A layer surface of the screen, above the windows or below them.
    ScreenLayer(Focus),
    /// A layer surface placed on the canvas.
    CanvasLayer(Focus),
    /// A window or its decoration.
    Window(Focus),
    /// Empty canvas.
    Canvas,
}

impl Target {
    /// The surface that takes the pointer.
    pub open spec fn focus(self) -> Option<Focus> {
        match self {
            Target::ScreenLayer(focus) => Some(focus),
            Target::CanvasLayer(focus) => Some(focus),
            Target::Window(focus) => Some(focus),
            Target::Canvas => None,
        }
    }
}

/// The layers of the screen above the windows, uppermost first.
pub open spec fn upper_layers() -> Seq<WlrLayer> {
    seq![WlrLayer::Overlay, WlrLayer::Top]
}

/// The layers of the screen below the windows, uppermost first.
pub open spec fn lower_layers() -> Seq<WlrLayer> {
    seq![WlrLayer::Bottom, WlrLayer::Background]
}

/// What the pointer is over. The upper layers of the screen come first, then
/// the canvas's layers, then windows, then the lower layers of the screen.
pub open spec fn target(wm: WmModel, scene: Scene) -> Target {
    let upper = layer_focus(scene.layers, upper_layers());
    let on_canvas = canvas_layer_focus(scene.canvas_layers@);
    let window = window_focus(wm.decorations, scene.windows@);
    let lower = layer_focus(scene.layers, lower_layers());
    if upper is Some {
        Target::ScreenLayer(upper->0)
    } else if on_canvas is Some {
        Target::CanvasLayer(on_canvas->0)
    } else if window is Some {
        Target::Window(window->0)
    } else if lower is Some {
        Target::ScreenLayer(lower->0)
    } else {
        Target::Canvas
    }
}

/// Moves the pointer.
pub open spec fn motion_to(focus: Option<Focus>, location: Position, stamp: Stamp) -> Seq<Effect> {
    seq![Effect::PointerMotion { focus, location, stamp }, Effect::PointerFrame]
}

/// The only surface that takes the pointer while the session is locked.
pub open spec fn lock_focus(wm: WmModel) -> Option<Focus> {
    match wm.lock_surface {
        Some(surface) => Some(
            Focus { surface, origin: Origin::Fixed(IntPoint { x: 0, y: 0 }) },
        ),
        None => None,
    }
}

/// The state once the pointer is over a target.
pub open spec fn pointed(wm: WmModel, target: Target) -> WmModel {
    WmModel { pointer_over_layer: target is ScreenLayer, ..wm }
}

/// How motion goes on that ends over a target.
pub open spec fn next_over(target: Target) -> MotionNext {
    if target is Window || target is Canvas {
        MotionNext::UpdateCursor
    } else {
        MotionNext::Done
    }
}

/// The state after motion. Without an output, or while the session is locked,
/// it stays the same.
pub open spec fn moved(wm: WmModel, landing: Option<Landing>) -> WmModel {
    match landing {
        Some(l) if !wm.session_locked => pointed(wm, target(wm, l.scene)),
        _ => wm,
    }
}

/// How motion goes on.
pub open spec fn moved_next(wm: WmModel, landing: Option<Landing>) -> MotionNext {
    match landing {
        Some(l) if !wm.session_locked => next_over(target(wm, l.scene)),
        _ => MotionNext::Done,
    }
}

/// What motion to a position on the output leads to.
pub open spec fn absolute_effects(wm: WmModel, landing: Option<Landing>, stamp: Stamp) -> Seq<Effect> {
    match landing {
        None => seq![],
        Some(l) => if wm.session_locked {
            motion_to(lock_focus(wm), l.screen, stamp)
        } else {
            motion_to(target(wm, l.scene).focus(), l.canvas, stamp)
        },
    }
}

/// What motion by some distance leads to. `free` is where the distance leads
/// when nothing stops it.
pub open spec fn relative_effects(
    wm: WmModel,
    free: Position,
    landing: Option<Landing>,
    motion: RelativeMotion,
    stamp: Stamp,
) -> Seq<Effect> {
    if wm.session_locked {
        motion_to(lock_focus(wm), free, stamp)
    } else {
        match landing {
            None => seq![],
            Some(l) => seq![
                Effect::PointerRelativeMotion {
                    focus: window_focus(wm.decorations, l.scene.windows@),
                    motion,
                },
            ] + motion_to(target(wm, l.scene).focus(), l.canvas, stamp),
        }
    }
}

/// The size of an output in logical pixels, given its mode.
pub open spec fn logical_size(mode: Option<IntSize>) -> IntSize {
    match mode {
        Some(size) => size,
        None => IntSize { w: 1, h: 1 },
    }
}

/// The size of an output at scale one. An output without a mode counts as one pixel.
pub fn output_size(mode: Option<IntSize>) -> (r: IntSize)
    ensures
        r == logical_size(mode),
{
    match mode {
        Some(size) => size,
        None => IntSize { w: 1, h: 1 },
    }
}

/// Keeps a position on the screen within the output, so that the pointer cannot
/// escape. `last` is the output's last pixel.
pub fn clamp_to_output(screen: Position, last: Position) -> (r: Position)
    requires
        (Scalar { bits: 0 }).le(last.x),
        (Scalar { bits: 0 }).le(last.y),
    ensures
        r.x == screen.x.clamped(Scalar { bits: 0 }, last.x),
        r.y == screen.y.clamped(Scalar { bits: 0 }, last.y),
        !screen.x.nan() ==> (Scalar { bits: 0 }).le(r.x) && r.x.le(last.x),
        !screen.y.nan() ==> (Scalar { bits: 0 }).le(r.y) && r.y.le(last.y),
{
    Position {
        x: screen.x.clamp(Scalar::zero(), last.x),
        y: screen.y.clamp(Scalar::zero(), last.y),
    }
}

impl DriftWm {
    fn target_at(&self, scene: &Scene) -> (r: Target)
        ensures
            r == target(self@, *scene),
    {
        let upper: [WlrLayer; 2] = [WlrLayer::Overlay, WlrLayer::Top];
        assert(upper@ =~= upper_layers());
        if let Some(focus) = self.layer_surface_under(&scene.layers, &upper) {
            return Target::ScreenLayer(focus);
        }
        if let Some(focus) = self.canvas_layer_under(&scene.canvas_layers) {
            return Target::CanvasLayer(focus);
        }
        if let Some(focus) = self.surface_under(&scene.windows) {
            return Target::Window(focus);
        }
        let lower: [WlrLayer; 2] = [WlrLayer::Bottom, WlrLayer::Background];
        assert(lower@ =~= lower_layers());
        if let Some(focus) = self.layer_surface_under(&scene.layers, &lower) {
            return Target::ScreenLayer(focus);
        }
        Target::Canvas
    }

    fn point_at(&mut self, location: Position, scene: &Scene, stamp: Stamp) -> (r: (
        Vec<Effect>,
        MotionNext,
    ))
        ensures
            final(self)@ == pointed(old(self)@, target(old(self)@, *scene)),
            r.0@ == motion_to(target(old(self)@, *scene).focus(), location, stamp),
            r.1 == next_over(target(old(self)@, *scene)),
    {
        let mut effects: Vec<Effect> = Vec::new();
        let (over_layer, focus, next): (bool, Option<Focus>, MotionNext) = match self.target_at(scene) {
            Target::ScreenLayer(focus) => (true, Some(focus), MotionNext::Done),
            Target::CanvasLayer(focus) => (false, Some(focus), MotionNext::Done),
            Target::Window(focus) => (false, Some(focus), MotionNext::UpdateCursor),
            Target::Canvas => (false, None, MotionNext::UpdateCursor),
        };
        self.pointer_over_layer = over_layer;
        effects.push(Effect::PointerMotion { focus, location, stamp });
        effects.push(Effect::PointerFrame);
        (effects, next)
    }

    fn point_at_lock(&self, location: Position, stamp: Stamp) -> (effects: Vec<Effect>)
        ensures
            effects@ == motion_to(lock_focus(self@), location, stamp),
    {
        let focus: Option<Focus> = match self.lock_surface {
            Some(surface) => Some(
                Focus { surface, origin: Origin::Fixed(IntPoint { x: 0, y: 0 }) },
            ),
            None => None,
        };
        let mut effects: Vec<Effect> = Vec::new();
        effects.push(Effect::PointerMotion { focus, location, stamp });
        effects.push(Effect::PointerFrame);
        effects
    }

    /// Moves the pointer to a position on the output. Without an output nothing
    /// happens. While the session is locked, only the lock surface can take the
    /// pointer, which is then reported on the screen.
    pub fn on_pointer_motion_absolute(&mut self, landing: &Option<Landing>, stamp: Stamp) -> (r: (
        Vec<Effect>,
        MotionNext,
    ))
        ensures
            final(self)@ == moved(old(self)@, *landing),
            r.0@ == absolute_effects(old(self)@, *landing, stamp),
            r.1 == moved_next(old(self)@, *landing),
    {
        match landing {
            None => (Vec::new(), MotionNext::Done),
            Some(l) => {
                if self.session_locked {
                    return (self.point_at_lock(l.screen, stamp), MotionNext::Done);
                }
                self.point_at(l.canvas, &l.scene, stamp)
            },
        }
    }

    /// Moves the pointer by some distance. `free` is where that leads when
    /// nothing stops it, and `landing` where it leads within the output. While
    /// the session is locked, only the lock surface can take the pointer.
    /// Otherwise clients that ask for it get the motion itself first.
    pub fn on_pointer_motion_relative(
        &mut self,
        free: Position,
        landing: &Option<Landing>,
        motion: RelativeMotion,
        stamp: Stamp,
    ) -> (r: (Vec<Effect>, MotionNext))
        ensures
            final(self)@ == moved(old(self)@, *landing),
            r.0@ == relative_effects(old(self)@, free, *landing, motion, stamp),
            r.1 == moved_next(old(self)@, *landing),
    {
        if self.session_locked {
            return (self.point_at_lock(free, stamp), MotionNext::Done);
        }
        match landing {
            None => (Vec::new(), MotionNext::Done),
            Some(l) => {
                let mut effects: Vec<Effect> = Vec::new();
                effects.push(
                    Effect::PointerRelativeMotion {
                        focus: self.surface_under(&l.scene.windows),
                        motion,
                    },
                );
                let (mut rest, next): (Vec<Effect>, MotionNext) = self.point_at(
                    l.canvas,
                    &l.scene,
                    stamp,
                );
                effects.append(&mut rest);
                (effects, next)
            },
        }
    }
}

/// Both kinds of motion that end at one place agree on what is there: relative
/// motion only reports itself besides.
pub proof fn law_motion_kinds_agree(
    wm: WmModel,
    free: Position,
    landing: Landing,
    motion: RelativeMotion,
    stamp: Stamp,
)
    requires
        !wm.session_locked,
    ensures
        relative_effects(wm, free, Some(landing), motion, stamp).len() == 3,
        relative_effects(wm, free, Some(landing), motion, stamp)[0] is PointerRelativeMotion,
        relative_effects(wm, free, Some(landing), motion, stamp).drop_first() == absolute_effects(
            wm,
            Some(landing),
            stamp,
        ),
{
    assert(relative_effects(wm, free, Some(landing), motion, stamp).drop_first() =~= absolute_effects(
        wm,
        Some(landing),
        stamp,
    ));
}

/// While the session is unlocked, the pointer is always reported on the canvas,
/// whatever takes it.
pub proof fn law_pointer_stays_on_canvas(
    wm: WmModel,
    free: Position,
    landing: Landing,
    motion: RelativeMotion,
    stamp: Stamp,
    effect: Effect,
)
    requires
        !wm.session_locked,
        effect is PointerMotion,
        absolute_effects(wm, Some(landing), stamp).contains(effect) || relative_effects(
            wm,
            free,
            Some(landing),
            motion,
            stamp,
        ).contains(effect),
    ensures
        effect->PointerMotion_location == landing.canvas,
{
}

/// While the session is locked, motion changes no state, and hands the pointer
/// to nothing but the lock surface.
pub proof fn law_locked_motion_targets_lock_surface(
    wm: WmModel,
    free: Position,
    landing: Option<Landing>,
    motion: RelativeMotion,
    stamp: Stamp,
    effect: Effect,
)
    requires
        wm.session_locked,
        absolute_effects(wm, landing, stamp).contains(effect) || relative_effects(
            wm,
            free,
            landing,
            motion,
            stamp,
        ).contains(effect),
    ensures
        moved(wm, landing) == wm,
        effect is PointerFrame || (effect is PointerMotion && effect->PointerMotion_focus
            == lock_focus(wm)),
{
}

/// The pointer counts as over a layer exactly when a layer of the screen takes
/// it, and no decoration sets the cursor then.
pub proof fn law_over_layer_means_screen_layer(wm: WmModel, scene: Scene)
    ensures
        pointed(wm, target(wm, scene)).pointer_over_layer <==> target(wm, scene) is ScreenLayer,
        next_over(target(wm, scene)) is UpdateCursor ==> !pointed(
            wm,
            target(wm, scene),
        ).pointer_over_layer,
{
}

/// A layer of the screen is placed in screen coordinates, and all else in those
/// of the canvas. Where the pointer is on the canvas decides neither.
pub proof fn law_origins_tell_coordinates(wm: WmModel, scene: Scene)
    ensures
        match target(wm, scene) {
            Target::ScreenLayer(focus) => focus.origin is OnScreen,
            Target::CanvasLayer(focus) => focus.origin is Fixed,
            Target::Window(focus) => focus.origin is Fixed,
            Target::Canvas => true,
        },
{
    let on_layer = |l: WlrLayer| scene.layers.focus_on(l);
    law_first_answer_is_first(upper_layers(), on_layer);
    law_first_answer_is_first(lower_layers(), on_layer);
    law_first_answer_is_first(scene.canvas_layers@, |l: CanvasLayerProbe| l.focus());
    law_last_answer_is_last(scene.windows@, |w: WindowProbe| w.focus(wm.decorations));
}

/// What lies above hides what lies below: the upper layers of the screen all
/// else, the canvas's layers the windows, and windows the lower layers.
pub proof fn law_upper_hides_lower(wm: WmModel, scene: Scene)
    ensures
        layer_focus(scene.layers, upper_layers()) is Some ==> target(wm, scene).focus()
            == layer_focus(scene.layers, upper_layers()),
        layer_focus(scene.layers, upper_layers()) is None && canvas_layer_focus(
            scene.canvas_layers@,
        ) is Some ==> target(wm, scene).focus() == canvas_layer_focus(scene.canvas_layers@),
        target(wm, scene) is Window ==> target(wm, scene).focus() == window_focus(
            wm.decorations,
            scene.windows@,
        ),
        window_focus(wm.decorations, scene.windows@) is Some ==> !(target(wm, scene) is Canvas),
        target(wm, scene) is Canvas <==> {
            &&& layer_focus(scene.layers, upper_layers()) is None
            &&& canvas_layer_focus(scene.canvas_layers@) is None
            &&& window_focus(wm.decorations, scene.windows@) is None
            &&& layer_focus(scene.layers, lower_layers()) is None
        },
{
}

/// The pointer goes to the uppermost thing that offers a surface: the overlay
/// layer, the top layer, the canvas's layers, the windows, the bottom layer and
/// the background layer, in this order. It is over empty canvas only if none of
/// them does.
pub proof fn law_uppermost_takes_pointer(wm: WmModel, scene: Scene)
    ensures
        ({
            let overlay = scene.layers.focus_on(WlrLayer::Overlay);
            let top = scene.layers.focus_on(WlrLayer::Top);
            let on_canvas = canvas_layer_focus(scene.canvas_layers@);
            let window = window_focus(wm.decorations, scene.windows@);
            let bottom = scene.layers.focus_on(WlrLayer::Bottom);
            let background = scene.layers.focus_on(WlrLayer::Background);
            let above = overlay is Some || top is Some;
            &&& overlay is Some ==> target(wm, scene) == Target::ScreenLayer(overlay->0)
            &&& overlay is None && top is Some ==> target(wm, scene) == Target::ScreenLayer(top->0)
            &&& !above && on_canvas is Some ==> target(wm, scene) == Target::CanvasLayer(on_canvas->0)
            &&& !above && on_canvas is None && window is Some ==> target(wm, scene) == Target::Window(
                window->0,
            )
            &&& !above && on_canvas is None && window is None && bottom is Some ==> target(wm, scene)
                == Target::ScreenLayer(bottom->0)
            &&& !above && on_canvas is None && window is None && bottom is None && background is Some
                ==> target(wm, scene) == Target::ScreenLayer(background->0)
            &&& target(wm, scene) is Canvas <==> !above && on_canvas is None && window is None
                && bottom is None && background is None
        }),
{
    let upper = upper_layers();
    let lower = lower_layers();
    law_layers_are_searched_in_order(scene.layers, upper);
    law_layers_are_searched_in_order(scene.layers, lower);
    assert(upper[0] is Overlay && upper[1] is Top);
    assert(lower[0] is Bottom && lower[1] is Background);
}

/// While the session is unlocked, motion on an output reports the pointer once,
/// at its canvas position and with what it is over, and ends the group of events.
/// Relative motion reports itself before that, to the window there.
pub proof fn law_motion_reports_what_is_there(
    wm: WmModel,
    free: Position,
    landing: Landing,
    motion: RelativeMotion,
    stamp: Stamp,
)
    requires
        !wm.session_locked,
    ensures
        ({
            let focus = match target(wm, landing.scene) {
                Target::ScreenLayer(f) => Some(f),
                Target::CanvasLayer(f) => Some(f),
                Target::Window(f) => Some(f),
                Target::Canvas => None,
            };
            let absolute = absolute_effects(wm, Some(landing), stamp);
            let relative = relative_effects(wm, free, Some(landing), motion, stamp);
            &&& absolute.len() == 2
            &&& absolute[0] == (Effect::PointerMotion { focus, location: landing.canvas, stamp })
            &&& absolute[1] is PointerFrame
            &&& relative.len() == 3
            &&& relative[0] == (Effect::PointerRelativeMotion {
                focus: window_focus(wm.decorations, landing.scene.windows@),
                motion,
            })
            &&& relative[1] == absolute[0]
            &&& relative[2] is PointerFrame
        }),
{
}

/// Without an output, motion leads to nothing, except that relative motion still
/// moves the pointer of a locked session.
pub proof fn law_motion_needs_an_output(
    wm: WmModel,
    free: Position,
    motion: RelativeMotion,
    stamp: Stamp,
)
    ensures
        absolute_effects(wm, None, stamp).len() == 0,
        !wm.session_locked ==> relative_effects(wm, free, None, motion, stamp).len() == 0,
        moved(wm, None) == wm,
        moved_next(wm, None) is Done,
{
}

/// While the session is locked, motion reports the pointer to the lock surface,
/// placed at the origin, or to nothing if there is none: absolute motion where
/// it is on the screen, relative motion where it leads unstopped.
pub proof fn law_locked_motion_reports_position(
    wm: WmModel,
    free: Position,
    landing: Landing,
    nowhere: Option<Landing>,
    motion: RelativeMotion,
    stamp: Stamp,
)
    requires
        wm.session_locked,
    ensures
        ({
            let absolute = absolute_effects(wm, Some(landing), stamp);
            let relative = relative_effects(wm, free, nowhere, motion, stamp);
            &&& absolute.len() == 2
            &&& absolute[0] is PointerMotion
            &&& absolute[0]->PointerMotion_location == landing.screen
            &&& absolute[0]->PointerMotion_stamp == stamp
            &&& absolute[1] is PointerFrame
            &&& relative.len() == 2
            &&& relative[0] is PointerMotion
            &&& relative[0]->PointerMotion_location == free
            &&& relative[0]->PointerMotion_stamp == stamp
            &&& relative[1] is PointerFrame
            &&& relative[0]->PointerMotion_focus == absolute[0]->PointerMotion_focus
            &&& wm.lock_surface is None ==> absolute[0]->PointerMotion_focus is None
            &&& wm.lock_surface is Some ==> {
                &&& absolute[0]->PointerMotion_focus is Some
                &&& absolute[0]->PointerMotion_focus->0.surface == wm.lock_surface->0
                &&& absolute[0]->PointerMotion_focus->0.origin matches Origin::Fixed(p) && p.x == 0
                    && p.y == 0
            }
            &&& moved(wm, Some(landing)) == wm
            &&& moved_next(wm, Some(landing)) is Done
        }),
{
}

/// Motion notes whether a layer of the screen took the pointer, and changes
/// nothing else. The cursor is to be updated exactly over windows and over
/// empty canvas.
pub proof fn law_motion_notes_layers(wm: WmModel, landing: Landing)
    requires
        !wm.session_locked,
    ensures
        moved(wm, Some(landing)).pointer_over_layer <==> target(wm, landing.scene) is ScreenLayer,
        moved(wm, Some(landing)) == (WmModel {
            pointer_over_layer: moved(wm, Some(landing)).pointer_over_layer,
            ..wm
        }),
        moved_next(wm, Some(landing)) is UpdateCursor <==> target(wm, landing.scene) is Window
            || target(wm, landing.scene) is Canvas,
{
}

/// An output without a mode counts as one pixel, and any other has its own size.
pub proof fn law_output_size(size: IntSize)
    ensures
        logical_size(Some(size)) == size,
        logical_size(None).w == 1 && logical_size(None).h == 1,
{
}

} // verus!
