//! Hover feedback on decorations.
use std::collections::HashMap;
use vstd::prelude::*;

use crate::effect::{Effect, TitleBar};
use crate::event::{ResizeEdge, WindowProbe};
use crate::hit::{
    law_decoration_parts, law_topmost_decoration_is_found, window_decoration, DecorationHit,
};
use crate::motion::{moved, Landing};
use crate::pointer::{pressed, PressOutcome};
use crate::state::{CursorIcon, CursorStatus, Decoration, DriftWm, WmModel};

verus! {

broadcast use vstd::std_specs::hash::group_hash_axioms;

/// The cursor for resizing by an edge: it points the way that the edge faces.
pub open spec fn edge_cursor(edge: ResizeEdge) -> CursorIcon {
    match edge {
        ResizeEdge::NoEdge => CursorIcon::Default,
        ResizeEdge::Top => CursorIcon::NResize,
        ResizeEdge::Bottom => CursorIcon::SResize,
        ResizeEdge::Left => CursorIcon::WResize,
        ResizeEdge::Right => CursorIcon::EResize,
        ResizeEdge::TopLeft => CursorIcon::NwResize,
        ResizeEdge::TopRight => CursorIcon::NeResize,
        ResizeEdge::BottomLeft => CursorIcon::SwResize,
        ResizeEdge::BottomRight => CursorIcon::SeResize,
    }
}

/// The cursor for resizing by an edge.
pub fn resize_cursor(edges: ResizeEdge) -> (r: CursorIcon)
    ensures
        r == edge_cursor(edges),
{
    match edges {
        ResizeEdge::Top => CursorIcon::NResize,
        ResizeEdge::Bottom => CursorIcon::SResize,
        ResizeEdge::Left => CursorIcon::WResize,
        ResizeEdge::Right => CursorIcon::EResize,
        ResizeEdge::TopLeft => CursorIcon::NwResize,
        ResizeEdge::TopRight => CursorIcon::NeResize,
        ResizeEdge::BottomLeft => CursorIcon::SwResize,
        ResizeEdge::BottomRight => CursorIcon::SeResize,
        ResizeEdge::NoEdge => CursorIcon::Default,
    }
}

/// The cursor over a part of a decoration.
pub open spec fn decoration_icon(hit: DecorationHit) -> CursorIcon {
    match hit {
        DecorationHit::CloseButton => CursorIcon::Pointer,
        DecorationHit::TitleBar => CursorIcon::Default,
        DecorationHit::ResizeBorder(edge) => edge_cursor(edge),
    }
}

/// The decorations after one surface's close button is hovered or left.
pub open spec fn with_hover(
    decorations: Map<u64, Decoration>,
    surface: u64,
    hovered: bool,
) -> Map<u64, Decoration> {
    if decorations.contains_key(surface) {
        decorations.insert(surface, decorations[surface].hovered(hovered))
    } else {
        decorations
    }
}

/// The title bar to draw when one surface's close button is hovered or left.
pub open spec fn hover_effects(
    decorations: Map<u64, Decoration>,
    surface: u64,
    hovered: bool,
) -> Seq<Effect> {
    if decorations.contains_key(surface) && decorations[surface].close_hovered != hovered {
        seq![Effect::DrawTitleBar { surface, title_bar: decorations[surface].hovered(hovered).title_bar }]
    } else {
        seq![]
    }
}

/// The decorations with no close button hovered.
pub open spec fn without_hover(decorations: Map<u64, Decoration>) -> Map<u64, Decoration> {
    decorations.map_values(|d: Decoration| d.hovered(false))
}

/// Whether the effects draw, each once and in any order, the title bars of the
/// decorations whose close button is hovered, as they look when it is not.
pub open spec fn draws_hovered(decorations: Map<u64, Decoration>, effects: Seq<Effect>) -> bool {
    &&& effects.no_duplicates()
    &&& forall|e: Effect| #[trigger]
        effects.contains(e) <==> {
            &&& e is DrawTitleBar
            &&& decorations.contains_key(e->DrawTitleBar_surface)
            &&& decorations[e->DrawTitleBar_surface].close_hovered
            &&& e->DrawTitleBar_title_bar == decorations[e->DrawTitleBar_surface].hovered(
                false,
            ).title_bar
        }
}

/// The state after the pointer has come to rest over the given windows.
pub open spec fn cursor_updated(wm: WmModel, windows: Seq<WindowProbe>) -> WmModel {
    if wm.grab_cursor || wm.pointer_over_layer {
        wm
    } else {
        match window_decoration(wm.decorations, windows) {
            Some(under) => WmModel {
                decoration_cursor: true,
                cursor_status: CursorStatus::Named(decoration_icon(under.hit)),
                decorations: with_hover(
                    wm.decorations,
                    under.surface,
                    under.hit is CloseButton,
                ),
                ..wm
            },
            None => if wm.decoration_cursor {
                WmModel {
                    decoration_cursor: false,
                    cursor_status: CursorStatus::Named(CursorIcon::Default),
                    decorations: without_hover(wm.decorations),
                    ..wm
                }
            } else {
                wm
            },
        }
    }
}

/// Whether the effects draw the title bars that have to be drawn anew once the
/// pointer has come to rest over the given windows.
pub open spec fn cursor_effects(wm: WmModel, windows: Seq<WindowProbe>, effects: Seq<Effect>) -> bool {
    if wm.grab_cursor || wm.pointer_over_layer {
        effects == Seq::<Effect>::empty()
    } else {
        match window_decoration(wm.decorations, windows) {
            Some(under) => effects == hover_effects(
                wm.decorations,
                under.surface,
                under.hit is CloseButton,
            ),
            None => if wm.decoration_cursor {
                draws_hovered(wm.decorations, effects)
            } else {
                effects == Seq::<Effect>::empty()
            },
        }
    }
}

/// The keys of a map, each once and in any order.
pub(crate) fn keys_of<V>(map: &HashMap<u64, V>) -> (keys: Vec<u64>)
    ensures
        keys@.no_duplicates(),
        forall|k: u64| #[trigger] keys@.contains(k) <==> map@.contains_key(k),
{
    let mut keys: Vec<u64> = Vec::new();
    for key in it: map.keys()
        invariant
            keys@ == it.seq().unref().take(it.index() as int),
    {
        keys.push(*key);
    }
    proof {
        let listed = vstd::std_specs::iter::IteratorSpec::remaining(
            &vstd::std_specs::hash::spec_keys_iter(map),
        ).unref();
        assert(keys@ =~= listed);
        assert forall|k: u64| #[trigger] keys@.contains(k) <==> map@.contains_key(k) by {
            assert(listed.to_set().contains(k) <==> listed.contains(k));
        }
    }
    keys
}

impl DriftWm {
    /// Sets the hover state of the close button of one surface's decoration,
    /// and names the title bar to draw if that changed.
    pub fn set_close_hovered(&mut self, surface: u64, hovered: bool) -> (effects: Vec<Effect>)
        ensures
            final(self)@ == (WmModel {
                decorations: with_hover(old(self)@.decorations, surface, hovered),
                ..old(self)@
            }),
            effects@ == hover_effects(old(self)@.decorations, surface, hovered),
    {
        let mut effects: Vec<Effect> = Vec::new();
        let found: Option<Decoration> = match self.decorations.get(&surface) {
            Some(decoration) => Some(*decoration),
            None => None,
        };
        if let Some(decoration) = found {
            if decoration.close_hovered != hovered {
                let title_bar: TitleBar = TitleBar {
                    width: decoration.width,
                    focused: decoration.focused,
                    close_hovered: hovered,
                };
                let _ = self.decorations.insert(
                    surface,
                    Decoration { close_hovered: hovered, title_bar, ..decoration },
                );
                effects.push(Effect::DrawTitleBar { surface, title_bar });
            }
        }
        effects
    }

    /// Leaves every close button, and names the title bars to draw.
    pub fn clear_all_close_hovered(&mut self) -> (effects: Vec<Effect>)
        ensures
            final(self)@ == (WmModel {
                decorations: without_hover(old(self)@.decorations),
                ..old(self)@
            }),
            draws_hovered(old(self)@.decorations, effects@),
    {
        let surfaces: Vec<u64> = keys_of(&self.decorations);
        let mut effects: Vec<Effect> = Vec::new();
        let mut i: usize = 0;
        let ghost before = self@;
        while i < surfaces.len()
            invariant
                i <= surfaces.len(),
                surfaces@.no_duplicates(),
                forall|k: u64| #[trigger] surfaces@.contains(k) <==> before.decorations.contains_key(k),
                self@ == (WmModel { decorations: self@.decorations, ..before }),
                self@.decorations.dom() == before.decorations.dom(),
                forall|k: u64| #[trigger]
                    before.decorations.contains_key(k) ==> self@.decorations[k] == (
                    if surfaces@.take(i as int).contains(k) {
                        before.decorations[k].hovered(false)
                    } else {
                        before.decorations[k]
                    }),
                effects@.no_duplicates(),
                forall|e: Effect| #[trigger]
                    effects@.contains(e) <==> {
                        &&& e is DrawTitleBar
                        &&& surfaces@.take(i as int).contains(e->DrawTitleBar_surface)
                        &&& before.decorations[e->DrawTitleBar_surface].close_hovered
                        &&& e->DrawTitleBar_title_bar
                            == before.decorations[e->DrawTitleBar_surface].hovered(false).title_bar
                    },
            decreases surfaces.len() - i,
        {
            let surface: u64 = surfaces[i];
            let ghost drawn = effects@;
            let mut more: Vec<Effect> = self.set_close_hovered(surface, false);
            proof {
                let done = surfaces@.take(i as int);
                assert(surfaces@.contains(surface));
                assert(!done.contains(surface));
                assert(surfaces@.take(i + 1) =~= done.push(surface));
                assert forall|k: u64| #[trigger]
                    surfaces@.take(i + 1).contains(k) <==> done.contains(k) || k == surface by {
                    vstd::seq_lib::lemma_seq_contains_after_push(done, surface, k);
                }
                if more@.len() == 1 {
                    let e = more@[0];
                    assert(!drawn.contains(e));
                    assert((drawn + more@).no_duplicates());
                    assert forall|f: Effect| #[trigger]
                        (drawn + more@).contains(f) <==> drawn.contains(f) || f == e by {
                        vstd::seq_lib::lemma_seq_concat_contains_all_elements(drawn, more@, f);
                    }
                } else {
                    assert(drawn + more@ =~= drawn);
                }
            }
            effects.append(&mut more);
            i = i + 1;
        }
        proof {
            assert(surfaces@.take(i as int) =~= surfaces@);
            assert forall|k: u64| before.decorations.contains_key(k) implies surfaces@.contains(k) by {}
            assert(self@.decorations =~= without_hover(before.decorations));
        }
        effects
    }

    /// Updates the cursor and the hover feedback for the decoration under the
    /// pointer, and names the title bars to draw.
    pub fn update_decoration_cursor(&mut self, windows: &Vec<WindowProbe>) -> (effects: Vec<Effect>)
        ensures
            final(self)@ == cursor_updated(old(self)@, windows@),
            cursor_effects(old(self)@, windows@, effects@),
    {
        if self.grab_cursor || self.pointer_over_layer {
            return Vec::new();
        }
        match self.decoration_under(windows) {
            Some(under) => {
                self.decoration_cursor = true;
                match under.hit {
                    DecorationHit::CloseButton => {
                        self.cursor_status = CursorStatus::Named(CursorIcon::Pointer);
                        self.set_close_hovered(under.surface, true)
                    },
                    DecorationHit::ResizeBorder(edge) => {
                        self.cursor_status = CursorStatus::Named(resize_cursor(edge));
                        self.set_close_hovered(under.surface, false)
                    },
                    DecorationHit::TitleBar => {
                        self.cursor_status = CursorStatus::Named(CursorIcon::Default);
                        self.set_close_hovered(under.surface, false)
                    },
                }
            },
            None => {
                if self.decoration_cursor {
                    self.decoration_cursor = false;
                    self.cursor_status = CursorStatus::Named(CursorIcon::Default);
                    self.clear_all_close_hovered()
                } else {
                    Vec::new()
                }
            },
        }
    }
}

/// Title bars that show their decorations go on doing so, whatever the pointer
/// does.
pub proof fn law_hover_keeps_title_bars_in_sync(
    wm: WmModel,
    surface: u64,
    hovered: bool,
    windows: Seq<WindowProbe>,
)
    requires
        wm.title_bars_in_sync(),
    ensures
        (WmModel { decorations: with_hover(wm.decorations, surface, hovered), ..wm }).title_bars_in_sync(),
        (WmModel { decorations: without_hover(wm.decorations), ..wm }).title_bars_in_sync(),
        cursor_updated(wm, windows).title_bars_in_sync(),
{
    assert forall|d: Decoration, h: bool| d.in_sync() implies #[trigger] d.hovered(h).in_sync() by {}
    assert forall|s: u64, h: bool| wm.decorations.contains_key(s) implies #[trigger] wm.decorations[s].hovered(
        h,
    ).in_sync() by {}
}

/// Neither motion nor a press touches a decoration, so they keep title bars as
/// they are too.
pub proof fn law_input_keeps_title_bars_in_sync(
    wm: WmModel,
    landing: Option<Landing>,
    outcome: PressOutcome,
)
    ensures
        moved(wm, landing).decorations == wm.decorations,
        pressed(wm, outcome).decorations == wm.decorations,
        wm.title_bars_in_sync() ==> moved(wm, landing).title_bars_in_sync(),
        wm.title_bars_in_sync() ==> pressed(wm, outcome).title_bars_in_sync(),
{
}

/// Clearing hover leaves no close button hovered, keeps every decoration, and
/// has nothing left to draw the next time.
pub proof fn law_clearing_hover_is_complete(decorations: Map<u64, Decoration>, effects: Seq<Effect>)
    requires
        draws_hovered(without_hover(decorations), effects),
    ensures
        without_hover(decorations).dom() == decorations.dom(),
        forall|s: u64| #[trigger]
            decorations.contains_key(s) ==> !without_hover(decorations)[s].close_hovered,
        without_hover(without_hover(decorations)) == without_hover(decorations),
        effects.len() == 0,
{
    assert(without_hover(decorations).dom() =~= decorations.dom());
    assert(without_hover(without_hover(decorations)) =~= without_hover(decorations));
    if effects.len() > 0 {
        assert(effects.contains(effects[0]));
    }
}

/// Setting a hover state a second time changes nothing and draws nothing, and
/// setting one surface's leaves the others alone.
pub proof fn law_setting_hover_is_local(
    decorations: Map<u64, Decoration>,
    surface: u64,
    hovered: bool,
    other: u64,
)
    requires
        other != surface,
    ensures
        with_hover(with_hover(decorations, surface, hovered), surface, hovered) == with_hover(
            decorations,
            surface,
            hovered,
        ),
        hover_effects(with_hover(decorations, surface, hovered), surface, hovered).len() == 0,
        with_hover(decorations, surface, hovered).contains_key(other) == decorations.contains_key(other),
        decorations.contains_key(other) ==> with_hover(decorations, surface, hovered)[other]
            == decorations[other],
{
    assert(with_hover(with_hover(decorations, surface, hovered), surface, hovered) =~= with_hover(
        decorations,
        surface,
        hovered,
    ));
}

/// Different edges have different cursors.
pub proof fn law_cursor_tells_edges_apart(a: ResizeEdge, b: ResizeEdge)
    ensures
        edge_cursor(a) == edge_cursor(b) ==> a == b,
{
}

/// Hovering a close button sets just that, and the title bar is drawn anew for
/// it exactly if it was otherwise before.
pub proof fn law_hover_of_one_decoration(decoration: Decoration, hovered: bool)
    ensures
        ({
            let after = decoration.hovered(hovered);
            &&& after.close_hovered == hovered
            &&& after.width == decoration.width
            &&& after.focused == decoration.focused
            &&& decoration.close_hovered == hovered ==> after.title_bar == decoration.title_bar
            &&& decoration.close_hovered != hovered ==> {
                &&& after.title_bar.width == decoration.width
                &&& after.title_bar.focused == decoration.focused
                &&& after.title_bar.close_hovered == hovered
            }
        }),
        decoration.in_sync() <==> {
            &&& decoration.title_bar.width == decoration.width
            &&& decoration.title_bar.focused == decoration.focused
            &&& decoration.title_bar.close_hovered == decoration.close_hovered
        },
{
}

/// Hovering the close button of a surface changes that surface's decoration and
/// no other, and draws its title bar exactly if something changed.
pub proof fn law_hover_reaches_its_surface(
    decorations: Map<u64, Decoration>,
    surface: u64,
    hovered: bool,
    s: u64,
)
    ensures
        ({
            let after = with_hover(decorations, surface, hovered);
            let effects = hover_effects(decorations, surface, hovered);
            &&& after.contains_key(s) == decorations.contains_key(s)
            &&& decorations.contains_key(s) && s != surface ==> after[s] == decorations[s]
            &&& decorations.contains_key(surface) ==> after[surface].close_hovered == hovered
            &&& decorations.contains_key(surface) ==> after[surface] == decorations[surface].hovered(
                hovered,
            )
            &&& !decorations.contains_key(surface) ==> after == decorations && effects.len() == 0
            &&& decorations.contains_key(surface) && decorations[surface].close_hovered == hovered
                ==> effects.len() == 0
            &&& decorations.contains_key(surface) && decorations[surface].close_hovered != hovered
                ==> {
                &&& effects.len() == 1
                &&& effects[0] == (Effect::DrawTitleBar {
                    surface,
                    title_bar: after[surface].title_bar,
                })
            }
        }),
{
}

/// Clearing hover leaves every close button, and draws exactly the title bars of
/// the surfaces whose close button was hovered, each once and as it then is.
pub proof fn law_clearing_hover_draws_what_was_hovered(
    decorations: Map<u64, Decoration>,
    effects: Seq<Effect>,
    s: u64,
)
    requires
        draws_hovered(decorations, effects),
    ensures
        effects.no_duplicates(),
        forall|i: int| 0 <= i < effects.len() ==> #[trigger] effects[i] is DrawTitleBar,
        without_hover(decorations).contains_key(s) == decorations.contains_key(s),
        decorations.contains_key(s) ==> without_hover(decorations)[s] == decorations[s].hovered(false),
        decorations.contains_key(s) && decorations[s].close_hovered <==> exists|i: int|
            #![trigger effects[i]]
            0 <= i < effects.len() && effects[i] == (Effect::DrawTitleBar {
                surface: s,
                title_bar: TitleBar {
                    width: decorations[s].width,
                    focused: decorations[s].focused,
                    close_hovered: false,
                },
            }),
        forall|i: int|
            0 <= i < effects.len() && (#[trigger] effects[i])->DrawTitleBar_surface == s
                ==> decorations.contains_key(s) && decorations[s].close_hovered,
{
    let own = Effect::DrawTitleBar {
        surface: s,
        title_bar: TitleBar {
            width: decorations[s].width,
            focused: decorations[s].focused,
            close_hovered: false,
        },
    };
    assert forall|i: int| 0 <= i < effects.len() implies effects.contains(#[trigger] effects[i]) by {}
    if decorations.contains_key(s) && decorations[s].close_hovered {
        assert(effects.contains(own));
    }
}

/// The close button, the title bar and the resize borders each have their own
/// cursor, and only the close button is hovered. Other decorations, and all of
/// the state besides, stay as they are.
pub proof fn law_cursor_over_decorations(
    wm: WmModel,
    windows: Seq<WindowProbe>,
    effects: Seq<Effect>,
    s: u64,
)
    requires
        !wm.grab_cursor,
        !wm.pointer_over_layer,
        window_decoration(wm.decorations, windows) is Some,
        cursor_effects(wm, windows, effects),
    ensures
        ({
            let under = window_decoration(wm.decorations, windows)->0;
            let after = cursor_updated(wm, windows);
            &&& after == (WmModel {
                decoration_cursor: true,
                cursor_status: after.cursor_status,
                decorations: after.decorations,
                ..wm
            })
            &&& under.hit is CloseButton ==> after.cursor_status == CursorStatus::Named(
                CursorIcon::Pointer,
            )
            &&& under.hit is TitleBar ==> after.cursor_status == CursorStatus::Named(
                CursorIcon::Default,
            )
            &&& under.hit matches DecorationHit::ResizeBorder(edge) ==> after.cursor_status
                == CursorStatus::Named(edge_cursor(edge))
            &&& after.decorations.contains_key(s) == wm.decorations.contains_key(s)
            &&& s != under.surface && wm.decorations.contains_key(s) ==> after.decorations[s]
                == wm.decorations[s]
            &&& wm.decorations.contains_key(under.surface)
            &&& after.decorations[under.surface].close_hovered == (under.hit is CloseButton)
            &&& after.decorations[under.surface] == wm.decorations[under.surface].hovered(
                under.hit is CloseButton,
            )
            &&& effects.len() == (if wm.decorations[under.surface].close_hovered == (under.hit is CloseButton) {
                0int
            } else {
                1int
            })
            &&& effects.len() == 1 ==> effects[0] == (Effect::DrawTitleBar {
                surface: under.surface,
                title_bar: after.decorations[under.surface].title_bar,
            })
        }),
{
    law_topmost_decoration_is_found(wm.decorations, windows);
    let under = window_decoration(wm.decorations, windows)->0;
    let at = choose|at: int|
        #![trigger windows[at]]
        0 <= at < windows.len() && windows[at].decoration(wm.decorations) == Some(under);
    law_decoration_parts(wm.decorations, windows[at]);
}

/// Away from decorations, a cursor that a decoration chose goes back to the
/// default and no close button stays hovered. Any other cursor stays.
pub proof fn law_cursor_away_from_decorations(
    wm: WmModel,
    windows: Seq<WindowProbe>,
    effects: Seq<Effect>,
)
    requires
        !wm.grab_cursor,
        !wm.pointer_over_layer,
        window_decoration(wm.decorations, windows) is None,
        cursor_effects(wm, windows, effects),
    ensures
        !wm.decoration_cursor ==> cursor_updated(wm, windows) == wm && effects.len() == 0,
        wm.decoration_cursor ==> {
            &&& cursor_updated(wm, windows) == (WmModel {
                decoration_cursor: false,
                cursor_status: CursorStatus::Named(CursorIcon::Default),
                decorations: without_hover(wm.decorations),
                ..wm
            })
            &&& draws_hovered(wm.decorations, effects)
        },
{
}

/// While a grab or a layer of the screen has the pointer, decorations neither
/// choose the cursor nor show hover.
pub proof fn law_grabs_and_layers_keep_cursor(
    wm: WmModel,
    windows: Seq<WindowProbe>,
    effects: Seq<Effect>,
)
    requires
        wm.grab_cursor || wm.pointer_over_layer,
        cursor_effects(wm, windows, effects),
    ensures
        cursor_updated(wm, windows) == wm,
        effects.len() == 0,
{
}

/// The cursor for resizing points the way that the edge faces, and so opposite
/// edges have opposite cursors.
pub proof fn law_cursor_points_outwards(edge: ResizeEdge)
    ensures
        edge_cursor(edge) is NResize <==> edge is Top,
        edge_cursor(edge) is SResize <==> edge is Bottom,
        edge_cursor(edge) is WResize <==> edge is Left,
        edge_cursor(edge) is EResize <==> edge is Right,
        edge_cursor(edge) is NwResize <==> edge is TopLeft,
        edge_cursor(edge) is NeResize <==> edge is TopRight,
        edge_cursor(edge) is SwResize <==> edge is BottomLeft,
        edge_cursor(edge) is SeResize <==> edge is BottomRight,
        edge_cursor(edge) is Default <==> edge is NoEdge,
{
}

} // verus!
