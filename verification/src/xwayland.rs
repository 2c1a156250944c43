//! XWayland: its start, and what is left to clean up when it crashes.
use vstd::prelude::*;
use vstd::string::StringExecFns;

use crate::decorations::keys_of;
use crate::effect::Effect;
use crate::event::SpaceWindow;
use crate::state::{DriftWm, Fullscreen, WmModel};

verus! {

broadcast use vstd::std_specs::hash::group_hash_axioms;

/// The decimal digit for a number below ten.
pub open spec fn digit(n: nat) -> char {
    (('0' as nat) + n) as char
}

/// A number in decimal, without leading zeros.
pub open spec fn decimal(n: nat) -> Seq<char>
    decreases n,
{
    if n < 10 {
        seq![digit(n)]
    } else {
        decimal(n / 10).push(digit(n % 10))
    }
}

/// The name by which clients reach an X11 display.
pub open spec fn name_of(display: nat) -> Seq<char> {
    seq![':'] + decimal(display)
}

fn digit_str(n: u32) -> (r: &'static str)
    requires
        n < 10,
    ensures
        r@ == seq![digit(n as nat)],
{
    proof {
        reveal_strlit("0");
        reveal_strlit("1");
        reveal_strlit("2");
        reveal_strlit("3");
        reveal_strlit("4");
        reveal_strlit("5");
        reveal_strlit("6");
        reveal_strlit("7");
        reveal_strlit("8");
        reveal_strlit("9");
    }
    if n == 0 {
        "0"
    } else if n == 1 {
        "1"
    } else if n == 2 {
        "2"
    } else if n == 3 {
        "3"
    } else if n == 4 {
        "4"
    } else if n == 5 {
        "5"
    } else if n == 6 {
        "6"
    } else if n == 7 {
        "7"
    } else if n == 8 {
        "8"
    } else {
        "9"
    }
}

fn append_decimal(text: &mut String, n: u32)
    ensures
        final(text)@ == old(text)@ + decimal(n as nat),
    decreases n,
{
    if n >= 10 {
        append_decimal(text, n / 10);
    }
    text.append(digit_str(n % 10));
}

/// The name by which clients reach an X11 display.
pub fn display_name(display: u32) -> (r: String)
    ensures
        r@ == name_of(display as nat),
{
    proof {
        reveal_strlit(":");
    }
    let mut name: String = String::from_str(":");
    assert(name@ =~= seq![':']);
    append_decimal(&mut name, display);
    name
}

/// Whether a window is one of the X11 windows.
pub open spec fn is_x11_window(windows: Seq<SpaceWindow>, window: u64) -> bool {
    exists|i: int|
        #![trigger windows[i]]
        0 <= i < windows.len() && windows[i].is_x11 && windows[i].window == window
}

/// Whether a surface is that of an X11 window.
pub open spec fn is_x11_surface(windows: Seq<SpaceWindow>, surface: u64) -> bool {
    exists|i: int|
        #![trigger windows[i]]
        0 <= i < windows.len() && windows[i].is_x11 && windows[i].surface == Some(surface)
}

/// Whether there is any X11 window.
pub open spec fn has_x11_window(windows: Seq<SpaceWindow>) -> bool {
    exists|i: int| #![trigger windows[i]] 0 <= i < windows.len() && windows[i].is_x11
}

/// Whether an output shows an X11 window in fullscreen.
pub open spec fn shows_x11(wm: WmModel, windows: Seq<SpaceWindow>, output: u64) -> bool {
    wm.fullscreen.contains_key(output) && is_x11_window(windows, wm.fullscreen[output].window)
}

/// The state once XWayland is known to be gone: nothing of it is left, and no
/// output shows one of its windows in fullscreen.
pub open spec fn without_xwayland(wm: WmModel, windows: Seq<SpaceWindow>) -> WmModel {
    WmModel {
        x11_wm: None,
        xwayland_client: None,
        x11_display: None,
        x11_override_redirect: seq![],
        fullscreen: wm.fullscreen.restrict(
            Set::new(|output: u64| !is_x11_window(windows, wm.fullscreen[output].window)),
        ),
        ..wm
    }
}

/// Gives an output back the view that it had before fullscreen.
pub open spec fn restored_view(output: u64, fullscreen: Fullscreen) -> Effect {
    Effect::RestoreView {
        output,
        camera: fullscreen.saved_camera,
        zoom: fullscreen.saved_zoom,
    }
}

/// Gives some outputs back their views.
pub open spec fn restored_views(wm: WmModel, outputs: Seq<u64>) -> Seq<Effect> {
    outputs.map_values(|output: u64| restored_view(output, wm.fullscreen[output]))
}

/// What comes after the views have been restored: the outputs are brought in
/// line if any X11 window was there, and keyboard focus leaves a dying window.
pub open spec fn crash_focus_effects(windows: Seq<SpaceWindow>, focused: Option<u64>) -> Seq<Effect> {
    (if has_x11_window(windows) {
        seq![Effect::UpdateOutput]
    } else {
        seq![]
    }) + (if focused is Some && is_x11_surface(windows, focused->0) {
        seq![Effect::ClearKeyboardFocus]
    } else {
        seq![]
    })
}

/// The state without any trace of the X11 windows.
pub open spec fn without_x11_windows(wm: WmModel, windows: Seq<SpaceWindow>) -> WmModel {
    let dead = Set::new(|surface: u64| is_x11_surface(windows, surface));
    WmModel {
        decorations: wm.decorations.remove_keys(dead),
        pending_ssd: wm.pending_ssd.difference(dead),
        pending_center: wm.pending_center.difference(dead),
        focus_history: wm.focus_history.filter(|window: u64| !is_x11_window(windows, window)),
        ..wm
    }
}

/// Unmaps the X11 windows, in their order.
pub open spec fn unmapped(windows: Seq<SpaceWindow>) -> Seq<Effect> {
    windows.filter_map(
        |w: SpaceWindow|
            if w.is_x11 {
                Some(Effect::UnmapWindow { window: w.window })
            } else {
                None
            },
    )
}

/// The state once XWayland is ready.
pub open spec fn readied(wm: WmModel, display: u32, client: u64) -> WmModel {
    WmModel { x11_display: Some(display), xwayland_client: Some(client), ..wm }
}

/// What follows once XWayland is ready.
pub open spec fn ready_effects(display: u32) -> Seq<Effect> {
    seq![Effect::SetDisplay { display }, Effect::ExportDisplay, Effect::StartX11Wm]
}

/// The state once it is known whether the X11 window manager started.
pub open spec fn x11_started(wm: WmModel, started: Option<u64>) -> WmModel {
    WmModel {
        x11_wm: if started is Some {
            started
        } else {
            wm.x11_wm
        },
        ..wm
    }
}

/// Whether the effects are what a crash leads to at first. The order in which
/// views are restored is open.
pub open spec fn crash_effects(
    wm: WmModel,
    windows: Seq<SpaceWindow>,
    focused: Option<u64>,
    effects: Seq<Effect>,
) -> bool {
    exists|outputs: Seq<u64>|
        {
            &&& outputs.no_duplicates()
            &&& forall|output: u64| #[trigger]
                outputs.contains(output) <==> shows_x11(wm, windows, output)
            &&& effects == seq![Effect::RemoveDisplay] + #[trigger] restored_views(wm, outputs)
                + crash_focus_effects(windows, focused)
        }
}

/// What the end of the clean-up leads to.
pub open spec fn forgotten_effects(windows: Seq<SpaceWindow>) -> Seq<Effect> {
    unmapped(windows) + seq![Effect::SpawnXwayland, Effect::NotifyCrash]
}

fn lists_x11_window(windows: &Vec<SpaceWindow>, window: u64) -> (r: bool)
    ensures
        r == is_x11_window(windows@, window),
{
    let mut i: usize = 0;
    while i < windows.len()
        invariant
            i <= windows.len(),
            forall|j: int|
                #![trigger windows@[j]]
                0 <= j < i ==> !(windows@[j].is_x11 && windows@[j].window == window),
        decreases windows.len() - i,
    {
        let w: SpaceWindow = windows[i];
        if w.is_x11 && w.window == window {
            assert(windows@[i as int] == w);
            return true;
        }
        i = i + 1;
    }
    false
}

fn lists_x11_surface(windows: &Vec<SpaceWindow>, surface: u64) -> (r: bool)
    ensures
        r == is_x11_surface(windows@, surface),
{
    let mut i: usize = 0;
    while i < windows.len()
        invariant
            i <= windows.len(),
            forall|j: int|
                #![trigger windows@[j]]
                0 <= j < i ==> !(windows@[j].is_x11 && windows@[j].surface == Some(surface)),
        decreases windows.len() - i,
    {
        let w: SpaceWindow = windows[i];
        if w.is_x11 {
            if let Some(own) = w.surface {
                if own == surface {
                    assert(windows@[i as int] == w);
                    return true;
                }
            }
        }
        i = i + 1;
    }
    false
}

fn lists_any_x11(windows: &Vec<SpaceWindow>) -> (r: bool)
    ensures
        r == has_x11_window(windows@),
{
    let mut i: usize = 0;
    while i < windows.len()
        invariant
            i <= windows.len(),
            forall|j: int| #![trigger windows@[j]] 0 <= j < i ==> !windows@[j].is_x11,
        decreases windows.len() - i,
    {
        if windows[i].is_x11 {
            assert(windows@[i as int].is_x11);
            return true;
        }
        i = i + 1;
    }
    false
}

impl DriftWm {
    /// Notes that XWayland is ready on a display.
    pub fn xwayland_ready(&mut self, display: u32, client: u64) -> (effects: Vec<Effect>)
        ensures
            final(self)@ == readied(old(self)@, display, client),
            effects@ == ready_effects(display),
    {
        let mut effects: Vec<Effect> = Vec::new();
        effects.push(Effect::SetDisplay { display });
        effects.push(Effect::ExportDisplay);
        self.x11_display = Some(display);
        self.xwayland_client = Some(client);
        effects.push(Effect::StartX11Wm);
        effects
    }

    /// Notes whether the X11 window manager started.
    pub fn x11_wm_started(&mut self, wm: Option<u64>)
        ensures
            final(self)@ == x11_started(old(self)@, wm),
    {
        if wm.is_some() {
            self.x11_wm = wm;
        }
    }

    /// Begins to clean up after XWayland crashed: forgets it, gives the outputs
    /// that showed its windows in fullscreen back their views, and takes
    /// keyboard focus away from its windows. `focused` is the surface that has
    /// keyboard focus.
    pub fn xwayland_crashed(&mut self, windows: &Vec<SpaceWindow>, focused: Option<u64>) -> (effects: Vec<
        Effect,
    >)
        ensures
            final(self)@ == without_xwayland(old(self)@, windows@),
            crash_effects(old(self)@, windows@, focused, effects@),
    {
        let ghost before = self@;
        self.x11_wm = None;
        self.xwayland_client = None;
        self.x11_display = None;
        self.x11_override_redirect.clear();
        let mut effects: Vec<Effect> = Vec::new();
        effects.push(Effect::RemoveDisplay);
        let outputs: Vec<u64> = keys_of(&self.fullscreen);
        let ghost mut dying: Seq<u64> = Seq::empty();
        let mut i: usize = 0;
        assert(restored_views(before, dying) =~= Seq::empty());
        while i < outputs.len()
            invariant
                i <= outputs.len(),
                outputs@.no_duplicates(),
                forall|k: u64| #[trigger] outputs@.contains(k) <==> before.fullscreen.contains_key(k),
                self@ == (WmModel {
                    x11_wm: None,
                    xwayland_client: None,
                    x11_display: None,
                    x11_override_redirect: seq![],
                    fullscreen: self@.fullscreen,
                    ..before
                }),
                forall|k: u64| #[trigger]
                    self@.fullscreen.contains_key(k) <==> before.fullscreen.contains_key(k)
                        && !dying.contains(k),
                forall|k: u64| #[trigger]
                    self@.fullscreen.contains_key(k) ==> self@.fullscreen[k] == before.fullscreen[k],
                dying.no_duplicates(),
                forall|k: u64| #[trigger]
                    dying.contains(k) <==> outputs@.take(i as int).contains(k) && shows_x11(
                        before,
                        windows@,
                        k,
                    ),
                effects@ == seq![Effect::RemoveDisplay] + restored_views(before, dying),
            decreases outputs.len() - i,
        {
            let output: u64 = outputs[i];
            proof {
                let done = outputs@.take(i as int);
                assert(outputs@.contains(output));
                assert(!done.contains(output));
                assert(outputs@.take(i + 1) =~= done.push(output));
                assert forall|k: u64| #[trigger]
                    outputs@.take(i + 1).contains(k) <==> done.contains(k) || k == output by {
                    vstd::seq_lib::lemma_seq_contains_after_push(done, output, k);
                }
                assert(!dying.contains(output));
                assert(self@.fullscreen.contains_key(output));
            }
            let window: u64 = match self.fullscreen.get(&output) {
                Some(shown) => shown.window,
                None => {
                    i = i + 1;
                    continue;
                },
            };
            if lists_x11_window(windows, window) {
                if let Some(shown) = self.fullscreen.remove(&output) {
                    effects.push(
                        Effect::RestoreView {
                            output,
                            camera: shown.saved_camera,
                            zoom: shown.saved_zoom,
                        },
                    );
                }
                proof {
                    let longer = dying.push(output);
                    assert forall|k: u64| #[trigger]
                        longer.contains(k) <==> dying.contains(k) || k == output by {
                        vstd::seq_lib::lemma_seq_contains_after_push(dying, output, k);
                    }
                    assert(longer.no_duplicates());
                    assert(restored_views(before, longer) =~= restored_views(before, dying).push(
                        restored_view(output, before.fullscreen[output]),
                    ));
                    dying = longer;
                }
            }
            i = i + 1;
        }
        proof {
            assert(outputs@.take(i as int) =~= outputs@);
            assert(self@.fullscreen =~= without_xwayland(before, windows@).fullscreen);
        }
        let ghost restored = effects@;
        if lists_any_x11(windows) {
            effects.push(Effect::UpdateOutput);
        }
        if let Some(surface) = focused {
            if lists_x11_surface(windows, surface) {
                effects.push(Effect::ClearKeyboardFocus);
            }
        }
        assert(effects@ =~= restored + crash_focus_effects(windows@, focused));
        assert(effects@ == seq![Effect::RemoveDisplay] + restored_views(before, dying)
            + crash_focus_effects(windows@, focused));
        effects
    }

    /// Concludes the clean-up after XWayland crashed: forgets its windows, and
    /// starts it anew.
    pub fn forget_x11_windows(&mut self, windows: &Vec<SpaceWindow>) -> (effects: Vec<Effect>)
        ensures
            final(self)@ == without_x11_windows(old(self)@, windows@),
            effects@ == forgotten_effects(windows@),
    {
        let ghost before = self@;
        let ghost unmap = |w: SpaceWindow|
            if w.is_x11 {
                Some(Effect::UnmapWindow { window: w.window })
            } else {
                None
            };
        let mut effects: Vec<Effect> = Vec::new();
        let mut i: usize = 0;
        assert(windows@.take(0).filter_map(unmap) =~= Seq::empty()) by {
            reveal(Seq::filter_map);
        }
        assert(before.decorations =~= without_x11_windows(before, windows@.take(0)).decorations);
        while i < windows.len()
            invariant
                i <= windows.len(),
                unmap == (|w: SpaceWindow|
                    if w.is_x11 {
                        Some(Effect::UnmapWindow { window: w.window })
                    } else {
                        None
                    }),
                effects@ == windows@.take(i as int).filter_map(unmap),
                self@ == (WmModel {
                    focus_history: before.focus_history,
                    ..without_x11_windows(before, windows@.take(i as int))
                }),
            decreases windows.len() - i,
        {
            let w: SpaceWindow = windows[i];
            proof {
                reveal(Seq::filter_map);
                lemma_x11_surfaces_grow(windows@, i as int);
                assert(windows@.take(i + 1).last() == w);
                assert(windows@.take(i + 1).drop_last() =~= windows@.take(i as int));
                assert(unmap(w) == (if w.is_x11 {
                    Some(Effect::UnmapWindow { window: w.window })
                } else {
                    None
                }));
            }
            if w.is_x11 {
                if let Some(surface) = w.surface {
                    let _ = self.decorations.remove(&surface);
                    let _ = self.pending_ssd.remove(&surface);
                    let _ = self.pending_center.remove(&surface);
                }
                effects.push(Effect::UnmapWindow { window: w.window });
            }
            i = i + 1;
            proof {
                let done = without_x11_windows(before, windows@.take(i as int));
                assert(self@.decorations =~= done.decorations);
                assert(self@.pending_ssd =~= done.pending_ssd);
                assert(self@.pending_center =~= done.pending_center);
            }
        }
        assert(windows@.take(i as int) =~= windows@);
        self.forget_focus(windows);
        effects.push(Effect::SpawnXwayland);
        effects.push(Effect::NotifyCrash);
        effects
    }

    fn forget_focus(&mut self, windows: &Vec<SpaceWindow>)
        ensures
            final(self)@ == (WmModel {
                focus_history: old(self)@.focus_history.filter(
                    |window: u64| !is_x11_window(windows@, window),
                ),
                ..old(self)@
            }),
    {
        let ghost keep = |window: u64| !is_x11_window(windows@, window);
        let mut kept: Vec<u64> = Vec::new();
        let mut i: usize = 0;
        let ghost before = self@;
        assert(before.focus_history.take(0).filter(keep) =~= Seq::empty()) by {
            reveal(Seq::filter);
        }
        while i < self.focus_history.len()
            invariant
                i <= self.focus_history.len(),
                self@ == before,
                keep == (|window: u64| !is_x11_window(windows@, window)),
                kept@ == before.focus_history.take(i as int).filter(keep),
            decreases self.focus_history.len() - i,
        {
            let window: u64 = self.focus_history[i];
            proof {
                reveal(Seq::filter);
                assert(before.focus_history.take(i + 1).last() == window);
                assert(before.focus_history.take(i + 1).drop_last() =~= before.focus_history.take(
                    i as int,
                ));
                assert(keep(window) == !is_x11_window(windows@, window));
            }
            if !lists_x11_window(windows, window) {
                kept.push(window);
            }
            i = i + 1;
        }
        assert(before.focus_history.take(i as int) =~= before.focus_history);
        self.focus_history = kept;
    }
}

/// One more window adds its own surface to those of the X11 windows, if it is one.
proof fn lemma_x11_surfaces_grow(windows: Seq<SpaceWindow>, n: int)
    requires
        0 <= n < windows.len(),
    ensures
        forall|s: u64| #[trigger]
            is_x11_surface(windows.take(n + 1), s) <==> is_x11_surface(windows.take(n), s) || (
            windows[n].is_x11 && windows[n].surface == Some(s)),
{
    let less = windows.take(n);
    let more = windows.take(n + 1);
    assert forall|s: u64| #[trigger]
        is_x11_surface(more, s) <==> is_x11_surface(less, s) || (windows[n].is_x11
            && windows[n].surface == Some(s)) by {
        if is_x11_surface(more, s) {
            let i = choose|i: int|
                #![trigger more[i]]
                0 <= i < more.len() && more[i].is_x11 && more[i].surface == Some(s);
            if i < n {
                assert(less[i] == more[i]);
            }
        }
        if is_x11_surface(less, s) {
            let i = choose|i: int|
                #![trigger less[i]]
                0 <= i < less.len() && less[i].is_x11 && less[i].surface == Some(s);
            assert(more[i] == less[i]);
        }
        assert(more[n] == windows[n]);
    }
}

/// The state after the whole clean-up.
pub open spec fn cleaned_up(wm: WmModel, windows: Seq<SpaceWindow>) -> WmModel {
    without_x11_windows(without_xwayland(wm, windows), windows)
}

/// The clean-up leaves nothing that refers to XWayland or to any of its windows.
pub proof fn law_crash_leaves_no_trace(wm: WmModel, windows: Seq<SpaceWindow>)
    ensures
        cleaned_up(wm, windows).x11_wm is None,
        cleaned_up(wm, windows).xwayland_client is None,
        cleaned_up(wm, windows).x11_display is None,
        cleaned_up(wm, windows).x11_override_redirect.len() == 0,
        forall|output: u64| !#[trigger] shows_x11(cleaned_up(wm, windows), windows, output),
        forall|surface: u64| #[trigger]
            is_x11_surface(windows, surface) ==> {
                &&& !cleaned_up(wm, windows).decorations.contains_key(surface)
                &&& !cleaned_up(wm, windows).pending_ssd.contains(surface)
                &&& !cleaned_up(wm, windows).pending_center.contains(surface)
            },
        forall|window: u64| #[trigger]
            cleaned_up(wm, windows).focus_history.contains(window) ==> !is_x11_window(
                windows,
                window,
            ),
{
    broadcast use vstd::seq_lib::group_filter_ensures;

    let keep = |window: u64| !is_x11_window(windows, window);
    let kept = cleaned_up(wm, windows).focus_history;
    assert(kept == wm.focus_history.filter(keep));
    assert forall|window: u64| #[trigger] kept.contains(window) implies !is_x11_window(
        windows,
        window,
    ) by {
        let i = choose|i: int| 0 <= i < kept.len() && kept[i] == window;
        assert(keep(wm.focus_history.filter(keep)[i]));
    }
}

/// The clean-up keeps all that belongs to other windows, as it was.
pub proof fn law_crash_spares_other_windows(wm: WmModel, windows: Seq<SpaceWindow>)
    ensures
        forall|output: u64| #[trigger]
            wm.fullscreen.contains_key(output) && !shows_x11(wm, windows, output) ==> {
                &&& cleaned_up(wm, windows).fullscreen.contains_key(output)
                &&& cleaned_up(wm, windows).fullscreen[output] == wm.fullscreen[output]
            },
        forall|surface: u64| !#[trigger]
            is_x11_surface(windows, surface) ==> {
                &&& cleaned_up(wm, windows).decorations.contains_key(surface)
                    == wm.decorations.contains_key(surface)
                &&& wm.decorations.contains_key(surface) ==> cleaned_up(
                    wm,
                    windows,
                ).decorations[surface] == wm.decorations[surface]
                &&& cleaned_up(wm, windows).pending_ssd.contains(surface)
                    == wm.pending_ssd.contains(surface)
                &&& cleaned_up(wm, windows).pending_center.contains(surface)
                    == wm.pending_center.contains(surface)
            },
        forall|window: u64| #[trigger]
            wm.focus_history.contains(window) && !is_x11_window(windows, window)
                ==> cleaned_up(wm, windows).focus_history.contains(window),
{
    broadcast use vstd::seq_lib::group_filter_ensures;

    let keep = |window: u64| !is_x11_window(windows, window);
    let kept = cleaned_up(wm, windows).focus_history;
    assert(kept == wm.focus_history.filter(keep));
    assert forall|window: u64| #[trigger]
        wm.focus_history.contains(window) && !is_x11_window(windows, window) implies kept.contains(
        window,
    ) by {
        let i = choose|i: int| 0 <= i < wm.focus_history.len() && wm.focus_history[i] == window;
        assert(keep(wm.focus_history[i]));
        assert(wm.focus_history.filter(keep).contains(wm.focus_history[i]));
    }
}

/// Cleaning up a second time changes nothing.
pub proof fn law_crash_cleanup_is_idempotent(wm: WmModel, windows: Seq<SpaceWindow>)
    ensures
        cleaned_up(cleaned_up(wm, windows), windows) == cleaned_up(wm, windows),
{
    let keep = |window: u64| !is_x11_window(windows, window);
    let once = cleaned_up(wm, windows);
    let twice = cleaned_up(once, windows);
    lemma_filter_twice(wm.focus_history, keep);
    assert(once.focus_history == wm.focus_history.filter(keep));
    assert(twice.focus_history == once.focus_history.filter(keep));
    assert(twice.decorations =~= once.decorations);
    assert(twice.fullscreen =~= once.fullscreen);
    assert(twice.pending_ssd =~= once.pending_ssd);
    assert(twice.pending_center =~= once.pending_center);
}

proof fn lemma_filter_twice<T>(items: Seq<T>, keep: spec_fn(T) -> bool)
    ensures
        items.filter(keep).filter(keep) == items.filter(keep),
    decreases items.len(),
{
    reveal(Seq::filter);
    if items.len() > 0 {
        lemma_filter_twice(items.drop_last(), keep);
        let rest = items.drop_last().filter(keep);
        if keep(items.last()) {
            assert(rest.push(items.last()).drop_last() =~= rest);
        }
    }
}

/// The clean-up unmaps exactly the X11 windows.
pub proof fn law_crash_unmaps_x11_windows(windows: Seq<SpaceWindow>, window: u64)
    ensures
        unmapped(windows).contains(Effect::UnmapWindow { window }) <==> is_x11_window(windows, window),
    decreases windows.len(),
{
    reveal(Seq::filter_map);
    let effect = Effect::UnmapWindow { window };
    if windows.len() > 0 {
        let rest = windows.drop_last();
        let last = windows.last();
        law_crash_unmaps_x11_windows(rest, window);
        assert(is_x11_window(windows, window) <==> is_x11_window(rest, window) || (last.is_x11
            && last.window == window)) by {
            if is_x11_window(rest, window) {
                let i = choose|i: int|
                    #![trigger rest[i]]
                    0 <= i < rest.len() && rest[i].is_x11 && rest[i].window == window;
                assert(windows[i] == rest[i]);
            }
            if is_x11_window(windows, window) {
                let i = choose|i: int|
                    #![trigger windows[i]]
                    0 <= i < windows.len() && windows[i].is_x11 && windows[i].window == window;
                if i < rest.len() {
                    assert(rest[i] == windows[i]);
                }
            }
            assert(windows[windows.len() - 1] == last);
        }
        if last.is_x11 {
            let own = seq![Effect::UnmapWindow { window: last.window }];
            assert(unmapped(windows) == unmapped(rest) + own);
            vstd::seq_lib::lemma_seq_concat_contains_all_elements(unmapped(rest), own, effect);
            assert(own.contains(effect) <==> last.window == window) by {
                assert(own[0] == Effect::UnmapWindow { window: last.window });
            }
        } else {
            assert(unmapped(windows) == unmapped(rest));
        }
    }
}

/// Title bars that show their decorations go on doing so.
pub proof fn law_crash_keeps_title_bars_in_sync(wm: WmModel, windows: Seq<SpaceWindow>)
    requires
        wm.title_bars_in_sync(),
    ensures
        cleaned_up(wm, windows).title_bars_in_sync(),
{
    let after = cleaned_up(wm, windows);
    assert forall|s: u64| #[trigger] after.decorations.contains_key(s) implies after.decorations[s].in_sync() by {
        assert(wm.decorations.contains_key(s));
    }
}

/// Different displays have different names.
pub proof fn law_display_names_differ(a: nat, b: nat)
    ensures
        decimal(a) == decimal(b) ==> a == b,
    decreases a,
{
    if decimal(a) == decimal(b) {
        assert(decimal(a).last() == digit(a % 10));
        assert(decimal(b).last() == digit(b % 10));
        assert(a % 10 == b % 10);
        if a >= 10 && b >= 10 {
            assert(decimal(a).drop_last() =~= decimal(a / 10));
            assert(decimal(b).drop_last() =~= decimal(b / 10));
            law_display_names_differ(a / 10, b / 10);
        } else if a >= 10 {
            lemma_decimal_not_empty(a / 10);
            assert(decimal(a).len() == decimal(a / 10).len() + 1);
        } else if b >= 10 {
            lemma_decimal_not_empty(b / 10);
            assert(decimal(b).len() == decimal(b / 10).len() + 1);
        }
    }
}

proof fn lemma_decimal_not_empty(n: nat)
    ensures
        decimal(n).len() > 0,
{
}

/// The number that a text of decimal digits stands for.
pub open spec fn number_read(text: Seq<char>) -> int
    decreases text.len(),
{
    if text.len() == 0 {
        0
    } else {
        10 * number_read(text.drop_last()) + (text.last() as int - '0' as int)
    }
}

/// A number in decimal consists of digits, has no leading zero unless it is zero,
/// and reads back as the number.
pub proof fn law_decimal_reads_back(n: nat)
    ensures
        number_read(decimal(n)) == n,
        decimal(n).len() > 0,
        n > 0 ==> decimal(n)[0] != '0',
        n == 0 ==> decimal(n).len() == 1,
        forall|i: int| 0 <= i < decimal(n).len() ==> '0' <= #[trigger] decimal(n)[i] <= '9',
    decreases n,
{
    if n >= 10 {
        law_decimal_reads_back(n / 10);
        assert(decimal(n).drop_last() =~= decimal(n / 10));
        assert(decimal(n).last() == digit(n % 10));
        assert(decimal(n)[0] == decimal(n / 10)[0]);
    } else {
        assert(decimal(n) =~= seq![digit(n)]);
        assert(decimal(n).drop_last() =~= Seq::<char>::empty());
        assert(number_read(Seq::<char>::empty()) == 0);
    }
}

/// The name of a display is a colon and then its number.
pub proof fn law_display_name_reads_back(display: nat)
    ensures
        name_of(display).len() > 1,
        name_of(display)[0] == ':',
        number_read(name_of(display).skip(1)) == display,
        forall|i: int| 1 <= i < name_of(display).len() ==> '0' <= #[trigger] name_of(display)[i] <= '9',
{
    law_decimal_reads_back(display);
    assert(name_of(display).skip(1) =~= decimal(display));
    assert forall|i: int| 1 <= i < name_of(display).len() implies '0' <= #[trigger] name_of(display)[i]
        <= '9' by {
        assert(name_of(display)[i] == decimal(display)[i - 1]);
    }
}

/// A window or surface counts as that of an X11 window exactly if it is so listed.
pub proof fn law_x11_windows_are_listed(windows: Seq<SpaceWindow>, id: u64)
    ensures
        is_x11_window(windows, id) <==> exists|i: int|
            #![trigger windows[i]]
            0 <= i < windows.len() && windows[i].is_x11 && windows[i].window == id,
        is_x11_surface(windows, id) <==> exists|i: int|
            #![trigger windows[i]]
            0 <= i < windows.len() && windows[i].is_x11 && windows[i].surface is Some
                && windows[i].surface->0 == id,
        has_x11_window(windows) <==> exists|i: int|
            #![trigger windows[i]]
            0 <= i < windows.len() && windows[i].is_x11,
{
}

/// Once XWayland is ready, its display and client are known, and nothing else
/// changes. The display is set and published before the X11 window manager starts.
pub proof fn law_ready_display_is_published(wm: WmModel, display: u32, client: u64)
    ensures
        readied(wm, display, client).x11_display == Some(display),
        readied(wm, display, client).xwayland_client == Some(client),
        readied(wm, display, client) == (WmModel {
            x11_display: Some(display),
            xwayland_client: Some(client),
            ..wm
        }),
        ready_effects(display).len() == 3,
        ready_effects(display)[0] is SetDisplay,
        ready_effects(display)[0]->SetDisplay_display == display,
        ready_effects(display)[1] is ExportDisplay,
        ready_effects(display)[2] is StartX11Wm,
{
}

/// An X11 window manager that started is known from then on, and one that did not
/// changes nothing.
pub proof fn law_started_x11_wm_is_known(wm: WmModel, started: Option<u64>)
    ensures
        started is None ==> x11_started(wm, started) == wm,
        started is Some ==> x11_started(wm, started).x11_wm == started,
        x11_started(wm, started) == (WmModel { x11_wm: x11_started(wm, started).x11_wm, ..wm }),
{
}

/// A crash forgets XWayland, and ends fullscreen on exactly the outputs that
/// showed one of its windows. Nothing else changes at first.
pub proof fn law_crash_forgets_xwayland(wm: WmModel, windows: Seq<SpaceWindow>, output: u64)
    ensures
        ({
            let after = without_xwayland(wm, windows);
            &&& after.x11_wm is None
            &&& after.xwayland_client is None
            &&& after.x11_display is None
            &&& after.x11_override_redirect.len() == 0
            &&& after.fullscreen.contains_key(output) <==> wm.fullscreen.contains_key(output)
                && !is_x11_window(windows, wm.fullscreen[output].window)
            &&& after.fullscreen.contains_key(output) ==> after.fullscreen[output]
                == wm.fullscreen[output]
            &&& after == (WmModel {
                x11_wm: None,
                xwayland_client: None,
                x11_display: None,
                x11_override_redirect: after.x11_override_redirect,
                fullscreen: after.fullscreen,
                ..wm
            })
        }),
{
}

/// After a crash the display goes first. Then exactly the outputs that showed an
/// X11 window get back the views they had, each once. Then the outputs are updated
/// if there was any X11 window, and last of all keyboard focus is taken away if
/// an X11 window had it.
pub proof fn law_crash_restores_views(
    wm: WmModel,
    windows: Seq<SpaceWindow>,
    focused: Option<u64>,
    effects: Seq<Effect>,
    output: u64,
)
    requires
        crash_effects(wm, windows, focused, effects),
    ensures
        ({
            let showed = wm.fullscreen.contains_key(output) && is_x11_window(
                windows,
                wm.fullscreen[output].window,
            );
            let clears = focused is Some && is_x11_surface(windows, focused->0);
            let tail = (if has_x11_window(windows) {
                1int
            } else {
                0int
            }) + (if clears {
                1int
            } else {
                0int
            });
            &&& effects.len() >= 1 + tail
            &&& effects[0] is RemoveDisplay
            &&& clears ==> effects[effects.len() - 1] is ClearKeyboardFocus
            &&& has_x11_window(windows) ==> effects[effects.len() - tail] is UpdateOutput
            &&& forall|i: int|
                1 <= i < effects.len() - tail ==> #[trigger] effects[i] is RestoreView
            &&& showed <==> exists|i: int|
                #![trigger effects[i]]
                1 <= i < effects.len() - tail && effects[i]->RestoreView_output == output
            &&& forall|i: int|
                1 <= i < effects.len() - tail && (#[trigger] effects[i])->RestoreView_output == output
                    ==> effects[i]->RestoreView_camera == wm.fullscreen[output].saved_camera
                    && effects[i]->RestoreView_zoom == wm.fullscreen[output].saved_zoom
            &&& forall|i: int, j: int|
                1 <= i < j < effects.len() - tail ==> (#[trigger] effects[i])->RestoreView_output != (
                #[trigger] effects[j])->RestoreView_output
        }),
{
    let outputs = choose|outputs: Seq<u64>|
        {
            &&& outputs.no_duplicates()
            &&& forall|o: u64| #[trigger] outputs.contains(o) <==> shows_x11(wm, windows, o)
            &&& effects == seq![Effect::RemoveDisplay] + #[trigger] restored_views(wm, outputs)
                + crash_focus_effects(windows, focused)
        };
    let restored = restored_views(wm, outputs);
    assert forall|i: int| 1 <= i < 1 + outputs.len() implies #[trigger] effects[i] == restored_view(
        outputs[i - 1],
        wm.fullscreen[outputs[i - 1]],
    ) by {
        assert(effects[i] == restored[i - 1]);
    }
    let tail = crash_focus_effects(windows, focused);
    assert(effects.len() == 1 + outputs.len() + tail.len());
    assert forall|i: int| 0 <= i < tail.len() implies #[trigger] tail[i] == effects[1 + outputs.len()
        + i] by {}
    if shows_x11(wm, windows, output) {
        assert(outputs.contains(output));
        let n = choose|n: int| 0 <= n < outputs.len() && outputs[n] == output;
        assert(effects[n + 1]->RestoreView_output == output);
    }
    assert forall|i: int|
        1 <= i < 1 + outputs.len() && (#[trigger] effects[i])->RestoreView_output == output implies shows_x11(
        wm,
        windows,
        output,
    ) by {
        assert(outputs.contains(outputs[i - 1]));
    }
}

/// The clean-up takes the surfaces of X11 windows, and no others, from all that
/// is kept of surfaces. Besides that and the focus history nothing changes.
pub proof fn law_cleanup_takes_x11_surfaces(wm: WmModel, windows: Seq<SpaceWindow>, surface: u64)
    ensures
        ({
            let after = without_x11_windows(wm, windows);
            let dead = is_x11_surface(windows, surface);
            &&& after.decorations.contains_key(surface) <==> wm.decorations.contains_key(surface)
                && !dead
            &&& after.decorations.contains_key(surface) ==> after.decorations[surface]
                == wm.decorations[surface]
            &&& after.pending_ssd.contains(surface) <==> wm.pending_ssd.contains(surface) && !dead
            &&& after.pending_center.contains(surface) <==> wm.pending_center.contains(surface)
                && !dead
            &&& after == (WmModel {
                decorations: after.decorations,
                pending_ssd: after.pending_ssd,
                pending_center: after.pending_center,
                focus_history: after.focus_history,
                ..wm
            })
        }),
{
}

/// The focus history keeps its order: each entry in turn stays behind those
/// before it, unless it is an X11 window.
pub proof fn law_focus_history_keeps_order(
    wm: WmModel,
    windows: Seq<SpaceWindow>,
    history: Seq<u64>,
    window: u64,
)
    ensures
        ({
            let empty = WmModel { focus_history: Seq::empty(), ..wm };
            let shorter = WmModel { focus_history: history, ..wm };
            let longer = WmModel { focus_history: history.push(window), ..wm };
            let kept = without_x11_windows(shorter, windows).focus_history;
            &&& without_x11_windows(empty, windows).focus_history.len() == 0
            &&& without_x11_windows(longer, windows).focus_history == (if is_x11_window(windows, window) {
                kept
            } else {
                kept.push(window)
            })
        }),
{
    reveal(Seq::filter);
    assert(history.push(window).drop_last() =~= history);
}

/// X11 windows are unmapped in their order, each as often as it is listed, and no
/// other window is.
pub proof fn law_x11_windows_are_unmapped_in_order(windows: Seq<SpaceWindow>, w: SpaceWindow)
    ensures
        unmapped(Seq::empty()).len() == 0,
        !w.is_x11 ==> unmapped(windows.push(w)) == unmapped(windows),
        w.is_x11 ==> unmapped(windows.push(w)) == unmapped(windows).push(
            Effect::UnmapWindow { window: w.window },
        ),
{
    reveal(Seq::filter_map);
    assert(windows.push(w).drop_last() =~= windows);
    if w.is_x11 {
        assert(unmapped(windows.push(w)) =~= unmapped(windows).push(
            Effect::UnmapWindow { window: w.window },
        ));
    } else {
        assert(unmapped(windows.push(w)) =~= unmapped(windows));
    }
}

/// The clean-up ends with XWayland started anew and the user told, once the X11
/// windows are unmapped.
pub proof fn law_cleanup_restarts_xwayland(windows: Seq<SpaceWindow>)
    ensures
        forgotten_effects(windows).len() == unmapped(windows).len() + 2,
        forgotten_effects(windows).take(unmapped(windows).len() as int) == unmapped(windows),
        forgotten_effects(windows)[unmapped(windows).len() as int] is SpawnXwayland,
        forgotten_effects(windows).last() is NotifyCrash,
{
    assert(forgotten_effects(windows).take(unmapped(windows).len() as int) =~= unmapped(windows));
}

} // verus!
