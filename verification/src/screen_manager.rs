use vstd::prelude::*;
use crate::command::{deltatime_of, GameTick};
use crate::game_screen::{spec_initial_game_screen, GameScreen};
use crate::input_manager::InputManager;
use crate::source::{FakeSource, InputEvent};
use crate::views::{DebugView, PopupView, ScreenView};

verus! {

/// What a push callback builds for the screen stack when it runs,
/// described as plain data so the whole protocol stays testable as values.
#[derive(Copy, Clone, PartialEq, Eq, Structural, Debug)]
pub enum ScreenRequest {
    /// A game screen set up for the given terminal size.
    Game { terminal_width: usize, terminal_height: usize },
    /// A recording view, optionally quitting once its render counter passes
    /// the threshold.
    Debug { tag: u32, quit_after: Option<u64> },
}

/// What a push callback builds for the popup stack when it runs.
#[derive(Copy, Clone, PartialEq, Eq, Structural, Debug)]
pub enum PopupRequest {
    /// A recording view, optionally quitting once its render counter passes
    /// the threshold.
    Debug { tag: u32, quit_after: Option<u64> },
}

/// A deferred operation against the presentation stack, queued by a view
/// during its render and executed strictly after the frame's render pass
/// returns, so no iteration is ever invalidated.
#[derive(Copy, Clone, PartialEq, Eq, Structural, Debug)]
pub enum Callback {
    /// Set the quit flag; the main loop stops before its next frame.
    Quit,
    /// Push the requested screen onto the top of the screen stack.
    PushScreen(ScreenRequest),
    /// Pop the topmost screen.
    PopScreen,
    /// Push the requested popup onto the top of the popup stack.
    PushPopup(PopupRequest),
    /// Pop the topmost popup.
    PopPopup,
}

/// True if `v` is the screen freshly built from `request`.
pub open spec fn spec_screen_built_from(request: ScreenRequest, v: ScreenView) -> bool {
    match (request, v) {
        (ScreenRequest::Game { terminal_width, terminal_height }, ScreenView::Game(g)) => spec_initial_game_screen(
            g,
            terminal_width,
            terminal_height,
        ),
        (ScreenRequest::Debug { tag, quit_after }, ScreenView::Debug(d)) => d.spec_fresh(
            tag,
            quit_after,
        ),
        _ => false,
    }
}

/// True if `v` is the popup freshly built from `request`.
pub open spec fn spec_popup_built_from(request: PopupRequest, v: PopupView) -> bool {
    match (request, v) {
        (PopupRequest::Debug { tag, quit_after }, PopupView::Debug(d)) => d.spec_fresh(
            tag,
            quit_after,
        ),
    }
}

/// Builds the screen a push callback asks for.
fn build_screen(request: ScreenRequest) -> (r: ScreenView)
    ensures
        spec_screen_built_from(request, r),
        r.spec_wf(),
{
    match request {
        ScreenRequest::Game { terminal_width, terminal_height } => ScreenView::Game(
            GameScreen::new(terminal_width, terminal_height),
        ),
        ScreenRequest::Debug { tag, quit_after } => ScreenView::Debug(
            match quit_after {
                Some(q) => DebugView::with_quit_after(tag, q),
                None => DebugView::new(tag),
            },
        ),
    }
}

/// Builds the popup a push callback asks for.
fn build_popup(request: PopupRequest) -> (r: PopupView)
    ensures
        spec_popup_built_from(request, r),
{
    match request {
        PopupRequest::Debug { tag, quit_after } => PopupView::Debug(
            match quit_after {
                Some(q) => DebugView::with_quit_after(tag, q),
                None => DebugView::new(tag),
            },
        ),
    }
}

/// Strips the command from a tick while keeping its deltatime; a plain tick
/// is returned unchanged.
pub open spec fn spec_downgrade(tick: GameTick) -> GameTick {
    match tick {
        GameTick::Command(deltatime, _) => GameTick::Tick(deltatime),
        t => t,
    }
}

/// "Downgrades" a `GameTick` from `Command` to `Tick`, maintaining the
/// deltatime; a `Tick` is returned as it is. Used to give views deltatime
/// updates without sharing the command with more than one view per frame.
pub fn remove_input_from_tick(tick: GameTick) -> (r: GameTick)
    ensures
        r == spec_downgrade(tick),
{
    match tick {
        GameTick::Command(deltatime, _) => GameTick::Tick(deltatime),
        t => t,
    }
}

/// Downgrading is idempotent, a plain tick is left unchanged, and the
/// deltatime always survives.
pub proof fn lemma_downgrade_idempotent(t: GameTick)
    ensures
        spec_downgrade(spec_downgrade(t)) == spec_downgrade(t),
        forall|d: u64| spec_downgrade(GameTick::Tick(d)) == GameTick::Tick(d),
        deltatime_of(spec_downgrade(t)) == deltatime_of(t),
{
}

/// The tick popup number `i` of a stack of `n` receives when the frame's
/// tick is `tick`: the topmost popup (`n - 1`) receives it verbatim; every
/// popup below receives the downgraded tick.
pub open spec fn spec_routed_tick(tick: GameTick, i: int, n: int) -> GameTick {
    if i == n - 1 {
        tick
    } else {
        spec_downgrade(tick)
    }
}

/// Command exclusivity: on a frame with at least one popup and a command
/// tick, exactly one view — the topmost popup — observes a command-tagged
/// tick; every other popup observes a plain tick carrying the same
/// deltatime.
pub proof fn lemma_command_exclusivity(tick: GameTick, i: int, n: int)
    requires
        n >= 1,
        0 <= i < n,
        tick is Command,
    ensures
        (spec_routed_tick(tick, i, n) is Command) <==> i == n - 1,
        deltatime_of(spec_routed_tick(tick, i, n)) == deltatime_of(tick),
        i < n - 1 ==> spec_routed_tick(tick, i, n) == GameTick::Tick(deltatime_of(tick)),
{
}

/// The tick the single topmost screen receives: already downgraded whenever
/// any popup existed this frame, so that a command is never shared between a
/// popup and a screen.
pub open spec fn spec_screen_tick(tick: GameTick, n_popups: int) -> GameTick {
    if n_popups > 0 {
        spec_downgrade(tick)
    } else {
        tick
    }
}

/// Renders the topmost screen in the screen stack with `tick`; no other
/// screen receives anything this frame.
pub fn render_screens(screens: &mut Vec<ScreenView>, tick: GameTick)
    requires
        forall|i: int| 0 <= i < old(screens)@.len() ==> (#[trigger] old(screens)@[i]).spec_wf(),
    ensures
        final(screens)@.len() == old(screens)@.len(),
        forall|i: int| 0 <= i < final(screens)@.len() ==> (#[trigger] final(screens)@[i]).spec_wf(),
        old(screens)@.len() > 0 ==> ScreenView::spec_render_rel(
            old(screens)@[old(screens)@.len() - 1],
            final(screens)@[old(screens)@.len() - 1],
            tick,
        ),
        forall|i: int|
            0 <= i < old(screens)@.len() - 1 ==> #[trigger] final(screens)@[i] == old(screens)@[i],
{
    let n = screens.len();
    if n > 0 {
        let top_screen = vstd::std_specs::vec::vec_index_mut(screens, n - 1);
        top_screen.render(tick);
    }
}

/// Renders each popup from the bottom of the stack up: only the topmost
/// popup receives the command, every popup below it receives the downgraded
/// tick. Returns the tick the screen pass should use: downgraded as soon as
/// any popup has consumed the frame.
pub fn render_popups(popups: &mut Vec<PopupView>, tick: GameTick) -> (r: GameTick)
    ensures
        final(popups)@.len() == old(popups)@.len(),
        forall|i: int|
            0 <= i < old(popups)@.len() ==> PopupView::spec_render_rel(
                old(popups)@[i],
                #[trigger] final(popups)@[i],
                spec_routed_tick(tick, i, old(popups)@.len() as int),
            ),
        r == spec_screen_tick(tick, old(popups)@.len() as int),
{
    let mut tick_out = tick;
    let popups_length = popups.len();
    let mut i: usize = 0;
    while i < popups_length
        invariant
            i <= popups_length,
            popups@.len() == popups_length,
            popups_length == old(popups)@.len(),
            forall|k: int|
                0 <= k < i ==> PopupView::spec_render_rel(
                    old(popups)@[k],
                    #[trigger] popups@[k],
                    spec_routed_tick(tick, k, popups_length as int),
                ),
            forall|k: int| i <= k < popups_length ==> #[trigger] popups@[k] == old(popups)@[k],
            tick_out == (if i == popups_length && popups_length > 0 {
                spec_downgrade(tick)
            } else {
                tick
            }),
        decreases popups_length - i,
    {
        let popup_screen = vstd::std_specs::vec::vec_index_mut(popups, i);
        if i == popups_length - 1 {
            // Render the topmost popup with the full tick, then downgrade it:
            // the command has been used.
            popup_screen.render(tick);
            tick_out = remove_input_from_tick(tick);
        } else {
            // Every popup below the top only receives the deltatime.
            let deltatime_tick = remove_input_from_tick(tick);
            popup_screen.render(deltatime_tick);
        }
        i = i + 1;
    }
    tick_out
}

/// Renders one frame onto the two stacks: the popup pass first, then the
/// screen pass with the tick the popup pass handed down.
pub fn render(screens: &mut Vec<ScreenView>, popups: &mut Vec<PopupView>, tick: GameTick)
    requires
        forall|i: int| 0 <= i < old(screens)@.len() ==> (#[trigger] old(screens)@[i]).spec_wf(),
    ensures
        final(screens)@.len() == old(screens)@.len(),
        final(popups)@.len() == old(popups)@.len(),
        forall|i: int| 0 <= i < final(screens)@.len() ==> (#[trigger] final(screens)@[i]).spec_wf(),
        forall|i: int|
            0 <= i < old(popups)@.len() ==> PopupView::spec_render_rel(
                old(popups)@[i],
                #[trigger] final(popups)@[i],
                spec_routed_tick(tick, i, old(popups)@.len() as int),
            ),
        old(screens)@.len() > 0 ==> ScreenView::spec_render_rel(
            old(screens)@[old(screens)@.len() - 1],
            final(screens)@[old(screens)@.len() - 1],
            spec_screen_tick(tick, old(popups)@.len() as int),
        ),
        forall|i: int|
            0 <= i < old(screens)@.len() - 1 ==> #[trigger] final(screens)@[i] == old(screens)@[i],
{
    let tick = render_popups(popups, tick);
    render_screens(screens, tick);
}

/// The callbacks held by popup stack indices `lo..hi`, those of the top
/// (`hi - 1`) first.
pub open spec fn spec_popup_cbs_between(popups: Seq<PopupView>, hi: int, lo: int) -> Seq<Callback>
    decreases hi - lo,
{
    if hi <= lo {
        Seq::empty()
    } else {
        popups[hi - 1].spec_callbacks() + spec_popup_cbs_between(popups, hi - 1, lo)
    }
}

/// The callbacks held by screen stack indices `lo..hi`, those of the top
/// (`hi - 1`) first.
pub open spec fn spec_screen_cbs_between(screens: Seq<ScreenView>, hi: int, lo: int) -> Seq<
    Callback,
>
    decreases hi - lo,
{
    if hi <= lo {
        Seq::empty()
    } else {
        screens[hi - 1].spec_callbacks() + spec_screen_cbs_between(screens, hi - 1, lo)
    }
}

/// The queue the callback drain builds: all popups' callbacks, then all
/// screens' callbacks, both from the top of their stack down.
pub open spec fn spec_collected(popups: Seq<PopupView>, screens: Seq<ScreenView>) -> Seq<Callback> {
    spec_popup_cbs_between(popups, popups.len() as int, 0) + spec_screen_cbs_between(
        screens,
        screens.len() as int,
        0,
    )
}

proof fn lemma_popup_cbs_snoc(popups: Seq<PopupView>, hi: int, lo: int)
    requires
        lo < hi,
    ensures
        spec_popup_cbs_between(popups, hi, lo) == spec_popup_cbs_between(popups, hi, lo + 1)
            + popups[lo].spec_callbacks(),
    decreases hi - lo,
{
    if hi == lo + 1 {
        reveal_with_fuel(spec_popup_cbs_between, 3);
        assert(spec_popup_cbs_between(popups, hi, lo) =~= spec_popup_cbs_between(popups, hi, lo + 1)
            + popups[lo].spec_callbacks());
    } else {
        lemma_popup_cbs_snoc(popups, hi - 1, lo);
        assert(spec_popup_cbs_between(popups, hi, lo) == popups[hi - 1].spec_callbacks() + (
        spec_popup_cbs_between(popups, hi - 1, lo + 1) + popups[lo].spec_callbacks()));
        assert(popups[hi - 1].spec_callbacks() + (spec_popup_cbs_between(popups, hi - 1, lo + 1)
            + popups[lo].spec_callbacks()) =~= (popups[hi - 1].spec_callbacks()
            + spec_popup_cbs_between(popups, hi - 1, lo + 1)) + popups[lo].spec_callbacks());
    }
}

proof fn lemma_screen_cbs_snoc(screens: Seq<ScreenView>, hi: int, lo: int)
    requires
        lo < hi,
    ensures
        spec_screen_cbs_between(screens, hi, lo) == spec_screen_cbs_between(screens, hi, lo + 1)
            + screens[lo].spec_callbacks(),
    decreases hi - lo,
{
    if hi == lo + 1 {
        reveal_with_fuel(spec_screen_cbs_between, 3);
        assert(spec_screen_cbs_between(screens, hi, lo) =~= spec_screen_cbs_between(
            screens,
            hi,
            lo + 1,
        ) + screens[lo].spec_callbacks());
    } else {
        lemma_screen_cbs_snoc(screens, hi - 1, lo);
        assert(spec_screen_cbs_between(screens, hi, lo) == screens[hi - 1].spec_callbacks() + (
        spec_screen_cbs_between(screens, hi - 1, lo + 1) + screens[lo].spec_callbacks()));
        assert(screens[hi - 1].spec_callbacks() + (spec_screen_cbs_between(screens, hi - 1, lo + 1)
            + screens[lo].spec_callbacks()) =~= (screens[hi - 1].spec_callbacks()
            + spec_screen_cbs_between(screens, hi - 1, lo + 1)) + screens[lo].spec_callbacks());
    }
}

/// Callback ordering: with two popups (one atop the other) and two screens
/// (one atop the other), each holding one queued callback, the drain order
/// is: top popup, bottom popup, top screen, bottom screen.
pub proof fn lemma_callback_order(popups: Seq<PopupView>, screens: Seq<ScreenView>)
    requires
        popups.len() == 2,
        screens.len() == 2,
        popups[0].spec_callbacks().len() == 1,
        popups[1].spec_callbacks().len() == 1,
        screens[0].spec_callbacks().len() == 1,
        screens[1].spec_callbacks().len() == 1,
    ensures
        spec_collected(popups, screens) == seq![
            popups[1].spec_callbacks()[0],
            popups[0].spec_callbacks()[0],
            screens[1].spec_callbacks()[0],
            screens[0].spec_callbacks()[0],
        ],
{
    reveal_with_fuel(spec_popup_cbs_between, 3);
    reveal_with_fuel(spec_screen_cbs_between, 3);
    assert(spec_popup_cbs_between(popups, 2, 0) == popups[1].spec_callbacks() + (
    popups[0].spec_callbacks() + Seq::empty()));
    assert(spec_screen_cbs_between(screens, 2, 0) == screens[1].spec_callbacks() + (
    screens[0].spec_callbacks() + Seq::empty()));
    assert(spec_collected(popups, screens) =~= seq![
        popups[1].spec_callbacks()[0],
        popups[0].spec_callbacks()[0],
        screens[1].spec_callbacks()[0],
        screens[0].spec_callbacks()[0],
    ]);
}

/// Where a view standing on a stack after the callback drain came from:
/// kept from slot `i` of the pre-drain stack, or pushed fresh by a callback
/// run this frame.
#[derive(Copy, Clone, PartialEq, Eq, Structural, Debug)]
pub enum ScreenOrigin {
    FromStack(usize),
    Pushed(ScreenRequest),
}

/// Where a popup standing on the stack after the callback drain came from.
#[derive(Copy, Clone, PartialEq, Eq, Structural, Debug)]
pub enum PopupOrigin {
    FromStack(usize),
    Pushed(PopupRequest),
}

/// The screen stack, the popup stack (both as view origins) and the quit
/// flag after executing `cbs[..k]` in order: a quit callback sets the flag;
/// a push callback appends the requested view; a pop callback removes the
/// topmost view of its stack, if any view is left.
pub open spec fn spec_apply_upto(
    cbs: Seq<Callback>,
    screens: Seq<ScreenOrigin>,
    popups: Seq<PopupOrigin>,
    q: bool,
    k: int,
) -> (Seq<ScreenOrigin>, Seq<PopupOrigin>, bool)
    decreases k,
{
    if k <= 0 {
        (screens, popups, q)
    } else {
        let r = spec_apply_upto(cbs, screens, popups, q, k - 1);
        match cbs[k - 1] {
            Callback::Quit => (r.0, r.1, true),
            Callback::PushScreen(request) => (r.0.push(ScreenOrigin::Pushed(request)), r.1, r.2),
            Callback::PopScreen => (if r.0.len() > 0 {
                r.0.drop_last()
            } else {
                r.0
            }, r.1, r.2),
            Callback::PushPopup(request) => (r.0, r.1.push(PopupOrigin::Pushed(request)), r.2),
            Callback::PopPopup => (r.0, if r.1.len() > 0 {
                r.1.drop_last()
            } else {
                r.1
            }, r.2),
        }
    }
}

/// The origins of a pre-drain stack of `n` views: view `i` from slot `i`.
pub open spec fn spec_stack_screen_origins(n: int) -> Seq<ScreenOrigin> {
    Seq::new(n as nat, |i: int| ScreenOrigin::FromStack(i as usize))
}

/// The origins of a pre-drain popup stack of `n` views.
pub open spec fn spec_stack_popup_origins(n: int) -> Seq<PopupOrigin> {
    Seq::new(n as nat, |i: int| PopupOrigin::FromStack(i as usize))
}

/// How a post-drain screen relates to its origin: a kept view is the
/// pre-drain view drained of its callbacks; a pushed view is freshly built
/// from its request.
pub open spec fn spec_screen_from_origin(
    pre: Seq<ScreenView>,
    origin: ScreenOrigin,
    v: ScreenView,
) -> bool {
    match origin {
        ScreenOrigin::FromStack(j) => {
            &&& (j as int) < pre.len()
            &&& ScreenView::spec_same_but_callbacks(pre[j as int], v)
            &&& v.spec_callbacks().len() == 0
            &&& v.spec_torn_down() == pre[j as int].spec_torn_down()
        },
        ScreenOrigin::Pushed(request) => spec_screen_built_from(request, v),
    }
}

/// How a post-drain popup relates to its origin.
pub open spec fn spec_popup_from_origin(
    pre: Seq<PopupView>,
    origin: PopupOrigin,
    v: PopupView,
) -> bool {
    match origin {
        PopupOrigin::FromStack(j) => {
            &&& (j as int) < pre.len()
            &&& PopupView::spec_same_but_callbacks(pre[j as int], v)
            &&& v.spec_callbacks().len() == 0
            &&& v.spec_torn_down() == pre[j as int].spec_torn_down()
        },
        PopupOrigin::Pushed(request) => spec_popup_built_from(request, v),
    }
}

/// During the drain itself a kept view is an untouched pre-drain view, and
/// a pushed view is freshly built.
spec fn spec_screen_matches_origin(mid: Seq<ScreenView>, origin: ScreenOrigin, v: ScreenView) -> bool {
    match origin {
        ScreenOrigin::FromStack(j) => (j as int) < mid.len() && v == mid[j as int],
        ScreenOrigin::Pushed(request) => spec_screen_built_from(request, v),
    }
}

spec fn spec_popup_matches_origin(mid: Seq<PopupView>, origin: PopupOrigin, v: PopupView) -> bool {
    match origin {
        PopupOrigin::FromStack(j) => (j as int) < mid.len() && v == mid[j as int],
        PopupOrigin::Pushed(request) => spec_popup_built_from(request, v),
    }
}

/// The callbacks popup stack indices `lo..hi` hold once every popup has
/// rendered this frame's routed tick, top first.
pub open spec fn spec_popup_cbs_after_render_between(
    popups: Seq<PopupView>,
    tick: GameTick,
    hi: int,
    lo: int,
) -> Seq<Callback>
    decreases hi - lo,
{
    if hi <= lo {
        Seq::empty()
    } else {
        popups[hi - 1].spec_callbacks_after_render(
            spec_routed_tick(tick, hi - 1, popups.len() as int),
        ) + spec_popup_cbs_after_render_between(popups, tick, hi - 1, lo)
    }
}

/// The callbacks screen stack indices `lo..hi` hold once the top screen has
/// rendered `stick`, top first; no other screen rendered anything.
pub open spec fn spec_screen_cbs_after_render_between(
    screens: Seq<ScreenView>,
    stick: GameTick,
    hi: int,
    lo: int,
) -> Seq<Callback>
    decreases hi - lo,
{
    if hi <= lo {
        Seq::empty()
    } else {
        (if hi - 1 == screens.len() - 1 {
            screens[hi - 1].spec_callbacks_after_render(stick)
        } else {
            screens[hi - 1].spec_callbacks()
        }) + spec_screen_cbs_after_render_between(screens, stick, hi - 1, lo)
    }
}

/// The queue the callback drain builds on a frame with tick `tick`: what
/// `spec_collected` yields once every popup and the top screen have
/// rendered.
pub open spec fn spec_collected_after_render(
    popups: Seq<PopupView>,
    screens: Seq<ScreenView>,
    tick: GameTick,
) -> Seq<Callback> {
    spec_popup_cbs_after_render_between(popups, tick, popups.len() as int, 0)
        + spec_screen_cbs_after_render_between(
        screens,
        spec_screen_tick(tick, popups.len() as int),
        screens.len() as int,
        0,
    )
}

proof fn lemma_popup_collected_after_render(
    pre: Seq<PopupView>,
    mid: Seq<PopupView>,
    tick: GameTick,
    hi: int,
)
    requires
        pre.len() == mid.len(),
        forall|i: int|
            0 <= i < pre.len() ==> PopupView::spec_render_rel(
                pre[i],
                #[trigger] mid[i],
                spec_routed_tick(tick, i, pre.len() as int),
            ),
        hi <= pre.len(),
    ensures
        spec_popup_cbs_between(mid, hi, 0) == spec_popup_cbs_after_render_between(
            pre,
            tick,
            hi,
            0,
        ),
    decreases hi,
{
    if hi > 0 {
        lemma_popup_collected_after_render(pre, mid, tick, hi - 1);
        PopupView::lemma_render_callbacks(
            pre[hi - 1],
            mid[hi - 1],
            spec_routed_tick(tick, hi - 1, pre.len() as int),
        );
    }
}

proof fn lemma_screen_collected_after_render(
    pre: Seq<ScreenView>,
    mid: Seq<ScreenView>,
    stick: GameTick,
    hi: int,
)
    requires
        pre.len() == mid.len(),
        pre.len() > 0 ==> ScreenView::spec_render_rel(
            pre[pre.len() - 1],
            mid[pre.len() - 1],
            stick,
        ),
        forall|i: int| 0 <= i < pre.len() - 1 ==> #[trigger] mid[i] == pre[i],
        hi <= pre.len(),
    ensures
        spec_screen_cbs_between(mid, hi, 0) == spec_screen_cbs_after_render_between(
            pre,
            stick,
            hi,
            0,
        ),
    decreases hi,
{
    if hi > 0 {
        lemma_screen_collected_after_render(pre, mid, stick, hi - 1);
        if hi - 1 == pre.len() - 1 {
            ScreenView::lemma_render_callbacks(pre[hi - 1], mid[hi - 1], stick);
        }
    }
}

/// What a popup looks like once the frame is over: rendered with its routed
/// tick, and drained of its callbacks.
pub open spec fn spec_popup_rendered_cleared(pre: PopupView, post: PopupView, t: GameTick) -> bool {
    match (pre, post) {
        (PopupView::Debug(d1), PopupView::Debug(d2)) => {
            let counter: u64 = if d1.render_counter < u64::MAX {
                (d1.render_counter + 1) as u64
            } else {
                d1.render_counter
            };
            &&& d2.tag == d1.tag
            &&& d2.received@ == d1.received@.push(t)
            &&& d2.render_counter == counter
            &&& d2.quit_after == d1.quit_after
            &&& d2.torn_down == d1.torn_down
            &&& d2.callbacks@.len() == 0
        },
    }
}

/// What the top screen looks like once the frame is over: rendered with the
/// screen tick, and drained of its callbacks.
pub open spec fn spec_screen_rendered_cleared(pre: ScreenView, post: ScreenView, t: GameTick) -> bool {
    match (pre, post) {
        (ScreenView::Game(g1), ScreenView::Game(g2)) => {
            &&& g2.world.well_formed()
            &&& crate::game_screen::spec_world_render_rel(g1.world, g2.world, t)
            &&& g2.callbacks@.len() == 0
        },
        (ScreenView::Debug(d1), ScreenView::Debug(d2)) => {
            let counter: u64 = if d1.render_counter < u64::MAX {
                (d1.render_counter + 1) as u64
            } else {
                d1.render_counter
            };
            &&& d2.tag == d1.tag
            &&& d2.received@ == d1.received@.push(t)
            &&& d2.render_counter == counter
            &&& d2.quit_after == d1.quit_after
            &&& d2.torn_down == d1.torn_down
            &&& d2.callbacks@.len() == 0
        },
        _ => false,
    }
}

proof fn lemma_popup_frame_compose(pre: PopupView, mid: PopupView, post: PopupView, t: GameTick)
    requires
        PopupView::spec_render_rel(pre, mid, t),
        PopupView::spec_same_but_callbacks(mid, post),
        post.spec_callbacks().len() == 0,
    ensures
        spec_popup_rendered_cleared(pre, post, t),
{
}

proof fn lemma_screen_frame_compose(pre: ScreenView, mid: ScreenView, post: ScreenView, t: GameTick)
    requires
        ScreenView::spec_render_rel(pre, mid, t),
        ScreenView::spec_same_but_callbacks(mid, post),
        post.spec_callbacks().len() == 0,
    ensures
        spec_screen_rendered_cleared(pre, post, t),
{
}

/// How a post-frame screen relates to its origin: the kept top screen was
/// rendered with the screen tick and drained of its callbacks; other kept
/// screens were only drained; a pushed screen is freshly built.
pub open spec fn spec_screen_after_frame(
    pre: Seq<ScreenView>,
    tick: GameTick,
    pn: int,
    origin: ScreenOrigin,
    v: ScreenView,
) -> bool {
    match origin {
        ScreenOrigin::FromStack(j) => {
            &&& (j as int) < pre.len()
            &&& if j as int == pre.len() - 1 {
                spec_screen_rendered_cleared(pre[j as int], v, spec_screen_tick(tick, pn))
            } else {
                ScreenView::spec_same_but_callbacks(pre[j as int], v) && v.spec_callbacks().len()
                    == 0
            }
        },
        ScreenOrigin::Pushed(request) => spec_screen_built_from(request, v),
    }
}

/// How a post-frame popup relates to its origin: a kept popup was rendered
/// with its routed tick and drained of its callbacks; a pushed popup is
/// freshly built.
pub open spec fn spec_popup_after_frame(
    pre: Seq<PopupView>,
    tick: GameTick,
    origin: PopupOrigin,
    v: PopupView,
) -> bool {
    match origin {
        PopupOrigin::FromStack(j) => {
            &&& (j as int) < pre.len()
            &&& spec_popup_rendered_cleared(
                pre[j as int],
                v,
                spec_routed_tick(tick, j as int, pre.len() as int),
            )
        },
        PopupOrigin::Pushed(request) => spec_popup_built_from(request, v),
    }
}

/// What one frame with `tick` does to the manager: the render pass routes
/// the tick (the topmost popup sees it verbatim, popups below and the
/// topmost screen see it downgraded, other screens see nothing), then the
/// drain executes the collected callbacks in order. This is the exact
/// contract of `advance_frame`.
pub open spec fn spec_frame_rel(pre: ScreenManager, post: ScreenManager, tick: GameTick) -> bool {
    let pn = pre.popups@.len() as int;
    let cbs = spec_collected_after_render(pre.popups@, pre.screens@, tick);
    let r = spec_apply_upto(
        cbs,
        spec_stack_screen_origins(pre.screens@.len() as int),
        spec_stack_popup_origins(pn),
        pre.should_quit,
        cbs.len() as int,
    );
    &&& post.callback_queue@.len() == 0
    &&& post.screens@.len() == r.0.len()
    &&& post.popups@.len() == r.1.len()
    &&& post.should_quit == r.2
    &&& forall|i: int|
        0 <= i < r.0.len() ==> spec_screen_after_frame(
            pre.screens@,
            tick,
            pn,
            r.0[i],
            #[trigger] post.screens@[i],
        )
    &&& forall|i: int|
        0 <= i < r.1.len() ==> spec_popup_after_frame(
            pre.popups@,
            tick,
            r.1[i],
            #[trigger] post.popups@[i],
        )
}

/// What tearing the manager down does: `tear_down` runs once on every view
/// still on the stacks, and nothing else changes.
pub open spec fn spec_teardown_of(pre: ScreenManager, post: ScreenManager) -> bool {
    &&& post.screens@.len() == pre.screens@.len()
    &&& post.popups@.len() == pre.popups@.len()
    &&& forall|i: int|
        0 <= i < pre.screens@.len() ==> ScreenView::spec_teardown_rel(
            pre.screens@[i],
            #[trigger] post.screens@[i],
        )
    &&& forall|i: int|
        0 <= i < pre.popups@.len() ==> PopupView::spec_teardown_rel(
            pre.popups@[i],
            #[trigger] post.popups@[i],
        )
    &&& post.callback_queue@ == pre.callback_queue@
    &&& post.should_quit == pre.should_quit
    &&& post.input_manager == pre.input_manager
}

/// One frame of the main loop: the manager takes its input manager's next
/// tick, consuming one queued event if any is pending, and advances by the
/// frame protocol — render pass, then callback drain.
pub open spec fn spec_loop_step(pre: ScreenManager, post: ScreenManager) -> bool {
    let tick = pre.input_manager.spec_next_tick();
    &&& spec_frame_rel(pre, post, tick)
    &&& post.input_manager.tick_rate_ms == pre.input_manager.tick_rate_ms
    &&& post.input_manager.tick_timeout_ms == pre.input_manager.tick_timeout_ms
    &&& post.input_manager.source.events@ == (if pre.input_manager.source.events@.len() > 0 {
        pre.input_manager.source.events@.subrange(
            1,
            pre.input_manager.source.events@.len() as int,
        )
    } else {
        pre.input_manager.source.events@
    })
}

/// A complete run of the main loop: starting from `pre`, `frames` loop steps
/// ran in order — each strictly tick, render pass, callback drain — none of
/// them starting in a quit state; the loop stopped short of `frame_limit`
/// only because the frame just drained set the quit flag; and the final
/// state is the last traced state with every remaining view torn down once.
pub open spec fn spec_main_loop_run(
    pre: ScreenManager,
    trace: Seq<ScreenManager>,
    frames: int,
    frame_limit: int,
    post: ScreenManager,
) -> bool {
    &&& trace.len() == frames + 1
    &&& trace[0] == pre
    &&& forall|k: int| 0 <= k < frames ==> spec_loop_step(#[trigger] trace[k], trace[k + 1])
    &&& forall|k: int| 0 <= k < frames ==> !(#[trigger] trace[k]).should_quit
    &&& (frames < frame_limit ==> trace[frames].should_quit)
    &&& spec_teardown_of(trace[frames], post)
}

/// Manages the stacks of screens and popups, routes each tick to the views
/// that should see it, and drains and executes their deferred callbacks
/// between frames.
pub struct ScreenManager {
    pub screens: Vec<ScreenView>,
    pub popups: Vec<PopupView>,
    pub input_manager: InputManager,
    pub callback_queue: Vec<Callback>,
    pub should_quit: bool,
}

impl ScreenManager {
    /// Every screen on the stack is valid.
    pub open spec fn well_formed(&self) -> bool {
        forall|i: int| 0 <= i < self.screens@.len() ==> (#[trigger] self.screens@[i]).spec_wf()
    }

    /// A manager with no screens or popups, driven by an empty replay source.
    pub fn new() -> (r: ScreenManager)
        ensures
            r.well_formed(),
            r.screens@.len() == 0,
            r.popups@.len() == 0,
            r.callback_queue@.len() == 0,
            !r.should_quit,
            r.input_manager.source.events@.len() == 0,
            r.input_manager.tick_rate_ms == 16,
            r.input_manager.tick_timeout_ms == 1000,
    {
        ScreenManager::init(FakeSource::new(Vec::new()))
    }

    /// A manager with no screens or popups, driven by the given pre-recorded
    /// events.
    pub fn debug_new(events: Vec<InputEvent>) -> (r: ScreenManager)
        ensures
            r.well_formed(),
            r.screens@.len() == 0,
            r.popups@.len() == 0,
            r.callback_queue@.len() == 0,
            !r.should_quit,
            r.input_manager.source.events@ == events@,
            r.input_manager.tick_rate_ms == 16,
            r.input_manager.tick_timeout_ms == 1000,
    {
        ScreenManager::init(FakeSource::new(events))
    }

    /// Initializes a manager with no screens or popups around `source`, at a
    /// sixteen millisecond tick rate and a one second tick timeout.
    fn init(source: FakeSource) -> (r: ScreenManager)
        ensures
            r.well_formed(),
            r.screens@.len() == 0,
            r.popups@.len() == 0,
            r.callback_queue@.len() == 0,
            !r.should_quit,
            r.input_manager.source == source,
            r.input_manager.tick_rate_ms == 16,
            r.input_manager.tick_timeout_ms == 1000,
    {
        let tick_rate_ms: u64 = 16;
        let tick_timeout_ms: u64 = 1000;
        ScreenManager {
            screens: Vec::new(),
            popups: Vec::new(),
            input_manager: InputManager::new(source, tick_rate_ms, tick_timeout_ms),
            callback_queue: Vec::new(),
            should_quit: false,
        }
    }

    /// Pushes a new screen onto the top of the screen stack.
    pub fn push_screen(&mut self, screen: ScreenView)
        requires
            old(self).well_formed(),
            screen.spec_wf(),
        ensures
            final(self).well_formed(),
            final(self).screens@ == old(self).screens@.push(screen),
            final(self).popups@ == old(self).popups@,
            final(self).callback_queue@ == old(self).callback_queue@,
            final(self).should_quit == old(self).should_quit,
            final(self).input_manager == old(self).input_manager,
    {
        self.screens.push(screen);
    }

    /// Pops the topmost screen from the screen stack.
    pub fn pop_screen(&mut self) -> (r: Option<ScreenView>)
        requires
            old(self).well_formed(),
        ensures
            final(self).well_formed(),
            old(self).screens@.len() > 0 ==> r == Some(old(self).screens@.last())
                && final(self).screens@ == old(self).screens@.drop_last(),
            old(self).screens@.len() == 0 ==> r is None && final(self).screens@ == old(self).screens@,
            final(self).popups@ == old(self).popups@,
            final(self).callback_queue@ == old(self).callback_queue@,
            final(self).should_quit == old(self).should_quit,
            final(self).input_manager == old(self).input_manager,
    {
        self.screens.pop()
    }

    /// Pushes a new popup onto the top of the popup stack.
    pub fn push_popup(&mut self, popup: PopupView)
        requires
            old(self).well_formed(),
        ensures
            final(self).well_formed(),
            final(self).popups@ == old(self).popups@.push(popup),
            final(self).screens@ == old(self).screens@,
            final(self).callback_queue@ == old(self).callback_queue@,
            final(self).should_quit == old(self).should_quit,
            final(self).input_manager == old(self).input_manager,
    {
        self.popups.push(popup);
    }

    /// Pops the topmost popup from the popup stack.
    pub fn pop_popup(&mut self) -> (r: Option<PopupView>)
        requires
            old(self).well_formed(),
        ensures
            final(self).well_formed(),
            old(self).popups@.len() > 0 ==> r == Some(old(self).popups@.last())
                && final(self).popups@ == old(self).popups@.drop_last(),
            old(self).popups@.len() == 0 ==> r is None && final(self).popups@ == old(self).popups@,
            final(self).screens@ == old(self).screens@,
            final(self).callback_queue@ == old(self).callback_queue@,
            final(self).should_quit == old(self).should_quit,
            final(self).input_manager == old(self).input_manager,
    {
        self.popups.pop()
    }

    /// Rebuilds the callback queue from the views' own queues: popup
    /// callbacks first, then screen callbacks, both from the top of their
    /// stack down; each view's queue is emptied as it is collected.
    pub fn update_callback_queue(&mut self)
        requires
            old(self).well_formed(),
        ensures
            final(self).well_formed(),
            final(self).callback_queue@ == spec_collected(old(self).popups@, old(self).screens@),
            final(self).screens@.len() == old(self).screens@.len(),
            final(self).popups@.len() == old(self).popups@.len(),
            forall|i: int|
                0 <= i < old(self).screens@.len() ==> ScreenView::spec_same_but_callbacks(
                    old(self).screens@[i],
                    #[trigger] final(self).screens@[i],
                ) && final(self).screens@[i].spec_callbacks().len() == 0 && final(self).screens@[i].spec_torn_down() == old(self).screens@[i].spec_torn_down(),
            forall|i: int|
                0 <= i < old(self).popups@.len() ==> PopupView::spec_same_but_callbacks(
                    old(self).popups@[i],
                    #[trigger] final(self).popups@[i],
                ) && final(self).popups@[i].spec_callbacks().len() == 0 && final(self).popups@[i].spec_torn_down() == old(self).popups@[i].spec_torn_down(),
            final(self).should_quit == old(self).should_quit,
            final(self).input_manager == old(self).input_manager,
    {
        self.callback_queue.clear();
        let ghost pre = *self;
        let pn = self.popups.len();
        let mut i: usize = pn;
        while i > 0
            invariant
                i <= pn,
                self.popups@.len() == pn,
                pn == pre.popups@.len(),
                self.screens@ == pre.screens@,
                self.well_formed(),
                self.callback_queue@ == spec_popup_cbs_between(pre.popups@, pn as int, i as int),
                forall|k: int| 0 <= k < i ==> #[trigger] self.popups@[k] == pre.popups@[k],
                forall|k: int|
                    i <= k < pn ==> PopupView::spec_same_but_callbacks(
                        pre.popups@[k],
                        #[trigger] self.popups@[k],
                    ) && self.popups@[k].spec_callbacks().len() == 0
                        && self.popups@[k].spec_torn_down() == pre.popups@[k].spec_torn_down(),
                self.should_quit == pre.should_quit,
                self.input_manager == pre.input_manager,
            decreases i,
        {
            i = i - 1;
            let popup = vstd::std_specs::vec::vec_index_mut(&mut self.popups, i);
            let mut cbs = popup.get_screen_manager_callbacks();
            self.callback_queue.append(&mut cbs);
            proof {
                lemma_popup_cbs_snoc(pre.popups@, pn as int, i as int);
            }
        }
        let ghost popup_part = self.callback_queue@;
        let sn = self.screens.len();
        let mut j: usize = sn;
        while j > 0
            invariant
                j <= sn,
                self.screens@.len() == sn,
                sn == pre.screens@.len(),
                self.popups@.len() == pn,
                pn == pre.popups@.len(),
                self.well_formed(),
                popup_part == spec_popup_cbs_between(pre.popups@, pn as int, 0),
                self.callback_queue@ == popup_part + spec_screen_cbs_between(
                    pre.screens@,
                    sn as int,
                    j as int,
                ),
                forall|k: int| 0 <= k < j ==> #[trigger] self.screens@[k] == pre.screens@[k],
                forall|k: int|
                    j <= k < sn ==> ScreenView::spec_same_but_callbacks(
                        pre.screens@[k],
                        #[trigger] self.screens@[k],
                    ) && self.screens@[k].spec_callbacks().len() == 0
                        && self.screens@[k].spec_torn_down() == pre.screens@[k].spec_torn_down(),
                forall|k: int|
                    0 <= k < pn ==> PopupView::spec_same_but_callbacks(
                        pre.popups@[k],
                        #[trigger] self.popups@[k],
                    ) && self.popups@[k].spec_callbacks().len() == 0
                        && self.popups@[k].spec_torn_down() == pre.popups@[k].spec_torn_down(),
                self.should_quit == pre.should_quit,
                self.input_manager == pre.input_manager,
            decreases j,
        {
            j = j - 1;
            let screen = vstd::std_specs::vec::vec_index_mut(&mut self.screens, j);
            let mut cbs = screen.get_screen_manager_callbacks();
            self.callback_queue.append(&mut cbs);
            proof {
                lemma_screen_cbs_snoc(pre.screens@, sn as int, j as int);
                assert(self.callback_queue@ =~= popup_part + spec_screen_cbs_between(
                    pre.screens@,
                    sn as int,
                    j as int,
                ));
            }
        }
        proof {
            assert(self.callback_queue@ =~= spec_collected(pre.popups@, pre.screens@));
        }
    }

    /// Updates the queue from the views' callbacks and executes each in
    /// order against the manager, removing it as it runs. Quit callbacks set
    /// the quit flag, push callbacks build and push the requested view, pop
    /// callbacks shorten their stack from the top; the views that remain
    /// from before are the same, each with an empty callback queue.
    pub fn handle_callbacks(&mut self)
        requires
            old(self).well_formed(),
        ensures
            final(self).well_formed(),
            final(self).callback_queue@.len() == 0,
            final(self).input_manager == old(self).input_manager,
            ({
                let cbs = spec_collected(old(self).popups@, old(self).screens@);
                let r = spec_apply_upto(
                    cbs,
                    spec_stack_screen_origins(old(self).screens@.len() as int),
                    spec_stack_popup_origins(old(self).popups@.len() as int),
                    old(self).should_quit,
                    cbs.len() as int,
                );
                &&& final(self).screens@.len() == r.0.len()
                &&& final(self).popups@.len() == r.1.len()
                &&& final(self).should_quit == r.2
                &&& forall|i: int|
                    0 <= i < r.0.len() ==> spec_screen_from_origin(
                        old(self).screens@,
                        r.0[i],
                        #[trigger] final(self).screens@[i],
                    )
                &&& forall|i: int|
                    0 <= i < r.1.len() ==> spec_popup_from_origin(
                        old(self).popups@,
                        r.1[i],
                        #[trigger] final(self).popups@[i],
                    )
            }),
    {
        self.update_callback_queue();
        let ghost mid = *self;
        let mut queue: Vec<Callback> = Vec::new();
        queue.append(&mut self.callback_queue);
        let ghost cbs = queue@;
        let ghost s0 = spec_stack_screen_origins(mid.screens@.len() as int);
        let ghost p0 = spec_stack_popup_origins(mid.popups@.len() as int);
        proof {
            assert(vstd::std_specs::vec::spec_vec_len(&mid.screens) == mid.screens@.len());
            assert(vstd::std_specs::vec::spec_vec_len(&mid.popups) == mid.popups@.len());
            assert(s0.len() == mid.screens@.len());
            assert(p0.len() == mid.popups@.len());
            assert(self.screens@ == mid.screens@);
            assert(self.popups@ == mid.popups@);
            assert forall|i: int| 0 <= i < s0.len() implies spec_screen_matches_origin(
                mid.screens@,
                s0[i],
                #[trigger] self.screens@[i],
            ) by {
                assert(s0[i] == ScreenOrigin::FromStack(i as usize));
                assert(i as usize as int == i);
            }
            assert forall|i: int| 0 <= i < p0.len() implies spec_popup_matches_origin(
                mid.popups@,
                p0[i],
                #[trigger] self.popups@[i],
            ) by {
                assert(p0[i] == PopupOrigin::FromStack(i as usize));
                assert(i as usize as int == i);
            }
        }
        let n = queue.len();
        let mut k: usize = 0;
        while k < n
            invariant
                k <= n,
                n == cbs.len(),
                queue@ == cbs,
                self.well_formed(),
                self.callback_queue@.len() == 0,
                self.input_manager == mid.input_manager,
                s0 == spec_stack_screen_origins(mid.screens@.len() as int),
                p0 == spec_stack_popup_origins(mid.popups@.len() as int),
                ({
                    let r = spec_apply_upto(cbs, s0, p0, mid.should_quit, k as int);
                    &&& self.screens@.len() == r.0.len()
                    &&& self.popups@.len() == r.1.len()
                    &&& self.should_quit == r.2
                    &&& forall|i: int|
                        0 <= i < r.0.len() ==> spec_screen_matches_origin(
                            mid.screens@,
                            r.0[i],
                            #[trigger] self.screens@[i],
                        )
                    &&& forall|i: int|
                        0 <= i < r.1.len() ==> spec_popup_matches_origin(
                            mid.popups@,
                            r.1[i],
                            #[trigger] self.popups@[i],
                        )
                }),
            decreases n - k,
        {
            let cb = queue[k];
            match cb {
                Callback::Quit => {
                    self.should_quit = true;
                },
                Callback::PushScreen(request) => {
                    let view = build_screen(request);
                    self.screens.push(view);
                },
                Callback::PopScreen => {
                    let _ = self.screens.pop();
                },
                Callback::PushPopup(request) => {
                    let view = build_popup(request);
                    self.popups.push(view);
                },
                Callback::PopPopup => {
                    let _ = self.popups.pop();
                },
            }
            k = k + 1;
        }
        proof {
            let r = spec_apply_upto(cbs, s0, p0, mid.should_quit, n as int);
            assert forall|i: int| 0 <= i < r.0.len() implies spec_screen_from_origin(
                old(self).screens@,
                r.0[i],
                #[trigger] self.screens@[i],
            ) by {
                match r.0[i] {
                    ScreenOrigin::FromStack(j) => {
                        assert(self.screens@[i] == mid.screens@[j as int]);
                    },
                    ScreenOrigin::Pushed(_) => {},
                }
            }
            assert forall|i: int| 0 <= i < r.1.len() implies spec_popup_from_origin(
                old(self).popups@,
                r.1[i],
                #[trigger] self.popups@[i],
            ) by {
                match r.1[i] {
                    PopupOrigin::FromStack(j) => {
                        assert(self.popups@[i] == mid.popups@[j as int]);
                    },
                    PopupOrigin::Pushed(_) => {},
                }
            }
        }
    }

    /// One frame of the per-frame protocol, given one tick: the popup pass
    /// (the topmost popup receives the tick verbatim, every other popup the
    /// downgraded tick), the screen pass (the topmost screen receives the
    /// tick, downgraded whenever any popup existed; other screens receive
    /// nothing), then the callback drain in the order `spec_collected` gives.
    pub fn advance_frame(&mut self, tick: GameTick)
        requires
            old(self).well_formed(),
        ensures
            final(self).well_formed(),
            final(self).input_manager == old(self).input_manager,
            spec_frame_rel(*old(self), *final(self), tick),
    {
        let ghost pre = *self;
        render(&mut self.screens, &mut self.popups, tick);
        let ghost mid = *self;
        proof {
            lemma_popup_collected_after_render(
                pre.popups@,
                mid.popups@,
                tick,
                pre.popups@.len() as int,
            );
            lemma_screen_collected_after_render(
                pre.screens@,
                mid.screens@,
                spec_screen_tick(tick, pre.popups@.len() as int),
                pre.screens@.len() as int,
            );
            assert(spec_collected(mid.popups@, mid.screens@) == spec_collected_after_render(
                pre.popups@,
                pre.screens@,
                tick,
            ));
        }
        self.handle_callbacks();
        proof {
            let pn = pre.popups@.len() as int;
            let sn = pre.screens@.len() as int;
            let cbs = spec_collected_after_render(pre.popups@, pre.screens@, tick);
            let r = spec_apply_upto(
                cbs,
                spec_stack_screen_origins(sn),
                spec_stack_popup_origins(pn),
                pre.should_quit,
                cbs.len() as int,
            );
            assert forall|i: int| 0 <= i < r.0.len() implies spec_screen_after_frame(
                pre.screens@,
                tick,
                pn,
                r.0[i],
                #[trigger] self.screens@[i],
            ) by {
                match r.0[i] {
                    ScreenOrigin::FromStack(j) => {
                        if j as int == sn - 1 {
                            lemma_screen_frame_compose(
                                pre.screens@[j as int],
                                mid.screens@[j as int],
                                self.screens@[i],
                                spec_screen_tick(tick, pn),
                            );
                        }
                    },
                    ScreenOrigin::Pushed(_) => {},
                }
            }
            assert forall|i: int| 0 <= i < r.1.len() implies spec_popup_after_frame(
                pre.popups@,
                tick,
                r.1[i],
                #[trigger] self.popups@[i],
            ) by {
                match r.1[i] {
                    PopupOrigin::FromStack(j) => {
                        lemma_popup_frame_compose(
                            pre.popups@[j as int],
                            mid.popups@[j as int],
                            self.popups@[i],
                            spec_routed_tick(tick, j as int, pn),
                        );
                    },
                    PopupOrigin::Pushed(_) => {},
                }
            }
        }
    }

    /// Calls `tear_down` once on every screen and popup still on the stacks.
    pub fn tear_down(&mut self)
        requires
            old(self).well_formed(),
        ensures
            final(self).well_formed(),
            spec_teardown_of(*old(self), *final(self)),
            forall|i: int|
                0 <= i < final(self).screens@.len() ==> (
                #[trigger] final(self).screens@[i]).spec_torn_down(),
            forall|i: int|
                0 <= i < final(self).popups@.len() ==> (
                #[trigger] final(self).popups@[i]).spec_torn_down(),
    {
        let ghost pre = *self;
        let sn = self.screens.len();
        let mut i: usize = 0;
        while i < sn
            invariant
                i <= sn,
                self.screens@.len() == sn,
                sn == pre.screens@.len(),
                self.well_formed(),
                self.popups@ == pre.popups@,
                self.callback_queue@ == pre.callback_queue@,
                self.should_quit == pre.should_quit,
                self.input_manager == pre.input_manager,
                forall|k: int| i <= k < sn ==> #[trigger] self.screens@[k] == pre.screens@[k],
                forall|k: int|
                    0 <= k < i ==> ScreenView::spec_teardown_rel(
                        pre.screens@[k],
                        #[trigger] self.screens@[k],
                    ) && self.screens@[k].spec_torn_down(),
            decreases sn - i,
        {
            let screen = vstd::std_specs::vec::vec_index_mut(&mut self.screens, i);
            screen.tear_down();
            i = i + 1;
        }
        let pn = self.popups.len();
        let mut j: usize = 0;
        while j < pn
            invariant
                j <= pn,
                self.popups@.len() == pn,
                pn == pre.popups@.len(),
                self.well_formed(),
                self.screens@.len() == sn,
                sn == pre.screens@.len(),
                self.callback_queue@ == pre.callback_queue@,
                self.should_quit == pre.should_quit,
                self.input_manager == pre.input_manager,
                forall|k: int|
                    0 <= k < sn ==> ScreenView::spec_teardown_rel(
                        pre.screens@[k],
                        #[trigger] self.screens@[k],
                    ) && self.screens@[k].spec_torn_down(),
                forall|k: int| j <= k < pn ==> #[trigger] self.popups@[k] == pre.popups@[k],
                forall|k: int|
                    0 <= k < j ==> PopupView::spec_teardown_rel(
                        pre.popups@[k],
                        #[trigger] self.popups@[k],
                    ) && self.popups@[k].spec_torn_down(),
            decreases pn - j,
        {
            let popup = vstd::std_specs::vec::vec_index_mut(&mut self.popups, j);
            popup.tear_down();
            j = j + 1;
        }
    }

    /// Runs the per-frame protocol — tick, render pass, callback drain,
    /// strictly in that order, so callbacks never run during a render pass —
    /// until the frame just drained has set the quit flag, or `frame_limit`
    /// frames have run; on exit, tears every remaining view down once.
    /// Returns the number of frames that ran: the first count at which the
    /// quit flag held, or `frame_limit` if it never did. The whole run is
    /// pinned down by `spec_main_loop_run` over the trace of frame states.
    pub fn start_main_loop(&mut self, frame_limit: u64) -> (frames: u64)
        requires
            old(self).well_formed(),
        ensures
            final(self).well_formed(),
            frames <= frame_limit,
            frames < frame_limit ==> final(self).should_quit,
            exists|trace: Seq<ScreenManager>| #[trigger] spec_main_loop_run(
                *old(self),
                trace,
                frames as int,
                frame_limit as int,
                *final(self),
            ),
            forall|i: int|
                0 <= i < final(self).screens@.len() ==> (
                #[trigger] final(self).screens@[i]).spec_torn_down(),
            forall|i: int|
                0 <= i < final(self).popups@.len() ==> (
                #[trigger] final(self).popups@[i]).spec_torn_down(),
    {
        let ghost pre = *self;
        let ghost mut trace: Seq<ScreenManager> = seq![pre];
        let mut frames: u64 = 0;
        while frames < frame_limit && !self.should_quit
            invariant
                self.well_formed(),
                frames <= frame_limit,
                trace.len() == frames + 1,
                trace[0] == pre,
                trace[frames as int] == *self,
                forall|k: int| 0 <= k < frames ==> spec_loop_step(#[trigger] trace[k], trace[k + 1]),
                forall|k: int| 0 <= k < frames ==> !(#[trigger] trace[k]).should_quit,
            decreases frame_limit - frames,
        {
            let ghost s0 = *self;
            let tick = self.input_manager.tick();
            let ghost s1 = *self;
            self.advance_frame(tick);
            frames = frames + 1;
            proof {
                assert(spec_frame_rel(s1, *self, tick));
                assert(spec_frame_rel(s0, *self, tick));
                assert(spec_loop_step(s0, *self));
                trace = trace.push(*self);
            }
        }
        self.tear_down();
        proof {
            assert(spec_main_loop_run(pre, trace, frames as int, frame_limit as int, *self));
        }
        frames
    }
}

} // verus!
