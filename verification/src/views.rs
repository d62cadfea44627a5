use vstd::prelude::*;
use crate::command::GameTick;
use crate::game_screen::{spec_time_to_quit, GameScreen};
use crate::screen_manager::Callback;

verus! {

/// A recording view for exercising the presentation stack: it logs every
/// tick it receives, counts its renders, optionally queues a quit callback
/// once its render counter passes a threshold, and remembers whether it was
/// torn down.
pub struct DebugView {
    /// Distinguishes instances from one another.
    pub tag: u32,
    /// Every tick this view has been rendered with, in order.
    pub received: Vec<GameTick>,
    pub render_counter: u64,
    /// When set, a quit callback is queued on every render whose counter
    /// exceeds this.
    pub quit_after: Option<u64>,
    pub torn_down: bool,
    pub callbacks: Vec<Callback>,
}

impl DebugView {
    /// A freshly constructed recording view with the given tag and quit
    /// threshold: nothing received, nothing queued, not torn down.
    pub open spec fn spec_fresh(self, tag: u32, quit_after: Option<u64>) -> bool {
        &&& self.tag == tag
        &&& self.received@.len() == 0
        &&& self.render_counter == 0
        &&& self.quit_after == quit_after
        &&& !self.torn_down
        &&& self.callbacks@.len() == 0
    }

    pub fn new(tag: u32) -> (r: DebugView)
        ensures
            r.spec_fresh(tag, None),
    {
        DebugView {
            tag,
            received: Vec::new(),
            render_counter: 0,
            quit_after: None,
            torn_down: false,
            callbacks: Vec::new(),
        }
    }

    /// A view that queues a quit callback once it has been rendered more
    /// than `quit_after` times.
    pub fn with_quit_after(tag: u32, quit_after: u64) -> (r: DebugView)
        ensures
            r.spec_fresh(tag, Some(quit_after)),
    {
        DebugView {
            tag,
            received: Vec::new(),
            render_counter: 0,
            quit_after: Some(quit_after),
            torn_down: false,
            callbacks: Vec::new(),
        }
    }

    /// What one render with `tick` does to the view: the tick is logged, the
    /// counter advances, and past the quit threshold a quit callback is
    /// queued in front.
    pub open spec fn spec_render_rel(pre: DebugView, post: DebugView, tick: GameTick) -> bool {
        let counter: u64 = if pre.render_counter < u64::MAX {
            (pre.render_counter + 1) as u64
        } else {
            pre.render_counter
        };
        &&& post.tag == pre.tag
        &&& post.received@ == pre.received@.push(tick)
        &&& post.render_counter == counter
        &&& post.quit_after == pre.quit_after
        &&& post.torn_down == pre.torn_down
        &&& post.callbacks@ == (match pre.quit_after {
            Some(q) => if counter > q {
                seq![Callback::Quit] + pre.callbacks@
            } else {
                pre.callbacks@
            },
            None => pre.callbacks@,
        })
    }

    /// The callbacks the view holds after one render with `tick`.
    pub open spec fn spec_callbacks_after_render(self, tick: GameTick) -> Seq<Callback> {
        let counter: u64 = if self.render_counter < u64::MAX {
            (self.render_counter + 1) as u64
        } else {
            self.render_counter
        };
        match self.quit_after {
            Some(q) => if counter > q {
                seq![Callback::Quit] + self.callbacks@
            } else {
                self.callbacks@
            },
            None => self.callbacks@,
        }
    }

    pub fn render(&mut self, tick: GameTick)
        ensures
            DebugView::spec_render_rel(*old(self), *final(self), tick),
    {
        self.received.push(tick);
        if self.render_counter < u64::MAX {
            self.render_counter = self.render_counter + 1;
        }
        let quit_now = match self.quit_after {
            Some(q) => self.render_counter > q,
            None => false,
        };
        if quit_now {
            self.add_screen_manager_callback(Callback::Quit);
        }
    }

    /// Marks the view as torn down; everything else is untouched.
    pub fn tear_down(&mut self)
        ensures
            final(self).tag == old(self).tag,
            final(self).received@ == old(self).received@,
            final(self).render_counter == old(self).render_counter,
            final(self).quit_after == old(self).quit_after,
            final(self).torn_down,
            final(self).callbacks@ == old(self).callbacks@,
    {
        self.torn_down = true;
    }

    /// Queues a deferred operation for the presentation stack; the most
    /// recently added runs first.
    pub fn add_screen_manager_callback(&mut self, callback: Callback)
        ensures
            final(self).tag == old(self).tag,
            final(self).received@ == old(self).received@,
            final(self).render_counter == old(self).render_counter,
            final(self).quit_after == old(self).quit_after,
            final(self).torn_down == old(self).torn_down,
            final(self).callbacks@ == seq![callback] + old(self).callbacks@,
    {
        self.callbacks.insert(0, callback);
        proof {
            assert(self.callbacks@ =~= seq![callback] + old(self).callbacks@);
        }
    }

    /// Hands over and clears every queued callback, in execution order.
    pub fn get_screen_manager_callbacks(&mut self) -> (r: Vec<Callback>)
        ensures
            r@ == old(self).callbacks@,
            final(self).tag == old(self).tag,
            final(self).received@ == old(self).received@,
            final(self).render_counter == old(self).render_counter,
            final(self).quit_after == old(self).quit_after,
            final(self).torn_down == old(self).torn_down,
            final(self).callbacks@.len() == 0,
    {
        let mut out: Vec<Callback> = Vec::new();
        out.append(&mut self.callbacks);
        out
    }
}

/// A full-viewport view of the presentation stack: the game screen, or a
/// recording view used when exercising the stack.
pub enum ScreenView {
    Game(GameScreen),
    Debug(DebugView),
}

/// An overlay view stacked above the screens, eligible to intercept commands
/// before any screen sees them.
pub enum PopupView {
    Debug(DebugView),
}

impl ScreenView {
    /// The view's validity: a game screen carries a well-formed world.
    pub open spec fn spec_wf(self) -> bool {
        match self {
            ScreenView::Game(g) => g.world.well_formed(),
            ScreenView::Debug(_) => true,
        }
    }

    /// The view's queued callbacks, next to run first.
    pub open spec fn spec_callbacks(self) -> Seq<Callback> {
        match self {
            ScreenView::Game(g) => g.callbacks@,
            ScreenView::Debug(d) => d.callbacks@,
        }
    }

    /// True once the view has been torn down; a game screen needs no
    /// clean-up.
    pub open spec fn spec_torn_down(self) -> bool {
        match self {
            ScreenView::Game(_) => true,
            ScreenView::Debug(d) => d.torn_down,
        }
    }

    /// What one render with `tick` does to the view.
    pub open spec fn spec_render_rel(pre: ScreenView, post: ScreenView, tick: GameTick) -> bool {
        match (pre, post) {
            (ScreenView::Game(g1), ScreenView::Game(g2)) => GameScreen::spec_render_rel(
                g1,
                g2,
                tick,
            ),
            (ScreenView::Debug(d1), ScreenView::Debug(d2)) => DebugView::spec_render_rel(
                d1,
                d2,
                tick,
            ),
            _ => false,
        }
    }

    /// The callbacks the view holds after one render with `tick`.
    pub open spec fn spec_callbacks_after_render(self, tick: GameTick) -> Seq<Callback> {
        match self {
            ScreenView::Game(g) => if spec_time_to_quit(tick) {
                seq![Callback::Quit] + g.callbacks@
            } else {
                g.callbacks@
            },
            ScreenView::Debug(d) => d.spec_callbacks_after_render(tick),
        }
    }

    /// The two views agree on everything but their callback queues.
    pub open spec fn spec_same_but_callbacks(pre: ScreenView, post: ScreenView) -> bool {
        match (pre, post) {
            (ScreenView::Game(g1), ScreenView::Game(g2)) => g2.world == g1.world,
            (ScreenView::Debug(d1), ScreenView::Debug(d2)) => {
                &&& d2.tag == d1.tag
                &&& d2.received@ == d1.received@
                &&& d2.render_counter == d1.render_counter
                &&& d2.quit_after == d1.quit_after
                &&& d2.torn_down == d1.torn_down
            },
            _ => false,
        }
    }

    /// Rendering determines the callbacks the view ends up with.
    pub proof fn lemma_render_callbacks(pre: ScreenView, post: ScreenView, tick: GameTick)
        requires
            ScreenView::spec_render_rel(pre, post, tick),
        ensures
            post.spec_callbacks() == pre.spec_callbacks_after_render(tick),
    {
    }

    pub fn render(&mut self, tick: GameTick)
        requires
            old(self).spec_wf(),
        ensures
            ScreenView::spec_render_rel(*old(self), *final(self), tick),
            final(self).spec_wf(),
    {
        match self {
            ScreenView::Game(g) => g.render(tick),
            ScreenView::Debug(d) => d.render(tick),
        }
    }

    /// The view after tear-down: marked torn down, all else untouched.
    pub open spec fn spec_teardown_rel(pre: ScreenView, post: ScreenView) -> bool {
        match (pre, post) {
            (ScreenView::Game(g1), ScreenView::Game(g2)) => g2 == g1,
            (ScreenView::Debug(d1), ScreenView::Debug(d2)) => {
                &&& d2.tag == d1.tag
                &&& d2.received@ == d1.received@
                &&& d2.render_counter == d1.render_counter
                &&& d2.quit_after == d1.quit_after
                &&& d2.torn_down
                &&& d2.callbacks@ == d1.callbacks@
            },
            _ => false,
        }
    }

    pub fn tear_down(&mut self)
        ensures
            ScreenView::spec_teardown_rel(*old(self), *final(self)),
            final(self).spec_callbacks() == old(self).spec_callbacks(),
            final(self).spec_torn_down(),
            final(self).spec_wf() == old(self).spec_wf(),
    {
        match self {
            ScreenView::Game(g) => g.tear_down(),
            ScreenView::Debug(d) => d.tear_down(),
        }
    }

    /// Hands over and clears the view's queued callbacks, in execution
    /// order.
    pub fn get_screen_manager_callbacks(&mut self) -> (r: Vec<Callback>)
        ensures
            r@ == old(self).spec_callbacks(),
            ScreenView::spec_same_but_callbacks(*old(self), *final(self)),
            final(self).spec_callbacks().len() == 0,
            final(self).spec_wf() == old(self).spec_wf(),
            final(self).spec_torn_down() == old(self).spec_torn_down(),
    {
        match self {
            ScreenView::Game(g) => g.get_screen_manager_callbacks(),
            ScreenView::Debug(d) => d.get_screen_manager_callbacks(),
        }
    }
}

impl PopupView {
    pub open spec fn spec_callbacks(self) -> Seq<Callback> {
        match self {
            PopupView::Debug(d) => d.callbacks@,
        }
    }

    pub open spec fn spec_torn_down(self) -> bool {
        match self {
            PopupView::Debug(d) => d.torn_down,
        }
    }

    /// What one render with `tick` does to the popup.
    pub open spec fn spec_render_rel(pre: PopupView, post: PopupView, tick: GameTick) -> bool {
        match (pre, post) {
            (PopupView::Debug(d1), PopupView::Debug(d2)) => DebugView::spec_render_rel(
                d1,
                d2,
                tick,
            ),
        }
    }

    /// The callbacks the popup holds after one render with `tick`.
    pub open spec fn spec_callbacks_after_render(self, tick: GameTick) -> Seq<Callback> {
        match self {
            PopupView::Debug(d) => d.spec_callbacks_after_render(tick),
        }
    }

    /// The two popups agree on everything but their callback queues.
    pub open spec fn spec_same_but_callbacks(pre: PopupView, post: PopupView) -> bool {
        match (pre, post) {
            (PopupView::Debug(d1), PopupView::Debug(d2)) => {
                &&& d2.tag == d1.tag
                &&& d2.received@ == d1.received@
                &&& d2.render_counter == d1.render_counter
                &&& d2.quit_after == d1.quit_after
                &&& d2.torn_down == d1.torn_down
            },
        }
    }

    /// Rendering determines the callbacks the popup ends up with.
    pub proof fn lemma_render_callbacks(pre: PopupView, post: PopupView, tick: GameTick)
        requires
            PopupView::spec_render_rel(pre, post, tick),
        ensures
            post.spec_callbacks() == pre.spec_callbacks_after_render(tick),
    {
    }

    pub fn render(&mut self, tick: GameTick)
        ensures
            PopupView::spec_render_rel(*old(self), *final(self), tick),
    {
        match self {
            PopupView::Debug(d) => d.render(tick),
        }
    }

    /// The popup after tear-down: marked torn down, all else untouched.
    pub open spec fn spec_teardown_rel(pre: PopupView, post: PopupView) -> bool {
        match (pre, post) {
            (PopupView::Debug(d1), PopupView::Debug(d2)) => {
                &&& d2.tag == d1.tag
                &&& d2.received@ == d1.received@
                &&& d2.render_counter == d1.render_counter
                &&& d2.quit_after == d1.quit_after
                &&& d2.torn_down
                &&& d2.callbacks@ == d1.callbacks@
            },
        }
    }

    pub fn tear_down(&mut self)
        ensures
            PopupView::spec_teardown_rel(*old(self), *final(self)),
            final(self).spec_callbacks() == old(self).spec_callbacks(),
            final(self).spec_torn_down(),
    {
        match self {
            PopupView::Debug(d) => d.tear_down(),
        }
    }

    /// Hands over and clears the popup's queued callbacks, in execution
    /// order.
    pub fn get_screen_manager_callbacks(&mut self) -> (r: Vec<Callback>)
        ensures
            r@ == old(self).spec_callbacks(),
            PopupView::spec_same_but_callbacks(*old(self), *final(self)),
            final(self).spec_callbacks().len() == 0,
            final(self).spec_torn_down() == old(self).spec_torn_down(),
    {
        match self {
            PopupView::Debug(d) => d.get_screen_manager_callbacks(),
        }
    }
}

} // verus!
