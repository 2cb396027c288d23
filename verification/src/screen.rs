use vstd::prelude::*;

use crate::event::{Event, EventCtx};
use crate::geometry::Rect;
use crate::render::{DrawOp, RenderTarget, Tracer};

verus! {

/// Which swipe directions a screen accepts for paging.
#[derive(Clone, Copy, PartialEq, Eq, Structural, Debug)]
pub struct SwipeConfig {
    pub up: bool,
    pub down: bool,
    pub left: bool,
    pub right: bool,
}

impl SwipeConfig {
    /// A configuration that accepts no swipes.
    pub fn new() -> (c: SwipeConfig)
        ensures
            c == (SwipeConfig { up: false, down: false, left: false, right: false }),
    {
        SwipeConfig { up: false, down: false, left: false, right: false }
    }
}

/// The capability contract every UI unit satisfies.
///
/// Each implementor describes its own behaviour through the spec functions:
/// what a well-formed state is, when placement is accepted, and how `place`,
/// `handle_event` and `render` act on the state.  The executable methods are
/// then pinned to those descriptions, so every container built over this
/// trait can reason about its entries without knowing their concrete types.
pub trait Screen: Sized {
    /// The message this screen reports to its owner.
    type Msg;

    /// The internal invariant this screen keeps between calls.
    spec fn wf(&self) -> bool;

    /// The bounds this screen accepts for placement.
    spec fn place_pre(&self, bounds: Rect) -> bool;

    /// The state after computing a layout from `bounds`.
    spec fn place_spec(&self, bounds: Rect) -> Self;

    /// The state and message that handling one event produces.
    spec fn event_spec(&self, e: Event) -> (Self, Option<Self::Msg>);

    /// Whether handling `e` requests a repaint.
    spec fn event_paints(&self, e: Event) -> bool;

    /// The draw primitives one render of the current state emits.
    spec fn render_ops(&self) -> Seq<DrawOp>;

    /// The self-description this screen gives a tracer.
    spec fn trace_name(&self) -> Seq<char>;

    /// The swipe directions this screen accepts.
    spec fn swipe_cfg(&self) -> SwipeConfig;

    /// How many sub-pages this screen pages through internally.
    spec fn page_count_spec(&self) -> usize;

    /// Placement is idempotent and preserves the invariant: a second `place`
    /// with the same bounds leaves the state as the first one made it.
    proof fn lemma_place_spec(&self, bounds: Rect)
        requires
            self.wf(),
            self.place_pre(bounds),
        ensures
            self.place_spec(bounds).wf(),
            self.place_spec(bounds).place_pre(bounds),
            self.place_spec(bounds).place_spec(bounds) == self.place_spec(bounds),
    ;

    /// Handling an event preserves the invariant.
    proof fn lemma_event_spec(&self, e: Event)
        requires
            self.wf(),
        ensures
            self.event_spec(e).0.wf(),
    ;

    /// Compute and cache the internal sub-layout from `bounds`; by
    /// convention the screen occupies the whole given area.
    fn place(&mut self, bounds: Rect) -> (r: Rect)
        requires
            old(self).wf(),
            old(self).place_pre(bounds),
        ensures
            *final(self) == old(self).place_spec(bounds),
            r == bounds,
    ;

    /// Consume exactly one event; may mutate the state, may request a
    /// repaint through `ctx`, and may report a message to the owner.
    fn handle_event(&mut self, ctx: &mut EventCtx, e: Event) -> (m: Option<Self::Msg>)
        requires
            old(self).wf(),
        ensures
            *final(self) == old(self).event_spec(e).0,
            m == old(self).event_spec(e).1,
            final(ctx).paint_requested == (old(ctx).paint_requested || old(self).event_paints(e)),
    ;

    /// A pure read of the current state into the render target.
    fn render(&self, target: &mut RenderTarget)
        requires
            self.wf(),
        ensures
            final(target)@ == old(target)@ + self.render_ops(),
    ;

    /// Emit a structured self-description.
    fn trace(&self, t: &mut Tracer)
        ensures
            final(t)@ == old(t)@.push(self.trace_name()),
    ;

    /// Report which swipe directions this screen accepts.
    fn get_swipe_config(&self) -> (c: SwipeConfig)
        ensures
            c == self.swipe_cfg(),
    ;

    /// Report how many sub-pages this screen pages through internally
    /// before a swipe should move to the next flow screen.
    fn get_internal_page_count(&mut self) -> (n: usize)
        ensures
            *final(self) == *old(self),
            n == old(self).page_count_spec(),
            n >= 1,
    ;
}

} // verus!
