use vstd::prelude::*;

use crate::event::{Event, EventCtx};
use crate::geometry::Rect;
use crate::render::{DrawOp, RenderTarget, Tracer};
use crate::screen::{Screen, SwipeConfig};

verus! {

/// Why appending a screen to a flow store can fail: only because the memory
/// that is to hold the new entry cannot.  Entries of this store live inline
/// in the store value itself, so the failure never arises here; the variant
/// documents the contract the caller must still be written against.
#[derive(Clone, Copy, PartialEq, Eq, Structural, Debug)]
pub enum FlowError {
    Allocation,
}

/// An ordered, append-only, heterogeneous collection of owned screens with
/// index-addressed dispatch.
///
/// Indices are assigned in append order and never change; index `i` of a
/// store of length `n` is valid for `0 <= i < n`, and every index-addressed
/// operation on an invalid index is a caller error, ruled out by `requires`
/// (and trapped, were unverified code to reach it anyway).
///
/// Entries keep their own concrete types: each `add` wraps the store in a
/// new node that owns the appended screen, so no common representation is
/// forced on the entries.  `M` is the message type the stored screens report.
pub trait FlowStore<M>: Sized {
    /// How many screens the store holds.
    spec fn slen(&self) -> nat;

    /// Every entry keeps its invariant, and the length stays countable.
    spec fn wf(&self) -> bool;

    /// The bounds every entry accepts for placement.
    spec fn place_pre(&self, bounds: Rect) -> bool;

    /// The state after broadcasting `place(bounds)` to every entry.
    spec fn place_spec(&self, bounds: Rect) -> Self;

    /// The state and message that handling one event at entry `i` produces.
    spec fn event_spec(&self, i: int, e: Event) -> (Self, Option<M>);

    /// Whether entry `i` requests a repaint for this event.
    spec fn event_paints(&self, i: int, e: Event) -> bool;

    /// The draw primitives one render of entry `i` emits.
    spec fn render_ops_at(&self, i: int) -> Seq<DrawOp>;

    /// The self-description entry `i` gives a tracer.
    spec fn trace_name_at(&self, i: int) -> Seq<char>;

    /// The swipe directions entry `i` accepts.
    spec fn swipe_cfg_at(&self, i: int) -> SwipeConfig;

    /// How many sub-pages entry `i` pages through internally.
    spec fn page_count_at(&self, i: int) -> usize;

    /// Broadcasting a layout is idempotent, preserves every invariant and
    /// keeps the length.
    proof fn lemma_place_spec(&self, bounds: Rect)
        requires
            self.wf(),
            self.place_pre(bounds),
        ensures
            self.place_spec(bounds).wf(),
            self.place_spec(bounds).place_pre(bounds),
            self.place_spec(bounds).place_spec(bounds) == self.place_spec(bounds),
            self.place_spec(bounds).slen() == self.slen(),
    ;

    /// Handling an event preserves every invariant and keeps the length.
    proof fn lemma_event_spec(&self, i: int, e: Event)
        requires
            self.wf(),
            0 <= i < self.slen(),
        ensures
            self.event_spec(i, e).0.wf(),
            self.event_spec(i, e).0.slen() == self.slen(),
    ;

    /// How many screens the store holds.
    fn len(&self) -> (n: usize)
        requires
            self.wf(),
        ensures
            n == self.slen(),
    ;

    /// Call `place` on every entry with the same bounds, in index order;
    /// returns the bounds, which every entry occupies by convention.
    fn place(&mut self, bounds: Rect) -> (r: Rect)
        requires
            old(self).wf(),
            old(self).place_pre(bounds),
        ensures
            *final(self) == old(self).place_spec(bounds),
            r == bounds,
    ;

    /// Route one event to entry `i` only; every other entry is untouched.
    fn event(&mut self, i: usize, ctx: &mut EventCtx, e: Event) -> (m: Option<M>)
        requires
            old(self).wf(),
            i < old(self).slen(),
        ensures
            *final(self) == old(self).event_spec(i as int, e).0,
            m == old(self).event_spec(i as int, e).1,
            final(ctx).paint_requested == (old(ctx).paint_requested || old(self).event_paints(
                i as int,
                e,
            )),
    ;

    /// Render entry `i` only.
    fn render(&self, i: usize, target: &mut RenderTarget)
        requires
            self.wf(),
            i < self.slen(),
        ensures
            final(target)@ == old(target)@ + self.render_ops_at(i as int),
    ;

    /// Let entry `i` describe itself.
    fn trace(&self, i: usize, t: &mut Tracer)
        requires
            self.wf(),
            i < self.slen(),
        ensures
            final(t)@ == old(t)@.push(self.trace_name_at(i as int)),
    ;

    /// Report the swipe directions entry `i` accepts.
    fn get_swipe_config(&self, i: usize) -> (c: SwipeConfig)
        requires
            self.wf(),
            i < self.slen(),
        ensures
            c == self.swipe_cfg_at(i as int),
    ;

    /// Report how many sub-pages entry `i` pages through internally.
    fn get_internal_page_count(&mut self, i: usize) -> (n: usize)
        requires
            old(self).wf(),
            i < old(self).slen(),
        ensures
            *final(self) == *old(self),
            n == old(self).page_count_at(i as int),
            n >= 1,
    ;

    /// Append a screen at the end; its index is the old length and every
    /// existing index is unchanged.  Fails only if the memory that is to
    /// hold the new entry cannot — which, with entries held inline, is
    /// never, so success is certain.
    fn add<E: Screen<Msg = M>>(self, elem: E) -> (r: Result<FlowComponent2<E, Self>, FlowError>)
        ensures
            r == Ok::<FlowComponent2<E, Self>, FlowError>(FlowComponent2 { elem, prev: self }),
    ;
}

/// Create a new empty flow store.
pub fn flow_store() -> (s: FlowEmpty)
    ensures
        s == FlowEmpty,
{
    FlowEmpty
}

/// The store with no entries; its index space is empty, so every
/// index-addressed operation on it is ruled out by its precondition.
#[derive(Clone, Copy, PartialEq, Eq, Structural, Debug)]
pub struct FlowEmpty;

impl<M> FlowStore<M> for FlowEmpty {
    open spec fn slen(&self) -> nat {
        0
    }

    open spec fn wf(&self) -> bool {
        true
    }

    open spec fn place_pre(&self, bounds: Rect) -> bool {
        true
    }

    open spec fn place_spec(&self, bounds: Rect) -> Self {
        *self
    }

    open spec fn event_spec(&self, i: int, e: Event) -> (Self, Option<M>) {
        (*self, None)
    }

    open spec fn event_paints(&self, i: int, e: Event) -> bool {
        false
    }

    open spec fn render_ops_at(&self, i: int) -> Seq<DrawOp> {
        Seq::empty()
    }

    open spec fn trace_name_at(&self, i: int) -> Seq<char> {
        Seq::empty()
    }

    open spec fn swipe_cfg_at(&self, i: int) -> SwipeConfig {
        SwipeConfig { up: false, down: false, left: false, right: false }
    }

    open spec fn page_count_at(&self, i: int) -> usize {
        1
    }

    proof fn lemma_place_spec(&self, bounds: Rect) {
    }

    proof fn lemma_event_spec(&self, i: int, e: Event) {
    }

    fn len(&self) -> (n: usize) {
        0
    }

    fn place(&mut self, bounds: Rect) -> (r: Rect) {
        bounds
    }

    fn event(&mut self, i: usize, ctx: &mut EventCtx, e: Event) -> (m: Option<M>) {
        vstd::pervasive::unreached()
    }

    fn render(&self, i: usize, target: &mut RenderTarget) {
        vstd::pervasive::unreached()
    }

    fn trace(&self, i: usize, t: &mut Tracer) {
        vstd::pervasive::unreached()
    }

    fn get_swipe_config(&self, i: usize) -> (c: SwipeConfig) {
        vstd::pervasive::unreached()
    }

    fn get_internal_page_count(&mut self, i: usize) -> (n: usize) {
        vstd::pervasive::unreached()
    }

    fn add<E: Screen<Msg = M>>(self, elem: E) -> (r: Result<FlowComponent2<E, Self>, FlowError>) {
        Ok(FlowComponent2 { elem, prev: self })
    }
}

/// One node of a flow store: it owns the screen appended last (`elem`, at
/// index `prev.slen()`) and the store of all screens appended before it.
pub struct FlowComponent2<E, P> {
    /// The screen this node owns.
    pub elem: E,
    /// The store of the entries appended earlier.
    pub prev: P,
}

impl<E, P> FlowComponent2<E, P> {
    /// Read access to the screen this node owns.
    pub fn as_ref(&self) -> (r: &E)
        ensures
            r == &self.elem,
    {
        &self.elem
    }

    /// Exclusive access to the screen this node owns.
    pub fn as_mut(&mut self) -> (r: &mut E)
        ensures
            *r == old(self).elem,
            *final(self) == (FlowComponent2 { elem: *final(r), prev: old(self).prev }),
    {
        &mut self.elem
    }
}

impl<M, E: Screen<Msg = M>, P: FlowStore<M>> FlowStore<M> for FlowComponent2<E, P> {
    open spec fn slen(&self) -> nat {
        self.prev.slen() + 1
    }

    open spec fn wf(&self) -> bool {
        &&& self.elem.wf()
        &&& self.prev.wf()
        &&& self.prev.slen() + 1 <= usize::MAX
    }

    open spec fn place_pre(&self, bounds: Rect) -> bool {
        &&& self.elem.place_pre(bounds)
        &&& self.prev.place_pre(bounds)
    }

    open spec fn place_spec(&self, bounds: Rect) -> Self {
        FlowComponent2 { elem: self.elem.place_spec(bounds), prev: self.prev.place_spec(bounds) }
    }

    open spec fn event_spec(&self, i: int, e: Event) -> (Self, Option<M>) {
        if i == self.prev.slen() {
            let (elem2, m) = self.elem.event_spec(e);
            (FlowComponent2 { elem: elem2, prev: self.prev }, m)
        } else {
            let (prev2, m) = self.prev.event_spec(i, e);
            (FlowComponent2 { elem: self.elem, prev: prev2 }, m)
        }
    }

    open spec fn event_paints(&self, i: int, e: Event) -> bool {
        if i == self.prev.slen() {
            self.elem.event_paints(e)
        } else {
            self.prev.event_paints(i, e)
        }
    }

    open spec fn render_ops_at(&self, i: int) -> Seq<DrawOp> {
        if i == self.prev.slen() {
            self.elem.render_ops()
        } else {
            self.prev.render_ops_at(i)
        }
    }

    open spec fn trace_name_at(&self, i: int) -> Seq<char> {
        if i == self.prev.slen() {
            self.elem.trace_name()
        } else {
            self.prev.trace_name_at(i)
        }
    }

    open spec fn swipe_cfg_at(&self, i: int) -> SwipeConfig {
        if i == self.prev.slen() {
            self.elem.swipe_cfg()
        } else {
            self.prev.swipe_cfg_at(i)
        }
    }

    open spec fn page_count_at(&self, i: int) -> usize {
        if i == self.prev.slen() {
            self.elem.page_count_spec()
        } else {
            self.prev.page_count_at(i)
        }
    }

    proof fn lemma_place_spec(&self, bounds: Rect) {
        self.elem.lemma_place_spec(bounds);
        self.prev.lemma_place_spec(bounds);
    }

    proof fn lemma_event_spec(&self, i: int, e: Event) {
        if i == self.prev.slen() {
            self.elem.lemma_event_spec(e);
        } else {
            self.prev.lemma_event_spec(i, e);
        }
    }

    fn len(&self) -> (n: usize) {
        1 + self.prev.len()
    }

    fn place(&mut self, bounds: Rect) -> (r: Rect) {
        self.prev.place(bounds);
        self.elem.place(bounds);
        bounds
    }

    fn event(&mut self, i: usize, ctx: &mut EventCtx, e: Event) -> (m: Option<M>) {
        let here = self.prev.len();
        if i == here {
            self.elem.handle_event(ctx, e)
        } else {
            self.prev.event(i, ctx, e)
        }
    }

    fn render(&self, i: usize, target: &mut RenderTarget) {
        let here = self.prev.len();
        if i == here {
            self.elem.render(target)
        } else {
            self.prev.render(i, target)
        }
    }

    fn trace(&self, i: usize, t: &mut Tracer) {
        let here = self.prev.len();
        if i == here {
            self.elem.trace(t)
        } else {
            self.prev.trace(i, t)
        }
    }

    fn get_swipe_config(&self, i: usize) -> (c: SwipeConfig) {
        let here = self.prev.len();
        if i == here {
            self.elem.get_swipe_config()
        } else {
            self.prev.get_swipe_config(i)
        }
    }

    fn get_internal_page_count(&mut self, i: usize) -> (n: usize) {
        let here = self.prev.len();
        if i == here {
            self.elem.get_internal_page_count()
        } else {
            self.prev.get_internal_page_count(i)
        }
    }

    fn add<F: Screen<Msg = M>>(self, elem: F) -> (r: Result<FlowComponent2<F, Self>, FlowError>) {
        Ok(FlowComponent2 { elem, prev: self })
    }
}

/// Law: an event addressed to index `i` reaches exactly one entry.  When `i`
/// addresses the screen this node owns, that screen steps by its own
/// transition and every earlier entry is untouched; otherwise this node's
/// screen is untouched and the event is the earlier store's, unchanged.
pub proof fn lemma_event_isolation<M, E: Screen<Msg = M>, P: FlowStore<M>>(
    s: FlowComponent2<E, P>,
    i: int,
    e: Event,
)
    requires
        0 <= i < s.slen(),
    ensures
        i == s.prev.slen() ==> {
            let (s2, m) = s.event_spec(i, e);
            &&& s2.prev == s.prev
            &&& (s2.elem, m) == s.elem.event_spec(e)
        },
        i < s.prev.slen() ==> {
            let (s2, m) = s.event_spec(i, e);
            &&& s2.elem == s.elem
            &&& (s2.prev, m) == s.prev.event_spec(i, e)
        },
{
}

/// Law: rendering index `i` renders exactly one entry: the screen this node
/// owns when `i` is its index, and otherwise whatever the earlier store
/// renders for `i`, with this node's screen contributing nothing.
pub proof fn lemma_render_isolation<M, E: Screen<Msg = M>, P: FlowStore<M>>(
    s: FlowComponent2<E, P>,
    i: int,
)
    requires
        0 <= i < s.slen(),
    ensures
        i == s.prev.slen() ==> s.render_ops_at(i) == s.elem.render_ops(),
        i < s.prev.slen() ==> s.render_ops_at(i) == s.prev.render_ops_at(i),
{
}

/// Law: appending assigns the new screen the old length as its index, keeps
/// every existing index addressing the entry it addressed before, and grows
/// the length by one.
pub proof fn lemma_add_appends<M, E: Screen<Msg = M>, P: FlowStore<M>>(prev: P, elem: E, i: int)
    ensures
        (FlowComponent2 { elem, prev }).slen() == prev.slen() + 1,
        (FlowComponent2 { elem, prev }).render_ops_at(prev.slen() as int) == elem.render_ops(),
        0 <= i < prev.slen() ==> (FlowComponent2 { elem, prev }).render_ops_at(i)
            == prev.render_ops_at(i),
{
}

/// Law: broadcasting the same bounds twice lays the store out exactly as
/// broadcasting them once does, so a later `render` of any entry emits the
/// same primitives either way.
pub proof fn lemma_place_render_deterministic<M, P: FlowStore<M>>(s: P, bounds: Rect, i: int)
    requires
        s.wf(),
        s.place_pre(bounds),
        0 <= i < s.slen(),
    ensures
        s.place_spec(bounds).place_spec(bounds) == s.place_spec(bounds),
        s.place_spec(bounds).place_spec(bounds).render_ops_at(i) == s.place_spec(
            bounds,
        ).render_ops_at(i),
{
    s.lemma_place_spec(bounds);
}

} // verus!
