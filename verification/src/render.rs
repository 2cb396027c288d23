use vstd::prelude::*;

use crate::buttons::ButtonLayout;
use crate::geometry::Rect;

verus! {

/// The visual slot a choice occupies in the navigator's sliding window.
#[derive(Clone, Copy, PartialEq, Eq, Structural, Debug)]
pub enum Slot {
    Left,
    Center,
    Right,
}

/// One draw primitive handed to the render target.
#[derive(PartialEq, Debug)]
pub enum DrawOp {
    /// Fill an area with the background.
    Fill { area: Rect },
    /// Paint the three-button strip.
    ButtonBar { area: Rect, layout: ButtonLayout },
    /// Paint a choice's text in one slot of the sliding window.
    Text { slot: Slot, text: String },
    /// Paint a header bar, optionally with a close control.
    Header { area: Rect, title: String, close_button: bool },
    /// Paint one menu row.
    MenuItem { area: Rect, index: usize, label: String, danger: bool },
    /// Paint the decorative screen border.
    Border,
}

/// The render target: it records the draw primitives a screen emits, in
/// order.  The code that owns the display replays them; this core only
/// needs the recording.
pub struct RenderTarget {
    pub ops: Vec<DrawOp>,
}

impl View for RenderTarget {
    type V = Seq<DrawOp>;

    open spec fn view(&self) -> Seq<DrawOp> {
        self.ops@
    }
}

impl RenderTarget {
    pub fn new() -> (t: RenderTarget)
        ensures
            t@ == Seq::<DrawOp>::empty(),
    {
        RenderTarget { ops: Vec::new() }
    }

    /// Record one draw primitive.
    pub fn draw(&mut self, op: DrawOp)
        ensures
            final(self)@ == old(self)@.push(op),
    {
        self.ops.push(op);
    }

    pub fn ops(&self) -> (r: &Vec<DrawOp>)
        ensures
            r@ == self@,
    {
        &self.ops
    }
}

/// Records the self-descriptions screens emit while tracing.
pub struct Tracer {
    pub entries: Vec<String>,
}

impl View for Tracer {
    type V = Seq<Seq<char>>;

    open spec fn view(&self) -> Seq<Seq<char>> {
        self.entries.deep_view()
    }
}

impl Tracer {
    pub fn new() -> (t: Tracer)
        ensures
            t@ == Seq::<Seq<char>>::empty(),
    {
        Tracer { entries: Vec::new() }
    }

    /// Record one self-description.
    pub fn record(&mut self, name: &str)
        ensures
            final(self)@ == old(self)@.push(name@),
    {
        self.entries.push(String::from_str(name));
        proof {
            assert(self@ =~= old(self)@.push(name@));
        }
    }

    pub fn entries(&self) -> (r: &Vec<String>)
        ensures
            r.deep_view() == self@,
    {
        &self.entries
    }
}

} // verus!
