use vstd::prelude::*;

verus! {

/// One of the three physical buttons below the display.
#[derive(Clone, Copy, PartialEq, Eq, Structural, Debug)]
pub enum ButtonPos {
    Left,
    Middle,
    Right,
}

/// One decoded input event, delivered to exactly one screen per call.
///
/// The surrounding event loop owns decoding; screens only ever see these
/// already-canonical domain events.
#[derive(Clone, Copy, PartialEq, Eq, Structural, Debug)]
pub enum Event {
    /// A physical-button transition reported to the button controller.
    Button(ButtonPos),
    /// The header's close control was activated.
    Cancel,
    /// A menu row was activated.
    Select(u32),
}

/// Per-event context threaded through every `handle_event` call.
///
/// Its only channel is the repaint request: a screen sets it while handling
/// an event, and the driving loop reads it after the call returns.
pub struct EventCtx {
    pub paint_requested: bool,
}

impl EventCtx {
    pub fn new() -> (c: EventCtx)
        ensures
            !c.paint_requested,
    {
        EventCtx { paint_requested: false }
    }

    /// Ask the driving loop for a repaint once this event is handled.
    pub fn request_paint(&mut self)
        ensures
            final(self).paint_requested,
    {
        self.paint_requested = true;
    }

    pub fn paint_requested(&self) -> (b: bool)
        ensures
            b == self.paint_requested,
    {
        self.paint_requested
    }
}

} // verus!
