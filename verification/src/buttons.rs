use vstd::prelude::*;

use crate::event::{ButtonPos, Event};
use crate::geometry::Rect;

verus! {

/// The text shown on each of the three buttons; `None` leaves a button blank.
#[derive(PartialEq, Debug)]
pub struct ButtonLayout {
    pub left: Option<String>,
    pub middle: Option<String>,
    pub right: Option<String>,
}

impl ButtonLayout {
    pub fn new(left: Option<String>, middle: Option<String>, right: Option<String>) -> (l:
        ButtonLayout)
        ensures
            l == (ButtonLayout { left, middle, right }),
    {
        ButtonLayout { left, middle, right }
    }
}

impl Clone for ButtonLayout {
    fn clone(&self) -> (r: Self)
        ensures
            r == *self,
    {
        ButtonLayout {
            left: clone_label(&self.left),
            middle: clone_label(&self.middle),
            right: clone_label(&self.right),
        }
    }
}

fn clone_label(l: &Option<String>) -> (r: Option<String>)
    ensures
        r == *l,
{
    match l {
        Some(s) => Some(s.clone()),
        None => None,
    }
}

/// What the button controller reports back to its owning screen.
#[derive(Clone, Copy, PartialEq, Eq, Structural, Debug)]
pub enum ButtonControllerMsg {
    Triggered(ButtonPos),
}

/// Maps physical-button transitions into canonical `Triggered` messages and
/// owns the current button labels.
///
/// Debouncing and the click / long-press distinction live outside this core:
/// by the time an [`Event::Button`] reaches the controller it already stands
/// for one completed button activation.
pub struct ButtonController {
    pub layout: ButtonLayout,
    pub area: Rect,
}

impl ButtonController {
    pub fn new(layout: ButtonLayout) -> (c: ButtonController)
        ensures
            c.layout == layout,
            c.area == Rect::spec_zero(),
    {
        ButtonController { layout, area: Rect::zero() }
    }

    /// Replace the button labels.
    pub fn set(&mut self, layout: ButtonLayout)
        ensures
            final(self).layout == layout,
            final(self).area == old(self).area,
    {
        self.layout = layout;
    }

    /// Remember the strip of the display the buttons occupy.
    pub fn place(&mut self, area: Rect)
        ensures
            final(self).area == area,
            final(self).layout == old(self).layout,
    {
        self.area = area;
    }

    /// The message an event produces, as a pure function of the event.
    pub open spec fn spec_event(e: Event) -> Option<ButtonControllerMsg> {
        match e {
            Event::Button(pos) => Some(ButtonControllerMsg::Triggered(pos)),
            _ => None,
        }
    }

    /// Translate one event; the controller's own state is untouched.
    pub fn event(&mut self, e: Event) -> (m: Option<ButtonControllerMsg>)
        ensures
            *final(self) == *old(self),
            m == Self::spec_event(e),
    {
        match e {
            Event::Button(pos) => Some(ButtonControllerMsg::Triggered(pos)),
            _ => None,
        }
    }
}

} // verus!
