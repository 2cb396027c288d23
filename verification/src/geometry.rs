use vstd::prelude::*;

verus! {

/// An axis-aligned rectangle on the display, given by its two corners.
/// `(x0, y0)` is the top-left corner, `(x1, y1)` the bottom-right one.
#[derive(Clone, Copy, PartialEq, Eq, Structural, Debug)]
pub struct Rect {
    pub x0: i16,
    pub y0: i16,
    pub x1: i16,
    pub y1: i16,
}

impl Rect {
    /// A rectangle is well formed when its corners are ordered.
    pub open spec fn wf(self) -> bool {
        self.x0 <= self.x1 && self.y0 <= self.y1
    }

    pub open spec fn width(self) -> int {
        self.x1 - self.x0
    }

    pub open spec fn height(self) -> int {
        self.y1 - self.y0
    }

    /// The pair `(top strip of height h, remainder)`.
    pub open spec fn spec_split_top(self, h: i16) -> (Rect, Rect) {
        (
            Rect { x0: self.x0, y0: self.y0, x1: self.x1, y1: (self.y0 + h) as i16 },
            Rect { x0: self.x0, y0: (self.y0 + h) as i16, x1: self.x1, y1: self.y1 },
        )
    }

    /// The pair `(remainder, bottom strip of height h)`.
    pub open spec fn spec_split_bottom(self, h: i16) -> (Rect, Rect) {
        (
            Rect { x0: self.x0, y0: self.y0, x1: self.x1, y1: (self.y1 - h) as i16 },
            Rect { x0: self.x0, y0: (self.y1 - h) as i16, x1: self.x1, y1: self.y1 },
        )
    }

    /// The empty rectangle screens start from before they are placed.
    pub open spec fn spec_zero() -> Rect {
        Rect { x0: 0, y0: 0, x1: 0, y1: 0 }
    }

    pub fn zero() -> (r: Rect)
        ensures
            r == Rect::spec_zero(),
    {
        Rect { x0: 0, y0: 0, x1: 0, y1: 0 }
    }

    pub fn new(x0: i16, y0: i16, x1: i16, y1: i16) -> (r: Rect)
        ensures
            r == (Rect { x0, y0, x1, y1 }),
    {
        Rect { x0, y0, x1, y1 }
    }

    /// Split off a strip of height `h` at the top.
    pub fn split_top(self, h: i16) -> (r: (Rect, Rect))
        requires
            self.wf(),
            0 <= h,
            self.y0 + h <= self.y1,
        ensures
            r == self.spec_split_top(h),
            r.0.wf(),
            r.1.wf(),
    {
        let mid: i16 = self.y0 + h;
        (
            Rect { x0: self.x0, y0: self.y0, x1: self.x1, y1: mid },
            Rect { x0: self.x0, y0: mid, x1: self.x1, y1: self.y1 },
        )
    }

    /// Split off a strip of height `h` at the bottom.
    pub fn split_bottom(self, h: i16) -> (r: (Rect, Rect))
        requires
            self.wf(),
            0 <= h,
            self.y0 + h <= self.y1,
        ensures
            r == self.spec_split_bottom(h),
            r.0.wf(),
            r.1.wf(),
    {
        let mid: i16 = self.y1 - h;
        (
            Rect { x0: self.x0, y0: self.y0, x1: self.x1, y1: mid },
            Rect { x0: self.x0, y0: mid, x1: self.x1, y1: self.y1 },
        )
    }
}

} // verus!
