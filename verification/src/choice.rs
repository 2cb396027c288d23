use vstd::prelude::*;

use crate::buttons::{ButtonController, ButtonControllerMsg, ButtonLayout};
use crate::event::{ButtonPos, Event, EventCtx};
use crate::geometry::Rect;
use crate::render::{DrawOp, RenderTarget, Slot, Tracer};
use crate::screen::{Screen, SwipeConfig};

verus! {

/// Height of the strip the three button legends occupy.
pub const BUTTON_HEIGHT: i16 = 18;

/// One selectable item: the text painted in the sliding window and the
/// button legends to show while it is the current item.
#[derive(PartialEq, Debug)]
pub struct Choice {
    pub text: String,
    pub btn_layout: ButtonLayout,
}

impl Choice {
    pub fn new(text: &str, btn_layout: ButtonLayout) -> (c: Choice)
        ensures
            c.text@ == text@,
            c.btn_layout == btn_layout,
    {
        Choice { text: String::from_str(text), btn_layout }
    }
}

/// Relies on heapless::Vec, the fixed-capacity vector the choice items
/// live in; the embedding device has no allocator for an unbounded one.
#[verifier::external_type_specification]
#[verifier::external_body]
#[verifier::reject_recursive_types(T)]
pub struct ExHeaplessVec<T, const N: usize>(heapless::Vec<T, N>);

/// The choices a fixed-capacity vector holds, in push order.
pub uninterp spec fn choices_of(v: heapless::Vec<Choice, 16>) -> Seq<Choice>;

/// Relies on heapless::Vec::new: it constructs an empty vector.
#[verifier::external_body]
fn choices_new() -> (v: heapless::Vec<Choice, 16>)
    ensures
        choices_of(v) == Seq::<Choice>::empty(),
{
    heapless::Vec::new()
}

/// Relies on heapless::Vec::push: it appends the item when the vector holds
/// fewer items than its capacity, and otherwise hands the item back and
/// leaves the vector as it was.
#[verifier::external_body]
fn choices_push(v: &mut heapless::Vec<Choice, 16>, c: Choice) -> (r: Result<(), Choice>)
    ensures
        choices_of(*old(v)).len() < 16 ==> ({
            &&& r == Ok::<(), Choice>(())
            &&& choices_of(*final(v)) == choices_of(*old(v)).push(c)
        }),
        choices_of(*old(v)).len() >= 16 ==> ({
            &&& r == Err::<(), Choice>(c)
            &&& *final(v) == *old(v)
        }),
{
    v.push(c)
}

/// Relies on the slice view of heapless::Vec: its length is the number of
/// items pushed so far, which never exceeds the capacity.
#[verifier::external_body]
fn choices_len(v: &heapless::Vec<Choice, 16>) -> (n: usize)
    ensures
        n == choices_of(*v).len(),
        n <= 16,
{
    v.as_slice().len()
}

/// Relies on the slice view of heapless::Vec: indexing below the length
/// yields the item pushed at that position.
#[verifier::external_body]
fn choices_at(v: &heapless::Vec<Choice, 16>, i: usize) -> (c: &Choice)
    requires
        i < choices_of(*v).len(),
    ensures
        *c == choices_of(*v)[i as int],
{
    &v.as_slice()[i]
}

/// The navigator's item sequence: an ordered, fixed-capacity list of
/// choices.  Its view is the sequence of items in push order.
pub struct ChoiceList {
    inner: heapless::Vec<Choice, 16>,
}

impl View for ChoiceList {
    type V = Seq<Choice>;

    closed spec fn view(&self) -> Seq<Choice> {
        choices_of(self.inner)
    }
}

impl ChoiceList {
    pub fn new() -> (l: ChoiceList)
        ensures
            l@ == Seq::<Choice>::empty(),
    {
        ChoiceList { inner: choices_new() }
    }

    /// The fixed upper bound on the number of items.
    pub fn capacity(&self) -> (n: usize)
        ensures
            n == 16,
    {
        16
    }

    /// Append one item.  Appending to a full list is the capacity error:
    /// the item comes back and the list is left exactly as it was.
    pub fn push(&mut self, c: Choice) -> (r: Result<(), Choice>)
        ensures
            old(self)@.len() < 16 ==> ({
                &&& r == Ok::<(), Choice>(())
                &&& final(self)@ == old(self)@.push(c)
            }),
            old(self)@.len() >= 16 ==> ({
                &&& r == Err::<(), Choice>(c)
                &&& final(self)@ == old(self)@
            }),
    {
        choices_push(&mut self.inner, c)
    }

    pub fn len(&self) -> (n: usize)
        ensures
            n == self@.len(),
            n <= 16,
    {
        choices_len(&self.inner)
    }

    pub fn is_empty(&self) -> (b: bool)
        ensures
            b == (self@.len() == 0),
    {
        self.len() == 0
    }

    pub fn get(&self, i: usize) -> (c: &Choice)
        requires
            i < self@.len(),
        ensures
            *c == self@[i as int],
    {
        choices_at(&self.inner, i)
    }
}

/// The area behind the choices; cleared and repainted as the window moves.
#[derive(Clone, Copy, PartialEq, Eq, Structural, Debug)]
pub struct Pad {
    pub area: Rect,
}

impl Pad {
    pub fn new() -> (p: Pad)
        ensures
            p.area == Rect::spec_zero(),
    {
        Pad { area: Rect::zero() }
    }

    pub fn place(&mut self, area: Rect)
        ensures
            final(self).area == area,
    {
        self.area = area;
    }
}

/// What the choice navigator reports to the screen that embeds it.
#[derive(Clone, Copy, PartialEq, Eq, Structural, Debug)]
pub enum ChoicePageMsg {
    /// The user confirmed the item at this index.
    Choice(u8),
    /// Navigation was requested past the first item.
    LeftMost,
    /// Navigation was requested past the last item.
    RightMost,
}

/// A paginated single-selection engine over a non-empty list of choices,
/// driven by the three-button vocabulary.
///
/// At all times `page_counter` addresses one item of `choices`; the render
/// shows that item in the center slot with its neighbours, when present, in
/// the left and right slots.
pub struct ChoicePage {
    pub choices: ChoiceList,
    pub pad: Pad,
    pub buttons: ButtonController,
    pub page_counter: u8,
}

impl ChoicePage {
    /// Build a navigator over a non-empty item list; the selection starts
    /// at the first item, whose button legends are taken over.
    pub fn new(choices: ChoiceList) -> (p: ChoicePage)
        requires
            choices@.len() >= 1,
        ensures
            p.wf(),
            p.choices@ == choices@,
            p.page_counter == 0,
            p.buttons.layout == choices@[0].btn_layout,
            p.buttons.area == Rect::spec_zero(),
            p.pad.area == Rect::spec_zero(),
    {
        let initial_btn_layout = choices.get(0).btn_layout.clone();
        ChoicePage {
            choices,
            pad: Pad::new(),
            buttons: ButtonController::new(initial_btn_layout),
            page_counter: 0,
        }
    }

    /// The state with the selection moved to `p` and the button legends
    /// re-derived from the now-current item.
    pub open spec fn with_page(self, p: u8) -> Self {
        ChoicePage {
            page_counter: p,
            buttons: ButtonController {
                layout: self.choices@[p as int].btn_layout,
                area: self.buttons.area,
            },
            ..self
        }
    }

    /// Replace the items so the same instance serves the next choice
    /// category.  With `reset_page_counter` the selection returns to the
    /// first item; without it the selection is kept, clamped defensively to
    /// the new last item if the new list is shorter.  The button legends are
    /// re-derived and a repaint is requested either way.
    pub fn reset(&mut self, ctx: &mut EventCtx, new_choices: ChoiceList, reset_page_counter: bool)
        requires
            old(self).wf(),
            new_choices@.len() >= 1,
        ensures
            final(self).wf(),
            final(self).choices@ == new_choices@,
            reset_page_counter ==> final(self).page_counter == 0,
            !reset_page_counter ==> ({
                if (old(self).page_counter as int) < new_choices@.len() {
                    final(self).page_counter == old(self).page_counter
                } else {
                    final(self).page_counter as int == new_choices@.len() - 1
                }
            }),
            final(self).buttons.layout == new_choices@[final(self).page_counter as int].btn_layout,
            final(self).buttons.area == old(self).buttons.area,
            final(self).pad == old(self).pad,
            final(ctx).paint_requested,
    {
        self.choices = new_choices;
        if reset_page_counter {
            self.page_counter = 0;
        } else {
            let len = self.choices.len();
            if self.page_counter as usize >= len {
                self.page_counter = (len - 1) as u8;
            }
        }
        self.update(ctx);
    }

    /// Navigate straight to the given page index; the caller owns its
    /// validity.
    pub fn set_page_counter(&mut self, ctx: &mut EventCtx, page_counter: u8)
        requires
            old(self).wf(),
            (page_counter as int) < old(self).choices@.len(),
        ensures
            final(self).wf(),
            *final(self) == old(self).with_page(page_counter),
            final(ctx).paint_requested,
    {
        self.page_counter = page_counter;
        self.update(ctx);
    }

    /// Re-derive the button legends from the current item, clear the pad
    /// and request a repaint.
    fn update(&mut self, ctx: &mut EventCtx)
        requires
            old(self).wf(),
        ensures
            final(self).wf(),
            *final(self) == old(self).with_page(old(self).page_counter),
            final(ctx).paint_requested,
    {
        self.set_buttons();
        self.clear(ctx);
    }

    /// Clear the pad and request a repaint.
    fn clear(&mut self, ctx: &mut EventCtx)
        ensures
            *final(self) == *old(self),
            final(ctx).paint_requested,
    {
        ctx.request_paint();
    }

    /// Give the button controller the current item's legends.
    fn set_buttons(&mut self)
        requires
            old(self).wf(),
        ensures
            final(self).wf(),
            *final(self) == old(self).with_page(old(self).page_counter),
    {
        let btn_layout = self.choices.get(self.page_counter as usize).btn_layout.clone();
        self.buttons.set(btn_layout);
    }

    pub fn last_page_index(&self) -> (n: u8)
        requires
            self.wf(),
        ensures
            n as int == self.choices@.len() - 1,
            self.choices@.len() <= 16,
    {
        (self.choices.len() - 1) as u8
    }

    pub fn has_previous_choice(&self) -> (b: bool)
        ensures
            b == (self.page_counter > 0),
    {
        self.page_counter > 0
    }

    pub fn has_next_choice(&self) -> (b: bool)
        requires
            self.wf(),
        ensures
            b == ((self.page_counter as int) < self.choices@.len() - 1),
            self.choices@.len() <= 16,
    {
        self.page_counter < self.last_page_index()
    }

    pub fn current_choice(&self) -> (c: &Choice)
        requires
            self.wf(),
        ensures
            *c == self.choices@[self.page_counter as int],
    {
        self.choices.get(self.page_counter as usize)
    }

    pub fn page_counter(&self) -> (n: u8)
        ensures
            n == self.page_counter,
    {
        self.page_counter
    }

    fn decrease_page_counter(&mut self)
        requires
            old(self).page_counter > 0,
        ensures
            *final(self) == (ChoicePage {
                page_counter: (old(self).page_counter - 1) as u8,
                ..*old(self)
            }),
    {
        self.page_counter = self.page_counter - 1;
    }

    fn increase_page_counter(&mut self)
        requires
            old(self).page_counter < u8::MAX,
        ensures
            *final(self) == (ChoicePage {
                page_counter: (old(self).page_counter + 1) as u8,
                ..*old(self)
            }),
    {
        self.page_counter = self.page_counter + 1;
    }
}

impl Screen for ChoicePage {
    type Msg = ChoicePageMsg;

    /// The navigator's invariant: the list is never empty and the selection
    /// always addresses one of its items.
    open spec fn wf(&self) -> bool {
        &&& 1 <= self.choices@.len()
        &&& (self.page_counter as int) < self.choices@.len()
    }

    open spec fn place_pre(&self, bounds: Rect) -> bool {
        &&& bounds.wf()
        &&& bounds.y0 + BUTTON_HEIGHT <= bounds.y1
    }

    open spec fn place_spec(&self, bounds: Rect) -> Self {
        let (content_area, button_area) = bounds.spec_split_bottom(BUTTON_HEIGHT);
        ChoicePage {
            pad: Pad { area: content_area },
            buttons: ButtonController { layout: self.buttons.layout, area: button_area },
            ..*self
        }
    }

    open spec fn event_spec(&self, e: Event) -> (Self, Option<ChoicePageMsg>) {
        match ButtonController::spec_event(e) {
            Some(ButtonControllerMsg::Triggered(pos)) => match pos {
                ButtonPos::Left => if self.page_counter > 0 {
                    (self.with_page((self.page_counter - 1) as u8), None)
                } else {
                    (*self, Some(ChoicePageMsg::LeftMost))
                },
                ButtonPos::Right => if (self.page_counter as int) < self.choices@.len() - 1 {
                    (self.with_page((self.page_counter + 1) as u8), None)
                } else {
                    (*self, Some(ChoicePageMsg::RightMost))
                },
                ButtonPos::Middle => (*self, Some(ChoicePageMsg::Choice(self.page_counter))),
            },
            None => (*self, None),
        }
    }

    open spec fn event_paints(&self, e: Event) -> bool {
        ButtonController::spec_event(e) is Some
    }

    open spec fn render_ops(&self) -> Seq<DrawOp> {
        let base = seq![
            DrawOp::Fill { area: self.pad.area },
            DrawOp::ButtonBar { area: self.buttons.area, layout: self.buttons.layout },
            DrawOp::Text { slot: Slot::Center, text: self.choices@[self.page_counter as int].text },
        ];
        let with_prev = if self.page_counter > 0 {
            base.push(
                DrawOp::Text {
                    slot: Slot::Left,
                    text: self.choices@[self.page_counter - 1].text,
                },
            )
        } else {
            base
        };
        if (self.page_counter as int) < self.choices@.len() - 1 {
            with_prev.push(
                DrawOp::Text {
                    slot: Slot::Right,
                    text: self.choices@[self.page_counter + 1].text,
                },
            )
        } else {
            with_prev
        }
    }

    open spec fn trace_name(&self) -> Seq<char> {
        "ChoicePage"@
    }

    open spec fn swipe_cfg(&self) -> SwipeConfig {
        SwipeConfig { up: false, down: false, left: false, right: false }
    }

    open spec fn page_count_spec(&self) -> usize {
        1
    }

    proof fn lemma_place_spec(&self, bounds: Rect) {
    }

    proof fn lemma_event_spec(&self, e: Event) {
    }

    fn place(&mut self, bounds: Rect) -> (r: Rect) {
        let (content_area, button_area) = bounds.split_bottom(BUTTON_HEIGHT);
        self.pad.place(content_area);
        self.buttons.place(button_area);
        bounds
    }

    fn handle_event(&mut self, ctx: &mut EventCtx, e: Event) -> (m: Option<ChoicePageMsg>) {
        let button_event = self.buttons.event(e);
        if let Some(ButtonControllerMsg::Triggered(pos)) = button_event {
            match pos {
                ButtonPos::Left => {
                    if self.has_previous_choice() {
                        // Clicked BACK: move the selection one item left.
                        self.decrease_page_counter();
                        self.update(ctx);
                        None
                    } else {
                        // The leftmost item was already selected.
                        self.clear(ctx);
                        Some(ChoicePageMsg::LeftMost)
                    }
                },
                ButtonPos::Right => {
                    if self.has_next_choice() {
                        // Clicked NEXT: move the selection one item right.
                        self.increase_page_counter();
                        self.update(ctx);
                        None
                    } else {
                        // The rightmost item was already selected.
                        self.clear(ctx);
                        Some(ChoicePageMsg::RightMost)
                    }
                },
                ButtonPos::Middle => {
                    // Clicked SELECT: report the current index.
                    self.clear(ctx);
                    Some(ChoicePageMsg::Choice(self.page_counter))
                },
            }
        } else {
            None
        }
    }

    fn render(&self, target: &mut RenderTarget) {
        target.draw(DrawOp::Fill { area: self.pad.area });
        target.draw(
            DrawOp::ButtonBar { area: self.buttons.area, layout: self.buttons.layout.clone() },
        );
        target.draw(
            DrawOp::Text { slot: Slot::Center, text: self.current_choice().text.clone() },
        );
        if self.has_previous_choice() {
            let text = self.choices.get(self.page_counter as usize - 1).text.clone();
            target.draw(DrawOp::Text { slot: Slot::Left, text });
        }
        if self.has_next_choice() {
            let text = self.choices.get(self.page_counter as usize + 1).text.clone();
            target.draw(DrawOp::Text { slot: Slot::Right, text });
        }
        proof {
            assert(target@ =~= old(target)@ + self.render_ops());
        }
    }

    fn trace(&self, t: &mut Tracer) {
        t.record("ChoicePage");
    }

    fn get_swipe_config(&self) -> (c: SwipeConfig) {
        SwipeConfig::new()
    }

    fn get_internal_page_count(&mut self) -> (n: usize) {
        1
    }
}

/// Whether `op` paints a choice text into slot `s`.
pub open spec fn is_text_in_slot(op: DrawOp, s: Slot) -> bool {
    op matches DrawOp::Text { slot, text } && slot == s
}

/// The set of window slots a sequence of draw primitives paints text into.
pub open spec fn slots_of(ops: Seq<DrawOp>) -> Set<Slot> {
    Set::new(|s: Slot| exists|i: int| 0 <= i < ops.len() && is_text_in_slot(ops[i], s))
}

/// Law (sliding window): one render paints exactly the center slot for a
/// single-item list; center and right at the first item of a longer list;
/// left and center at its last item; and all three slots in between.
pub proof fn lemma_rendered_slots(p: &ChoicePage)
    requires
        p.wf(),
    ensures
        p.choices@.len() == 1 ==> slots_of(p.render_ops()) == set![Slot::Center],
        p.choices@.len() > 1 && p.page_counter == 0 ==> slots_of(p.render_ops()) == set![
            Slot::Center,
            Slot::Right,
        ],
        p.choices@.len() > 1 && p.page_counter as int == p.choices@.len() - 1 ==> slots_of(
            p.render_ops(),
        ) == set![Slot::Left, Slot::Center],
        0 < p.page_counter && (p.page_counter as int) < p.choices@.len() - 1 ==> slots_of(
            p.render_ops(),
        ) == set![
            Slot::Left,
            Slot::Center,
            Slot::Right,
        ],
{
    let ops = p.render_ops();
    assert(is_text_in_slot(ops[2], Slot::Center));
    if p.choices@.len() == 1 {
        assert(slots_of(ops) =~= set![Slot::Center]);
    } else if p.page_counter == 0 {
        assert(is_text_in_slot(ops[3], Slot::Right));
        assert(slots_of(ops) =~= set![Slot::Center, Slot::Right]);
    } else if p.page_counter as int == p.choices@.len() - 1 {
        assert(is_text_in_slot(ops[3], Slot::Left));
        assert(slots_of(ops) =~= set![Slot::Left, Slot::Center]);
    } else {
        assert(is_text_in_slot(ops[3], Slot::Left));
        assert(is_text_in_slot(ops[4], Slot::Right));
        assert(slots_of(ops) =~= set![Slot::Left, Slot::Center, Slot::Right]);
    }
}

} // verus!
