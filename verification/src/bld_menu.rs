use vstd::prelude::*;

use crate::event::{Event, EventCtx};
use crate::geometry::Rect;
use crate::render::{DrawOp, RenderTarget, Tracer};
use crate::screen::{Screen, SwipeConfig};

verus! {

/// Height of the header strip at the top of the bootloader screens.
pub const HEADER_HEIGHT: i16 = 40;

/// A labelled menu row; `danger` rows are drawn in the warning style.
#[derive(PartialEq, Debug)]
pub struct Button {
    pub text: String,
    pub danger: bool,
}

impl Button {
    pub fn with_text(text: &str) -> (b: Button)
        ensures
            b.text@ == text@,
            !b.danger,
    {
        Button { text: String::from_str(text), danger: false }
    }

    /// Switch the row to the warning style.
    pub fn danger(self) -> (b: Button)
        ensures
            b.text == self.text,
            b.danger,
    {
        Button { text: self.text, danger: true }
    }
}

/// What the menu reports when a row is activated.
#[derive(Clone, Copy, PartialEq, Eq, Structural, Debug)]
pub enum BldMenuSelectionMsg {
    Selected(u32),
}

/// A vertical list of activatable rows.
pub struct BldMenu {
    pub buttons: Vec<Button>,
    pub area: Rect,
}

impl BldMenu {
    pub fn empty() -> (m: BldMenu)
        ensures
            m.buttons@ == Seq::<Button>::empty(),
            m.area == Rect::spec_zero(),
    {
        BldMenu { buttons: Vec::new(), area: Rect::zero() }
    }

    /// Append one row; rows keep the order they were added in.
    pub fn item(self, button: Button) -> (m: BldMenu)
        ensures
            m.buttons@ == self.buttons@.push(button),
            m.area == self.area,
    {
        let mut buttons = self.buttons;
        buttons.push(button);
        BldMenu { buttons, area: self.area }
    }

    pub fn place(&mut self, area: Rect)
        ensures
            final(self).area == area,
            final(self).buttons == old(self).buttons,
    {
        self.area = area;
    }

    /// The message one event produces: activating row `n` selects it.
    pub open spec fn spec_event(&self, e: Event) -> Option<BldMenuSelectionMsg> {
        match e {
            Event::Select(n) => if (n as int) < self.buttons@.len() {
                Some(BldMenuSelectionMsg::Selected(n))
            } else {
                None
            },
            _ => None,
        }
    }

    pub fn event(&mut self, e: Event) -> (m: Option<BldMenuSelectionMsg>)
        ensures
            *final(self) == *old(self),
            m == old(self).spec_event(e),
    {
        match e {
            Event::Select(n) => {
                if (n as usize) < self.buttons.len() {
                    Some(BldMenuSelectionMsg::Selected(n))
                } else {
                    None
                }
            },
            _ => None,
        }
    }

    /// One draw primitive per row, in row order.
    pub open spec fn spec_render_ops(&self) -> Seq<DrawOp> {
        Seq::new(
            self.buttons@.len(),
            |i: int|
                DrawOp::MenuItem {
                    area: self.area,
                    index: i as usize,
                    label: self.buttons@[i].text,
                    danger: self.buttons@[i].danger,
                },
        )
    }

    pub fn render(&self, target: &mut RenderTarget)
        ensures
            final(target)@ == old(target)@ + self.spec_render_ops(),
    {
        let n = self.buttons.len();
        let mut i: usize = 0;
        while i < n
            invariant
                i <= n,
                n == self.buttons@.len(),
                target@ == old(target)@ + self.spec_render_ops().take(i as int),
            decreases n - i,
        {
            let b = &self.buttons[i];
            target.draw(
                DrawOp::MenuItem {
                    area: self.area,
                    index: i,
                    label: b.text.clone(),
                    danger: b.danger,
                },
            );
            i = i + 1;
            proof {
                assert(target@ =~= old(target)@ + self.spec_render_ops().take(i as int));
            }
        }
        proof {
            assert(self.spec_render_ops().take(n as int) =~= self.spec_render_ops());
        }
    }
}

/// What the header reports when its close control is activated.
#[derive(Clone, Copy, PartialEq, Eq, Structural, Debug)]
pub enum BldHeaderMsg {
    Cancelled,
}

/// The title strip at the top of a bootloader screen.
pub struct BldHeader {
    pub title: String,
    pub close_button: bool,
    pub area: Rect,
}

impl BldHeader {
    pub fn new(title: &str) -> (h: BldHeader)
        ensures
            h.title@ == title@,
            !h.close_button,
            h.area == Rect::spec_zero(),
    {
        BldHeader { title: String::from_str(title), close_button: false, area: Rect::zero() }
    }

    pub fn with_close_button(self) -> (h: BldHeader)
        ensures
            h.title == self.title,
            h.close_button,
            h.area == self.area,
    {
        BldHeader { title: self.title, close_button: true, area: self.area }
    }

    pub fn place(&mut self, area: Rect)
        ensures
            *final(self) == (BldHeader { area, ..*old(self) }),
    {
        self.area = area;
    }

    /// The message one event produces: `Cancel` reaches the close control
    /// only when the header has one.
    pub open spec fn spec_event(&self, e: Event) -> Option<BldHeaderMsg> {
        if e is Cancel && self.close_button {
            Some(BldHeaderMsg::Cancelled)
        } else {
            None
        }
    }

    pub fn event(&mut self, e: Event) -> (m: Option<BldHeaderMsg>)
        ensures
            *final(self) == *old(self),
            m == old(self).spec_event(e),
    {
        match e {
            Event::Cancel => if self.close_button {
                Some(BldHeaderMsg::Cancelled)
            } else {
                None
            },
            _ => None,
        }
    }

    pub open spec fn spec_render_op(&self) -> DrawOp {
        DrawOp::Header { area: self.area, title: self.title, close_button: self.close_button }
    }

    pub fn render(&self, target: &mut RenderTarget)
        ensures
            final(target)@ == old(target)@.push(self.spec_render_op()),
    {
        target.draw(
            DrawOp::Header {
                area: self.area,
                title: self.title.clone(),
                close_button: self.close_button,
            },
        );
    }
}

/// The decorative border drawn around the whole display.
#[derive(Clone, Copy, PartialEq, Eq, Structural, Debug)]
pub struct ScreenBorder;

impl ScreenBorder {
    pub fn new() -> (b: ScreenBorder)
        ensures
            b == ScreenBorder,
    {
        ScreenBorder
    }

    pub fn render(&self, target: &mut RenderTarget)
        ensures
            final(target)@ == old(target)@.push(DrawOp::Border),
    {
        target.draw(DrawOp::Border);
    }
}

/// What the bootloader menu screen reports to the flow that owns it.
#[derive(Clone, Copy, PartialEq, Eq, Structural, Debug)]
pub enum BldMenuMsg {
    Close,
    Reboot,
    FactoryReset,
    Bluetooth,
    PowerOff,
}

/// The bootloader's main menu: a header with a close control above four
/// fixed rows.
pub struct BldMenuScreen {
    pub header: BldHeader,
    pub menu: BldMenu,
    pub screen_border: Option<ScreenBorder>,
}

impl BldMenuScreen {
    pub fn new() -> (s: BldMenuScreen)
        ensures
            s.header.title@ == "Bootloader"@,
            s.header.close_button,
            s.header.area == Rect::spec_zero(),
            s.menu.area == Rect::spec_zero(),
            s.menu.buttons@.len() == 4,
            s.menu.buttons@[0].text@ == "Pair new device"@ && !s.menu.buttons@[0].danger,
            s.menu.buttons@[1].text@ == "Reboot"@ && !s.menu.buttons@[1].danger,
            s.menu.buttons@[2].text@ == "Power off"@ && !s.menu.buttons@[2].danger,
            s.menu.buttons@[3].text@ == "Factory reset"@ && s.menu.buttons@[3].danger,
            s.screen_border is None,
    {
        let bluetooth = Button::with_text("Pair new device");
        let reboot = Button::with_text("Reboot");
        let turnoff = Button::with_text("Power off");
        let reset = Button::with_text("Factory reset").danger();

        let menu = BldMenu::empty().item(bluetooth).item(reboot).item(turnoff).item(reset);
        BldMenuScreen {
            header: BldHeader::new("Bootloader").with_close_button(),
            menu,
            screen_border: None,
        }
    }

    pub fn with_screen_border(self, screen_border: ScreenBorder) -> (s: BldMenuScreen)
        ensures
            s.header == self.header,
            s.menu == self.menu,
            s.screen_border == Some(screen_border),
    {
        BldMenuScreen { screen_border: Some(screen_border), ..self }
    }
}

impl Screen for BldMenuScreen {
    type Msg = BldMenuMsg;

    open spec fn wf(&self) -> bool {
        true
    }

    open spec fn place_pre(&self, bounds: Rect) -> bool {
        &&& bounds.wf()
        &&& bounds.y0 + HEADER_HEIGHT <= bounds.y1
    }

    open spec fn place_spec(&self, bounds: Rect) -> Self {
        let (header_area, menu_area) = bounds.spec_split_top(HEADER_HEIGHT);
        BldMenuScreen {
            header: BldHeader { area: header_area, ..self.header },
            menu: BldMenu { buttons: self.menu.buttons, area: menu_area },
            screen_border: self.screen_border,
        }
    }

    open spec fn event_spec(&self, e: Event) -> (Self, Option<BldMenuMsg>) {
        let msg = if self.header.spec_event(e) == Some(BldHeaderMsg::Cancelled) {
            Some(BldMenuMsg::Close)
        } else {
            match self.menu.spec_event(e) {
                Some(BldMenuSelectionMsg::Selected(n)) => match n {
                    0u32 => Some(BldMenuMsg::Bluetooth),
                    1u32 => Some(BldMenuMsg::Reboot),
                    2u32 => Some(BldMenuMsg::PowerOff),
                    3u32 => Some(BldMenuMsg::FactoryReset),
                    _ => None,
                },
                None => None,
            }
        };
        (*self, msg)
    }

    open spec fn event_paints(&self, e: Event) -> bool {
        false
    }

    open spec fn render_ops(&self) -> Seq<DrawOp> {
        let base = seq![self.header.spec_render_op()] + self.menu.spec_render_ops();
        if self.screen_border is Some {
            base.push(DrawOp::Border)
        } else {
            base
        }
    }

    open spec fn trace_name(&self) -> Seq<char> {
        "BldMenuScreen"@
    }

    open spec fn swipe_cfg(&self) -> SwipeConfig {
        SwipeConfig { up: false, down: false, left: false, right: false }
    }

    open spec fn page_count_spec(&self) -> usize {
        1
    }

    proof fn lemma_place_spec(&self, bounds: Rect) {
    }

    proof fn lemma_event_spec(&self, e: Event) {
    }

    fn place(&mut self, bounds: Rect) -> (r: Rect) {
        let (header_area, menu_area) = bounds.split_top(HEADER_HEIGHT);
        self.header.place(header_area);
        self.menu.place(menu_area);
        bounds
    }

    fn handle_event(&mut self, ctx: &mut EventCtx, e: Event) -> (m: Option<BldMenuMsg>) {
        if let Some(BldHeaderMsg::Cancelled) = self.header.event(e) {
            return Some(BldMenuMsg::Close);
        }
        if let Some(BldMenuSelectionMsg::Selected(n)) = self.menu.event(e) {
            if n == 0 {
                return Some(BldMenuMsg::Bluetooth);
            }
            if n == 1 {
                return Some(BldMenuMsg::Reboot);
            }
            if n == 2 {
                return Some(BldMenuMsg::PowerOff);
            }
            if n == 3 {
                return Some(BldMenuMsg::FactoryReset);
            }
        }
        None
    }

    fn render(&self, target: &mut RenderTarget) {
        self.header.render(target);
        self.menu.render(target);
        if let Some(screen_border) = &self.screen_border {
            screen_border.render(target);
            proof {
                assert(target@ =~= old(target)@ + self.render_ops());
            }
        } else {
            proof {
                assert(target@ =~= old(target)@ + self.render_ops());
            }
        }
    }

    fn trace(&self, t: &mut Tracer) {
        t.record("BldMenuScreen");
    }

    fn get_swipe_config(&self) -> (c: SwipeConfig) {
        SwipeConfig::new()
    }

    fn get_internal_page_count(&mut self) -> (n: usize) {
        1
    }
}

} // verus!
