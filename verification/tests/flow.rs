use flow_ui::buttons::ButtonLayout;
use flow_ui::choice::{Choice, ChoiceList, ChoicePage, ChoicePageMsg};
use flow_ui::event::{ButtonPos, Event, EventCtx};
use flow_ui::geometry::Rect;
use flow_ui::render::{DrawOp, RenderTarget, Tracer};
use flow_ui::screen::{Screen, SwipeConfig};
use flow_ui::store::{flow_store, FlowComponent2, FlowEmpty, FlowStore};

type Chain3 = FlowComponent2<
    ChoicePage,
    FlowComponent2<ChoicePage, FlowComponent2<ChoicePage, FlowEmpty>>,
>;

fn page(texts: &[&str]) -> ChoicePage {
    let mut l = ChoiceList::new();
    for t in texts {
        assert!(l.push(Choice::new(t, ButtonLayout::new(None, None, None))).is_ok());
    }
    ChoicePage::new(l)
}

/// Three navigators with distinct item lists, appended in order.
fn chain() -> Chain3 {
    let s = flow_store();
    let s = s.add(page(&["a0", "a1", "a2"])).unwrap();
    let s = s.add(page(&["b0", "b1", "b2"])).unwrap();
    s.add(page(&["c0", "c1", "c2"])).unwrap()
}

fn selections(s: &Chain3) -> (u8, u8, u8) {
    (
        s.prev.prev.elem.page_counter(),
        s.prev.elem.page_counter(),
        s.elem.page_counter(),
    )
}

#[test]
fn append_order_assigns_stable_indices() {
    let s = chain();
    assert_eq!(s.len(), 3);
    // The entry appended first sits at index 0, the last at index 2.
    assert_eq!(s.prev.prev.elem.current_choice().text, "a0");
    assert_eq!(s.prev.elem.current_choice().text, "b0");
    assert_eq!(s.elem.current_choice().text, "c0");
}

#[test]
fn event_reaches_exactly_the_addressed_entry() {
    let mut s = chain();
    let mut ctx = EventCtx::new();
    s.place(Rect::new(0, 0, 128, 64));

    // A Right press at index 1 moves that navigator alone.
    let m = s.event(1, &mut ctx, Event::Button(ButtonPos::Right));
    assert!(m.is_none());
    assert_eq!(selections(&s), (0, 1, 0));

    // A Middle press at index 2 confirms that navigator's selection.
    let m = s.event(2, &mut ctx, Event::Button(ButtonPos::Middle));
    assert!(matches!(m, Some(ChoicePageMsg::Choice(0))));
    assert_eq!(selections(&s), (0, 1, 0));

    // Index 0 still sits at its first item, so Left is its boundary.
    let m = s.event(0, &mut ctx, Event::Button(ButtonPos::Left));
    assert!(matches!(m, Some(ChoicePageMsg::LeftMost)));
    assert_eq!(selections(&s), (0, 1, 0));
}

#[test]
fn render_reaches_exactly_the_addressed_entry() {
    let mut s = chain();
    let mut ctx = EventCtx::new();
    s.place(Rect::new(0, 0, 128, 64));
    let m = s.event(1, &mut ctx, Event::Button(ButtonPos::Right));
    assert!(m.is_none());

    let mut target = RenderTarget::new();
    s.render(1, &mut target);
    let texts: Vec<&String> = target
        .ops()
        .iter()
        .filter_map(|op| match op {
            DrawOp::Text { text, .. } => Some(text),
            _ => None,
        })
        .collect();
    // Only entry 1's items appear, centered on its moved selection.
    assert_eq!(texts, vec!["b1", "b0", "b2"]);
}

#[test]
fn place_broadcasts_the_same_bounds_to_every_entry() {
    let mut s = chain();
    let bounds = Rect::new(0, 0, 128, 64);
    let r = s.place(bounds);
    assert_eq!(r, bounds);

    // Every entry computed its layout from the same bounds: the content
    // area above the button strip.
    let content = Rect::new(0, 0, 128, 64 - 18);
    for i in 0..3 {
        let mut target = RenderTarget::new();
        s.render(i, &mut target);
        match &target.ops()[0] {
            DrawOp::Fill { area } => assert_eq!(*area, content),
            other => panic!("first primitive should fill the pad, got {:?}", other),
        }
    }
}

#[test]
fn repeated_place_with_same_bounds_renders_identically() {
    let mut s = chain();
    let bounds = Rect::new(0, 0, 128, 64);
    s.place(bounds);
    let mut first = RenderTarget::new();
    s.render(0, &mut first);

    s.place(bounds);
    let mut second = RenderTarget::new();
    s.render(0, &mut second);
    assert_eq!(first.ops(), second.ops());
}

#[test]
fn add_always_succeeds_and_grows_by_one() {
    let s = flow_store();
    let s = s.add(page(&["x"])).unwrap();
    assert_eq!(s.len(), 1);
    let s = s.add(page(&["y"])).unwrap();
    assert_eq!(s.len(), 2);
}

#[test]
fn trace_reaches_exactly_the_addressed_entry() {
    let s = chain();
    let mut tracer = Tracer::new();
    s.trace(1, &mut tracer);
    assert_eq!(tracer.entries(), &vec![String::from("ChoicePage")]);
}

#[test]
fn node_accessors_reach_the_owned_screen() {
    let mut s = chain();
    assert_eq!(s.as_ref().current_choice().text, "c0");

    let mut ctx = EventCtx::new();
    let m = s.as_mut().handle_event(&mut ctx, Event::Button(ButtonPos::Right));
    assert!(m.is_none());
    assert_eq!(selections(&s), (0, 0, 1));
}

#[test]
fn swipe_metadata_of_an_entry() {
    let mut s = chain();
    assert_eq!(s.get_swipe_config(0), SwipeConfig::new());
    assert_eq!(s.get_internal_page_count(2), 1);
}
