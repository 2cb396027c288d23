use flow_ui::buttons::ButtonLayout;
use flow_ui::choice::{Choice, ChoiceList, ChoicePage, ChoicePageMsg};
use flow_ui::event::{ButtonPos, Event, EventCtx};
use flow_ui::render::{DrawOp, RenderTarget, Slot};
use flow_ui::screen::Screen;

fn layout(left: &str, middle: &str, right: &str) -> ButtonLayout {
    ButtonLayout::new(
        Some(String::from(left)),
        Some(String::from(middle)),
        Some(String::from(right)),
    )
}

fn item(text: &str) -> Choice {
    Choice::new(text, layout("<", "SELECT", ">"))
}

fn list(texts: &[&str]) -> ChoiceList {
    let mut l = ChoiceList::new();
    for t in texts {
        assert!(l.push(item(t)).is_ok());
    }
    l
}

fn nav(texts: &[&str]) -> ChoicePage {
    ChoicePage::new(list(texts))
}

fn press(p: &mut ChoicePage, pos: ButtonPos) -> Option<ChoicePageMsg> {
    let mut ctx = EventCtx::new();
    p.handle_event(&mut ctx, Event::Button(pos))
}

fn rendered_slots(p: &ChoicePage) -> Vec<Slot> {
    let mut target = RenderTarget::new();
    p.render(&mut target);
    let mut slots = Vec::new();
    for op in target.ops() {
        if let DrawOp::Text { slot, .. } = op {
            slots.push(*slot);
        }
    }
    slots
}

#[test]
fn boundary_walk_three_items() {
    let mut p = nav(&["A", "B", "C"]);
    assert_eq!(p.page_counter(), 0);

    // At the first item a Left press is the boundary message.
    assert!(matches!(press(&mut p, ButtonPos::Left), Some(ChoicePageMsg::LeftMost)));
    assert_eq!(p.page_counter(), 0);

    // Two Right presses walk to the last item with no message.
    assert!(press(&mut p, ButtonPos::Right).is_none());
    assert!(press(&mut p, ButtonPos::Right).is_none());
    assert_eq!(p.page_counter(), 2);

    // At the last item a Right press is the boundary message.
    assert!(matches!(press(&mut p, ButtonPos::Right), Some(ChoicePageMsg::RightMost)));
    assert_eq!(p.page_counter(), 2);

    // Middle confirms the current index and keeps the selection.
    assert!(matches!(press(&mut p, ButtonPos::Middle), Some(ChoicePageMsg::Choice(2))));
    assert_eq!(p.page_counter(), 2);
}

#[test]
fn single_item_boundaries() {
    let mut p = nav(&["only"]);
    assert!(matches!(press(&mut p, ButtonPos::Left), Some(ChoicePageMsg::LeftMost)));
    assert!(matches!(press(&mut p, ButtonPos::Right), Some(ChoicePageMsg::RightMost)));
    assert!(matches!(press(&mut p, ButtonPos::Middle), Some(ChoicePageMsg::Choice(0))));
    assert_eq!(p.page_counter(), 0);
}

#[test]
fn reset_with_position_reset_returns_to_first() {
    let mut p = nav(&["A", "B", "C"]);
    assert!(press(&mut p, ButtonPos::Right).is_none());
    assert!(press(&mut p, ButtonPos::Right).is_none());
    assert_eq!(p.page_counter(), 2);

    let mut ctx = EventCtx::new();
    p.reset(&mut ctx, list(&["D", "E"]), true);
    assert_eq!(p.page_counter(), 0);
    assert!(ctx.paint_requested());
    assert_eq!(p.current_choice().text, "D");
}

#[test]
fn reset_keeping_position_preserves_in_range_selection() {
    let mut p = nav(&["A", "B", "C"]);
    assert!(press(&mut p, ButtonPos::Right).is_none());
    assert_eq!(p.page_counter(), 1);

    let mut ctx = EventCtx::new();
    p.reset(&mut ctx, list(&["D", "E", "F"]), false);
    assert_eq!(p.page_counter(), 1);
    assert_eq!(p.current_choice().text, "E");
}

#[test]
fn reset_keeping_position_clamps_to_new_last_item() {
    let mut p = nav(&["A", "B", "C"]);
    assert!(press(&mut p, ButtonPos::Right).is_none());
    assert!(press(&mut p, ButtonPos::Right).is_none());
    assert_eq!(p.page_counter(), 2);

    let mut ctx = EventCtx::new();
    p.reset(&mut ctx, list(&["D", "E"]), false);
    assert_eq!(p.page_counter(), 1);
}

#[test]
fn set_page_counter_moves_selection_and_relabels() {
    let mut l = ChoiceList::new();
    assert!(l.push(Choice::new("A", layout("a1", "a2", "a3"))).is_ok());
    assert!(l.push(Choice::new("B", layout("b1", "b2", "b3"))).is_ok());
    let mut p = ChoicePage::new(l);
    assert_eq!(p.buttons.layout.left, Some(String::from("a1")));

    let mut ctx = EventCtx::new();
    p.set_page_counter(&mut ctx, 1);
    assert_eq!(p.page_counter(), 1);
    assert!(ctx.paint_requested());
    // The button legends follow the now-current item.
    assert_eq!(p.buttons.layout.left, Some(String::from("b1")));
    assert_eq!(p.buttons.layout.middle, Some(String::from("b2")));
    assert_eq!(p.buttons.layout.right, Some(String::from("b3")));
}

#[test]
fn a_fresh_list_is_empty_and_bounded() {
    let mut l = ChoiceList::new();
    assert!(l.is_empty());
    assert_eq!(l.len(), 0);
    assert_eq!(l.capacity(), 16);
    assert!(l.push(item("A")).is_ok());
    assert!(!l.is_empty());
    assert_eq!(l.get(0).text, "A");
}

#[test]
fn capacity_error_leaves_list_unchanged() {
    let mut l = ChoiceList::new();
    for i in 0..16 {
        assert!(l.push(item(&format!("item{}", i))).is_ok());
    }
    assert_eq!(l.len(), 16);

    // The seventeenth item comes back and the list is untouched.
    let extra = item("overflow");
    match l.push(extra) {
        Ok(()) => panic!("a seventeenth item must not fit"),
        Err(back) => assert_eq!(back.text, "overflow"),
    }
    assert_eq!(l.len(), 16);
    assert_eq!(l.get(0).text, "item0");
    assert_eq!(l.get(15).text, "item15");
}

#[test]
fn rendered_slots_follow_the_sliding_window() {
    // A single item paints the center slot alone.
    assert_eq!(rendered_slots(&nav(&["A"])), vec![Slot::Center]);

    // At the first of several items: center and right.
    let mut p = nav(&["A", "B", "C"]);
    assert_eq!(rendered_slots(&p), vec![Slot::Center, Slot::Right]);

    // In the middle: all three slots.
    assert!(press(&mut p, ButtonPos::Right).is_none());
    assert_eq!(rendered_slots(&p), vec![Slot::Center, Slot::Left, Slot::Right]);

    // At the last item: center and left.
    assert!(press(&mut p, ButtonPos::Right).is_none());
    assert_eq!(rendered_slots(&p), vec![Slot::Center, Slot::Left]);
}

#[test]
fn render_paints_neighbours_of_the_selection() {
    let mut p = nav(&["A", "B", "C"]);
    assert!(press(&mut p, ButtonPos::Right).is_none());

    let mut target = RenderTarget::new();
    p.render(&mut target);
    let mut texts = Vec::new();
    for op in target.ops() {
        if let DrawOp::Text { slot, text } = op {
            texts.push((*slot, text.clone()));
        }
    }
    assert_eq!(
        texts,
        vec![
            (Slot::Center, String::from("B")),
            (Slot::Left, String::from("A")),
            (Slot::Right, String::from("C")),
        ]
    );
}

#[test]
fn button_events_request_paint_and_others_do_not() {
    let mut p = nav(&["A", "B"]);
    let mut ctx = EventCtx::new();
    assert!(p.handle_event(&mut ctx, Event::Cancel).is_none());
    assert!(!ctx.paint_requested());

    assert!(p.handle_event(&mut ctx, Event::Button(ButtonPos::Right)).is_none());
    assert!(ctx.paint_requested());
}
