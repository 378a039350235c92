use pick_list::layout::{FALLBACK_WIDTH, DEFAULT_PADDING_UNITS};
use pick_list::{
    content_width, draw, layout, mouse_interaction, overlay, update, Choices, Content, Effect,
    Event, Interaction, Length, Look, Padding, ScrollDirection, State, Status,
};

fn closed() -> State<&'static str> {
    State::new()
}

fn choices(len: usize, selected: Option<Vec<bool>>) -> Choices {
    Choices { len, selected }
}

const INSIDE: Event = Event::Press { inside: true, cursor_valid: true };
const OUTSIDE: Event = Event::Press { inside: false, cursor_valid: true };

#[test]
fn content_width_takes_widest_label() {
    assert_eq!(content_width(&vec![30, 120, 70], Some(90)), 120);
    assert_eq!(content_width(&vec![30, 20], Some(90)), 90);
    assert_eq!(content_width(&vec![30, 20], None), 30);
    assert_eq!(content_width(&vec![], Some(7)), 7);
}

#[test]
fn content_width_falls_back_when_empty() {
    assert_eq!(content_width(&vec![], None), FALLBACK_WIDTH);
    assert_eq!(FALLBACK_WIDTH, 100);
}

#[test]
fn layout_shrinks_to_content() {
    let padding = Padding::uniform(DEFAULT_PADDING_UNITS);
    let size = layout(Length::Shrink, padding, 20, &vec![40, 60], Some(50));
    assert_eq!(size.width, 60 + 20 + 5);
    assert_eq!(size.height, 20);
    let empty = layout(Length::Shrink, padding, 16, &vec![], None);
    assert_eq!(empty.width, 100 + 16 + 5);
}

#[test]
fn layout_fixed_width_skips_content() {
    let padding = Padding { top: 1, right: 2, bottom: 3, left: 4 };
    let size = layout(Length::Fill, padding, 20, &vec![400], Some(500));
    assert_eq!(size.width, 24);
    let size = layout(Length::Units(300), padding, 10, &vec![], None);
    assert_eq!(size.width, 14);
    assert_eq!(size.height, 10);
}

#[test]
fn layout_width_covers_every_label() {
    let widths = vec![12, 250, 3, 99];
    let size = layout(Length::Shrink, Padding::uniform(0), 0, &widths, Some(180));
    for w in widths {
        assert!(size.width >= w as u64);
    }
    assert!(size.width >= 180);
}

#[test]
fn new_state_is_closed() {
    let s = closed();
    assert!(!s.is_open);
    assert!(!s.is_focused());
    assert_eq!(s.hovered_option, None);
    assert_eq!(s.last_selection, None);
    let d: State<u8> = State::default();
    assert!(!d.is_open && !d.text_focused);
}

#[test]
fn focus_unfocus_and_pick() {
    let mut s = closed();
    s.focus();
    assert!(s.is_focused());
    s.is_open = true;
    s.unfocus();
    assert!(!s.is_open && !s.is_focused());
    s.focus();
    s.is_open = true;
    s.pick("b");
    assert!(!s.is_open && !s.is_focused());
    assert_eq!(s.last_selection, Some("b"));
}

#[test]
fn record_text_focus_loss_closes() {
    let mut s = closed();
    s.focus();
    s.is_open = true;
    s.record_text_focus(true);
    assert!(s.is_open);
    s.record_text_focus(false);
    assert!(!s.is_open && !s.text_focused);
}

#[test]
fn press_inside_opens_and_hovers_selected() {
    let mut s = closed();
    let c = choices(3, Some(vec![false, true, false]));
    let r = update(&mut s, INSIDE, &c, true);
    assert_eq!(r.status, Status::Captured);
    assert!(s.is_open && s.text_focused);
    assert_eq!(s.hovered_option, Some(1));
    assert_eq!(
        r.effects,
        vec![Effect::FocusText, Effect::CursorToEnd, Effect::Forward, Effect::NotifyFocus]
    );
}

#[test]
fn press_inside_without_focus_message() {
    let mut s = closed();
    let r = update(&mut s, INSIDE, &choices(2, None), false);
    assert_eq!(s.hovered_option, None);
    assert_eq!(r.effects, vec![Effect::FocusText, Effect::CursorToEnd, Effect::Forward]);
}

#[test]
fn hovered_is_first_match() {
    let mut s = closed();
    update(&mut s, INSIDE, &choices(4, Some(vec![false, false, true, true])), false);
    assert_eq!(s.hovered_option, Some(2));
}

#[test]
fn press_outside_when_closed_is_ignored() {
    let mut s = closed();
    let r = update(&mut s, OUTSIDE, &choices(2, None), true);
    assert_eq!(r.status, Status::Ignored);
    assert!(r.effects.is_empty());
    assert!(!s.is_open && !s.text_focused);
}

#[test]
fn open_then_dismiss_closes() {
    let mut s = closed();
    let c = choices(2, None);
    update(&mut s, INSIDE, &c, false);
    assert!(s.is_open);
    let r = update(&mut s, INSIDE, &c, false);
    assert_eq!(r.status, Status::Captured);
    assert_eq!(r.effects, vec![Effect::UnfocusText]);
    assert!(!s.is_open && !s.text_focused);
}

#[test]
fn press_with_invalid_cursor_while_open_forwards() {
    let mut s = closed();
    let c = choices(2, None);
    update(&mut s, INSIDE, &c, false);
    let r = update(&mut s, Event::Press { inside: true, cursor_valid: false }, &c, false);
    assert_eq!(r.status, Status::Captured);
    assert_eq!(r.effects, vec![Effect::Forward]);
    assert!(s.is_open);
}

#[test]
fn press_outside_while_open_is_ignored() {
    let mut s = closed();
    let c = choices(2, None);
    update(&mut s, INSIDE, &c, false);
    let r = update(&mut s, OUTSIDE, &c, false);
    assert_eq!(r.status, Status::Ignored);
    assert!(r.effects.is_empty());
    assert!(s.is_open);
}

#[test]
fn pending_selection_is_reported_on_next_press() {
    let mut s = closed();
    let c = choices(3, None);
    update(&mut s, INSIDE, &c, false);
    s.last_selection = Some("c");
    let r = update(&mut s, OUTSIDE, &c, false);
    assert_eq!(r.status, Status::Captured);
    assert_eq!(r.effects, vec![Effect::Select("c"), Effect::UnfocusText]);
    assert!(!s.is_open && !s.text_focused);
    assert_eq!(s.last_selection, None);
}

#[test]
fn pending_selection_after_closed_press_outside() {
    let mut s = closed();
    s.pick("a");
    let r = update(&mut s, OUTSIDE, &choices(1, None), false);
    assert_eq!(r.status, Status::Captured);
    assert_eq!(r.effects, vec![Effect::Select("a"), Effect::UnfocusText]);
}

fn commanded() -> State<&'static str> {
    let mut s = closed();
    let r = update(&mut s, Event::ModifiersChanged { command: true }, &choices(0, None), false);
    assert_eq!(r.status, Status::Ignored);
    s
}

fn scroll(direction: ScrollDirection) -> Event {
    Event::ScrollLines { inside: true, direction }
}

#[test]
fn scroll_forward_without_selection_selects_first() {
    let mut s = commanded();
    let r = update(&mut s, scroll(ScrollDirection::Forward), &choices(3, None), false);
    assert_eq!(r.status, Status::Captured);
    assert_eq!(r.effects, vec![Effect::SelectOption(0)]);
    assert!(!s.is_open);
}

#[test]
fn scroll_backward_without_selection_selects_last() {
    let mut s = commanded();
    let r = update(&mut s, scroll(ScrollDirection::Backward), &choices(3, None), false);
    assert_eq!(r.effects, vec![Effect::SelectOption(2)]);
}

#[test]
fn scroll_moves_next_and_previous() {
    let mut s = commanded();
    let c = choices(3, Some(vec![false, true, false]));
    let r = update(&mut s, scroll(ScrollDirection::Forward), &c, false);
    assert_eq!(r.effects, vec![Effect::SelectOption(2)]);
    let r = update(&mut s, scroll(ScrollDirection::Backward), &c, false);
    assert_eq!(r.effects, vec![Effect::SelectOption(0)]);
}

#[test]
fn scroll_past_last_selects_nothing() {
    let mut s = commanded();
    let c = choices(3, Some(vec![false, false, true]));
    let r = update(&mut s, scroll(ScrollDirection::Forward), &c, false);
    assert_eq!(r.status, Status::Captured);
    assert!(r.effects.is_empty());
    let c = choices(3, Some(vec![true, false, false]));
    let r = update(&mut s, scroll(ScrollDirection::Backward), &c, false);
    assert!(r.effects.is_empty());
}

#[test]
fn scroll_with_unknown_selection_selects_nothing() {
    let mut s = commanded();
    let c = choices(2, Some(vec![false, false]));
    let r = update(&mut s, scroll(ScrollDirection::Forward), &c, false);
    assert!(r.effects.is_empty());
    let r = update(&mut s, scroll(ScrollDirection::Still), &choices(2, None), false);
    assert_eq!(r.status, Status::Captured);
    assert!(r.effects.is_empty());
}

#[test]
fn scroll_on_empty_list_selects_nothing() {
    let mut s = commanded();
    let r = update(&mut s, scroll(ScrollDirection::Forward), &choices(0, None), false);
    assert_eq!(r.status, Status::Captured);
    assert!(r.effects.is_empty());
}

#[test]
fn scroll_needs_command_pointer_and_closed() {
    let mut s = closed();
    let c = choices(3, None);
    let r = update(&mut s, scroll(ScrollDirection::Forward), &c, false);
    assert_eq!(r.status, Status::Ignored);
    let mut s = commanded();
    let outside = Event::ScrollLines { inside: false, direction: ScrollDirection::Forward };
    assert_eq!(update(&mut s, outside, &c, false).status, Status::Ignored);
    update(&mut s, INSIDE, &c, false);
    let r = update(&mut s, scroll(ScrollDirection::Forward), &c, false);
    assert_eq!(r.status, Status::Ignored);
    assert!(r.effects.is_empty());
}

#[test]
fn modifiers_change_keeps_open_state() {
    let mut s = closed();
    let c = choices(1, None);
    update(&mut s, INSIDE, &c, false);
    for command in [true, false] {
        let r = update(&mut s, Event::ModifiersChanged { command }, &c, false);
        assert_eq!(r.status, Status::Ignored);
        assert_eq!(r.effects, vec![Effect::Forward]);
        assert!(s.is_open);
        assert_eq!(s.command_held, command);
    }
}

#[test]
fn other_events_go_to_text_field() {
    let mut s = closed();
    let r = update(&mut s, Event::Other, &choices(1, None), false);
    assert_eq!(r.status, Status::TextField);
    assert_eq!(r.effects, vec![Effect::Forward]);
    assert!(!s.is_open);
}

#[test]
fn pointer_shapes() {
    assert_eq!(mouse_interaction(true, true), Interaction::Text);
    assert_eq!(mouse_interaction(false, true), Interaction::Pointer);
    assert_eq!(mouse_interaction(false, false), Interaction::Idle);
}

#[test]
fn overlay_follows_open_state() {
    let mut s = closed();
    assert!(!overlay(&s));
    update(&mut s, INSIDE, &choices(1, None), false);
    assert!(overlay(&s));
}

#[test]
fn paint_content_choice() {
    let mut s = closed();
    let a = draw(&s, true, true, true);
    assert_eq!(a.look, Look::Hovered);
    assert_eq!(a.content, Content::Selected);
    assert_eq!(draw(&s, false, false, true).content, Content::Placeholder);
    assert_eq!(draw(&s, false, false, false).content, Content::Blank);
    assert_eq!(draw(&s, false, false, false).look, Look::Active);
    s.focus();
    assert_eq!(draw(&s, false, true, true).content, Content::TextField);
}
