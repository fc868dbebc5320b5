use simdesk::layout::Rect;
use simdesk::topbar::{BarEvent, BarKey, Menu, MenuItem, TopBar, TopBarOutcome};

#[derive(Debug, Clone, PartialEq, Eq)]
enum TestAction {
    A,
    B,
}

fn bar() -> TopBar<TestAction> {
    let mut bar = TopBar::default();
    bar.set_menus(vec![
        Menu::new("File", vec![MenuItem::new("Open", TestAction::A)]),
        Menu::new(
            "Edit",
            vec![
                MenuItem::new("Cut", TestAction::A),
                MenuItem::new("Paste", TestAction::B),
            ],
        ),
    ]);
    bar
}

fn bar_area() -> Rect {
    Rect::new(0, 0, 80, 1)
}

fn press(key: BarKey) -> BarEvent {
    BarEvent::Key(key)
}

fn left_click(column: u16, row: u16) -> BarEvent {
    BarEvent::Click { column, row }
}

fn moved(column: u16, row: u16) -> BarEvent {
    BarEvent::Hover { column, row }
}

#[test]
fn split_gives_the_bar_exactly_one_row() {
    let (bar, content) = TopBar::<TestAction>::split(Rect::new(0, 0, 80, 24));
    assert_eq!(bar.height, 1);
    assert_eq!(content.height, 23);
}

#[test]
fn clicking_a_label_opens_its_dropdown() {
    let mut bar = bar();
    let area = bar_area();
    let rects = bar.menu_rects(area);

    let outcome = bar.handle_event(left_click(rects[1].x, 0), area);
    assert!(matches!(outcome, TopBarOutcome::Consumed));
    assert_eq!(bar.open_menu(), Some(1));
}

#[test]
fn clicking_the_same_label_again_closes_it() {
    let mut bar = bar();
    let area = bar_area();
    let rects = bar.menu_rects(area);

    let _ = bar.handle_event(left_click(rects[1].x, 0), area);
    let outcome = bar.handle_event(left_click(rects[1].x, 0), area);
    assert!(matches!(outcome, TopBarOutcome::Consumed));
    assert!(bar.open_menu().is_none());
}

#[test]
fn clicking_a_dropdown_item_runs_its_action_and_closes() {
    let mut bar = bar();
    let area = bar_area();
    bar.open(1);

    let popup = bar.dropdown_rect(area, 1).unwrap();
    let outcome = bar.handle_event(left_click(popup.x, popup.y + 1), area);

    assert!(matches!(outcome, TopBarOutcome::Action(TestAction::A)));
    assert!(bar.open_menu().is_none());
}

#[test]
fn clicking_away_closes_and_is_consumed() {
    let mut bar = bar();
    bar.open(1);

    let outcome = bar.handle_event(left_click(79, 20), bar_area());
    assert!(matches!(outcome, TopBarOutcome::Consumed));
    assert!(bar.open_menu().is_none());
}

#[test]
fn click_outside_with_nothing_open_is_not_consumed() {
    let mut bar = bar();
    let outcome = bar.handle_event(left_click(79, 20), bar_area());
    assert!(matches!(outcome, TopBarOutcome::NotConsumed));
}

#[test]
fn esc_does_nothing_when_no_menu_is_open() {
    let mut bar = bar();
    let outcome = bar.handle_event(press(BarKey::Esc), bar_area());
    assert!(matches!(outcome, TopBarOutcome::NotConsumed));
    assert!(bar.open_menu().is_none());
}

#[test]
fn esc_closes_an_open_menu() {
    let mut bar = bar();
    bar.open(1);
    let outcome = bar.handle_event(press(BarKey::Esc), bar_area());
    assert!(matches!(outcome, TopBarOutcome::Consumed));
    assert!(bar.open_menu().is_none());
}

#[test]
fn nothing_is_highlighted_when_a_menu_first_opens() {
    let mut bar = bar();
    bar.open(1);
    assert!(bar.highlighted().is_none());
}

#[test]
fn down_from_nothing_highlights_the_first_item_and_enter_selects_it() {
    let mut bar = bar();
    bar.open(1);
    let _ = bar.handle_event(press(BarKey::Down), bar_area());
    assert_eq!(bar.highlighted(), Some(0));

    let outcome = bar.handle_event(press(BarKey::Enter), bar_area());
    assert!(matches!(outcome, TopBarOutcome::Action(TestAction::A)));
    assert!(bar.open_menu().is_none());
}

#[test]
fn up_from_nothing_highlights_the_last_item() {
    let mut bar = bar();
    bar.open(1);
    let _ = bar.handle_event(press(BarKey::Up), bar_area());
    assert_eq!(bar.highlighted(), Some(1));
}

#[test]
fn down_twice_then_enter_selects_the_second_item() {
    let mut bar = bar();
    bar.open(1);
    let _ = bar.handle_event(press(BarKey::Down), bar_area());
    let outcome = bar.handle_event(press(BarKey::Down), bar_area());
    assert!(matches!(outcome, TopBarOutcome::Consumed));
    assert_eq!(bar.highlighted(), Some(1));

    let outcome = bar.handle_event(press(BarKey::Enter), bar_area());
    assert!(matches!(outcome, TopBarOutcome::Action(TestAction::B)));
    assert!(bar.open_menu().is_none());
}

#[test]
fn enter_with_nothing_highlighted_just_closes() {
    let mut bar = bar();
    bar.open(1);
    let outcome = bar.handle_event(press(BarKey::Enter), bar_area());
    assert!(matches!(outcome, TopBarOutcome::Consumed));
    assert!(bar.open_menu().is_none());
}

#[test]
fn reset_closes_an_open_menu() {
    let mut bar = bar();
    bar.open(1);
    bar.reset();
    assert!(bar.open_menu().is_none());
}

#[test]
fn hovering_a_label_highlights_it_without_opening_its_dropdown() {
    let mut bar = bar();
    let area = bar_area();
    let rects = bar.menu_rects(area);

    let outcome = bar.handle_event(moved(rects[0].x, 0), area);
    assert!(matches!(outcome, TopBarOutcome::Consumed));
    assert_eq!(bar.hovered_label(), Some(0));
    assert!(bar.open_menu().is_none());
}

#[test]
fn moving_off_the_bar_clears_the_label_hover() {
    let mut bar = bar();
    let area = bar_area();
    let rects = bar.menu_rects(area);

    let _ = bar.handle_event(moved(rects[0].x, 0), area);
    let outcome = bar.handle_event(moved(79, 20), area);
    assert!(matches!(outcome, TopBarOutcome::NotConsumed));
    assert!(bar.hovered_label().is_none());
}

#[test]
fn hovering_a_dropdown_item_highlights_it() {
    let mut bar = bar();
    let area = bar_area();
    bar.open(1);

    let popup = bar.dropdown_rect(area, 1).unwrap();
    let outcome = bar.handle_event(moved(popup.x, popup.y + 2), area);
    assert!(matches!(outcome, TopBarOutcome::Consumed));
    assert_eq!(bar.highlighted(), Some(1));
}

#[test]
fn moving_off_the_dropdown_clears_its_highlight_but_leaves_it_open() {
    let mut bar = bar();
    let area = bar_area();
    bar.open(1);

    let popup = bar.dropdown_rect(area, 1).unwrap();
    let _ = bar.handle_event(moved(popup.x, popup.y + 1), area);
    assert_eq!(bar.highlighted(), Some(0));

    let outcome = bar.handle_event(moved(79, 20), area);
    assert!(matches!(outcome, TopBarOutcome::NotConsumed));
    assert!(bar.highlighted().is_none());
    assert_eq!(bar.open_menu(), Some(1));
}

#[test]
fn hovering_overrides_a_highlight_set_by_the_keyboard() {
    let mut bar = bar();
    let area = bar_area();
    bar.open(1);

    let _ = bar.handle_event(press(BarKey::Down), area);
    assert_eq!(bar.highlighted(), Some(0));

    let popup = bar.dropdown_rect(area, 1).unwrap();
    let _ = bar.handle_event(moved(popup.x, popup.y + 2), area);
    assert_eq!(bar.highlighted(), Some(1));
}

#[test]
fn moving_outside_bar_area_is_not_consumed() {
    let mut bar = bar();
    let outcome = bar.handle_event(moved(10, 15), bar_area());
    assert!(matches!(outcome, TopBarOutcome::NotConsumed));
}

// Further cases.

#[test]
fn label_rects_are_padded_side_by_side() {
    let bar = bar();
    let rects = bar.menu_rects(bar_area());
    assert_eq!(rects, vec![Rect::new(0, 0, 8, 1), Rect::new(8, 0, 8, 1)]);
}

#[test]
fn dropdown_sits_under_its_label_sized_to_its_items() {
    let bar = bar();
    assert_eq!(bar.dropdown_rect(bar_area(), 1), Some(Rect::new(8, 1, 9, 4)));
    assert_eq!(bar.dropdown_rect(bar_area(), 0), Some(Rect::new(0, 1, 8, 3)));
    assert_eq!(bar.dropdown_rect(bar_area(), 2), None);
}

#[test]
fn hit_test_bar_finds_each_label() {
    let bar = bar();
    assert_eq!(bar.hit_test_bar(bar_area(), 0, 0), Some(0));
    assert_eq!(bar.hit_test_bar(bar_area(), 7, 0), Some(0));
    assert_eq!(bar.hit_test_bar(bar_area(), 8, 0), Some(1));
    assert_eq!(bar.hit_test_bar(bar_area(), 16, 0), None);
    assert_eq!(bar.hit_test_bar(bar_area(), 3, 1), None);
}

#[test]
fn highlight_wraps_in_both_directions() {
    let mut bar = bar();
    bar.open(1);
    bar.move_highlight(1, 2);
    assert_eq!(bar.highlighted(), Some(0));
    bar.move_highlight(-1, 2);
    assert_eq!(bar.highlighted(), Some(1));
    bar.move_highlight(1, 2);
    assert_eq!(bar.highlighted(), Some(0));
    bar.move_highlight(5, 2);
    assert_eq!(bar.highlighted(), Some(1));
    bar.move_highlight(1, 0);
    assert_eq!(bar.highlighted(), None);
}

#[test]
fn action_at_and_item_count_check_both_indices() {
    let bar = bar();
    assert_eq!(bar.action_at(1, 1), Some(TestAction::B));
    assert_eq!(bar.action_at(1, 2), None);
    assert_eq!(bar.action_at(2, 0), None);
    assert_eq!(bar.item_count(1), 2);
    assert_eq!(bar.item_count(5), 0);
}

#[test]
fn reset_clears_the_label_hover_too() {
    let mut bar = bar();
    let area = bar_area();
    let _ = bar.handle_event(moved(1, 0), area);
    assert_eq!(bar.hovered_label(), Some(0));
    bar.reset();
    assert_eq!(bar.hovered_label(), None);
    assert_eq!(bar.highlighted(), None);
}

#[test]
fn up_then_down_returns_the_highlight() {
    let mut bar = bar();
    bar.open(1);
    let _ = bar.handle_event(press(BarKey::Down), bar_area());
    let _ = bar.handle_event(press(BarKey::Up), bar_area());
    let _ = bar.handle_event(press(BarKey::Down), bar_area());
    assert_eq!(bar.highlighted(), Some(0));
}

#[test]
fn other_events_are_not_consumed() {
    let mut bar = bar();
    bar.open(0);
    let outcome = bar.handle_event(BarEvent::Other, bar_area());
    assert!(matches!(outcome, TopBarOutcome::NotConsumed));
    assert_eq!(bar.open_menu(), Some(0));
    let outcome = bar.handle_event(press(BarKey::Other), bar_area());
    assert!(matches!(outcome, TopBarOutcome::Consumed));
}

#[test]
fn highlight_wraps_steps_larger_than_the_menu() {
    let mut bar = bar();
    bar.open(1);
    bar.move_highlight(-1, 3);
    assert_eq!(bar.highlighted(), Some(2));
    bar.move_highlight(-7, 3);
    assert_eq!(bar.highlighted(), Some(1));
    bar.move_highlight(-1, 3);
    assert_eq!(bar.highlighted(), Some(0));
    bar.move_highlight(-3, 3);
    assert_eq!(bar.highlighted(), Some(0));
    bar.move_highlight(isize::MAX, 3);
    assert_eq!(bar.highlighted(), Some((isize::MAX % 3) as usize));
}

#[test]
fn layout_fits_checks_the_labels_and_the_open_dropdown() {
    let mut bar = bar();
    assert!(bar.layout_fits(bar_area()));
    assert!(bar.layout_fits(Rect::new(0, u16::MAX, 80, 1)));
    assert!(!bar.layout_fits(Rect::new(u16::MAX - 10, 0, 10, 1)));
    bar.open(0);
    assert!(!bar.layout_fits(Rect::new(0, u16::MAX, 80, 1)));
    assert!(bar.layout_fits(bar_area()));
}

#[test]
fn keys_work_in_a_bar_that_does_not_fit() {
    let mut bar = bar();
    let far = Rect::new(u16::MAX - 10, u16::MAX, 10, 1);
    bar.open(1);
    assert!(!bar.layout_fits(far));
    let _ = bar.handle_event(press(BarKey::Down), far);
    let outcome = bar.handle_event(press(BarKey::Enter), far);
    assert!(matches!(outcome, TopBarOutcome::Action(TestAction::A)));
    assert_eq!(bar.open_menu(), None);
}

#[test]
fn label_widths_are_counted_in_u16() {
    let mut bar: TopBar<TestAction> = TopBar::default();
    let long = "x".repeat(65536);
    bar.set_menus(vec![
        Menu::new(long, vec![MenuItem::new("Open", TestAction::A)]),
        Menu::new("Edit", vec![MenuItem::new("Cut", TestAction::B)]),
    ]);
    assert!(bar.layout_fits(bar_area()));
    let rects = bar.menu_rects(bar_area());
    assert_eq!(rects[0], Rect::new(0, 0, 4, 1));
    assert_eq!(rects[1], Rect::new(4, 0, 8, 1));
    assert_eq!(bar.hit_test_bar(bar_area(), 5, 0), Some(1));
}
