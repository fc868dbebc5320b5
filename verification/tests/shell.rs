use simdesk::layout::Rect;
use simdesk::shell::{build_menus, frame_nanos, ShellAction};
use simdesk::topbar::MenuItem;

#[test]
fn system_menu_comes_first() {
    let menus = build_menus("Shut down".to_string(), None);
    assert_eq!(menus.len(), 1);
    assert_eq!(menus[0].label, "[@]");
    assert_eq!(menus[0].items.len(), 1);
    assert_eq!(menus[0].items[0].label, "Shut down");
    assert_eq!(menus[0].items[0].action, ShellAction::ShutDown);
}

#[test]
fn shown_app_gets_a_menu_of_its_own() {
    let items = vec![MenuItem::new("Any", "any"), MenuItem::new("Quit", "quit")];
    let menus = build_menus("Shut down".to_string(), Some(("Dummy".to_string(), items)));
    assert_eq!(menus.len(), 2);
    assert_eq!(menus[1].label, "Dummy");
    assert_eq!(menus[1].items[0].label, "Any");
    assert_eq!(menus[1].items[0].action, ShellAction::AppItem("any"));
    assert_eq!(menus[1].items[1].action, ShellAction::AppItem("quit"));
}

#[test]
fn frame_duration_divides_a_second() {
    assert_eq!(frame_nanos(30), 33_333_333);
    assert_eq!(frame_nanos(1), 1_000_000_000);
}

#[test]
fn rect_geometry_clips_and_intersects() {
    assert_eq!(Rect::new(65530, 1, 10, 3), Rect { x: 65530, y: 1, width: 5, height: 3 });
    let a = Rect::new(0, 0, 10, 10);
    let b = Rect::new(5, 5, 10, 10);
    assert_eq!(a.intersection(b), Rect::new(5, 5, 5, 5));
    assert_eq!(a.intersection(Rect::new(20, 20, 2, 2)), Rect::new(20, 20, 0, 0));
    assert!(a.contains(9, 9));
    assert!(!a.contains(10, 9));
}

use simdesk::shell::{apply_signal, run_action, ShellEffect, ShellState, SignalKind};

/// The answers of an app that closes on its "quit" item.
fn dummy_answer(action: &str) -> SignalKind {
    if action == "quit" {
        SignalKind::Close
    } else {
        SignalKind::Continue
    }
}

fn with_open_dummy() -> ShellState {
    ShellState {
        app_shown: true,
        should_quit: false,
    }
}

fn forward(state: ShellState, action: ShellAction) -> ShellState {
    let (next, effect) = run_action(state, action);
    match effect {
        ShellEffect::AskApp(id) => apply_signal(next, dummy_answer(id)).0,
        ShellEffect::Done => next,
    }
}

#[test]
fn shutdown_action_sets_should_quit() {
    let state = ShellState {
        app_shown: false,
        should_quit: false,
    };
    assert!(forward(state, ShellAction::ShutDown).should_quit);
}

#[test]
fn app_item_action_forwards_to_the_open_app_and_closes_on_signal() {
    assert!(!forward(with_open_dummy(), ShellAction::AppItem("quit")).app_shown);
}

#[test]
fn app_item_action_keeps_the_app_open_when_it_signals_continue() {
    assert!(forward(with_open_dummy(), ShellAction::AppItem("any")).app_shown);
}

#[test]
fn open_signal_from_the_desktop_replaces_the_shown_app() {
    let state = ShellState {
        app_shown: false,
        should_quit: false,
    };
    let (next, reset_bar) = apply_signal(state, SignalKind::Open);
    assert!(next.app_shown);
    assert!(reset_bar);
}

#[test]
fn close_signal_returns_to_the_desktop() {
    let (next, reset_bar) = apply_signal(with_open_dummy(), SignalKind::Close);
    assert!(!next.app_shown);
    assert!(reset_bar);
}

#[test]
fn app_items_are_ignored_without_a_shown_app() {
    let state = ShellState {
        app_shown: false,
        should_quit: false,
    };
    assert_eq!(run_action(state, ShellAction::AppItem("any")), (state, ShellEffect::Done));
    assert_eq!(apply_signal(state, SignalKind::Continue), (state, false));
}
