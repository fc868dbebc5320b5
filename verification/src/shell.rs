//! The menus and timing of the desktop shell that hosts one app at a time.

use vstd::prelude::*;
use vstd::string::*;

use crate::topbar::{Menu, MenuItem};

verus! {

/// What an item of the shell's own menus asks for.
#[derive(Clone, Copy, Debug, PartialEq, Eq)]
pub enum ShellAction {
    /// Quit the shell.
    ShutDown,
    /// Pass the item's action id on to the shown app.
    AppItem(&'static str),
}

/// The nanoseconds of one frame at `frame_rate` frames per second.
pub fn frame_nanos(frame_rate: u64) -> (r: u64)
    requires
        frame_rate > 0,
    ensures
        r == 1_000_000_000u64 / frame_rate,
{
    1_000_000_000 / frame_rate
}

/// The shell's menu of the shown app: the app's items, each passing its
/// action id on to the app.
pub open spec fn app_items(items: Seq<MenuItem<&'static str>>) -> Seq<MenuItem<ShellAction>> {
    items.map_values(
        |item: MenuItem<&'static str>|
            MenuItem { label: item.label, action: ShellAction::AppItem(item.action) },
    )
}

/// Builds a frame's menus: the system menu `[@]` holding the shut-down item
/// labelled `shutdown_label`, then, while an app is shown, a menu under the
/// app's name holding the app's items.
pub fn build_menus(
    shutdown_label: String,
    app: Option<(String, Vec<MenuItem<&'static str>>)>,
) -> (r: Vec<Menu<ShellAction>>)
    ensures
        r@.len() == if app is Some {
            2int
        } else {
            1int
        },
        r@[0].label@ == "[@]"@,
        r@[0].items@ == seq![MenuItem { label: shutdown_label, action: ShellAction::ShutDown }],
        app matches Some((name, items)) ==> r@[1].label == name && r@[1].items@ == app_items(
            items@,
        ),
{
    let mut system_items: Vec<MenuItem<ShellAction>> = Vec::new();
    system_items.push(MenuItem { label: shutdown_label, action: ShellAction::ShutDown });
    let system = Menu { label: String::from_str("[@]"), items: system_items };
    let mut menus: Vec<Menu<ShellAction>> = Vec::new();
    menus.push(system);
    match app {
        Some((name, items)) => {
            let ghost given = items@;
            let mut mapped: Vec<MenuItem<ShellAction>> = Vec::new();
            let mut rest = items;
            while rest.len() > 0
                invariant
                    rest@.len() <= given.len(),
                    rest@ == given.subrange(given.len() - rest@.len(), given.len() as int),
                    mapped@ == app_items(given.subrange(0, given.len() - rest@.len())),
                decreases rest.len(),
            {
                let ghost k = given.len() - rest@.len();
                let item = rest.remove(0);
                mapped.push(MenuItem { label: item.label, action: ShellAction::AppItem(item.action) });
                assert(given.subrange(0, k + 1) == given.subrange(0, k).push(given[k]));
            }
            assert(given.subrange(0, given.len() as int) == given);
            menus.push(Menu { label: name, items: mapped });
        },
        None => {},
    }
    menus
}

/// What a shown app answered: go on, close it, or show another app.
#[derive(Clone, Copy, Debug, PartialEq, Eq, Structural)]
pub enum SignalKind {
    Continue,
    Close,
    Open,
}

/// The shell's state apart from the apps themselves: whether an app is
/// shown over the desktop, and whether the shell is to quit.
#[derive(Clone, Copy, Debug, PartialEq, Eq, Structural)]
pub struct ShellState {
    pub app_shown: bool,
    pub should_quit: bool,
}

/// What the shell does next after a menu action.
#[derive(Clone, Copy, Debug, PartialEq, Eq)]
pub enum ShellEffect {
    /// Nothing more.
    Done,
    /// Hand the action id to the shown app and apply its answer.
    AskApp(&'static str),
}

/// The state after the shown app's answer, and whether the top bar is to be
/// reset: closing returns to the desktop and showing another app replaces
/// the shown one, both with a fresh bar.
pub open spec fn signalled(state: ShellState, signal: SignalKind) -> (ShellState, bool) {
    match signal {
        SignalKind::Continue => (state, false),
        SignalKind::Close => (ShellState { app_shown: false, ..state }, true),
        SignalKind::Open => (ShellState { app_shown: true, ..state }, true),
    }
}

/// Applies the shown app's answer to the shell's state.
pub fn apply_signal(state: ShellState, signal: SignalKind) -> (r: (ShellState, bool))
    ensures
        r == signalled(state, signal),
{
    match signal {
        SignalKind::Continue => (state, false),
        SignalKind::Close => (ShellState { app_shown: false, should_quit: state.should_quit }, true),
        SignalKind::Open => (ShellState { app_shown: true, should_quit: state.should_quit }, true),
    }
}

/// The state after a chosen menu action, and what to do next: shutting down
/// sets the shell to quit, and an app's item goes to the shown app, if any.
pub open spec fn acted(state: ShellState, action: ShellAction) -> (ShellState, ShellEffect) {
    match action {
        ShellAction::ShutDown => (ShellState { should_quit: true, ..state }, ShellEffect::Done),
        ShellAction::AppItem(id) => if state.app_shown {
            (state, ShellEffect::AskApp(id))
        } else {
            (state, ShellEffect::Done)
        },
    }
}

/// Carries out a chosen menu action on the shell's state.
pub fn run_action(state: ShellState, action: ShellAction) -> (r: (ShellState, ShellEffect))
    ensures
        r == acted(state, action),
{
    match action {
        ShellAction::ShutDown => (ShellState { app_shown: state.app_shown, should_quit: true }, ShellEffect::Done),
        ShellAction::AppItem(id) => if state.app_shown {
            (state, ShellEffect::AskApp(id))
        } else {
            (state, ShellEffect::Done)
        },
    }
}

/// Shutting down sets the shell to quit and does nothing more; an app's item
/// goes to the shown app with its own id, and with no app shown it does
/// nothing; neither changes whether an app is shown. Closing an app returns
/// to the desktop and showing one shows it, both with a fresh bar; going on
/// changes nothing.
pub proof fn lemma_shell_transitions(state: ShellState, id: &'static str)
    ensures
        acted(state, ShellAction::ShutDown) == (
            ShellState { app_shown: state.app_shown, should_quit: true },
            ShellEffect::Done,
        ),
        state.app_shown ==> acted(state, ShellAction::AppItem(id)) == (state, ShellEffect::AskApp(id)),
        !state.app_shown ==> acted(state, ShellAction::AppItem(id)) == (state, ShellEffect::Done),
        signalled(state, SignalKind::Close) == (
            ShellState { app_shown: false, should_quit: state.should_quit },
            true,
        ),
        signalled(state, SignalKind::Open) == (
            ShellState { app_shown: true, should_quit: state.should_quit },
            true,
        ),
        signalled(state, SignalKind::Continue) == (state, false),
{
}

/// The app's menu holds the app's items in their order, each under its own
/// label and passing its own action id on to the app.
pub proof fn lemma_app_items_keep_each_item(items: Seq<MenuItem<&'static str>>)
    ensures
        app_items(items).len() == items.len(),
        forall|k: int|
            0 <= k < items.len() ==> (#[trigger] app_items(items)[k]).label == items[k].label
                && app_items(items)[k].action == ShellAction::AppItem(items[k].action),
{
}

/// Once the shell is set to quit, no action or answer unsets it; and an
/// app's answer never quits the shell by itself.
pub proof fn lemma_quitting_is_final(state: ShellState, action: ShellAction, signal: SignalKind)
    ensures
        state.should_quit ==> acted(state, action).0.should_quit,
        signalled(state, signal).0.should_quit == state.should_quit,
        action == ShellAction::ShutDown ==> acted(state, action).0.should_quit,
{
}

} // verus!
