//! The persistent top menu bar of the desktop: a row of menu labels, each
//! opening a dropdown of items, driven by clicks, hovering and the keyboard.

use vstd::arithmetic::div_mod::{
    lemma_fundamental_div_mod, lemma_fundamental_div_mod_converse, lemma_mod_add_multiples_vanish,
    lemma_mod_self_0, lemma_small_mod,
};
use vstd::prelude::*;
use vstd::std_specs::convert::IntoSpec;
use vstd::string::*;

use crate::layout::{bar_layout, max_u16, tui_bar_layout, Rect};

verus! {

/// Item of dropdown menu.
#[must_use]
#[derive(Debug, Clone)]
pub struct MenuItem<Action> {
    pub label: String,
    pub action: Action,
}

impl<Action> MenuItem<Action> {
    /// Makes new `MenuItem` from the given values.
    pub fn new<L: Into<String>>(label: L, action: Action) -> (r: Self)
        ensures
            r.action == action,
            <L as IntoSpec<String>>::obeys_into_spec() ==> r.label == label.into_spec(),
    {
        MenuItem { label: label.into(), action }
    }
}

/// A collection of `MenuItem`s grouped in one dropdown.
#[must_use]
#[derive(Debug, Clone)]
pub struct Menu<Action> {
    pub label: String,
    pub items: Vec<MenuItem<Action>>,
}

impl<Action> Menu<Action> {
    /// Makes new `Menu` from the given values.
    pub fn new<L: Into<String>>(label: L, items: Vec<MenuItem<Action>>) -> (r: Self)
        ensures
            r.items == items,
            <L as IntoSpec<String>>::obeys_into_spec() ==> r.label == label.into_spec(),
    {
        Menu { label: label.into(), items }
    }
}

/// The keys the bar reacts to.
#[derive(Clone, Copy, Debug, PartialEq, Eq, Structural)]
pub enum BarKey {
    Up,
    Down,
    Enter,
    Esc,
    /// Any other key.
    Other,
}

/// An input event, as far as the bar distinguishes events.
#[derive(Clone, Copy, Debug, PartialEq, Eq, Structural)]
pub enum BarEvent {
    /// The left mouse button went down at a cell.
    Click { column: u16, row: u16 },
    /// The mouse moved to a cell.
    Hover { column: u16, row: u16 },
    /// A key was pressed.
    Key(BarKey),
    /// Anything else.
    Other,
}

/// What handling an event against the bar resulted in.
#[must_use]
pub enum TopBarOutcome<Action> {
    /// An item was chosen; the shell should carry out `Action`.
    Action(Action),
    /// The bar consumed the event itself, must not be propagated.
    Consumed,
    /// The event wasn't aimed at the bar at all.
    NotConsumed,
}

/// The bar's state apart from its menus: the open dropdown, the label under
/// the mouse, and the highlighted item of the open dropdown.
#[derive(Clone, Copy, Debug, PartialEq, Eq, Structural)]
pub struct BarState {
    pub open: Option<usize>,
    pub hovered_label: Option<usize>,
    pub highlighted: Option<usize>,
}

/// How the bar answers an event: with the item `(menu, item)` chosen, or
/// by consuming it, or by letting it through.
#[derive(Clone, Copy, Debug, PartialEq, Eq, Structural)]
pub enum Response {
    Chose(usize, usize),
    Consumed,
    NotConsumed,
}

/// `state` with the dropdown closed and nothing highlighted.
pub open spec fn closed(state: BarState) -> BarState {
    BarState { open: None, hovered_label: state.hovered_label, highlighted: None }
}

/// The highlight after moving `delta` items through `len` items, wrapping
/// around; from no highlight, a move down lands on the first item and a move
/// up on the last.
pub open spec fn moved(highlighted: Option<usize>, delta: int, len: int) -> Option<usize> {
    if len <= 0 {
        None
    } else {
        match highlighted {
            Some(index) => Some(((index + delta) % len) as usize),
            None => if delta > 0 {
                Some(0)
            } else {
                Some((len - 1) as usize)
            },
        }
    }
}

/// A count of characters or items as the bar holds it in a `u16`: modulo
/// 2^16, as a conversion of a larger count to `u16` wraps.
pub open spec fn wrapped_u16(n: int) -> int {
    n % 0x1_0000
}

/// `n` converted to `u16`, wrapping.
fn to_u16(n: usize) -> (r: u16)
    ensures
        r == wrapped_u16(n as int),
{
    let r = n as u16;
    assert(r as usize == n % 0x1_0000) by (bit_vector)
        requires
            r == n as u16,
    ;
    r
}

/// The widest label among the first `k` items, in characters counted in a
/// `u16`.
pub open spec fn widest_label<Action>(items: Seq<MenuItem<Action>>, k: int) -> int
    decreases k,
{
    if k <= 0 {
        0
    } else {
        let w = widest_label(items, k - 1);
        let l = wrapped_u16(items[k - 1].label@.len() as int);
        if l > w {
            l
        } else {
            w
        }
    }
}

/// The widest label among the first `k` items is no wider than the bound
/// that all their labels keep.
pub proof fn lemma_widest_label_bounded<Action>(items: Seq<MenuItem<Action>>, k: int)
    requires
        0 <= k <= items.len(),
        forall|j: int|
            0 <= j < items.len() ==> #[trigger] wrapped_u16(items[j].label@.len() as int) + 4
                <= u16::MAX,
    ensures
        0 <= widest_label(items, k),
        widest_label(items, k) + 4 <= u16::MAX,
    decreases k,
{
    if k > 0 {
        lemma_widest_label_bounded(items, k - 1);
        assert(wrapped_u16(items[k - 1].label@.len() as int) + 4 <= u16::MAX);
    }
}

/// The width of the label of menu `i`: its text, counted in a `u16`, padded
/// by two cells on each side.
pub open spec fn label_width<Action>(menus: Seq<Menu<Action>>, i: int) -> int {
    wrapped_u16(menus[i].label@.len() as int) + 4
}

/// The column where the label of menu `i` starts: labels stand side by side
/// from the left edge of `bar`.
pub open spec fn label_left<Action>(menus: Seq<Menu<Action>>, bar: Rect, i: int) -> int
    decreases i,
{
    if i <= 0 {
        bar.x as int
    } else {
        label_left(menus, bar, i - 1) + label_width(menus, i - 1)
    }
}

/// The labels, standing side by side from the left edge of `bar`, end
/// within the coordinate space.
pub open spec fn labels_fit<Action>(menus: Seq<Menu<Action>>, bar: Rect) -> bool {
    label_left(menus, bar, menus.len() as int) <= u16::MAX
}

/// The dropdown of menu `m`, where there is such a menu, can open under the
/// bar's row, and its width and height are each a `u16`.
pub open spec fn dropdown_fits<Action>(menus: Seq<Menu<Action>>, bar: Rect, m: int) -> bool {
    0 <= m < menus.len() ==> {
        &&& bar.y < u16::MAX
        &&& wrapped_u16(menus[m].items@.len() as int) + 2 <= u16::MAX
        &&& forall|k: int|
            0 <= k < menus[m].items@.len() ==> #[trigger] wrapped_u16(
                menus[m].items@[k].label@.len() as int,
            ) + 4 <= u16::MAX
    }
}

/// The cells of the label of menu `i` within `bar`.
pub open spec fn label_rect<Action>(menus: Seq<Menu<Action>>, bar: Rect, i: int) -> Rect {
    Rect::clipped(
        label_left(menus, bar, i) as u16,
        bar.y,
        label_width(menus, i) as u16,
        1,
    ).overlap(bar)
}

/// The first label from menu `i` on that holds the cell.
pub open spec fn label_from<Action>(
    menus: Seq<Menu<Action>>,
    bar: Rect,
    column: u16,
    row: u16,
    i: int,
) -> Option<usize>
    decreases menus.len() - i,
{
    if i < 0 || i >= menus.len() {
        None
    } else if label_rect(menus, bar, i).holds(column, row) {
        Some(i as usize)
    } else {
        label_from(menus, bar, column, row, i + 1)
    }
}

/// The label (by index) at the cell, if any.
pub open spec fn label_at<Action>(menus: Seq<Menu<Action>>, bar: Rect, column: u16, row: u16) -> Option<usize> {
    label_from(menus, bar, column, row, 0)
}

/// The dropdown of menu `m`, anchored directly under its label: as wide as
/// its widest item plus four cells and as tall as its items (counted in a
/// `u16`) plus two rows of border.
pub open spec fn dropdown<Action>(menus: Seq<Menu<Action>>, bar: Rect, m: int) -> Option<Rect> {
    if 0 <= m < menus.len() {
        let anchor = label_rect(menus, bar, m);
        let items = menus[m].items@;
        Some(
            Rect::clipped(
                anchor.x,
                (anchor.y + 1) as u16,
                (widest_label(items, items.len() as int) + 4) as u16,
                (wrapped_u16(items.len() as int) + 2) as u16,
            ),
        )
    } else {
        None
    }
}

/// The item of the open dropdown at the cell, if any: row 0 of the dropdown
/// is its top border, items start at row 1.
pub open spec fn item_at<Action>(
    menus: Seq<Menu<Action>>,
    open: Option<usize>,
    bar: Rect,
    column: u16,
    row: u16,
) -> Option<usize> {
    match open {
        None => None,
        Some(m) => match dropdown(menus, bar, m as int) {
            None => None,
            Some(popup) => if popup.holds(column, row) && row >= popup.y + 1 && row - (popup.y + 1)
                < menus[m as int].items@.len() {
                Some((row - (popup.y + 1)) as usize)
            } else {
                None
            },
        },
    }
}

/// The number of items of menu `m`, or zero where there is no such menu.
pub open spec fn item_total<Action>(menus: Seq<Menu<Action>>, m: int) -> int {
    if 0 <= m < menus.len() {
        menus[m].items@.len() as int
    } else {
        0
    }
}

/// Labels stand left to right: no label starts left of an earlier one.
pub proof fn lemma_label_left_grows<Action>(menus: Seq<Menu<Action>>, bar: Rect, i: int, j: int)
    requires
        0 <= i <= j <= menus.len(),
    ensures
        label_left(menus, bar, i) <= label_left(menus, bar, j),
    decreases j - i,
{
    if i < j {
        lemma_label_left_grows(menus, bar, i, j - 1);
    }
}

/// The state after a click, and the answer to it.
pub open spec fn after_click<Action>(
menus: Seq<Menu<Action>>,
st: BarState,
bar: Rect,
column: u16,
row: u16,
) -> (BarState, Response) {
    if st.open is Some && item_at(menus, st.open, bar, column, row) is Some {
        (closed(st), Response::Chose(st.open->0, item_at(menus, st.open, bar, column, row)->0))
    } else if label_at(menus, bar, column, row) is Some {
        let i = label_at(menus, bar, column, row)->0;
        if st.open == Some(i) {
            (closed(st), Response::Consumed)
        } else {
            (
                BarState { open: Some(i), hovered_label: st.hovered_label, highlighted: None },
                Response::Consumed,
            )
        }
    } else if st.open is Some {
        (closed(st), Response::Consumed)
    } else {
        (st, Response::NotConsumed)
    }
}

/// The state after the mouse moved to a cell, and the answer to it.
pub open spec fn after_hover<Action>(
menus: Seq<Menu<Action>>,
st: BarState,
bar: Rect,
column: u16,
row: u16,
) -> (BarState, Response) {
    if st.open is Some && item_at(menus, st.open, bar, column, row) is Some {
        (
            BarState { highlighted: item_at(menus, st.open, bar, column, row), ..st },
            Response::Consumed,
        )
    } else {
        let hl = if st.open is Some {
            None
        } else {
            st.highlighted
        };
        if label_at(menus, bar, column, row) is Some {
            (
                BarState {
                    open: st.open,
                    hovered_label: label_at(menus, bar, column, row),
                    highlighted: hl,
                },
                Response::Consumed,
            )
        } else {
            (
                BarState { open: st.open, hovered_label: None, highlighted: hl },
                Response::NotConsumed,
            )
        }
    }
}

/// The state after a key press, and the answer to it.
pub open spec fn after_key<Action>(menus: Seq<Menu<Action>>, st: BarState, key: BarKey) -> (BarState, Response) {
    match st.open {
        None => (st, Response::NotConsumed),
        Some(m) => match key {
            BarKey::Up => (
                BarState {
                    highlighted: moved(st.highlighted, -1, item_total(menus, m as int)),
                    ..st
                },
                Response::Consumed,
            ),
            BarKey::Down => (
                BarState {
                    highlighted: moved(st.highlighted, 1, item_total(menus, m as int)),
                    ..st
                },
                Response::Consumed,
            ),
            BarKey::Enter => match st.highlighted {
                Some(i) => if i < item_total(menus, m as int) {
                    (closed(st), Response::Chose(m, i))
                } else {
                    (closed(st), Response::Consumed)
                },
                None => (closed(st), Response::Consumed),
            },
            BarKey::Esc => (closed(st), Response::Consumed),
            BarKey::Other => (st, Response::Consumed),
        },
    }
}

/// The state after an event, and the answer to it.
pub open spec fn step<Action>(
menus: Seq<Menu<Action>>,
st: BarState,
event: BarEvent,
bar: Rect,
) -> (BarState, Response) {
    match event {
        BarEvent::Click { column, row } => after_click(menus, st, bar, column, row),
        BarEvent::Hover { column, row } => after_hover(menus, st, bar, column, row),
        BarEvent::Key(key) => after_key(menus, st, key),
        BarEvent::Other => (st, Response::NotConsumed),
    }
}

/// `index + delta` taken modulo `len`, as a value in `0..len`.
fn wrapped(index: usize, delta: isize, len: usize) -> (r: usize)
    requires
        len > 0,
    ensures
        r as int == (index + delta) % (len as int),
{
    let shifted: i128 = index as i128 + delta as i128;
    let n: u128 = len as u128;
    if shifted >= 0 {
        let r: u128 = (shifted as u128) % n;
        r as usize
    } else {
        let a: u128 = (-shifted) as u128;
        let m: u128 = a % n;
        proof {
            let (ai, ni) = (a as int, n as int);
            lemma_fundamental_div_mod(ai, ni);
            let q = ai / ni;
            if m == 0 {
                assert(-ai == (-q) * ni + 0) by (nonlinear_arith)
                    requires
                        ai == q * ni + 0,
                ;
                lemma_fundamental_div_mod_converse(-ai, ni, -q, 0);
            } else {
                assert(-ai == (-q - 1) * ni + (ni - m)) by (nonlinear_arith)
                    requires
                        ai == q * ni + m,
                ;
                lemma_fundamental_div_mod_converse(-ai, ni, -q - 1, ni - m);
            }
        }
        if m == 0 {
            0
        } else {
            (n - m) as usize
        }
    }
}

/// The persistent top menu bar.
#[must_use]
pub struct TopBar<Action> {
    menus: Vec<Menu<Action>>,
    open: Option<usize>,
    hovered_label: Option<usize>,
    highlighted: Option<usize>,
}

impl<Action> TopBar<Action> {
    /// The menus shown in the bar.
    pub closed spec fn menu_seq(self) -> Seq<Menu<Action>> {
        self.menus@
    }

    /// The bar's state apart from its menus.
    pub closed spec fn state(self) -> BarState {
        BarState {
            open: self.open,
            hovered_label: self.hovered_label,
            highlighted: self.highlighted,
        }
    }

    /// The number of menus.
    pub open spec fn menu_count(self) -> int {
        self.menu_seq().len() as int
    }

    /// The items of menu `m`.
    pub open spec fn items(self, m: int) -> Seq<MenuItem<Action>> {
        self.menu_seq()[m].items@
    }

    /// The labels fit in the coordinate space when laid out in `bar`.
    pub open spec fn fits_labels(self, bar: Rect) -> bool {
        labels_fit(self.menu_seq(), bar)
    }

    /// The dropdown of menu `m` fits in the coordinate space under `bar`.
    pub open spec fn fits_dropdown(self, bar: Rect, m: int) -> bool {
        dropdown_fits(self.menu_seq(), bar, m)
    }

    /// What the mouse is resolved against fits in the coordinate space: the
    /// labels, and the open dropdown, if any.
    pub open spec fn fits_open(self, bar: Rect) -> bool {
        &&& self.fits_labels(bar)
        &&& self.state().open matches Some(m) ==> self.fits_dropdown(bar, m as int)
    }

    /// The label (by index) at the cell, if any.
    pub open spec fn label_at(self, bar: Rect, column: u16, row: u16) -> Option<usize> {
        label_at(self.menu_seq(), bar, column, row)
    }

    /// The dropdown of menu `m` in `bar`, if there is such a menu.
    pub open spec fn dropdown(self, bar: Rect, m: int) -> Option<Rect> {
        dropdown(self.menu_seq(), bar, m)
    }

    /// The item of the open dropdown at the cell, if any.
    pub open spec fn item_at(self, bar: Rect, column: u16, row: u16) -> Option<usize> {
        item_at(self.menu_seq(), self.state().open, bar, column, row)
    }

    /// The number of items of menu `m`, or zero where there is no such menu.
    pub open spec fn item_total(self, m: int) -> int {
        item_total(self.menu_seq(), m)
    }

    /// The state after a click, and the answer to it.
    pub open spec fn after_click(self, bar: Rect, column: u16, row: u16) -> (BarState, Response) {
        after_click(self.menu_seq(), self.state(), bar, column, row)
    }

    /// The state after the mouse moved to a cell, and the answer to it.
    pub open spec fn after_hover(self, bar: Rect, column: u16, row: u16) -> (BarState, Response) {
        after_hover(self.menu_seq(), self.state(), bar, column, row)
    }

    /// The state after a key press, and the answer to it.
    pub open spec fn after_key(self, key: BarKey) -> (BarState, Response) {
        after_key(self.menu_seq(), self.state(), key)
    }

    /// The state after an event, and the answer to it.
    pub open spec fn step(self, event: BarEvent, bar: Rect) -> (BarState, Response) {
        step(self.menu_seq(), self.state(), event, bar)
    }

    /// Whether `outcome` carries out `response` against these menus: a
    /// chosen item is answered with a clone of its action.
    pub open spec fn answers(self, outcome: TopBarOutcome<Action>, response: Response) -> bool
        where
            Action: Clone,
    {
        match response {
            Response::Chose(m, i) => outcome matches TopBarOutcome::Action(a) && cloned::<Action>(
                self.items(m as int)[i as int].action,
                a,
            ),
            Response::Consumed => outcome is Consumed,
            Response::NotConsumed => outcome is NotConsumed,
        }
    }
}

impl<Action> TopBar<Action> {
    /// The menus shown in the bar.
    pub fn menus(&self) -> (r: &[Menu<Action>])
        ensures
            r@ == self.menu_seq(),
    {
        self.menus.as_slice()
    }

    /// The open dropdown's menu index, if any.
    pub fn open_menu(&self) -> (r: Option<usize>)
        ensures
            r == self.state().open,
    {
        self.open
    }

    /// The menu label under the mouse, if any.
    pub fn hovered_label(&self) -> (r: Option<usize>)
        ensures
            r == self.state().hovered_label,
    {
        self.hovered_label
    }

    /// The highlighted item of the open dropdown, if any.
    pub fn highlighted(&self) -> (r: Option<usize>)
        ensures
            r == self.state().highlighted,
    {
        self.highlighted
    }

    /// Splits `area` into the 1-row bar strip and the remaining content area
    /// below it.
    pub fn split(area: Rect) -> (r: (Rect, Rect))
        ensures
            r == bar_layout(area, 1),
    {
        tui_bar_layout(area, 1)
    }

    /// Replaces this frame's menu contents.
    pub fn set_menus(&mut self, menus: Vec<Menu<Action>>)
        ensures
            final(self).menu_seq() == menus@,
            final(self).state() == old(self).state(),
    {
        self.menus = menus;
    }

    /// Opens the dropdown of menu `index`, with nothing highlighted.
    pub fn open(&mut self, index: usize)
        ensures
            final(self).menu_seq() == old(self).menu_seq(),
            final(self).state() == (BarState {
                open: Some(index),
                hovered_label: old(self).state().hovered_label,
                highlighted: None,
            }),
    {
        self.open = Some(index);
        self.highlighted = None;
    }

    /// Closes the open dropdown, if any, and clears its highlight.
    pub fn close(&mut self)
        ensures
            final(self).menu_seq() == old(self).menu_seq(),
            final(self).state() == closed(old(self).state()),
    {
        self.open = None;
        self.highlighted = None;
    }

    /// Closes any open dropdown and clears all highlight/hover state.
    pub fn reset(&mut self)
        ensures
            final(self).menu_seq() == old(self).menu_seq(),
            final(self).state() == (BarState { open: None, hovered_label: None, highlighted: None }),
    {
        self.close();
        self.hovered_label = None;
    }

    /// Moves the highlight by `delta` through `len` items, wrapping.
    pub fn move_highlight(&mut self, delta: isize, len: usize)
        ensures
            final(self).menu_seq() == old(self).menu_seq(),
            final(self).state() == (BarState {
                highlighted: moved(old(self).state().highlighted, delta as int, len as int),
                ..old(self).state()
            }),
    {
        if len == 0 {
            self.highlighted = None;
            return ;
        }
        let next = match self.highlighted {
            Some(index) => wrapped(index, delta, len),
            None => if delta > 0 {
                0
            } else {
                len - 1
            },
        };
        self.highlighted = Some(next);
    }

    /// The number of items of menu `menu_index`, or zero where there is no
    /// such menu.
    pub fn item_count(&self, menu_index: usize) -> (r: usize)
        ensures
            r == self.item_total(menu_index as int),
    {
        if menu_index < self.menus.len() {
            self.menus[menu_index].items.len()
        } else {
            0
        }
    }

    /// Returns the action triggered by the item `item_index` within menu
    /// `menu_index`. Returns `None` if no action can be found for the given
    /// values.
    pub fn action_at(&self, menu_index: usize, item_index: usize) -> (r: Option<Action>)
        where
            Action: Clone,
        ensures
            match r {
                Some(a) => menu_index < self.menu_count() && item_index < self.items(
                    menu_index as int,
                ).len() && cloned::<Action>(
                    self.items(menu_index as int)[item_index as int].action,
                    a,
                ),
                None => !(menu_index < self.menu_count() && item_index < self.items(
                    menu_index as int,
                ).len()),
            },
    {
        if menu_index < self.menus.len() && item_index < self.menus[menu_index].items.len() {
            Some(self.menus[menu_index].items[item_index].action.clone())
        } else {
            None
        }
    }
}

impl<Action> TopBar<Action> {
    /// Rect of each top-level label within the bar strip, left-to-right.
    pub fn menu_rects(&self, bar: Rect) -> (r: Vec<Rect>)
        requires
            self.fits_labels(bar),
        ensures
            r@.len() == self.menu_count(),
            forall|i: int| 0 <= i < r@.len() ==> r@[i] == #[trigger] label_rect(self.menu_seq(), bar, i),
    {
        let mut rects: Vec<Rect> = Vec::new();
        let mut x: u16 = bar.x;
        let mut i: usize = 0;
        while i < self.menus.len()
            invariant
                self.fits_labels(bar),
                i <= self.menu_count(),
                x == label_left(self.menu_seq(), bar, i as int),
                rects@.len() == i,
                forall|j: int| 0 <= j < i ==> rects@[j] == #[trigger] label_rect(self.menu_seq(), bar, j),
            decreases self.menus.len() - i,
        {
            proof {
                lemma_label_left_grows(self.menu_seq(), bar, i as int + 1, self.menu_count());
            }
            let count = to_u16(self.menus[i].label.as_str().unicode_len());
            let width: u16 = count + 4;
            let rect = Rect::new(x, bar.y, width, 1).intersection(bar);
            x = x + width;
            rects.push(rect);
            i = i + 1;
        }
        rects
    }

    /// Which top-level label (by index) is at `(column, row)`, if any.
    pub fn hit_test_bar(&self, bar: Rect, column: u16, row: u16) -> (r: Option<usize>)
        requires
            self.fits_labels(bar),
        ensures
            r == self.label_at(bar, column, row),
    {
        let rects = self.menu_rects(bar);
        let mut i: usize = 0;
        while i < rects.len()
            invariant
                rects@.len() == self.menu_count(),
                forall|j: int| 0 <= j < rects@.len() ==> rects@[j] == #[trigger] label_rect(self.menu_seq(), bar, j),
                i <= rects@.len(),
                self.label_at(bar, column, row) == label_from(self.menu_seq(), bar, column, row, i as int),
            decreases rects.len() - i,
        {
            if rects[i].contains(column, row) {
                return Some(i);
            }
            i = i + 1;
        }
        None
    }

    /// The widest item label of menu `m`, in characters.
    fn widest_item(&self, m: usize) -> (r: u16)
        requires
            m < self.menu_count(),
            forall|k: int|
                0 <= k < self.items(m as int).len() ==> #[trigger] wrapped_u16(
                    self.items(m as int)[k].label@.len() as int,
                ) + 4 <= u16::MAX,
        ensures
            r == widest_label(self.items(m as int), self.items(m as int).len() as int),
            r + 4 <= u16::MAX,
    {
        let items = &self.menus[m].items;
        let mut widest: u16 = 0;
        let mut k: usize = 0;
        while k < items.len()
            invariant
                items@ == self.items(m as int),
                forall|j: int|
                    0 <= j < self.items(m as int).len() ==> #[trigger] wrapped_u16(
                        self.items(m as int)[j].label@.len() as int,
                    ) + 4 <= u16::MAX,
                k <= items@.len(),
                widest == widest_label(items@, k as int),
            decreases items.len() - k,
        {
            let w = to_u16(items[k].label.as_str().unicode_len());
            if w > widest {
                widest = w;
            }
            k = k + 1;
        }
        proof {
            lemma_widest_label_bounded(items@, items@.len() as int);
        }
        widest
    }

    /// `Rect` of the open dropdown for menu `index`, anchored directly under
    /// its label.
    pub fn dropdown_rect(&self, bar: Rect, index: usize) -> (r: Option<Rect>)
        requires
            self.fits_labels(bar),
            self.fits_dropdown(bar, index as int),
        ensures
            r == self.dropdown(bar, index as int),
    {
        if index >= self.menus.len() {
            return None;
        }
        let label_rects = self.menu_rects(bar);
        let anchor = label_rects[index];
        assert(anchor == label_rect(self.menu_seq(), bar, index as int));
        assert(wrapped_u16(self.items(index as int).len() as int) + 2 <= u16::MAX);
        let width = self.widest_item(index) + 4;
        let height = to_u16(self.menus[index].items.len()) + 2;
        Some(Rect::new(anchor.x, anchor.y + 1, width, height))
    }

    /// Which item index (if any) is at `(column, row)` inside the currently
    /// open dropdown - shared by click and hover resolution.
    pub fn hovered_item(&self, bar: Rect, column: u16, row: u16) -> (r: Option<usize>)
        requires
            self.fits_open(bar),
        ensures
            r == self.item_at(bar, column, row),
    {
        let index = match self.open {
            Some(index) => index,
            None => return None,
        };
        if index >= self.menus.len() {
            return None;
        }
        let popup = match self.dropdown_rect(bar, index) {
            Some(popup) => popup,
            None => return None,
        };
        if !popup.contains(column, row) {
            return None;
        }
        // Row 0 of `popup` is the top border; items start at row 1.
        let first = popup.y + 1;
        if row < first {
            return None;
        }
        let item_row = (row - first) as usize;
        if item_row < self.menus[index].items.len() {
            Some(item_row)
        } else {
            None
        }
    }

    /// Which item's action (if any) was clicked inside the open dropdown.
    pub fn hit_test_dropdown(&self, bar: Rect, column: u16, row: u16) -> (r: Option<Action>)
        where
            Action: Clone,
        requires
            self.fits_open(bar),
        ensures
            match self.item_at(bar, column, row) {
                Some(i) => r matches Some(a) && cloned::<Action>(
                    self.items(self.state().open->0 as int)[i as int].action,
                    a,
                ),
                None => r is None,
            },
    {
        let index = match self.open {
            Some(index) => index,
            None => return None,
        };
        match self.hovered_item(bar, column, row) {
            Some(item_index) => self.action_at(index, item_index),
            None => None,
        }
    }
}

impl<Action> TopBar<Action> {
    /// Whether the labels, and the open dropdown if any, fit in the
    /// coordinate space when laid out in `bar`, which resolving the mouse
    /// against the bar needs.
    pub fn layout_fits(&self, bar: Rect) -> (r: bool)
        ensures
            r == self.fits_open(bar),
    {
        let mut left: u64 = bar.x as u64;
        let mut i: usize = 0;
        while i < self.menus.len()
            invariant
                i <= self.menu_count(),
                left == label_left(self.menu_seq(), bar, i as int),
                left <= u16::MAX,
            decreases self.menus.len() - i,
        {
            let width = to_u16(self.menus[i].label.as_str().unicode_len());
            if left + width as u64 + 4 > 0xFFFF {
                proof {
                    lemma_label_left_grows(self.menu_seq(), bar, i as int + 1, self.menu_count());
                }
                return false;
            }
            left = left + width as u64 + 4;
            i = i + 1;
        }
        let m = match self.open {
            Some(m) => m,
            None => return true,
        };
        if m >= self.menus.len() {
            return true;
        }
        if bar.y == u16::MAX {
            return false;
        }
        let items = &self.menus[m].items;
        if to_u16(items.len()) > 0xFFFF - 2 {
            return false;
        }
        let mut k: usize = 0;
        while k < items.len()
            invariant
                self.fits_labels(bar),
                self.state().open == Some(m),
                bar.y < u16::MAX,
                m < self.menu_count(),
                items@ == self.items(m as int),
                k <= items@.len(),
                forall|j: int|
                    0 <= j < k ==> #[trigger] wrapped_u16(items@[j].label@.len() as int) + 4
                        <= u16::MAX,
            decreases items.len() - k,
        {
            if to_u16(items[k].label.as_str().unicode_len()) > 0xFFFF - 4 {
                assert(!(wrapped_u16(self.items(m as int)[k as int].label@.len() as int) + 4
                    <= u16::MAX));
                return false;
            }
            k = k + 1;
        }
        true
    }
}

impl<Action: Clone> TopBar<Action> {
    /// Resolves a click at `(column, row)` against the bar.
    fn handle_click(&mut self, bar: Rect, column: u16, row: u16) -> (r: TopBarOutcome<Action>)
        requires
            old(self).fits_open(bar),
        ensures
            final(self).menu_seq() == old(self).menu_seq(),
            final(self).state() == old(self).after_click(bar, column, row).0,
            old(self).answers(r, old(self).after_click(bar, column, row).1),
    {
        if self.open.is_some() {
            match self.hit_test_dropdown(bar, column, row) {
                Some(action) => {
                    self.close();
                    return TopBarOutcome::Action(action);
                },
                None => {},
            }
        }
        match self.hit_test_bar(bar, column, row) {
            Some(index) => {
                if self.open == Some(index) {
                    self.close();
                } else {
                    self.open(index);
                }
                return TopBarOutcome::Consumed;
            },
            None => {},
        }
        if self.open.is_some() {
            self.close();
            return TopBarOutcome::Consumed;
        }
        TopBarOutcome::NotConsumed
    }

    /// Resolves the mouse moving to `(column, row)` against the bar.
    fn handle_hover(&mut self, bar: Rect, column: u16, row: u16) -> (r: TopBarOutcome<Action>)
        requires
            old(self).fits_open(bar),
        ensures
            final(self).menu_seq() == old(self).menu_seq(),
            final(self).state() == old(self).after_hover(bar, column, row).0,
            old(self).answers(r, old(self).after_hover(bar, column, row).1),
    {
        if self.open.is_some() {
            match self.hovered_item(bar, column, row) {
                Some(item_index) => {
                    self.highlighted = Some(item_index);
                    return TopBarOutcome::Consumed;
                },
                None => {},
            }
            self.highlighted = None;
        }
        match self.hit_test_bar(bar, column, row) {
            Some(label_index) => {
                self.hovered_label = Some(label_index);
                return TopBarOutcome::Consumed;
            },
            None => {},
        }
        self.hovered_label = None;
        TopBarOutcome::NotConsumed
    }

    /// Resolves a key press against the bar.
    fn handle_key(&mut self, key: BarKey) -> (r: TopBarOutcome<Action>)
        ensures
            final(self).menu_seq() == old(self).menu_seq(),
            final(self).state() == old(self).after_key(key).0,
            old(self).answers(r, old(self).after_key(key).1),
    {
        let index = match self.open {
            Some(index) => index,
            None => return TopBarOutcome::NotConsumed,
        };
        match key {
            BarKey::Up => {
                let len = self.item_count(index);
                self.move_highlight(-1, len);
            },
            BarKey::Down => {
                let len = self.item_count(index);
                self.move_highlight(1, len);
            },
            BarKey::Enter => {
                let action = match self.highlighted {
                    Some(item_index) => self.action_at(index, item_index),
                    None => None,
                };
                self.close();
                match action {
                    Some(action) => return TopBarOutcome::Action(action),
                    None => {},
                }
            },
            BarKey::Esc => self.close(),
            BarKey::Other => {},
        }
        TopBarOutcome::Consumed
    }

    /// Resolves an input event against the bar laid out in `bar`.
    pub fn handle_event(&mut self, event: BarEvent, bar: Rect) -> (r: TopBarOutcome<Action>)
        requires
            event is Click || event is Hover ==> old(self).fits_open(bar),
        ensures
            final(self).menu_seq() == old(self).menu_seq(),
            final(self).state() == old(self).step(event, bar).0,
            old(self).answers(r, old(self).step(event, bar).1),
    {
        match event {
            BarEvent::Click { column, row } => self.handle_click(bar, column, row),
            BarEvent::Hover { column, row } => self.handle_hover(bar, column, row),
            BarEvent::Key(key) => self.handle_key(key),
            BarEvent::Other => TopBarOutcome::NotConsumed,
        }
    }
}

impl<Action> Default for TopBar<Action> {
    /// A bar without menus, with nothing open, hovered or highlighted.
    fn default() -> (r: Self)
        ensures
            r.menu_seq() == Seq::<Menu<Action>>::empty(),
            r.state() == (BarState { open: None, hovered_label: None, highlighted: None }),
    {
        TopBar { menus: Vec::new(), open: None, hovered_label: None, highlighted: None }
    }
}

/// A found label is one whose cells hold the cell.
proof fn lemma_label_from_found<Action>(
    menus: Seq<Menu<Action>>,
    bar: Rect,
    column: u16,
    row: u16,
    i: int,
)
    requires
        0 <= i,
        menus.len() <= usize::MAX,
    ensures
        label_from(menus, bar, column, row, i) matches Some(k) ==> i <= k < menus.len()
            && label_rect(menus, bar, k as int).holds(column, row),
    decreases menus.len() - i,
{
    if i < menus.len() && !label_rect(menus, bar, i).holds(column, row) {
        lemma_label_from_found(menus, bar, column, row, i + 1);
    }
}

/// A cell of a label lies in the bar's own row.
proof fn lemma_label_cells_in_bar_row<Action>(
    menus: Seq<Menu<Action>>,
    bar: Rect,
    column: u16,
    row: u16,
)
    requires
        menus.len() <= usize::MAX,
    ensures
        label_at(menus, bar, column, row) is Some ==> row == bar.y,
{
    lemma_label_from_found(menus, bar, column, row, 0);
}

/// A left click is resolved as a click, a mouse move as a hover, a key press
/// by the keys' rules, and any other event is let through without changing
/// anything.
pub proof fn lemma_events_dispatch<Action>(
    menus: Seq<Menu<Action>>,
    st: BarState,
    bar: Rect,
    column: u16,
    row: u16,
    key: BarKey,
)
    ensures
        step(menus, st, BarEvent::Click { column, row }, bar) == after_click(menus, st, bar, column, row),
        step(menus, st, BarEvent::Hover { column, row }, bar) == after_hover(menus, st, bar, column, row),
        step(menus, st, BarEvent::Key(key), bar) == after_key(menus, st, key),
        step(menus, st, BarEvent::Other, bar) == (st, Response::NotConsumed),
{
}

/// A click that hits an item of the open dropdown chooses that item and
/// closes the dropdown; otherwise a click on a label opens that label's
/// dropdown, unless it is the one already open, which it closes; a click
/// anywhere else closes an open dropdown, and with none open it is let
/// through. A click never changes which label is hovered.
pub proof fn lemma_click_outcomes<Action>(
    menus: Seq<Menu<Action>>,
    st: BarState,
    bar: Rect,
    column: u16,
    row: u16,
)
    ensures
        st.open matches Some(j) ==> (item_at(menus, st.open, bar, column, row) matches Some(k)
            ==> after_click(menus, st, bar, column, row) == (
            BarState { open: None, hovered_label: st.hovered_label, highlighted: None },
            Response::Chose(j, k),
        )),
        item_at(menus, st.open, bar, column, row) is None ==> (label_at(menus, bar, column, row)
            matches Some(i) ==> (st.open != Some(i) ==> after_click(menus, st, bar, column, row)
            == (
            BarState { open: Some(i), hovered_label: st.hovered_label, highlighted: None },
            Response::Consumed,
        ))),
        item_at(menus, st.open, bar, column, row) is None ==> (label_at(menus, bar, column, row)
            matches Some(i) ==> (st.open == Some(i) ==> after_click(menus, st, bar, column, row)
            == (
            BarState { open: None, hovered_label: st.hovered_label, highlighted: None },
            Response::Consumed,
        ))),
        item_at(menus, st.open, bar, column, row) is None && label_at(menus, bar, column, row)
            is None && st.open is Some ==> after_click(menus, st, bar, column, row) == (
            BarState { open: None, hovered_label: st.hovered_label, highlighted: None },
            Response::Consumed,
        ),
        st.open is None && label_at(menus, bar, column, row) is None ==> after_click(
            menus,
            st,
            bar,
            column,
            row,
        ) == (st, Response::NotConsumed),
{
}

/// An item is found only in the open dropdown, at a cell inside it, on the
/// row of that item below the dropdown's top border; and every such cell of
/// the open dropdown finds its item.
pub proof fn lemma_items_lie_in_the_open_dropdown<Action>(
    menus: Seq<Menu<Action>>,
    open: Option<usize>,
    bar: Rect,
    column: u16,
    row: u16,
)
    ensures
        item_at(menus, open, bar, column, row) matches Some(k) ==> {
            &&& open matches Some(m)
            &&& m < menus.len()
            &&& k < menus[m as int].items@.len()
            &&& dropdown(menus, bar, m as int) matches Some(p)
            &&& p.holds(column, row)
            &&& row == p.y + 1 + k
        },
        open matches Some(m) ==> (dropdown(menus, bar, m as int) matches Some(p) ==> (p.holds(
            column,
            row,
        ) && p.y + 1 <= row < p.y + 1 + menus[m as int].items@.len() ==> item_at(
            menus,
            open,
            bar,
            column,
            row,
        ) == Some((row - p.y - 1) as usize))),
        open is None ==> item_at(menus, open, bar, column, row) is None,
{
}

/// A label is found only at a cell of its own label, in the bar's row, and
/// no earlier label holds that cell.
pub proof fn lemma_labels_hold_their_cells<Action>(
    menus: Seq<Menu<Action>>,
    bar: Rect,
    column: u16,
    row: u16,
)
    requires
        menus.len() <= usize::MAX,
    ensures
        label_at(menus, bar, column, row) matches Some(i) ==> {
            &&& i < menus.len()
            &&& label_rect(menus, bar, i as int).holds(column, row)
            &&& row == bar.y
            &&& forall|j: int| 0 <= j < i ==> !(#[trigger] label_rect(menus, bar, j)).holds(column, row)
        },
        label_at(menus, bar, column, row) is None ==> forall|j: int|
            0 <= j < menus.len() ==> !(#[trigger] label_rect(menus, bar, j)).holds(column, row),
{
    lemma_label_from_first(menus, bar, column, row, 0);
    lemma_label_cells_in_bar_row(menus, bar, column, row);
}

/// The label that `label_from` finds from `i` on is the first that holds the
/// cell.
proof fn lemma_label_from_first<Action>(
    menus: Seq<Menu<Action>>,
    bar: Rect,
    column: u16,
    row: u16,
    i: int,
)
    requires
        0 <= i,
        menus.len() <= usize::MAX,
    ensures
        label_from(menus, bar, column, row, i) matches Some(k) ==> i <= k < menus.len()
            && label_rect(menus, bar, k as int).holds(column, row) && forall|j: int|
            i <= j < k ==> !(#[trigger] label_rect(menus, bar, j)).holds(column, row),
        label_from(menus, bar, column, row, i) is None ==> forall|j: int|
            i <= j < menus.len() ==> !(#[trigger] label_rect(menus, bar, j)).holds(column, row),
    decreases menus.len() - i,
{
    if i < menus.len() && !label_rect(menus, bar, i).holds(column, row) {
        lemma_label_from_first(menus, bar, column, row, i + 1);
    }
}

/// Moving the mouse never opens or closes a dropdown. Over an item of the
/// open dropdown it highlights that item and is consumed; elsewhere it
/// clears the highlight of an open dropdown, hovers the label under it, if
/// any, and is consumed exactly when there is one.
pub proof fn lemma_hover_outcomes<Action>(
    menus: Seq<Menu<Action>>,
    st: BarState,
    bar: Rect,
    column: u16,
    row: u16,
)
    ensures
        after_hover(menus, st, bar, column, row).0.open == st.open,
        item_at(menus, st.open, bar, column, row) matches Some(k) ==> after_hover(
            menus,
            st,
            bar,
            column,
            row,
        ) == (
            BarState { open: st.open, hovered_label: st.hovered_label, highlighted: Some(k) },
            Response::Consumed,
        ),
        item_at(menus, st.open, bar, column, row) is None ==> {
            &&& after_hover(menus, st, bar, column, row).0.hovered_label == label_at(
                menus,
                bar,
                column,
                row,
            )
            &&& after_hover(menus, st, bar, column, row).0.highlighted == if st.open is Some {
                None
            } else {
                st.highlighted
            }
            &&& (after_hover(menus, st, bar, column, row).1 is Consumed) == (label_at(
                menus,
                bar,
                column,
                row,
            ) is Some)
            &&& !(after_hover(menus, st, bar, column, row).1 is Chose)
        },
{
}

/// With a dropdown of `n` items open, `Down` highlights the next item and
/// `Up` the previous one, wrapping around at either end, and from no
/// highlight they start at the first and at the last item; `Enter` chooses
/// the highlighted item, if there is one, and closes the dropdown; `Esc`
/// closes it; every key is consumed, and no key but `Enter` and `Esc`
/// changes which dropdown is open.
pub proof fn lemma_key_outcomes<Action>(menus: Seq<Menu<Action>>, st: BarState, key: BarKey)
    requires
        st.open is Some,
    ensures
        (st.highlighted matches Some(i) ==> i < item_total(menus, st.open->0 as int)) ==> ({
            let n = item_total(menus, st.open->0 as int);
            let down = after_key(menus, st, BarKey::Down);
            let up = after_key(menus, st, BarKey::Up);
            &&& down.1 is Consumed && up.1 is Consumed
            &&& down.0.open == st.open && up.0.open == st.open
            &&& down.0.hovered_label == st.hovered_label && up.0.hovered_label == st.hovered_label
            &&& n == 0 ==> down.0.highlighted is None && up.0.highlighted is None
            &&& n > 0 ==> down.0.highlighted == Some(
                match st.highlighted {
                    Some(i) => if i + 1 < n {
                        (i + 1) as usize
                    } else {
                        0usize
                    },
                    None => 0usize,
                },
            )
            &&& n > 0 ==> up.0.highlighted == Some(
                match st.highlighted {
                    Some(i) => if i > 0 {
                        (i - 1) as usize
                    } else {
                        (n - 1) as usize
                    },
                    None => (n - 1) as usize,
                },
            )
        }),
        st.highlighted matches Some(i) ==> (i < item_total(menus, st.open->0 as int)
            ==> after_key(menus, st, BarKey::Enter) == (
            BarState { open: None, hovered_label: st.hovered_label, highlighted: None },
            Response::Chose(st.open->0, i),
        )),
        st.highlighted matches Some(i) ==> (i >= item_total(menus, st.open->0 as int)
            ==> after_key(menus, st, BarKey::Enter) == (
            BarState { open: None, hovered_label: st.hovered_label, highlighted: None },
            Response::Consumed,
        )),
        st.highlighted is None ==> after_key(menus, st, BarKey::Enter) == (
            BarState { open: None, hovered_label: st.hovered_label, highlighted: None },
            Response::Consumed,
        ),
        after_key(menus, st, BarKey::Esc) == (
            BarState { open: None, hovered_label: st.hovered_label, highlighted: None },
            Response::Consumed,
        ),
        after_key(menus, st, BarKey::Other) == (st, Response::Consumed),
{
    let n = item_total(menus, st.open->0 as int);
    if n > 0 {
        if let Some(i) = st.highlighted {
            if i >= n {
                return ;
            }
            if i + 1 < n {
                lemma_small_mod((i + 1) as nat, n as nat);
            } else {
                lemma_mod_self_0(n);
            }
            if i > 0 {
                lemma_small_mod((i - 1) as nat, n as nat);
            } else {
                lemma_mod_add_multiples_vanish(-1, n);
                lemma_small_mod((n - 1) as nat, n as nat);
            }
        }
    }
}

/// The widest of the first `k` item labels is at least as wide as each of
/// them, and is the width of one of them (or zero where there are none).
pub proof fn lemma_widest_label_is_widest<Action>(items: Seq<MenuItem<Action>>, k: int)
    requires
        0 <= k <= items.len(),
    ensures
        forall|j: int|
            0 <= j < k ==> wrapped_u16(#[trigger] items[j].label@.len() as int) <= widest_label(
                items,
                k,
            ),
        k == 0 ==> widest_label(items, k) == 0,
        k > 0 ==> exists|j: int|
            0 <= j < k && widest_label(items, k) == wrapped_u16(#[trigger] items[j].label@.len() as int),
    decreases k,
{
    if k > 0 {
        lemma_widest_label_is_widest(items, k - 1);
        if k > 1 {
            let j0 = choose|j: int|
                0 <= j < k - 1 && widest_label(items, k - 1) == wrapped_u16(
                    #[trigger] items[j].label@.len() as int,
                );
            assert(0 <= j0 < k);
        }
        assert(wrapped_u16(items[k - 1].label@.len() as int) <= widest_label(items, k));
    }
}

/// Where the labels lie within `bar` (and the bar's row within the
/// coordinate space), they stand side by side in the bar's row from its left
/// edge, each as wide as its text padded by two cells on
/// each side, and one row tall.
pub proof fn lemma_labels_side_by_side<Action>(menus: Seq<Menu<Action>>, bar: Rect, i: int)
    requires
        0 <= i < menus.len(),
        bar.height >= 1,
        bar.y < u16::MAX,
        label_left(menus, bar, i + 1) <= bar.x + bar.width,
        bar.x + bar.width <= u16::MAX,
    ensures
        label_left(menus, bar, 0) == bar.x,
        label_left(menus, bar, i + 1) == label_left(menus, bar, i) + wrapped_u16(
            menus[i].label@.len() as int,
        ) + 4,
        label_rect(menus, bar, i) == (Rect {
            x: label_left(menus, bar, i) as u16,
            y: bar.y,
            width: (wrapped_u16(menus[i].label@.len() as int) + 4) as u16,
            height: 1,
        }),
{
    lemma_label_left_grows(menus, bar, 0, i);
    let left = label_left(menus, bar, i);
    let w = label_width(menus, i);
    assert(left + w == label_left(menus, bar, i + 1));
    assert(Rect::clipped(left as u16, bar.y, w as u16, 1) == (Rect {
        x: left as u16,
        y: bar.y,
        width: w as u16,
        height: 1,
    }));
}

/// The dropdown of a menu opens directly under its label, starting at the
/// label's left edge; where it is not cut at the edge of the coordinate
/// space, it is four cells wider than its widest item and two rows taller
/// than its item count.
pub proof fn lemma_dropdown_under_label<Action>(menus: Seq<Menu<Action>>, bar: Rect, m: int)
    requires
        0 <= m < menus.len(),
        dropdown_fits(menus, bar, m),
    ensures
        dropdown(menus, bar, m) matches Some(p) && {
            &&& p.x == label_rect(menus, bar, m).x
            &&& p.y == label_rect(menus, bar, m).y + 1
            &&& p.x + widest_label(menus[m].items@, menus[m].items@.len() as int) + 4 <= u16::MAX
                ==> p.width == widest_label(menus[m].items@, menus[m].items@.len() as int) + 4
            &&& p.y + wrapped_u16(menus[m].items@.len() as int) + 2 <= u16::MAX ==> p.height
                == wrapped_u16(menus[m].items@.len() as int) + 2
            &&& p.x + widest_label(menus[m].items@, menus[m].items@.len() as int) + 4 <= u16::MAX
                ==> forall|k: int|
                0 <= k < menus[m].items@.len() ==> wrapped_u16(
                    #[trigger] menus[m].items@[k].label@.len() as int,
                ) + 4 <= p.width
        },
{
    let items = menus[m].items@;
    lemma_widest_label_bounded(items, items.len() as int);
    lemma_widest_label_is_widest(items, items.len() as int);
    let anchor = label_rect(menus, bar, m);
    assert(anchor.y <= bar.y + bar.height);
    assert(anchor.y < u16::MAX) by {
        assert(anchor.y == max_u16(bar.y, bar.y));
    }
}

/// An item is only ever chosen from the dropdown that was open, it names an
/// existing item, and choosing it closes the dropdown.
pub proof fn lemma_choice_closes_dropdown<Action>(
    menus: Seq<Menu<Action>>,
    st: BarState,
    event: BarEvent,
    bar: Rect,
)
    ensures
        step(menus, st, event, bar).1 matches Response::Chose(m, i) ==> {
            &&& step(menus, st, event, bar).0.open is None
            &&& step(menus, st, event, bar).0.highlighted is None
            &&& st.open == Some(m)
            &&& m < menus.len()
            &&& i < menus[m as int].items@.len()
        },
{
}

/// An event the bar lets through leaves the open dropdown as it was.
pub proof fn lemma_unconsumed_keeps_dropdown<Action>(
    menus: Seq<Menu<Action>>,
    st: BarState,
    event: BarEvent,
    bar: Rect,
)
    ensures
        step(menus, st, event, bar).1 is NotConsumed ==> step(menus, st, event, bar).0.open
            == st.open,
{
}

/// Moving the mouse never opens or closes a dropdown.
pub proof fn lemma_hover_keeps_dropdown<Action>(
    menus: Seq<Menu<Action>>,
    st: BarState,
    bar: Rect,
    column: u16,
    row: u16,
)
    ensures
        step(menus, st, BarEvent::Hover { column, row }, bar).0.open == st.open,
{
}

/// Keys only act on an open dropdown: with none open, a key press is let
/// through and changes nothing; with one open, every key is consumed and
/// `Esc` closes it.
pub proof fn lemma_keys_need_open_dropdown<Action>(
    menus: Seq<Menu<Action>>,
    st: BarState,
    key: BarKey,
)
    ensures
        st.open is None ==> after_key(menus, st, key) == (st, Response::NotConsumed),
        st.open is Some ==> !(after_key(menus, st, key).1 is NotConsumed),
        st.open is Some ==> after_key(menus, st, BarKey::Esc) == (closed(st), Response::Consumed),
{
}

/// Clicking a label with no dropdown open opens that label's dropdown with
/// nothing highlighted, and clicking the same cell again closes it.
pub proof fn lemma_label_click_toggles<Action>(
    menus: Seq<Menu<Action>>,
    st: BarState,
    bar: Rect,
    column: u16,
    row: u16,
)
    requires
        menus.len() <= usize::MAX,
        st.open is None,
        label_at(menus, bar, column, row) is Some,
    ensures
        after_click(menus, st, bar, column, row).1 is Consumed,
        after_click(menus, st, bar, column, row).0.open == label_at(menus, bar, column, row),
        after_click(menus, st, bar, column, row).0.highlighted is None,
        after_click(menus, after_click(menus, st, bar, column, row).0, bar, column, row)
            == (closed(after_click(menus, st, bar, column, row).0), Response::Consumed),
{
    lemma_label_cells_in_bar_row(menus, bar, column, row);
    let s1 = after_click(menus, st, bar, column, row).0;
    assert(item_at(menus, s1.open, bar, column, row) is None);
}

/// A moved highlight always names one of the `len` items, and there is
/// none when there are no items.
pub proof fn lemma_moved_in_range(highlighted: Option<usize>, delta: int, len: int)
    requires
        len <= usize::MAX,
    ensures
        len <= 0 ==> moved(highlighted, delta, len) is None,
        len > 0 ==> (moved(highlighted, delta, len) matches Some(j) && j < len),
{
}

/// Moving a highlight `i` by any `delta` through `len` items lands on the
/// item that is `delta` steps on from `i`, counted around the `len` items:
/// it is one of the items and differs from `i + delta` by a whole number of
/// rounds.
pub proof fn lemma_moved_steps_around(i: usize, delta: int, len: int)
    requires
        0 < len <= usize::MAX,
    ensures
        moved(Some(i), delta, len) matches Some(j) && j < len && (j - (i + delta)) % len == 0,
{
    lemma_fundamental_div_mod(i + delta, len);
    let q = (i + delta) / len;
    let j = (i + delta) % len;
    assert(j - (i + delta) == (-q) * len + 0) by (nonlinear_arith)
        requires
            i + delta == len * q + j,
    ;
    lemma_fundamental_div_mod_converse(j - (i + delta), len, -q, 0);
}

/// Moving the highlight one item down and then one up, or up then down,
/// returns it to where it was.
pub proof fn lemma_moves_undo(i: usize, len: int)
    requires
        i < len <= usize::MAX,
    ensures
        moved(moved(Some(i), 1, len), -1, len) == Some(i),
        moved(moved(Some(i), -1, len), 1, len) == Some(i),
{
    lemma_small_mod(i as nat, len as nat);
    if i + 1 < len {
        lemma_small_mod((i + 1) as nat, len as nat);
    } else {
        lemma_mod_self_0(len);
        lemma_mod_add_multiples_vanish(-1, len);
        lemma_small_mod((len - 1) as nat, len as nat);
    }
    if i >= 1 {
        lemma_small_mod((i - 1) as nat, len as nat);
    } else {
        lemma_mod_add_multiples_vanish(-1, len);
        lemma_small_mod((len - 1) as nat, len as nat);
        lemma_mod_self_0(len);
    }
}

} // verus!
