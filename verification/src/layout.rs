//! Rectangular areas of terminal cells, with the geometry the desktop needs.
//! The arithmetic is delegated to `ratatui`'s own `Rect`.

use ratatui::layout::{Constraint, Direction, Layout};
use vstd::prelude::*;

verus! {

/// A rectangular area of terminal cells: its top-left corner and its size.
#[derive(Clone, Copy, Debug, Default, PartialEq, Eq, Structural, Hash)]
pub struct Rect {
    pub x: u16,
    pub y: u16,
    pub width: u16,
    pub height: u16,
}

/// `a + b`, or `u16::MAX` where the sum does not fit.
pub open spec fn saturated_sum(a: u16, b: u16) -> u16 {
    if a + b > u16::MAX {
        u16::MAX
    } else {
        (a + b) as u16
    }
}

/// `a - b`, or zero where `b` exceeds `a`.
pub open spec fn saturated_diff(a: u16, b: u16) -> u16 {
    if a < b {
        0
    } else {
        (a - b) as u16
    }
}

pub open spec fn max_u16(a: u16, b: u16) -> u16 {
    if a < b {
        b
    } else {
        a
    }
}

pub open spec fn min_u16(a: u16, b: u16) -> u16 {
    if a < b {
        a
    } else {
        b
    }
}

impl Rect {
    /// The rect at `(x, y)` of the given size, with the size cut so that the
    /// rect ends within the `u16` coordinate space.
    pub open spec fn clipped(x: u16, y: u16, width: u16, height: u16) -> Rect {
        Rect {
            x,
            y,
            width: if width > u16::MAX - x {
                (u16::MAX - x) as u16
            } else {
                width
            },
            height: if height > u16::MAX - y {
                (u16::MAX - y) as u16
            } else {
                height
            },
        }
    }

    /// The first column right of this rect (saturating).
    pub open spec fn right(self) -> u16 {
        saturated_sum(self.x, self.width)
    }

    /// The first row below this rect (saturating).
    pub open spec fn bottom(self) -> u16 {
        saturated_sum(self.y, self.height)
    }

    /// Whether the cell at `(column, row)` lies in this rect.
    pub open spec fn holds(self, column: u16, row: u16) -> bool {
        self.x <= column < self.right() && self.y <= row < self.bottom()
    }

    /// The part of this rect that lies within `other`; where they do not
    /// overlap, a rect of no width or no height.
    pub open spec fn overlap(self, other: Rect) -> Rect {
        let x1 = max_u16(self.x, other.x);
        let y1 = max_u16(self.y, other.y);
        let x2 = min_u16(self.right(), other.right());
        let y2 = min_u16(self.bottom(), other.bottom());
        Rect { x: x1, y: y1, width: saturated_diff(x2, x1), height: saturated_diff(y2, y1) }
    }

    /// Makes a rect at `(x, y)` of the given size, cut to end within the
    /// `u16` coordinate space.
    pub fn new(x: u16, y: u16, width: u16, height: u16) -> (r: Rect)
        ensures
            r == Rect::clipped(x, y, width, height),
    {
        tui_rect_new(x, y, width, height)
    }

    /// The part of this rect that lies within `other`.
    pub fn intersection(self, other: Rect) -> (r: Rect)
        ensures
            r == self.overlap(other),
    {
        tui_rect_intersection(self, other)
    }

    /// Whether the cell at `(column, row)` lies in this rect.
    pub fn contains(self, column: u16, row: u16) -> (r: bool)
        ensures
            r == self.holds(column, row),
    {
        tui_rect_contains(self, column, row)
    }
}

/// A cell lies in the overlap of two rects exactly when it lies in both, and
/// the overlap lies within each of them.
pub proof fn lemma_overlap_is_intersection(a: Rect, b: Rect, column: u16, row: u16)
    ensures
        a.overlap(b).holds(column, row) <==> a.holds(column, row) && b.holds(column, row),
        a.overlap(b).holds(column, row) == b.overlap(a).holds(column, row),
{
}

/// A cell lies in the rect made at `(x, y)` of a given size exactly when it
/// is at or right of `x` and left of `x + width`, and at or below `y` and
/// above `y + height`; the last column and row of the coordinate space lie
/// in no such rect.
pub proof fn lemma_clipped_holds(x: u16, y: u16, width: u16, height: u16, column: u16, row: u16)
    ensures
        Rect::clipped(x, y, width, height).holds(column, row) <==> x <= column < x + width
            && column < u16::MAX && y <= row < y + height && row < u16::MAX,
{
}

/// `ratatui::layout::Rect::new`: keeps `x` and `y` and cuts `width` to at
/// most `u16::MAX - x` and `height` to at most `u16::MAX - y`.
#[verifier::external_body]
fn tui_rect_new(x: u16, y: u16, width: u16, height: u16) -> (r: Rect)
    ensures
        r == Rect::clipped(x, y, width, height),
{
    let r = ratatui::layout::Rect::new(x, y, width, height);
    Rect { x: r.x, y: r.y, width: r.width, height: r.height }
}

/// `ratatui::layout::Rect::intersection`: the corner is the larger of the
/// two left and top edges, the far corner the smaller of the two saturating
/// right and bottom edges, and the size their saturating difference.
#[verifier::external_body]
fn tui_rect_intersection(a: Rect, b: Rect) -> (r: Rect)
    ensures
        r == a.overlap(b),
{
    let a = ratatui::layout::Rect { x: a.x, y: a.y, width: a.width, height: a.height };
    let b = ratatui::layout::Rect { x: b.x, y: b.y, width: b.width, height: b.height };
    let r = a.intersection(b);
    Rect { x: r.x, y: r.y, width: r.width, height: r.height }
}

/// `ratatui::layout::Rect::contains`: the position is inside when it is at
/// or right of the left edge, left of the saturating right edge, and
/// likewise vertically.
#[verifier::external_body]
fn tui_rect_contains(a: Rect, column: u16, row: u16) -> (r: bool)
    ensures
        r == a.holds(column, row),
{
    let a = ratatui::layout::Rect { x: a.x, y: a.y, width: a.width, height: a.height };
    a.contains(ratatui::layout::Position { x: column, y: row })
}

/// What `ratatui`'s layout solver makes of `area` split vertically into a
/// strip of `Constraint::Length(rows)` above a rest of `Constraint::Min(0)`.
pub uninterp spec fn bar_layout(area: Rect, rows: u16) -> (Rect, Rect);

/// `ratatui::layout::Layout::split` of `area`, vertically, into a strip of
/// `rows` rows and the rest below it. The result comes from a floating-point
/// constraint solver, and its documentation gives the shape of the split for
/// one example area only; so the rects are only named, as what the solver
/// gives for `area` and `rows`, and nothing is claimed of their geometry.
#[verifier::external_body]
pub(crate) fn tui_bar_layout(area: Rect, rows: u16) -> (r: (Rect, Rect))
    ensures
        r == bar_layout(area, rows),
{
    let area = ratatui::layout::Rect { x: area.x, y: area.y, width: area.width, height: area.height };
    let chunks = Layout::default().direction(Direction::Vertical).constraints(
        [Constraint::Length(rows), Constraint::Min(0)],
    ).split(area);
    let (a, b) = (chunks[0], chunks[1]);
    (
        Rect { x: a.x, y: a.y, width: a.width, height: a.height },
        Rect { x: b.x, y: b.y, width: b.width, height: b.height },
    )
}

} // verus!
