//! The desktop behind the top bar: launchable icons laid out on a grid,
//! a selection moved by the arrow keys, and icon names cut to fit.

use vstd::arithmetic::div_mod::{lemma_fundamental_div_mod, lemma_fundamental_div_mod_converse};
use vstd::prelude::*;
use vstd::string::*;

use crate::layout::Rect;

verus! {

/// Rows of glyphs in a desktop icon.
pub const ICON_ROWS: usize = 5;

/// Columns of glyphs in a desktop icon.
pub const ICON_COLS: usize = 9;

/// Config for the `Grid`.
#[derive(Clone, Copy, Debug, PartialEq, Eq, Structural)]
pub struct GridConfig {
    pub cell_width: u16,
    pub cell_height: u16,
    pub inset_x: u16,
    pub inset_y: u16,
}

/// The layout of the desktop's icon grid: an icon and its name fill a cell
/// two glyphs wider and two taller than the icon.
pub open spec fn desktop_grid_config() -> GridConfig {
    GridConfig {
        cell_width: (ICON_COLS + 2) as u16,
        cell_height: (ICON_ROWS + 2) as u16,
        inset_x: 2,
        inset_y: 1,
    }
}

/// The layout of the desktop's icon grid.
pub fn grid_config() -> (r: GridConfig)
    ensures
        r == desktop_grid_config(),
{
    GridConfig { cell_width: ICON_COLS as u16 + 2, cell_height: ICON_ROWS as u16 + 2, inset_x: 2, inset_y: 1 }
}

/// Wraps raw usable area into grid.
#[must_use]
#[derive(Clone, Copy, Debug)]
pub struct Grid {
    config: GridConfig,
    area: Rect,
    width: usize,
}

/// A direction to move the selection in.
#[derive(Clone, Copy, Debug, PartialEq, Eq, Structural)]
pub enum Direction {
    Up,
    Down,
    Left,
    Right,
}

/// The columns of a grid with `config` in an area `area_width` wide: as many
/// cells with their gaps as fit after the left inset, and at least one.
pub open spec fn grid_columns(config: GridConfig, area_width: u16) -> int {
    let usable = if area_width < config.inset_x {
        0
    } else {
        area_width - config.inset_x
    };
    let columns = usable / (config.cell_width + config.inset_x);
    if columns < 1 {
        1
    } else {
        columns
    }
}

impl Grid {
    /// The config the grid was made with.
    pub closed spec fn config_spec(self) -> GridConfig {
        self.config
    }

    /// The area the grid lays its cells out in.
    pub closed spec fn area_spec(self) -> Rect {
        self.area
    }

    /// The number of columns of the grid.
    pub closed spec fn columns(self) -> int {
        self.width as int
    }

    /// A grid has at least one column and cells with a positive pitch.
    pub open spec fn wf(self) -> bool {
        &&& self.columns() == grid_columns(self.config_spec(), self.area_spec().width)
        &&& 0 < self.config_spec().cell_width + self.config_spec().inset_x <= u16::MAX
    }

    /// Row and column of item `index`: items fill the rows left to right.
    pub open spec fn position_spec(self, index: int) -> (int, int) {
        (index / self.columns(), (index as int) % self.columns())
    }

    /// The left column of the cell of item `index`.
    pub open spec fn cell_x(self, index: int) -> int {
        self.area_spec().x + self.config_spec().inset_x + ((index as int) % self.columns()) * (
        self.config_spec().cell_width + self.config_spec().inset_x)
    }

    /// The top row of the cell of item `index`.
    pub open spec fn cell_y(self, index: int) -> int {
        self.area_spec().y + self.config_spec().inset_y + (index / self.columns())
            * self.config_spec().cell_height
    }

    /// The cell of item `index`, cut to the grid's area.
    pub open spec fn cell_rect(self, index: int) -> Rect {
        Rect::clipped(
            self.cell_x(index) as u16,
            self.cell_y(index) as u16,
            self.config_spec().cell_width,
            self.config_spec().cell_height,
        ).overlap(self.area_spec())
    }

    /// The cell of item `index` lies within the coordinate space.
    pub open spec fn cell_fits(self, index: int) -> bool {
        self.cell_x(index) <= u16::MAX && self.cell_y(index) <= u16::MAX
    }

    /// Scanning items `i..len` in order for the first whose cell holds the
    /// cell `(column, row)`, each cell the scan reaches lies within the
    /// coordinate space.
    pub open spec fn scan_fits(self, len: int, column: u16, row: u16, i: int) -> bool
        decreases len - i,
    {
        if i < 0 || i >= len {
            true
        } else {
            self.cell_fits(i) && (self.cell_rect(i).holds(column, row) || self.scan_fits(
                len,
                column,
                row,
                i + 1,
            ))
        }
    }

    /// The cells of the first `len` items lie within the coordinate space.
    pub open spec fn fits(self, len: int) -> bool {
        forall|i: int| 0 <= i < len ==> #[trigger] self.cell_x(i) <= u16::MAX && self.cell_y(i) <= u16::MAX
    }

    /// The first of items `i..len` whose cell holds the cell.
    pub open spec fn item_from(self, len: int, column: u16, row: u16, i: int) -> Option<usize>
        decreases len - i,
    {
        if i < 0 || i >= len {
            None
        } else if self.cell_rect(i).holds(column, row) {
            Some(i as usize)
        } else {
            self.item_from(len, column, row, i + 1)
        }
    }

    /// The grid that `new` makes.
    pub closed spec fn new_spec(config: GridConfig, area: Rect) -> Grid {
        Grid { config, area, width: grid_columns(config, area.width) as usize }
    }

    /// The grid that `new` makes has the given config and area, and as many
    /// columns as fit in the area's width.
    pub proof fn lemma_new_spec(config: GridConfig, area: Rect)
        requires
            0 < config.cell_width + config.inset_x <= u16::MAX,
        ensures
            Grid::new_spec(config, area).config_spec() == config,
            Grid::new_spec(config, area).area_spec() == area,
            Grid::new_spec(config, area).columns() == grid_columns(config, area.width),
            Grid::new_spec(config, area).wf(),
    {
        let usable: int = if area.width < config.inset_x {
            0
        } else {
            area.width - config.inset_x
        };
        let pitch: int = config.cell_width + config.inset_x;
        assert(usable / pitch <= usable) by (nonlinear_arith)
            requires
                0 <= usable,
                0 < pitch,
        ;
    }

    /// Makes new `Grid` from the given area.
    pub fn new(config: GridConfig, area: Rect) -> (r: Grid)
        requires
            0 < config.cell_width + config.inset_x <= u16::MAX,
        ensures
            r.wf(),
            r.config_spec() == config,
            r.area_spec() == area,
            r.columns() == grid_columns(config, area.width),
            r == Grid::new_spec(config, area),
    {
        let usable = area.width.saturating_sub(config.inset_x);
        let columns = usable / (config.cell_width + config.inset_x);
        let width = if columns < 1 {
            1
        } else {
            columns
        } as usize;
        Grid { config, area, width }
    }

    /// The number of columns of this grid.
    pub fn column_count(&self) -> (r: usize)
        ensures
            r == self.columns(),
    {
        self.width
    }

    /// The cell of item `index`.
    fn cell(&self, index: usize) -> (r: Rect)
        requires
            self.wf(),
            self.cell_fits(index as int),
        ensures
            r == self.cell_rect(index as int),
    {
        let width = self.width;
        let pitch = self.config.cell_width + self.config.inset_x;
        let col = index % width;
        let row = index / width;
        assert(col * pitch <= self.cell_x(index as int));
        assert(0 <= row * self.config.cell_height <= self.cell_y(index as int)) by (nonlinear_arith)
            requires
                row >= 0,
                self.config.cell_height >= 0,
                self.cell_y(index as int) == self.area.y + self.config.inset_y + row
                    * self.config.cell_height,
        ;
        proof {
            if self.config.cell_height > 0 {
                assert(row <= u16::MAX) by (nonlinear_arith)
                    requires
                        row * self.config.cell_height <= u16::MAX,
                        self.config.cell_height >= 1,
                        row >= 0,
                ;
                assert((row as u16) as int == row as int);
            }
            let r16 = row as u16;
            assert(r16 * self.config.cell_height == row * self.config.cell_height) by (nonlinear_arith)
                requires
                    self.config.cell_height == 0 || r16 as int == row as int,
            ;
        }
        let x = self.area.x + self.config.inset_x + (col as u16) * pitch;
        let y = self.area.y + self.config.inset_y + (row as u16) * self.config.cell_height;
        let rect = Rect::new(x, y, self.config.cell_width, self.config.cell_height).intersection(
            self.area,
        );
        assert(x as int == self.cell_x(index as int));
        assert(y as int == self.cell_y(index as int));
        rect
    }

    /// Rects for each of `len` items in this grid.
    pub fn cells(&self, len: usize) -> (r: Vec<Rect>)
        requires
            self.wf(),
            self.fits(len as int),
        ensures
            r@.len() == len,
            forall|i: int| 0 <= i < len ==> r@[i] == #[trigger] self.cell_rect(i),
    {
        let mut rects: Vec<Rect> = Vec::new();
        let mut index: usize = 0;
        while index < len
            invariant
                self.wf(),
                self.fits(len as int),
                index <= len,
                rects@.len() == index,
                forall|i: int| 0 <= i < index ==> rects@[i] == #[trigger] self.cell_rect(i),
            decreases len - index,
        {
            assert(self.cell_x(index as int) <= u16::MAX && self.cell_y(index as int) <= u16::MAX);
            let rect = self.cell(index);
            rects.push(rect);
            index = index + 1;
        }
        rects
    }
}

impl Grid {
    /// A found item is one of the first `len` whose cell holds the cell.
    pub proof fn lemma_item_from_found(self, len: int, column: u16, row: u16, i: int)
        requires
            0 <= i,
            len <= usize::MAX,
        ensures
            self.item_from(len, column, row, i) matches Some(k) ==> i <= k < len
                && self.cell_rect(k as int).holds(column, row),
        decreases len - i,
    {
        if i < len && !self.cell_rect(i).holds(column, row) {
            self.lemma_item_from_found(len, column, row, i + 1);
        }
    }

    /// The item found from `i` on is the first whose cell holds the cell,
    /// and none is found where no cell from `i` on holds it.
    pub proof fn lemma_item_from_first(self, len: int, column: u16, row: u16, i: int)
        requires
            0 <= i,
            len <= usize::MAX,
        ensures
            self.item_from(len, column, row, i) matches Some(k) ==> i <= k < len
                && self.cell_rect(k as int).holds(column, row) && forall|j: int|
                i <= j < k ==> !(#[trigger] self.cell_rect(j)).holds(column, row),
            (forall|j: int| i <= j < len ==> !(#[trigger] self.cell_rect(j)).holds(column, row))
                <==> self.item_from(len, column, row, i) is None,
        decreases len - i,
    {
        if i < len && !self.cell_rect(i).holds(column, row) {
            self.lemma_item_from_first(len, column, row, i + 1);
        }
    }

    /// The first item whose cell holds the cell, among the first `len`.
    pub open spec fn item_at(self, len: int, column: u16, row: u16) -> Option<usize> {
        self.item_from(len, column, row, 0)
    }

    /// The index (if any) of the item whose cell is at screen position.
    pub fn hit_test(&self, len: usize, column: u16, row: u16) -> (r: Option<usize>)
        requires
            self.wf(),
            self.scan_fits(len as int, column, row, 0),
        ensures
            r == self.item_at(len as int, column, row),
    {
        let mut i: usize = 0;
        while i < len
            invariant
                self.wf(),
                i <= len,
                self.scan_fits(len as int, column, row, i as int),
                self.item_at(len as int, column, row) == self.item_from(
                    len as int,
                    column,
                    row,
                    i as int,
                ),
            decreases len - i,
        {
            if self.cell(i).contains(column, row) {
                return Some(i);
            }
            i = i + 1;
        }
        None
    }

    /// Row/column of `index` in this `Grid`.
    pub fn position(&self, index: usize) -> (r: (usize, usize))
        requires
            self.wf(),
        ensures
            r.0 == self.position_spec(index as int).0,
            r.1 == self.position_spec(index as int).1,
            r.0 * self.columns() + r.1 == index,
            r.1 < self.columns(),
    {
        let r = (index / self.width, index % self.width);
        assert(r.0 * self.columns() + r.1 == index && r.1 < self.columns()) by (nonlinear_arith)
            requires
                r.0 == (index as int) / self.columns(),
                r.1 == (index as int) % self.columns(),
                self.columns() > 0,
        ;
        r
    }

    /// Index of the item one column to the left of `index`'s, clamped at the
    /// first column of its row.
    pub fn left(&self, index: usize) -> (r: usize)
        requires
            self.wf(),
        ensures
            r == if (index as int) % self.columns() > 0 {
                index - 1
            } else {
                index as int
            },
    {
        let width = self.width;
        let (row, col) = self.position(index);
        row * width + col.saturating_sub(1)
    }

    /// Index of the item one column to the right of `index`'s, clamped at
    /// the last column of its row.
    pub fn right(&self, index: usize) -> (r: usize)
        requires
            self.wf(),
            index - (index as int) % self.columns() + self.columns() - 1 <= usize::MAX,
        ensures
            r == if (index as int) % self.columns() + 1 < self.columns() {
                index + 1
            } else {
                index as int
            },
    {
        let width = self.width;
        let (row, col) = self.position(index);
        let next = if col + 1 < width - 1 {
            col + 1
        } else {
            width - 1
        };
        row * width + next
    }

    /// Index of the item one row above `index`'s, clamped at the first row.
    pub fn above(&self, index: usize) -> (r: usize)
        requires
            self.wf(),
        ensures
            r == if index >= self.columns() {
                index - self.columns()
            } else {
                index as int
            },
    {
        let width = self.width;
        let (row, col) = self.position(index);
        assert(row >= 1 <==> index >= width) by (nonlinear_arith)
            requires
                row * width + col == index,
                col < width,
                row >= 0,
        ;
        assert((row - 1) * width + col == index - width) by (nonlinear_arith)
            requires
                row * width + col == index,
        ;
        row.saturating_sub(1) * width + col
    }

    /// Index of the item one row below `index`'s.
    pub fn below(&self, index: usize) -> (r: usize)
        requires
            self.wf(),
            index + self.columns() <= usize::MAX,
        ensures
            r == index + self.columns(),
    {
        let width = self.width;
        let (row, col) = self.position(index);
        assert((row + 1) * width + col == index + width) by (nonlinear_arith)
            requires
                row * width + col == index,
        ;
        (row + 1) * width + col
    }
}

impl Grid {
    /// Whether the cell of item `index` lies within the coordinate space.
    fn cell_fits_at(&self, index: usize) -> (r: bool)
        requires
            self.wf(),
        ensures
            r == self.cell_fits(index as int),
    {
        let width = self.width;
        let pitch = (self.config.cell_width + self.config.inset_x) as u128;
        let col = (index % width) as u128;
        let row = (index / width) as u128;
        assert(col * pitch <= 0x1_0000_0000_0000_0000_0000 && row * self.config.cell_height
            <= 0x1_0000_0000_0000_0000_0000) by (nonlinear_arith)
            requires
                col < 0x1_0000_0000_0000_0000,
                row < 0x1_0000_0000_0000_0000,
                pitch <= 0xFFFF,
                self.config.cell_height <= 0xFFFF,
        ;
        let x = self.area.x as u128 + self.config.inset_x as u128 + col * pitch;
        let y = self.area.y as u128 + self.config.inset_y as u128 + row * (self.config.cell_height as u128);
        x <= 0xFFFF && y <= 0xFFFF
    }

    /// Whether the cells of the first `len` items lie within the coordinate
    /// space.
    pub fn cells_fit(&self, len: usize) -> (r: bool)
        requires
            self.wf(),
        ensures
            r == self.fits(len as int),
    {
        let mut i: usize = 0;
        while i < len
            invariant
                self.wf(),
                i <= len,
                self.fits(i as int),
            decreases len - i,
        {
            if !self.cell_fits_at(i) {
                assert(!(self.cell_x(i as int) <= u16::MAX && self.cell_y(i as int) <= u16::MAX));
                return false;
            }
            i = i + 1;
        }
        true
    }

    /// Whether each cell that `hit_test` reaches, scanning the first `len`
    /// items for the cell `(column, row)`, lies within the coordinate space.
    pub fn hit_test_fits(&self, len: usize, column: u16, row: u16) -> (r: bool)
        requires
            self.wf(),
        ensures
            r == self.scan_fits(len as int, column, row, 0),
    {
        let mut i: usize = 0;
        while i < len
            invariant
                self.wf(),
                i <= len,
                self.scan_fits(len as int, column, row, 0) == self.scan_fits(
                    len as int,
                    column,
                    row,
                    i as int,
                ),
            decreases len - i,
        {
            if !self.cell_fits_at(i) {
                return false;
            }
            if self.cell(i).contains(column, row) {
                return true;
            }
            i = i + 1;
        }
        true
    }
}

/// The keys the desktop reacts to.
#[derive(Clone, Copy, Debug, PartialEq, Eq, Structural)]
pub enum DesktopKey {
    Esc,
    Up,
    Down,
    Left,
    Right,
    Enter,
    /// Any other key.
    Other,
}

/// An input event, as far as the desktop distinguishes events.
#[derive(Clone, Copy, Debug, PartialEq, Eq, Structural)]
pub enum DesktopEvent {
    /// A key was pressed.
    Key(DesktopKey),
    /// The left mouse button went down at a cell.
    Click { column: u16, row: u16 },
    /// Anything else.
    Other,
}

/// The index one step from `index` in `direction` on `grid`.
pub open spec fn step_index(grid: Grid, index: int, direction: Direction) -> int {
    let w = grid.columns();
    match direction {
        Direction::Left => if index % w > 0 {
            index - 1
        } else {
            index
        },
        Direction::Right => if index % w + 1 < w {
            index + 1
        } else {
            index
        },
        Direction::Up => if index >= w {
            index - w
        } else {
            index
        },
        Direction::Down => index + w,
    }
}

/// The selection after a step in `direction` among `items` icons: from no
/// selection the step starts at the first icon, and a step past the last
/// icon stops at the last one.
pub open spec fn stepped_selection(
    selected: Option<usize>,
    items: int,
    direction: Direction,
    grid: Grid,
) -> Option<usize> {
    if items <= 0 {
        None
    } else {
        let from = match selected {
            Some(i) => i as int,
            None => 0,
        };
        let candidate = step_index(grid, from, direction);
        if candidate < items {
            Some(candidate as usize)
        } else {
            Some((items - 1) as usize)
        }
    }
}

/// Moves the selection by one step in `direction` through `grid`, among
/// `items` icons.
pub fn move_selection(selected: Option<usize>, items: usize, direction: Direction, grid: &Grid) -> (r:
    Option<usize>)
    requires
        grid.wf(),
        items <= isize::MAX,
        selected matches Some(i) ==> i < items,
    ensures
        r == stepped_selection(selected, items as int, direction, *grid),
        r matches Some(i) ==> i < items,
{
    if items == 0 {
        return None;
    }
    let selected = match selected {
        Some(i) => i,
        None => 0,
    };
    assert(grid.columns() <= u16::MAX) by (nonlinear_arith)
        requires
            grid.columns() == grid_columns(grid.config_spec(), grid.area_spec().width),
            grid.config_spec().cell_width + grid.config_spec().inset_x > 0,
    ;
    let candidate = match direction {
        Direction::Left => grid.left(selected),
        Direction::Right => grid.right(selected),
        Direction::Up => grid.above(selected),
        Direction::Down => grid.below(selected),
    };
    if candidate < items {
        Some(candidate)
    } else {
        Some(items - 1)
    }
}

/// The selection after `event` among `entries` icons laid out in `area`,
/// and the icon to launch, if any: `Esc` clears the selection, the arrow
/// keys move it, `Enter` launches the selected icon, and a click on an
/// icon selects and launches it.
pub open spec fn desktop_after(
    selected: Option<usize>,
    entries: int,
    event: DesktopEvent,
    area: Rect,
) -> (Option<usize>, Option<usize>) {
    let grid = Grid::new_spec(desktop_grid_config(), area);
    let launch = |s: Option<usize>|
        match s {
            Some(i) => if i < entries {
                Some(i)
            } else {
                None
            },
            None => None,
        };
    match event {
        DesktopEvent::Key(DesktopKey::Esc) => (None, None),
        DesktopEvent::Key(DesktopKey::Up) => (stepped_selection(selected, entries, Direction::Up, grid), None),
        DesktopEvent::Key(DesktopKey::Down) => (stepped_selection(selected, entries, Direction::Down, grid), None),
        DesktopEvent::Key(DesktopKey::Left) => (stepped_selection(selected, entries, Direction::Left, grid), None),
        DesktopEvent::Key(DesktopKey::Right) => (stepped_selection(selected, entries, Direction::Right, grid), None),
        DesktopEvent::Key(DesktopKey::Enter) => (selected, launch(selected)),
        DesktopEvent::Click { column, row } => match grid.item_at(entries, column, row) {
            Some(index) => (Some(index), launch(Some(index))),
            None => (selected, None),
        },
        _ => (selected, None),
    }
}

/// Resolves an input event against the desktop's selection among `entries`
/// icons laid out in `area`: returns the new selection and the icon to
/// launch, if any.
pub fn desktop_step(selected: Option<usize>, entries: usize, event: DesktopEvent, area: Rect) -> (r: (
    Option<usize>,
    Option<usize>,
))
    requires
        entries <= isize::MAX,
        selected matches Some(i) ==> i < entries,
        event matches DesktopEvent::Click { column, row } ==> Grid::new_spec(
            desktop_grid_config(),
            area,
        ).scan_fits(entries as int, column, row, 0),
    ensures
        r == desktop_after(selected, entries as int, event, area),
        r.0 matches Some(i) ==> i < entries,
{
    let grid = Grid::new(grid_config(), area);
    assert(grid == Grid::new_spec(desktop_grid_config(), area));
    proof {
        if let DesktopEvent::Click { column, row } = event {
            grid.lemma_item_from_found(entries as int, column, row, 0);
        }
    }
    match event {
        DesktopEvent::Key(DesktopKey::Esc) => (None, None),
        DesktopEvent::Key(DesktopKey::Up) => (move_selection(selected, entries, Direction::Up, &grid), None),
        DesktopEvent::Key(DesktopKey::Down) => (move_selection(selected, entries, Direction::Down, &grid), None),
        DesktopEvent::Key(DesktopKey::Left) => (move_selection(selected, entries, Direction::Left, &grid), None),
        DesktopEvent::Key(DesktopKey::Right) => (move_selection(selected, entries, Direction::Right, &grid), None),
        DesktopEvent::Key(DesktopKey::Enter) => (selected, open_selected(selected, entries)),
        DesktopEvent::Click { column, row } => match grid.hit_test(entries, column, row) {
            Some(index) => (Some(index), open_selected(Some(index), entries)),
            None => (selected, None),
        },
        _ => (selected, None),
    }
}

/// The selected icon to launch, if the selection names one of `entries`.
pub fn open_selected(selected: Option<usize>, entries: usize) -> (r: Option<usize>)
    ensures
        r == match selected {
            Some(i) => if i < entries {
                Some(i)
            } else {
                None
            },
            None => None,
        },
{
    match selected {
        Some(index) => if index < entries {
            Some(index)
        } else {
            None
        },
        None => None,
    }
}

/// How many of `glyphs` glyphs fit one after another from one cell past
/// `start` up to the edge `end`.
pub open spec fn glyphs_fitting(start: u16, end: u16, glyphs: int) -> int {
    if end <= start + 1 {
        0
    } else if end - start - 1 < glyphs {
        end - start - 1
    } else {
        glyphs
    }
}

/// The rows of an icon's glyphs that fit in its cell `area`, below the
/// cell's top row.
pub open spec fn glyph_rows(area: Rect) -> int {
    glyphs_fitting(area.y, area.bottom(), ICON_ROWS as int)
}

/// The columns of an icon's glyphs that fit in its cell `area`, right of the
/// cell's left column.
pub open spec fn glyph_columns(area: Rect) -> int {
    glyphs_fitting(area.x, area.right(), ICON_COLS as int)
}

/// Where the glyphs of an icon drawn in the cell `area` go: row by row, the
/// screen cell `(x, y)` and the glyph's `(row, column)` in the icon, for each
/// glyph that fits inside `area` with one cell of margin at the top and the
/// left.
pub fn icon_glyph_cells(area: Rect) -> (r: Vec<(u16, u16, usize, usize)>)
    requires
        area.y < u16::MAX,
        glyph_rows(area) > 0 ==> area.x < u16::MAX,
    ensures
        r@.len() == glyph_rows(area) * glyph_columns(area),
        forall|row: int, col: int|
            0 <= row < glyph_rows(area) && 0 <= col < glyph_columns(area) ==> #[trigger] r@[row
                * glyph_columns(area) + col] == ((area.x + 1 + col) as u16, (area.y + 1 + row) as u16, row as usize, col as usize),
{
    let mut cells: Vec<(u16, u16, usize, usize)> = Vec::new();
    let ghost rows = glyph_rows(area);
    let ghost cols = glyph_columns(area);
    let bottom = area.y.saturating_add(area.height);
    let right = area.x.saturating_add(area.width);
    let mut row: usize = 0;
    while row < ICON_ROWS
        invariant_except_break
            area.y < u16::MAX,
            glyph_rows(area) > 0 ==> area.x < u16::MAX,
            bottom == area.bottom(),
            right == area.right(),
            rows == glyph_rows(area),
            cols == glyph_columns(area),
            row <= ICON_ROWS,
            row <= rows,
            cells@.len() == row * cols,
            forall|i: int, j: int|
                0 <= i < row && 0 <= j < cols ==> #[trigger] cells@[i * cols + j] == ((area.x + 1
                    + j) as u16, (area.y + 1 + i) as u16, i as usize, j as usize),
        ensures
            row == rows,
            cells@.len() == rows * cols,
            forall|i: int, j: int|
                0 <= i < rows && 0 <= j < cols ==> #[trigger] cells@[i * cols + j] == ((area.x + 1
                    + j) as u16, (area.y + 1 + i) as u16, i as usize, j as usize),
        decreases ICON_ROWS - row,
    {
        let y = area.y + 1 + row as u16;
        if y >= bottom {
            break;
        }
        let mut col: usize = 0;
        while col < ICON_COLS
            invariant_except_break
                area.y < u16::MAX,
                glyph_rows(area) > 0 ==> area.x < u16::MAX,
                bottom == area.bottom(),
                right == area.right(),
                rows == glyph_rows(area),
                cols == glyph_columns(area),
                row < rows,
                col <= ICON_COLS,
                col <= cols,
                y == area.y + 1 + row,
                cells@.len() == row * cols + col,
                forall|i: int, j: int|
                    0 <= i < row && 0 <= j < cols ==> #[trigger] cells@[i * cols + j] == ((area.x
                        + 1 + j) as u16, (area.y + 1 + i) as u16, i as usize, j as usize),
                forall|j: int|
                    0 <= j < col ==> #[trigger] cells@[row * cols + j] == ((area.x + 1 + j) as u16, y, row, j as usize),
            ensures
                cells@.len() == row * cols + cols,
                forall|i: int, j: int|
                    0 <= i < row && 0 <= j < cols ==> #[trigger] cells@[i * cols + j] == ((area.x
                        + 1 + j) as u16, (area.y + 1 + i) as u16, i as usize, j as usize),
                forall|j: int|
                    0 <= j < cols ==> #[trigger] cells@[row * cols + j] == ((area.x + 1 + j) as u16, y, row, j as usize),
            decreases ICON_COLS - col,
        {
            let x = area.x + 1 + col as u16;
            if x >= right {
                break;
            }
            proof {
                lemma_row_major_below(row as int, col as int, cols);
            }
            cells.push((x, y, row, col));
            col = col + 1;
        }
        proof {
            lemma_row_major_extends(row as int, cols);
        }
        row = row + 1;
    }
    cells
}

/// Cells of earlier rows, or earlier in the row, come before cell `(row,
/// col)` in row-major order.
proof fn lemma_row_major_below(row: int, col: int, cols: int)
    requires
        0 <= row,
        0 <= col < cols,
    ensures
        forall|i: int, j: int|
            0 <= i < row && 0 <= j < cols ==> #[trigger] (i * cols + j) < row * cols + col,
{
    assert forall|i: int, j: int| 0 <= i < row && 0 <= j < cols implies #[trigger] (i * cols + j)
        < row * cols + col by {
        assert(i * cols + j < (i + 1) * cols) by (nonlinear_arith)
            requires
                j < cols,
        ;
        assert((i + 1) * cols <= row * cols) by (nonlinear_arith)
            requires
                i + 1 <= row,
                cols >= 0,
        ;
    }
}

/// Finishing row `row` finishes the first `row + 1` rows.
proof fn lemma_row_major_extends(row: int, cols: int)
    ensures
        row * cols + cols == (row + 1) * cols,
{
    assert(row * cols + cols == (row + 1) * cols) by (nonlinear_arith);
}

/// The row under an icon's glyphs in its cell `area`, where its name goes.
pub fn icon_name_area(area: Rect) -> (r: Rect)
    requires
        area.y + ICON_ROWS + 1 <= u16::MAX,
    ensures
        r == Rect::clipped(area.x, (area.y + ICON_ROWS + 1) as u16, area.width, 1).overlap(area),
{
    Rect::new(area.x, area.y + 1 + ICON_ROWS as u16, area.width, 1).intersection(area)
}

/// `name` cut to fit within `max_width` columns: nothing where `max_width`
/// is at most 1; otherwise the whole name where it fits, or its first
/// `max_width - 1` characters and `…`.
pub open spec fn truncated(name: Seq<char>, max_width: int) -> Option<Seq<char>> {
    if max_width <= 1 {
        None
    } else if name.len() <= max_width {
        Some(name)
    } else {
        Some(name.subrange(0, max_width - 1).push('…'))
    }
}

/// Shortens `name` to fit within `max_width` columns, replacing the tail
/// with `…` when it doesn't fit. Returns `None` when `max_width` is less
/// than or equal to 1.
pub fn truncate_name(name: &str, max_width: usize) -> (r: Option<String>)
    ensures
        match r {
            Some(s) => truncated(name@, max_width as int) == Some(s@),
            None => truncated(name@, max_width as int) is None,
        },
{
    if max_width <= 1 {
        return None;
    }
    let len = name.unicode_len();
    if len <= max_width {
        return Some(String::from_str(name));
    }
    let mut truncated = String::from_str(name.substring_char(0, max_width - 1));
    let ellipsis = "…";
    proof {
        reveal_strlit("…");
    }
    truncated.append(ellipsis);
    assert(truncated@ == name@.subrange(0, max_width - 1).push('…'));
    Some(truncated)
}

/// Steps left and right keep the selection in its row, and a step up
/// followed by a step down returns to the same icon.
pub proof fn lemma_steps_keep_rows(grid: Grid, index: int)
    requires
        grid.wf(),
        0 <= index,
    ensures
        step_index(grid, index, Direction::Left) / grid.columns() == index / grid.columns(),
        step_index(grid, index, Direction::Right) / grid.columns() == index / grid.columns(),
        index >= grid.columns() ==> step_index(
            grid,
            step_index(grid, index, Direction::Up),
            Direction::Down,
        ) == index,
{
    let w = grid.columns();
    lemma_fundamental_div_mod(index, w);
    let (q, r) = (index / w, index % w);
    if r > 0 {
        lemma_fundamental_div_mod_converse(index - 1, w, q, r - 1);
    }
    if r + 1 < w {
        lemma_fundamental_div_mod_converse(index + 1, w, q, r + 1);
    }
}

/// The desktop only ever selects or launches one of its icons, and `Esc`
/// clears the selection without launching anything.
pub proof fn lemma_desktop_stays_on_icons(
    selected: Option<usize>,
    entries: int,
    event: DesktopEvent,
    area: Rect,
)
    requires
        0 <= entries <= usize::MAX,
        selected matches Some(i) ==> i < entries,
    ensures
        desktop_after(selected, entries, event, area).0 matches Some(i) ==> i < entries,
        desktop_after(selected, entries, event, area).1 matches Some(i) ==> i < entries,
        desktop_after(selected, entries, DesktopEvent::Key(DesktopKey::Esc), area) == (
            None::<usize>,
            None::<usize>,
        ),
{
    let grid = Grid::new_spec(desktop_grid_config(), area);
    if let DesktopEvent::Click { column, row } = event {
        grid.lemma_item_from_found(entries, column, row, 0);
    }
}

/// On the desktop's grid of `w` columns in `area`, with icon `i` of `n`
/// selected, each arrow key steps in its own direction: `Down` to the icon a
/// row below, or the last icon where there is none; `Up` to the icon a row
/// above, staying in the first row; `Left` and `Right` to the neighbour in
/// the same row, staying at the row's ends and at the last icon. `Enter`
/// launches the selected icon, `Esc` clears the selection, and no key but
/// `Enter` launches anything.
pub proof fn lemma_keys_move_the_selection(i: usize, n: int, area: Rect)
    requires
        i < n <= usize::MAX,
    ensures
        ({
            let w = grid_columns(desktop_grid_config(), area.width);
            let step = |key: DesktopKey| desktop_after(Some(i), n, DesktopEvent::Key(key), area);
            &&& w >= 1
            &&& step(DesktopKey::Down) == (
                Some(
                    if i + w < n {
                        (i + w) as usize
                    } else {
                        (n - 1) as usize
                    },
                ),
                None::<usize>,
            )
            &&& step(DesktopKey::Up) == (
                Some(
                    if i >= w {
                        (i - w) as usize
                    } else {
                        i
                    },
                ),
                None::<usize>,
            )
            &&& step(DesktopKey::Left) == (
                Some(
                    if (i as int) % w > 0 {
                        (i - 1) as usize
                    } else {
                        i
                    },
                ),
                None::<usize>,
            )
            &&& step(DesktopKey::Right) == (
                Some(
                    if (i as int) % w + 1 < w && i + 1 < n {
                        (i + 1) as usize
                    } else {
                        i
                    },
                ),
                None::<usize>,
            )
            &&& step(DesktopKey::Enter) == (Some(i), Some(i))
            &&& step(DesktopKey::Esc) == (None::<usize>, None::<usize>)
            &&& step(DesktopKey::Other) == (Some(i), None::<usize>)
        }),
{
    let config = desktop_grid_config();
    Grid::lemma_new_spec(config, area);
    let w = grid_columns(config, area.width);
    assert(w >= 1);
    lemma_fundamental_div_mod(i as int, w);
}

/// A click on the cell of an icon selects and launches the first icon whose
/// cell holds the clicked cell; a click that hits no icon changes nothing
/// and launches nothing.
pub proof fn lemma_clicks_pick_icons(
    selected: Option<usize>,
    n: int,
    column: u16,
    row: u16,
    area: Rect,
)
    requires
        0 <= n <= usize::MAX,
    ensures
        ({
            let grid = Grid::new_spec(desktop_grid_config(), area);
            let r = desktop_after(selected, n, DesktopEvent::Click { column, row }, area);
            &&& forall|k: int|
                0 <= k < n && (#[trigger] grid.cell_rect(k)).holds(column, row) && (forall|j: int|
                    0 <= j < k ==> !grid.cell_rect(j).holds(column, row)) ==> r == (
                    Some(k as usize),
                    Some(k as usize),
                )
            &&& (forall|j: int| 0 <= j < n ==> !(#[trigger] grid.cell_rect(j)).holds(column, row))
                ==> r == (selected, None::<usize>)
        }),
{
    let grid = Grid::new_spec(desktop_grid_config(), area);
    grid.lemma_item_from_first(n, column, row, 0);
    let r = desktop_after(selected, n, DesktopEvent::Click { column, row }, area);
    assert forall|k: int|
        0 <= k < n && (#[trigger] grid.cell_rect(k)).holds(column, row) && (forall|j: int|
            0 <= j < k ==> !grid.cell_rect(j).holds(column, row)) implies r == (
        Some(k as usize),
        Some(k as usize),
    ) by {
        assert(grid.item_at(n, column, row) is Some);
        let f = grid.item_at(n, column, row)->0;
        if f < k {
            assert(grid.cell_rect(f as int).holds(column, row));
        } else if f > k {
            assert(!grid.cell_rect(k).holds(column, row));
        }
    }
}

/// An icon's cell never reaches outside the grid's area, and a cell that
/// lies within the area has the configured size at its place in the grid.
pub proof fn lemma_cells_stay_in_the_area(grid: Grid, i: int, column: u16, row: u16)
    requires
        grid.wf(),
        0 <= i,
        grid.cell_fits(i),
    ensures
        grid.cell_rect(i).holds(column, row) ==> grid.area_spec().holds(column, row),
        grid.area_spec().x + grid.area_spec().width <= u16::MAX && grid.area_spec().y
            + grid.area_spec().height <= u16::MAX && grid.cell_x(i) + grid.config_spec().cell_width
            <= grid.area_spec().x + grid.area_spec().width && grid.cell_y(i)
            + grid.config_spec().cell_height <= grid.area_spec().y + grid.area_spec().height
            ==> grid.cell_rect(i) == (Rect {
            x: grid.cell_x(i) as u16,
            y: grid.cell_y(i) as u16,
            width: grid.config_spec().cell_width,
            height: grid.config_spec().cell_height,
        }),
{
    assert(0 <= (i as int) % grid.columns()) by {
        lemma_fundamental_div_mod(i, grid.columns());
    }
    assert(0 <= i / grid.columns()) by {
        lemma_fundamental_div_mod(i, grid.columns());
        assert(i / grid.columns() >= 0) by (nonlinear_arith)
            requires
                i >= 0,
                grid.columns() > 0,
        ;
    }
    assert(0 <= ((i as int) % grid.columns()) * (grid.config_spec().cell_width + grid.config_spec().inset_x)) by (nonlinear_arith)
        requires
            0 <= (i as int) % grid.columns(),
            0 <= grid.config_spec().cell_width + grid.config_spec().inset_x,
    ;
    assert(0 <= (i / grid.columns()) * grid.config_spec().cell_height) by (nonlinear_arith)
        requires
            0 <= i / grid.columns(),
            0 <= grid.config_spec().cell_height,
    ;
}

/// With no icon selected, an arrow key selects as if from the first icon:
/// `Down` the first icon of the second row (or the last icon), `Right` the
/// second icon where the first row has one, `Up` and `Left` the first icon;
/// `Enter` launches nothing, and without icons nothing is ever selected.
pub proof fn lemma_keys_without_selection(n: int, area: Rect)
    requires
        0 <= n <= usize::MAX,
    ensures
        ({
            let w = grid_columns(desktop_grid_config(), area.width);
            let step = |key: DesktopKey| desktop_after(None, n, DesktopEvent::Key(key), area);
            &&& n > 0 ==> step(DesktopKey::Down) == (
                Some(
                    if w < n {
                        w as usize
                    } else {
                        (n - 1) as usize
                    },
                ),
                None::<usize>,
            )
            &&& n > 0 ==> step(DesktopKey::Up) == (Some(0usize), None::<usize>)
            &&& n > 0 ==> step(DesktopKey::Left) == (Some(0usize), None::<usize>)
            &&& n > 0 ==> step(DesktopKey::Right) == (
                Some(
                    if w > 1 && n > 1 {
                        1usize
                    } else {
                        0usize
                    },
                ),
                None::<usize>,
            )
            &&& step(DesktopKey::Enter) == (None::<usize>, None::<usize>)
            &&& n == 0 ==> step(DesktopKey::Down).0 is None && step(DesktopKey::Up).0 is None
                && step(DesktopKey::Left).0 is None && step(DesktopKey::Right).0 is None
        }),
{
    let config = desktop_grid_config();
    Grid::lemma_new_spec(config, area);
    let w = grid_columns(config, area.width);
    assert(0int % w == 0) by {
        lemma_fundamental_div_mod_converse(0, w, 0, 0);
    }
}

/// A grid has as many columns as fit after the left inset, each cell with
/// its gap, and at least one: the cells of its columns fit in the width,
/// unless it has a single column, and one more column would not fit.
pub proof fn lemma_grid_columns_fit(config: GridConfig, area_width: u16)
    requires
        config.cell_width + config.inset_x > 0,
    ensures
        ({
            let w = grid_columns(config, area_width);
            let pitch = config.cell_width + config.inset_x;
            &&& w >= 1
            &&& w == 1 || config.inset_x + w * pitch <= area_width
            &&& config.inset_x + (w + 1) * pitch > area_width
        }),
{
    let pitch: int = config.cell_width + config.inset_x;
    let usable: int = if area_width < config.inset_x {
        0
    } else {
        area_width - config.inset_x
    };
    lemma_fundamental_div_mod(usable, pitch);
    let q = usable / pitch;
    assert(q * pitch <= usable < (q + 1) * pitch) by (nonlinear_arith)
        requires
            usable == pitch * q + usable % pitch,
            0 <= usable % pitch < pitch,
    ;
    if q < 1 {
        assert(2 * pitch > usable) by (nonlinear_arith)
            requires
                usable < (q + 1) * pitch,
                q < 1,
                pitch > 0,
        ;
    } else {
        assert((q + 1) * pitch <= (q + 2) * pitch) by (nonlinear_arith)
            requires
                pitch > 0,
        ;
    }
}

/// Items fill the grid's rows left to right: the first item's cell starts
/// at the insets from the area's corner, the next item in a row starts one
/// cell and gap to the right, and the item one row below starts one cell
/// height lower in the same column.
pub proof fn lemma_cells_fill_rows(grid: Grid, i: int)
    requires
        grid.wf(),
        0 <= i,
    ensures
        grid.cell_x(0) == grid.area_spec().x + grid.config_spec().inset_x,
        grid.cell_y(0) == grid.area_spec().y + grid.config_spec().inset_y,
        i % grid.columns() + 1 < grid.columns() ==> grid.cell_x(i + 1) == grid.cell_x(i)
            + grid.config_spec().cell_width + grid.config_spec().inset_x
            && grid.cell_y(i + 1) == grid.cell_y(i),
        i % grid.columns() + 1 == grid.columns() ==> grid.cell_x(i + 1) == grid.cell_x(0)
            && grid.cell_y(i + 1) == grid.cell_y(i) + grid.config_spec().cell_height,
        grid.cell_x(i + grid.columns()) == grid.cell_x(i),
        grid.cell_y(i + grid.columns()) == grid.cell_y(i) + grid.config_spec().cell_height,
{
    let w = grid.columns();
    let (cw, ch) = (grid.config_spec().cell_width + grid.config_spec().inset_x, grid.config_spec().cell_height);
    lemma_fundamental_div_mod(i, w);
    let (q, r) = (i / w, i % w);
    lemma_fundamental_div_mod_converse(0, w, 0, 0);
    assert(i + w == (q + 1) * w + r) by (nonlinear_arith)
        requires
            i == w * q + r,
    ;
    if r + 1 < w {
        assert(i + 1 == q * w + (r + 1)) by (nonlinear_arith)
            requires
                i == w * q + r,
        ;
        lemma_fundamental_div_mod_converse(i + 1, w, q, r + 1);
        assert((r + 1) * cw == r * cw + cw) by (nonlinear_arith);
    } else {
        assert(i + 1 == (q + 1) * w + 0) by (nonlinear_arith)
            requires
                i == w * q + r,
                r + 1 == w,
        ;
        lemma_fundamental_div_mod_converse(i + 1, w, q + 1, 0);
        assert((q + 1) * ch == q * ch + ch) by (nonlinear_arith);
    }
    lemma_fundamental_div_mod_converse(i + w, w, q + 1, r);
    assert((q + 1) * ch == q * ch + ch) by (nonlinear_arith);
}

/// A truncated name fits its width, keeps the name's first characters, and
/// is the whole name exactly when the name fits; a name that does not fit
/// fills the width and ends in `…`; no width of at most one column gives a
/// name.
pub proof fn lemma_truncated_fits(name: Seq<char>, max_width: int)
    ensures
        max_width > 1 && name.len() > max_width ==> (truncated(name, max_width) matches Some(t)
            && t.len() == max_width && t.last() == '…'),
        max_width <= 1 ==> truncated(name, max_width) is None,
        max_width > 1 ==> truncated(name, max_width) is Some,
        truncated(name, max_width) matches Some(t) ==> t.len() <= max_width && (t == name
            <==> name.len() <= max_width),
        truncated(name, max_width) matches Some(t) ==> forall|i: int|
            0 <= i < t.len() - 1 ==> t[i] == name[i],
{
}

} // verus!
