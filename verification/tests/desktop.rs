use simdesk::desktop::{
    desktop_step, grid_config, icon_glyph_cells, icon_name_area, move_selection, open_selected,
    truncate_name, DesktopEvent, DesktopKey, Direction, Grid, GridConfig, ICON_COLS, ICON_ROWS,
};
use simdesk::layout::Rect;

const CONFIG: GridConfig = GridConfig {
    cell_width: 8,
    cell_height: 4,
    inset_x: 2,
    inset_y: 1,
};

fn grid_with_columns(columns: u16) -> Grid {
    let width = columns * (CONFIG.cell_width + CONFIG.inset_x) + CONFIG.inset_x;
    Grid::new(CONFIG, Rect::new(0, 0, width, 24))
}

#[test]
fn left_and_right_clamp_within_a_row() {
    let grid = grid_with_columns(2);
    assert_eq!(grid.left(1), 0);
    assert_eq!(grid.left(0), 0);
    assert_eq!(grid.right(0), 1);
    assert_eq!(grid.right(1), 1);
}

#[test]
fn above_and_below_move_between_rows() {
    let grid = grid_with_columns(2);
    assert_eq!(grid.below(0), 2);
    assert_eq!(grid.above(2), 0);
    assert_eq!(grid.above(0), 0);
}

#[test]
fn grid_has_at_least_one_column() {
    assert_eq!(Grid::new(CONFIG, Rect::new(0, 0, 0, 10)).column_count(), 1);
    assert_eq!(grid_with_columns(3).column_count(), 3);
    assert_eq!(grid_with_columns(3).position(7), (2, 1));
}

#[test]
fn cells_fill_rows_left_to_right_and_are_cut_to_the_area() {
    let grid = grid_with_columns(2);
    let cells = grid.cells(3);
    assert_eq!(cells[0], Rect::new(2, 1, 8, 4));
    assert_eq!(cells[1], Rect::new(12, 1, 8, 4));
    assert_eq!(cells[2], Rect::new(2, 5, 8, 4));
    let short = Grid::new(CONFIG, Rect::new(0, 0, 22, 3));
    assert_eq!(short.cells(1)[0], Rect::new(2, 1, 8, 2));
}

#[test]
fn hit_test_finds_the_icon_under_the_cell() {
    let grid = grid_with_columns(2);
    assert_eq!(grid.hit_test(3, 2, 1), Some(0));
    assert_eq!(grid.hit_test(3, 13, 3), Some(1));
    assert_eq!(grid.hit_test(3, 3, 6), Some(2));
    assert_eq!(grid.hit_test(3, 13, 6), None);
    assert_eq!(grid.hit_test(3, 0, 0), None);
}

#[test]
fn selection_moves_and_clamps_to_the_last_icon() {
    let grid = grid_with_columns(2);
    assert_eq!(move_selection(None, 3, Direction::Right, &grid), Some(1));
    assert_eq!(move_selection(Some(1), 3, Direction::Down, &grid), Some(2));
    assert_eq!(move_selection(Some(0), 3, Direction::Down, &grid), Some(2));
    assert_eq!(move_selection(Some(2), 3, Direction::Up, &grid), Some(0));
    assert_eq!(move_selection(Some(0), 0, Direction::Left, &grid), None);
}

#[test]
fn desktop_keys_move_clear_and_launch() {
    let area = Rect::new(0, 0, 80, 24);
    assert_eq!(
        desktop_step(None, 3, DesktopEvent::Key(DesktopKey::Right), area),
        (Some(1), None)
    );
    assert_eq!(
        desktop_step(Some(1), 3, DesktopEvent::Key(DesktopKey::Esc), area),
        (None, None)
    );
    assert_eq!(
        desktop_step(Some(2), 3, DesktopEvent::Key(DesktopKey::Enter), area),
        (Some(2), Some(2))
    );
    assert_eq!(
        desktop_step(None, 3, DesktopEvent::Key(DesktopKey::Enter), area),
        (None, None)
    );
    assert_eq!(
        desktop_step(Some(1), 3, DesktopEvent::Other, area),
        (Some(1), None)
    );
}

#[test]
fn desktop_click_selects_and_launches_the_icon() {
    let area = Rect::new(0, 0, 80, 24);
    assert_eq!(grid_config().cell_width, 11);
    assert_eq!(
        desktop_step(None, 3, DesktopEvent::Click { column: 16, row: 2 }, area),
        (Some(1), Some(1))
    );
    assert_eq!(
        desktop_step(Some(0), 3, DesktopEvent::Click { column: 79, row: 23 }, area),
        (Some(0), None)
    );
    assert_eq!(open_selected(Some(5), 3), None);
}

#[test]
fn truncate_name_keeps_names_that_fit() {
    assert_eq!(truncate_name("Paint", 5), Some("Paint".to_string()));
    assert_eq!(truncate_name("Paint", 9), Some("Paint".to_string()));
}

#[test]
fn truncate_name_cuts_with_an_ellipsis() {
    assert_eq!(truncate_name("Terminal", 5), Some("Term…".to_string()));
    assert_eq!(truncate_name("Terminal", 2), Some("T…".to_string()));
    assert_eq!(truncate_name("Terminal", 1), None);
    assert_eq!(truncate_name("Terminal", 0), None);
    assert_eq!(truncate_name("", 0), None);
    assert_eq!(truncate_name("a", 1), None);
    assert_eq!(truncate_name("", 2), Some(String::new()));
}

#[test]
fn cells_fit_until_the_rows_run_off_the_coordinates() {
    let grid = Grid::new(CONFIG, Rect::new(0, 65530, 22, 5));
    assert!(grid.cells_fit(0));
    assert!(grid.cells_fit(4));
    assert!(!grid.cells_fit(5));
}

#[test]
fn hit_test_only_needs_the_cells_it_reaches() {
    let grid = Grid::new(CONFIG, Rect::new(0, 65530, 22, 5));
    assert!(grid.hit_test_fits(5, 2, 65531));
    assert_eq!(grid.hit_test(5, 2, 65531), Some(0));
    assert!(!grid.hit_test_fits(5, 0, 0));
    assert!(grid.hit_test_fits(4, 0, 0));
    assert_eq!(grid.hit_test(4, 0, 0), None);
}

#[test]
fn icon_glyphs_fill_the_cell_inside_its_margin() {
    let cells = icon_glyph_cells(Rect::new(10, 20, 11, 7));
    assert_eq!(cells.len(), ICON_ROWS * ICON_COLS);
    assert_eq!(cells[0], (11, 21, 0, 0));
    assert_eq!(cells[ICON_COLS], (11, 22, 1, 0));
    assert_eq!(cells[ICON_ROWS * ICON_COLS - 1], (19, 25, 4, 8));
}

#[test]
fn icon_glyphs_are_cut_at_the_cell_edges() {
    let cells = icon_glyph_cells(Rect::new(0, 0, 4, 3));
    assert_eq!(cells, vec![(1, 1, 0, 0), (2, 1, 0, 1), (3, 1, 0, 2), (1, 2, 1, 0), (2, 2, 1, 1), (3, 2, 1, 2)]);
    assert!(icon_glyph_cells(Rect::new(0, 0, 11, 1)).is_empty());
    assert!(icon_glyph_cells(Rect::new(0, 0, 1, 7)).is_empty());
}

#[test]
fn icon_name_goes_under_the_glyphs() {
    assert_eq!(icon_name_area(Rect::new(10, 20, 11, 7)), Rect::new(10, 26, 11, 1));
    assert_eq!(icon_name_area(Rect::new(10, 20, 11, 6)).height, 0);
}
