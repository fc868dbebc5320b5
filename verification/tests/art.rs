use simdesk::ascii_art::{
    averaged_pixel, checked_charset, sample_rows, try_averaged_pixel, AsciiArt, PixelGrid,
};

fn solid(width: u32, height: u32, rgb: [u8; 3]) -> PixelGrid {
    let raw: Vec<u8> = (0..width * height).flat_map(|_| rgb).collect();
    PixelGrid::from_raw(width, height, raw).unwrap()
}

#[test]
fn empty_art_has_no_cells() {
    let art = AsciiArt::empty();
    assert_eq!(art.size(), (0, 0));
    assert!(art.get(0, 0).is_none());
}

#[test]
fn get_reads_cells_row_by_row() {
    let cells = vec![
        ('a', (1, 1, 1)),
        ('b', (2, 2, 2)),
        ('c', (3, 3, 3)),
        ('d', (4, 4, 4)),
        ('e', (5, 5, 5)),
        ('f', (6, 6, 6)),
    ];
    let art = AsciiArt::from_cells(3, 2, cells).unwrap();
    assert_eq!(art.size(), (3, 2));
    assert_eq!(art.get(0, 0), Some(('a', (1, 1, 1))));
    assert_eq!(art.get(2, 0), Some(('c', (3, 3, 3))));
    assert_eq!(art.get(0, 1), Some(('d', (4, 4, 4))));
    assert_eq!(art.get(2, 1), Some(('f', (6, 6, 6))));
}

#[test]
fn get_is_none_on_out_of_bounds_cells() {
    let art = AsciiArt::from_cells(2, 2, vec![(' ', (0, 0, 0)); 4]).unwrap();
    assert!(art.get(2, 0).is_none());
    assert!(art.get(0, 2).is_none());
}

#[test]
fn from_cells_rejects_a_wrong_number_of_cells() {
    assert!(AsciiArt::from_cells(2, 2, vec![(' ', (0, 0, 0)); 3]).is_none());
    assert!(AsciiArt::from_cells(0, 5, vec![]).is_some());
}

#[test]
fn charset_must_not_be_empty() {
    assert!(checked_charset(&[]).is_err());
    assert_eq!(checked_charset(&['x', 'y']), Ok(vec!['x', 'y']));
}

#[test]
fn sample_rows_share_the_oversampled_rows() {
    assert_eq!(sample_rows(0, 2, 4), (0, 2));
    assert_eq!(sample_rows(1, 2, 4), (2, 4));
    assert_eq!(sample_rows(0, 1, 2), (0, 2));
    assert_eq!(sample_rows(2, 3, 1), (0, 1));
    assert_eq!(sample_rows(0, 3, 1), (0, 1));
}

#[test]
fn averaged_pixel_averages_the_rows_of_a_column() {
    let mut raw = vec![0u8; 12];
    for byte in raw.iter_mut().skip(6) {
        *byte = 255;
    }
    let grid = PixelGrid::from_raw(1, 4, raw).unwrap();
    assert_eq!(grid.dimensions(), (1, 4));
    assert_eq!(averaged_pixel(&grid, 0, 0, 4), (127, 127, 127));
    assert_eq!(averaged_pixel(&grid, 0, 0, 2), (0, 0, 0));
    assert_eq!(averaged_pixel(&grid, 0, 2, 4), (255, 255, 255));
    assert_eq!(averaged_pixel(&solid(4, 4, [1, 2, 3]), 3, 1, 3), (1, 2, 3));
}

#[test]
fn pixel_grid_needs_enough_bytes() {
    assert!(PixelGrid::from_raw(2, 2, vec![0; 11]).is_none());
    assert!(PixelGrid::from_raw(2, 2, vec![0; 12]).is_some());
}

#[test]
fn try_averaged_pixel_checks_the_rows_and_column() {
    let grid = solid(2, 3, [9, 8, 7]);
    assert_eq!(try_averaged_pixel(&grid, 1, 0, 3), Some((9, 8, 7)));
    assert_eq!(try_averaged_pixel(&grid, 2, 0, 3), None);
    assert_eq!(try_averaged_pixel(&grid, 0, 1, 4), None);
    assert_eq!(try_averaged_pixel(&grid, 0, 2, 2), None);
}
