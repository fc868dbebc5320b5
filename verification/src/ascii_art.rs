//! A colored ASCII rendering of an image as a grid of cells, and the integer
//! steps of sampling an image down to such a grid.

use image::{ImageBuffer, Rgb, RgbImage};
use vstd::prelude::*;
use vstd::arithmetic::div_mod::{lemma_fundamental_div_mod, lemma_fundamental_div_mod_converse};

verus! {

/// Shorthand for cell's chars and its color in RGB.
pub type ArtCell = (char, (u8, u8, u8));

/// A colored ASCII rendering of an image, sized to exactly fill a
/// `width` x `height` cell grid; cells are stored row by row.
#[must_use]
pub struct AsciiArt {
    width: u16,
    height: u16,
    cells: Vec<ArtCell>,
}

impl AsciiArt {
    /// The art's width in cells.
    pub closed spec fn width_spec(self) -> u16 {
        self.width
    }

    /// The art's height in cells.
    pub closed spec fn height_spec(self) -> u16 {
        self.height
    }

    /// The cells, row by row.
    pub closed spec fn cell_seq(self) -> Seq<ArtCell> {
        self.cells@
    }

    /// There is exactly one cell for each column of each row.
    pub open spec fn wf(self) -> bool {
        self.cell_seq().len() == self.width_spec() as int * self.height_spec() as int
    }

    /// The cell at `(col, row)`.
    pub open spec fn cell(self, col: int, row: int) -> ArtCell {
        self.cell_seq()[row * self.width_spec() as int + col]
    }

    /// An `AsciiArt` without any cells.
    pub fn empty() -> (r: Self)
        ensures
            r.wf(),
            r.width_spec() == 0,
            r.height_spec() == 0,
    {
        AsciiArt { width: 0, height: 0, cells: Vec::new() }
    }

    /// Makes an art of `width` x `height` cells from its cells given row by
    /// row; `None` unless there is exactly one cell per grid position.
    pub fn from_cells(width: u16, height: u16, cells: Vec<ArtCell>) -> (r: Option<Self>)
        ensures
            match r {
                Some(art) => {
                    &&& cells@.len() == width as int * height as int
                    &&& art.wf()
                    &&& art.width_spec() == width
                    &&& art.height_spec() == height
                    &&& art.cell_seq() == cells@
                },
                None => cells@.len() != width as int * height as int,
            },
    {
        let w = width as usize;
        let h = height as usize;
        assert(w * h <= 0xFFFE_0001) by (nonlinear_arith)
            requires
                w <= 0xFFFF,
                h <= 0xFFFF,
        ;
        let expected = w * h;
        if cells.len() == expected {
            Some(AsciiArt { width, height, cells })
        } else {
            None
        }
    }

    /// This art's current `(width, height)`, in cells.
    pub fn size(&self) -> (r: (u16, u16))
        ensures
            r == (self.width_spec(), self.height_spec()),
    {
        (self.width, self.height)
    }

    /// The glyph and RGB color at `(col, row)`, if within bounds.
    pub fn get(&self, col: u16, row: u16) -> (r: Option<ArtCell>)
        requires
            self.wf(),
        ensures
            r == if col < self.width_spec() && row < self.height_spec() {
                Some(self.cell(col as int, row as int))
            } else {
                None
            },
    {
        if col >= self.width || row >= self.height {
            return None;
        }
        let w = self.width as usize;
        let h = self.height as usize;
        let r = row as usize;
        let c = col as usize;
        assert(r * w + c < h * w && h * w <= 0xFFFE_0001) by (nonlinear_arith)
            requires
                r < h,
                c < w,
                h <= 0xFFFF,
                w <= 0xFFFF,
        ;
        assert(h * w == self.width_spec() as int * self.height_spec() as int) by (nonlinear_arith)
            requires
                h == self.height_spec(),
                w == self.width_spec(),
        ;
        Some(self.cells[r * w + c])
    }
}

/// An RGB image, held by `image`'s `RgbImage`.
#[verifier::external_body]
pub struct PixelGrid {
    image: RgbImage,
}

/// The `(width, height)` that a grid was made with.
pub uninterp spec fn grid_size(grid: PixelGrid) -> (u32, u32);

/// The RGB channels that a grid holds at each `(x, y)`.
pub uninterp spec fn grid_pixels(grid: PixelGrid) -> Map<(u32, u32), (u8, u8, u8)>;

/// The pixel at `(x, y)` of a `width` wide image whose channels are laid out
/// row by row, three bytes per pixel.
pub open spec fn raw_pixel(raw: Seq<u8>, width: u32, x: u32, y: u32) -> (u8, u8, u8) {
    let i = 3 * (y * width + x);
    (raw[i], raw[i + 1], raw[i + 2])
}

/// Each pixel takes the three bytes after the previous pixel of its row,
/// and each row starts `3 * width` bytes after the one above; the first
/// pixel is the first three bytes.
pub proof fn lemma_raw_pixels_packed(raw: Seq<u8>, width: u32, x: u32, y: u32)
    requires
        x + 1 <= u32::MAX,
        y + 1 <= u32::MAX,
    ensures
        raw_pixel(raw, width, 0, 0) == (raw[0], raw[1], raw[2]),
        raw_pixel(raw, width, (x + 1) as u32, y) == ({
            let p = 3 * (y * width + x);
            (raw[p + 3], raw[p + 4], raw[p + 5])
        }),
        raw_pixel(raw, width, x, (y + 1) as u32) == ({
            let p = 3 * (y * width + x);
            (raw[p + 3 * width], raw[p + 3 * width + 1], raw[p + 3 * width + 2])
        }),
{
    assert((y + 1) * width + x == y * width + x + width) by (nonlinear_arith);
    assert(0 * width == 0) by (nonlinear_arith);
}

/// `image::ImageBuffer::from_raw` for RGB pixels of `u8`: `None` when
/// `3 * width`, or that times `height`, overflows `usize`, or the product
/// exceeds the buffer; otherwise
/// an image of that size whose pixel `(x, y)` is the three bytes from
/// `3 * (y * width + x)` on.
#[verifier::external_body]
fn rgb_from_raw(width: u32, height: u32, raw: Vec<u8>) -> (r: Option<PixelGrid>)
    ensures
        match r {
            Some(grid) => {
                &&& 3 * width <= usize::MAX
                &&& 3 * width * height <= usize::MAX
                &&& 3 * width * height <= raw@.len()
                &&& grid_size(grid) == (width, height)
                &&& forall|x: u32, y: u32|
                    x < width && y < height ==> #[trigger] grid_pixels(grid)[(x, y)] == raw_pixel(
                        raw@,
                        width,
                        x,
                        y,
                    )
            },
            None => !(3 * width <= usize::MAX && 3 * width * height <= usize::MAX && 3 * width
                * height <= raw@.len()),
        },
{
    match ImageBuffer::from_raw(width, height, raw) {
        Some(image) => Some(PixelGrid { image }),
        None => None,
    }
}

/// `image::ImageBuffer::dimensions`: the image's width and height.
#[verifier::external_body]
fn rgb_dimensions(grid: &PixelGrid) -> (r: (u32, u32))
    ensures
        r == grid_size(*grid),
{
    grid.image.dimensions()
}

/// `image::ImageBuffer::get_pixel`: the channels at `(x, y)`, which must lie
/// within the image (the call panics otherwise).
#[verifier::external_body]
fn rgb_pixel(grid: &PixelGrid, x: u32, y: u32) -> (r: (u8, u8, u8))
    requires
        x < grid_size(*grid).0,
        y < grid_size(*grid).1,
    ensures
        r == grid_pixels(*grid)[(x, y)],
{
    let p: &Rgb<u8> = grid.image.get_pixel(x, y);
    (p.0[0], p.0[1], p.0[2])
}

impl PixelGrid {
    /// An image of `width` x `height` pixels from its channel bytes, laid out
    /// row by row with three bytes (red, green, blue) per pixel; `None` when
    /// the bytes do not cover the image.
    pub fn from_raw(width: u32, height: u32, raw: Vec<u8>) -> (r: Option<PixelGrid>)
        ensures
            r is Some <==> 3 * width <= usize::MAX && 3 * width * height <= usize::MAX && 3 * width
                * height <= raw@.len(),
            r matches Some(grid) ==> {
                &&& grid_size(grid) == (width, height)
                &&& forall|x: u32, y: u32|
                    x < width && y < height ==> #[trigger] grid_pixels(grid)[(x, y)] == raw_pixel(
                        raw@,
                        width,
                        x,
                        y,
                    )
            },
    {
        rgb_from_raw(width, height, raw)
    }

    /// The image's `(width, height)`.
    pub fn dimensions(&self) -> (r: (u32, u32))
        ensures
            r == grid_size(*self),
    {
        rgb_dimensions(self)
    }
}

/// The sum of one channel (0 red, 1 green, 2 blue) over the rows
/// `start..end` of column `col`.
pub open spec fn channel_sum(
    pixels: Map<(u32, u32), (u8, u8, u8)>,
    channel: int,
    col: u32,
    start: int,
    end: int,
) -> int
    decreases end - start,
{
    if end <= start {
        0
    } else {
        let p = pixels[(col, (end - 1) as u32)];
        let v = if channel == 0 {
            p.0
        } else if channel == 1 {
            p.1
        } else {
            p.2
        };
        channel_sum(pixels, channel, col, start, end - 1) + v
    }
}

proof fn lemma_channel_sum_bounded(
    pixels: Map<(u32, u32), (u8, u8, u8)>,
    channel: int,
    col: u32,
    start: int,
    end: int,
)
    requires
        start <= end,
    ensures
        0 <= channel_sum(pixels, channel, col, start, end) <= 255 * (end - start),
    decreases end - start,
{
    if start < end {
        lemma_channel_sum_bounded(pixels, channel, col, start, end - 1);
    }
}

/// An art's cells run row by row: the `k`-th cell is the one at column
/// `k % width` of row `k / width`, and every column of every row names its
/// own cell.
pub proof fn lemma_cells_row_major(art: AsciiArt, k: int)
    requires
        art.wf(),
        0 <= k < art.cell_seq().len(),
    ensures
        art.width_spec() > 0,
        k / (art.width_spec() as int) < art.height_spec(),
        art.cell(k % (art.width_spec() as int), k / (art.width_spec() as int)) == art.cell_seq()[k],
{
    let w = art.width_spec() as int;
    let h = art.height_spec() as int;
    assert(w > 0) by (nonlinear_arith)
        requires
            k < w * h,
            0 <= k,
            0 <= h,
            0 <= w,
    ;
    lemma_fundamental_div_mod(k, w);
    assert(k / w < h) by (nonlinear_arith)
        requires
            k == w * (k / w) + k % w,
            0 <= k % w,
            k < w * h,
            w > 0,
    ;
    assert((k / w) * w + k % w == k) by (nonlinear_arith)
        requires
            k == w * (k / w) + k % w,
    ;
}

/// The sum over rows `start..end` is the sum over `start..mid` and over
/// `mid..end`, and over rows that all hold one value it is that value times
/// the number of rows.
pub proof fn lemma_channel_sum_adds_up(
    pixels: Map<(u32, u32), (u8, u8, u8)>,
    channel: int,
    col: u32,
    start: int,
    mid: int,
    end: int,
)
    requires
        start <= mid <= end,
    ensures
        channel_sum(pixels, channel, col, start, end) == channel_sum(pixels, channel, col, start, mid)
            + channel_sum(pixels, channel, col, mid, end),
    decreases end - mid,
{
    if mid < end {
        lemma_channel_sum_adds_up(pixels, channel, col, start, mid, end - 1);
    }
}

/// Over rows `start..end` of column `col` that all hold the pixel `p`, each
/// channel sums to that channel of `p` times the number of rows, so the
/// average of a uniform band is its own color.
pub proof fn lemma_uniform_band_averages_to_itself(
    pixels: Map<(u32, u32), (u8, u8, u8)>,
    col: u32,
    start: int,
    end: int,
    p: (u8, u8, u8),
)
    requires
        start <= end,
        forall|y: int| start <= y < end ==> #[trigger] pixels[(col, y as u32)] == p,
    ensures
        channel_sum(pixels, 0, col, start, end) == p.0 * (end - start),
        channel_sum(pixels, 1, col, start, end) == p.1 * (end - start),
        channel_sum(pixels, 2, col, start, end) == p.2 * (end - start),
        start < end ==> channel_sum(pixels, 0, col, start, end) / (end - start) == p.0,
        start < end ==> channel_sum(pixels, 1, col, start, end) / (end - start) == p.1,
        start < end ==> channel_sum(pixels, 2, col, start, end) / (end - start) == p.2,
    decreases end - start,
{
    if start < end {
        lemma_uniform_band_averages_to_itself(pixels, col, start, end - 1, p);
        assert(pixels[(col, (end - 1) as u32)] == p);
        assert(p.0 * (end - 1 - start) + p.0 == p.0 * (end - start)) by (nonlinear_arith);
        assert(p.1 * (end - 1 - start) + p.1 == p.1 * (end - start)) by (nonlinear_arith);
        assert(p.2 * (end - 1 - start) + p.2 == p.2 * (end - start)) by (nonlinear_arith);
        let n = end - start;
        lemma_fundamental_div_mod_converse(p.0 * n, n, p.0 as int, 0);
        lemma_fundamental_div_mod_converse(p.1 * n, n, p.1 as int, 0);
        lemma_fundamental_div_mod_converse(p.2 * n, n, p.2 as int, 0);
    }
}

/// Output rows draw on bands of the oversampled image that start at its top
/// and move down row by row: the first starts at row 0, each is non-empty
/// and within the image, and no band starts above the previous one; where
/// the image has at least as many rows as the output, the bands tile it
/// without gaps or overlaps, the last ending at its bottom.
pub proof fn lemma_sample_bands_tile(row: int, height: int, sample_height: int)
    requires
        0 <= row < height,
        sample_height >= 1,
    ensures
        sample_band(0, height, sample_height).0 == 0,
        0 <= sample_band(row, height, sample_height).0 < sample_band(row, height, sample_height).1
            <= sample_height,
        row + 1 < height ==> sample_band(row, height, sample_height).0 <= sample_band(
            row + 1,
            height,
            sample_height,
        ).0,
        sample_height >= height && row + 1 < height ==> sample_band(row, height, sample_height).1
            == sample_band(row + 1, height, sample_height).0,
        sample_height >= height ==> sample_band(height - 1, height, sample_height).1
            == sample_height,
{
    let (s, h) = (sample_height, height);
    lemma_fundamental_div_mod_converse(0, h, 0, 0);
    assert(0 <= row * s / h <= (row + 1) * s / h) by (nonlinear_arith)
        requires
            0 <= row,
            s >= 1,
            h >= 1,
    ;
    assert(row * s / h < s) by (nonlinear_arith)
        requires
            0 <= row < h,
            s >= 1,
    ;
    assert((row + 1) * s / h <= s) by (nonlinear_arith)
        requires
            0 <= row < h,
            s >= 1,
    ;
    if s >= h {
        assert(row * s / h + 1 <= (row + 1) * s / h) by (nonlinear_arith)
            requires
                0 <= row,
                s >= h,
                h >= 1,
        ;
        lemma_fundamental_div_mod_converse(h * s, h, s, 0);
        assert(((h - 1) + 1) * s == h * s) by (nonlinear_arith);
        assert(((h - 1) + 1) * s / h == s);
        assert((h - 1) * s / h < s) by (nonlinear_arith)
            requires
                h >= 1,
                s >= 1,
        ;
    }
    if row + 1 < h {
        assert(0 <= (row + 1) * s / h <= (row + 2) * s / h) by (nonlinear_arith)
            requires
                0 <= row,
                s >= 1,
                h >= 1,
        ;
    }
}

/// The rows `start..end` of the oversampled image that make up output row
/// `row` of `height` rows: an even share of the `sample_height` rows, at
/// least one row, ending within the image.
pub open spec fn sample_band(row: int, height: int, sample_height: int) -> (int, int) {
    let start = row * sample_height / height;
    let end = (row + 1) * sample_height / height;
    (start, if end < start + 1 {
        start + 1
    } else if end > sample_height {
        sample_height
    } else {
        end
    })
}

/// The oversampled rows that make up output row `row` of `height` rows,
/// from an image `sample_height` rows tall.
pub fn sample_rows(row: u16, height: u16, sample_height: u32) -> (r: (u32, u32))
    requires
        row < height,
        sample_height >= 1,
        (row + 1) * sample_height <= u32::MAX,
    ensures
        r.0 == sample_band(row as int, height as int, sample_height as int).0,
        r.1 == sample_band(row as int, height as int, sample_height as int).1,
        r.0 < r.1 <= sample_height,
{
    let row = row as u32;
    let height = height as u32;
    assert(row * sample_height <= (row + 1) * sample_height) by (nonlinear_arith)
        requires
            sample_height >= 1,
    ;
    let start = row * sample_height / height;
    let end = (row + 1) * sample_height / height;
    assert(start < sample_height) by (nonlinear_arith)
        requires
            start as int == (row as int * sample_height as int) / (height as int),
            row < height,
            sample_height >= 1,
    ;
    let end = if end < start + 1 {
        start + 1
    } else if end > sample_height {
        sample_height
    } else {
        end
    };
    (start, end)
}

/// Averages oversampled rows `start..end` of column `col` into one pixel:
/// each channel is the sum over those rows divided by their count.
pub fn averaged_pixel(image: &PixelGrid, col: u32, start: u32, end: u32) -> (r: (u8, u8, u8))
    requires
        start < end <= grid_size(*image).1,
        col < grid_size(*image).0,
        end - start <= u32::MAX / 255,
    ensures
        r.0 == channel_sum(grid_pixels(*image), 0, col, start as int, end as int) / (end
            - start),
        r.1 == channel_sum(grid_pixels(*image), 1, col, start as int, end as int) / (end
            - start),
        r.2 == channel_sum(grid_pixels(*image), 2, col, start as int, end as int) / (end
            - start),
{
    let count = end - start;
    let mut r: u32 = 0;
    let mut g: u32 = 0;
    let mut b: u32 = 0;
    let mut y = start;
    while y < end
        invariant
            start <= y <= end <= grid_size(*image).1,
            col < grid_size(*image).0,
            end - start <= u32::MAX / 255,
            r == channel_sum(grid_pixels(*image), 0, col, start as int, y as int),
            g == channel_sum(grid_pixels(*image), 1, col, start as int, y as int),
            b == channel_sum(grid_pixels(*image), 2, col, start as int, y as int),
        decreases end - y,
    {
        proof {
            lemma_channel_sum_bounded(grid_pixels(*image), 0, col, start as int, y as int);
            lemma_channel_sum_bounded(grid_pixels(*image), 1, col, start as int, y as int);
            lemma_channel_sum_bounded(grid_pixels(*image), 2, col, start as int, y as int);
        }
        let (cr, cg, cb) = rgb_pixel(image, col, y);
        r = r + cr as u32;
        g = g + cg as u32;
        b = b + cb as u32;
        y = y + 1;
    }
    proof {
        lemma_channel_sum_bounded(grid_pixels(*image), 0, col, start as int, end as int);
        lemma_channel_sum_bounded(grid_pixels(*image), 1, col, start as int, end as int);
        lemma_channel_sum_bounded(grid_pixels(*image), 2, col, start as int, end as int);
    }
    assert(r / count <= 255 && g / count <= 255 && b / count <= 255) by (nonlinear_arith)
        requires
            r <= 255 * count,
            g <= 255 * count,
            b <= 255 * count,
            count > 0,
    ;
    ((r / count) as u8, (g / count) as u8, (b / count) as u8)
}

/// `averaged_pixel` where the rows `start..end` of column `col` lie within
/// the image and are few enough to sum; `None` otherwise.
pub fn try_averaged_pixel(image: &PixelGrid, col: u32, start: u32, end: u32) -> (r: Option<(u8, u8, u8)>)
    ensures
        match r {
            Some(p) => {
                &&& start < end <= grid_size(*image).1
                &&& col < grid_size(*image).0
                &&& end - start <= u32::MAX / 255
                &&& p.0 == channel_sum(grid_pixels(*image), 0, col, start as int, end as int) / (end
                    - start)
                &&& p.1 == channel_sum(grid_pixels(*image), 1, col, start as int, end as int) / (end
                    - start)
                &&& p.2 == channel_sum(grid_pixels(*image), 2, col, start as int, end as int) / (end
                    - start)
            },
            None => !(start < end <= grid_size(*image).1 && col < grid_size(*image).0 && end - start
                <= u32::MAX / 255),
        },
{
    let (width, height) = image.dimensions();
    if start < end && end <= height && col < width && end - start <= u32::MAX / 255 {
        Some(averaged_pixel(image, col, start, end))
    } else {
        None
    }
}

/// A charset for rendering: the given glyphs, from darkest to brightest,
/// which must not be empty.
pub fn checked_charset(charset: &[char]) -> (r: Result<Vec<char>, &'static str>)
    ensures
        match r {
            Ok(v) => charset@.len() > 0 && v@ == charset@,
            Err(_) => charset@.len() == 0,
        },
{
    if charset.len() == 0 {
        Err("charset must not be empty")
    } else {
        let mut v: Vec<char> = Vec::new();
        let mut i: usize = 0;
        while i < charset.len()
            invariant
                i <= charset@.len(),
                v@ == charset@.subrange(0, i as int),
            decreases charset.len() - i,
        {
            v.push(charset[i]);
            i = i + 1;
        }
        Ok(v)
    }
}

} // verus!
