//! Render modes: how framebuffer pixels are turned into terminal cells.

use vstd::prelude::*;

use ratatui::buffer::Buffer;

use crate::cells::{
    buffer_area, buffer_cells, buffer_extent, reaches_cell, rgb_code, set_cell_colors, set_cell_symbol,
};
use crate::color::Rgb;
use crate::framebuffer::{Framebuffer, Tone};
use crate::rect::Rect;

verus! {

/// How the framebuffer pixels are mapped to terminal cells.
#[derive(Debug, Clone, Copy, PartialEq, Eq, Structural)]
pub enum RenderMode {
    /// Half-block characters: 2 vertical pixels per cell using ▀ with fg=upper, bg=lower.
    HalfBlock,
    /// Braille characters: 2×4 dots per cell for high-resolution monochrome.
    Braille,
    /// ASCII shading ramp with colored characters.
    Ascii,
}

/// What one terminal cell is set to: its symbol and its two colors.
#[derive(Debug, Clone, Copy, PartialEq, Eq, Structural)]
pub struct CellStyle {
    pub symbol: char,
    pub fg: Rgb,
    pub bg: Rgb,
}

/// A buffer cell `before` once written with the style `c`: the symbol and
/// the two colors of the style, the modifier and skip flag it had.
pub open spec fn written_cell(
    c: CellStyle,
    before: (Seq<char>, (u8, u8, u8, u8), (u8, u8, u8, u8), u16, bool),
) -> (Seq<char>, (u8, u8, u8, u8), (u8, u8, u8, u8), u16, bool) {
    (seq![c.symbol], rgb_code(c.fg), rgb_code(c.bg), before.3, before.4)
}

/// The color drawn for pixel `(x, y)`: the pixel itself inside the grid, black outside it.
pub open spec fn sample(fb: &Framebuffer, x: int, y: int) -> Rgb {
    if fb.contains(x, y) {
        fb.pixel(x, y)
    } else {
        Rgb(0, 0, 0)
    }
}

/// The upper half block `▀`.
pub open spec fn upper_half_block() -> char {
    '\u{2580}'
}

/// Half-block cell `(col, row)`: `▀` with the upper pixel as foreground and
/// the lower pixel as background.
pub open spec fn spec_half_block_cell(fb: &Framebuffer, col: int, row: int) -> CellStyle {
    CellStyle {
        symbol: upper_half_block(),
        fg: sample(fb, col, 2 * row),
        bg: sample(fb, col, 2 * row + 1),
    }
}

/// The bit of the braille pattern for the dot in column `dx` and row `dy` of a
/// cell (Unicode dot numbering: 1 2 3 7 down the left, 4 5 6 8 down the right).
pub open spec fn spec_dot_bit(dx: int, dy: int) -> u8 {
    if dx == 0 {
        if dy == 0 { 0x01u8 } else if dy == 1 { 0x02u8 } else if dy == 2 { 0x04u8 } else { 0x40u8 }
    } else {
        if dy == 0 { 0x08u8 } else if dy == 1 { 0x10u8 } else if dy == 2 { 0x20u8 } else { 0x80u8 }
    }
}

/// The `k`-th dot of braille cell `(col, row)` (dots are taken column by
/// column, four per column) lies on pixel `(2 * col + k / 4, 4 * row + k % 4)`;
/// it is lit when that pixel is in the grid and its tone is lit.
pub open spec fn dot_lit(fb: &Framebuffer, tones: Seq<Tone>, col: int, row: int, k: int) -> bool {
    let x = 2 * col + k / 4;
    let y = 4 * row + k % 4;
    fb.contains(x, y) && tones[fb.offset(x, y)].lit
}

/// The braille pattern of the first `k` dots of cell `(col, row)`.
pub open spec fn pattern_upto(fb: &Framebuffer, tones: Seq<Tone>, col: int, row: int, k: int) -> u8
    decreases k,
{
    if k <= 0 {
        0u8
    } else {
        pattern_upto(fb, tones, col, row, k - 1) | (if dot_lit(fb, tones, col, row, k - 1) {
            spec_dot_bit((k - 1) / 4, (k - 1) % 4)
        } else {
            0u8
        })
    }
}

/// How many of the first `k` dots of cell `(col, row)` are lit.
pub open spec fn lit_upto(fb: &Framebuffer, tones: Seq<Tone>, col: int, row: int, k: int) -> int
    decreases k,
{
    if k <= 0 {
        0
    } else {
        lit_upto(fb, tones, col, row, k - 1) + if dot_lit(fb, tones, col, row, k - 1) {
            1int
        } else {
            0int
        }
    }
}

/// Channel `c` (0 red, 1 green, 2 blue) of a color.
pub open spec fn channel(color: Rgb, c: int) -> int {
    if c == 0 {
        color.0 as int
    } else if c == 1 {
        color.1 as int
    } else {
        color.2 as int
    }
}

/// The sum of channel `c` over the lit ones among the first `k` dots of cell `(col, row)`.
pub open spec fn total_upto(fb: &Framebuffer, tones: Seq<Tone>, col: int, row: int, k: int, c: int) -> int
    decreases k,
{
    if k <= 0 {
        0
    } else {
        total_upto(fb, tones, col, row, k - 1, c) + if dot_lit(fb, tones, col, row, k - 1) {
            channel(fb.pixel(2 * col + (k - 1) / 4, 4 * row + (k - 1) % 4), c)
        } else {
            0int
        }
    }
}

/// The braille character of a dot pattern: U+2800 plus the pattern.
pub open spec fn braille_char(pattern: u8) -> char {
    (0x2800 + pattern) as char
}

/// Braille cell `(col, row)`: the character of its lit dots, drawn in the
/// average color of the lit pixels (black when none is lit) on black.
pub open spec fn spec_braille_cell(fb: &Framebuffer, tones: Seq<Tone>, col: int, row: int) -> CellStyle {
    let n = lit_upto(fb, tones, col, row, 8);
    CellStyle {
        symbol: braille_char(pattern_upto(fb, tones, col, row, 8)),
        fg: if n > 0 {
            Rgb(
                (total_upto(fb, tones, col, row, 8, 0) / n) as u8,
                (total_upto(fb, tones, col, row, 8, 1) / n) as u8,
                (total_upto(fb, tones, col, row, 8, 2) / n) as u8,
            )
        } else {
            Rgb(0, 0, 0)
        },
        bg: Rgb(0, 0, 0),
    }
}

/// The ASCII shading ramp, from dark to bright.
pub open spec fn ascii_ramp() -> Seq<char> {
    seq![' ', '.', ':', '-', '=', '+', '*', '#', '%', '@']
}

/// Where a character stands on the ASCII shading ramp (-1 when it is not on it).
pub open spec fn ramp_rank(c: char) -> int {
    if c == ' ' {
        0
    } else if c == '.' {
        1
    } else if c == ':' {
        2
    } else if c == '-' {
        3
    } else if c == '=' {
        4
    } else if c == '+' {
        5
    } else if c == '*' {
        6
    } else if c == '#' {
        7
    } else if c == '%' {
        8
    } else if c == '@' {
        9
    } else {
        -1
    }
}

/// The ramp position for cell `(col, row)` in ASCII mode: the pixel's tone
/// inside the grid, and that of black (the start of the ramp) outside it.
pub open spec fn ramp_position(fb: &Framebuffer, tones: Seq<Tone>, col: int, row: int) -> int {
    if fb.contains(col, row) {
        tones[fb.offset(col, row)].ramp as int
    } else {
        0
    }
}

/// ASCII cell `(col, row)`: the ramp character at the pixel's ramp position,
/// clamped to the ramp's end, in the pixel's color on black.
pub open spec fn spec_ascii_cell(fb: &Framebuffer, tones: Seq<Tone>, col: int, row: int) -> CellStyle {
    let i = ramp_position(fb, tones, col, row);
    CellStyle {
        symbol: ascii_ramp()[if i < 9 { i } else { 9 }],
        fg: sample(fb, col, row),
        bg: Rgb(0, 0, 0),
    }
}

/// Whether `(x, y)` lies in the rectangle.
pub open spec fn in_rect(area: Rect, x: int, y: int) -> bool {
    area.x <= x < area.x + area.width && area.y <= y < area.y + area.height
}

/// The position of cell `(col, row)` of an area.
pub open spec fn area_cell(area: Rect, col: int, row: int) -> (int, int) {
    (area.x + col, area.y + row)
}

/// Every cell of `area` can be reached in the buffer.
pub open spec fn area_fits(buf: Buffer, area: Rect) -> bool {
    forall|col: int, row: int|
        0 <= col < area.width && 0 <= row < area.height ==> #[trigger] buffer_cells(buf).dom().contains(
            area_cell(area, col, row),
        )
}

/// The tones describe the framebuffer's pixels, one each.
pub open spec fn tones_fit(fb: &Framebuffer, tones: Seq<Tone>) -> bool {
    fb.wf() && tones.len() == fb.color@.len()
}

impl RenderMode {
    /// Pixels per cell along x and along y.
    pub open spec fn scale(self) -> (int, int) {
        match self {
            RenderMode::HalfBlock => (1, 2),
            RenderMode::Braille => (2, 4),
            RenderMode::Ascii => (1, 1),
        }
    }

    /// The pixel resolution of a terminal area.
    pub open spec fn spec_pixel_size(self, area: Rect) -> (int, int) {
        match self {
            RenderMode::HalfBlock => (area.width as int, area.height * 2),
            RenderMode::Braille => (area.width * 2, area.height * 4),
            RenderMode::Ascii => (area.width as int, area.height as int),
        }
    }

    /// Compute the pixel resolution for a given terminal area.
    pub fn pixel_size(self, area: Rect) -> (r: (u32, u32))
        ensures
            r.0 == self.spec_pixel_size(area).0,
            r.1 == self.spec_pixel_size(area).1,
    {
        match self {
            RenderMode::HalfBlock => (area.width as u32, area.height as u32 * 2),
            RenderMode::Braille => (area.width as u32 * 2, area.height as u32 * 4),
            RenderMode::Ascii => (area.width as u32, area.height as u32),
        }
    }

    /// What cell `(col, row)` of the area shows in this mode.
    pub open spec fn spec_cell(self, fb: &Framebuffer, tones: Seq<Tone>, col: int, row: int) -> CellStyle {
        match self {
            RenderMode::HalfBlock => spec_half_block_cell(fb, col, row),
            RenderMode::Braille => spec_braille_cell(fb, tones, col, row),
            RenderMode::Ascii => spec_ascii_cell(fb, tones, col, row),
        }
    }

    /// The cell `(col, row)` of the area in this mode.
    pub fn cell(self, fb: &Framebuffer, tones: &Vec<Tone>, col: u16, row: u16) -> (r: CellStyle)
        requires
            tones_fit(fb, tones@),
        ensures
            r == self.spec_cell(fb, tones@, col as int, row as int),
    {
        match self {
            RenderMode::HalfBlock => half_block_cell(fb, col, row),
            RenderMode::Braille => braille_cell(fb, tones, col, row),
            RenderMode::Ascii => ascii_cell(fb, tones, col, row),
        }
    }
}

impl Default for RenderMode {
    fn default() -> (r: Self)
        ensures
            r == RenderMode::HalfBlock,
    {
        RenderMode::HalfBlock
    }
}

/// The color drawn for pixel `(x, y)`.
fn sample_pixel(fb: &Framebuffer, x: u32, y: u32) -> (r: Rgb)
    requires
        fb.wf(),
    ensures
        r == sample(fb, x as int, y as int),
{
    if x < fb.width && y < fb.height {
        fb.get_pixel(x, y)
    } else {
        Rgb::black()
    }
}

/// Half-block cell `(col, row)`: 2 vertical pixels per cell, using ▀ with
/// fg = upper pixel and bg = lower pixel.
pub fn half_block_cell(fb: &Framebuffer, col: u16, row: u16) -> (r: CellStyle)
    requires
        fb.wf(),
    ensures
        r == spec_half_block_cell(fb, col as int, row as int),
{
    let px = col as u32;
    let py_upper = row as u32 * 2;
    let py_lower = py_upper + 1;
    let upper = sample_pixel(fb, px, py_upper);
    let lower = sample_pixel(fb, px, py_lower);
    CellStyle { symbol: '\u{2580}', fg: upper, bg: lower }
}

/// Calls `char::from_u32`. Claims, as its documentation states, that the
/// result is `Some` exactly when `v` is a Unicode scalar value (at most
/// 0x10FFFF and outside the surrogates 0xD800..=0xDFFF), holding the char
/// whose code is `v`.
#[verifier::external_body]
fn char_from_u32(v: u32) -> (r: Option<char>)
    ensures
        r is Some <==> (v <= 0x10FFFF && !(0xD800 <= v <= 0xDFFF)),
        r matches Some(c) ==> c == v as char,
{
    char::from_u32(v)
}

/// The bit of the braille pattern for dot `(dx, dy)` of a cell.
fn dot_bit(dx: u32, dy: u32) -> (r: u8)
    requires
        dx < 2,
        dy < 4,
    ensures
        r == spec_dot_bit(dx as int, dy as int),
{
    if dx == 0 {
        if dy == 0 { 0x01 } else if dy == 1 { 0x02 } else if dy == 2 { 0x04 } else { 0x40 }
    } else {
        if dy == 0 { 0x08 } else if dy == 1 { 0x10 } else if dy == 2 { 0x20 } else { 0x80 }
    }
}

/// The average of `total` over `n` values of at most 255 each fits a byte.
proof fn lemma_average_fits(total: int, n: int)
    requires
        0 < n,
        0 <= total <= 255 * n,
    ensures
        0 <= total / n <= 255,
{
    assert(0 <= total / n <= 255) by (nonlinear_arith)
        requires
            0 < n,
            0 <= total <= 255 * n,
    ;
}

/// Braille cell `(col, row)`: each cell maps to a 2×4 dot grid; a dot is set
/// when its pixel is lit, and the cell takes the average color of its lit pixels.
pub fn braille_cell(fb: &Framebuffer, tones: &Vec<Tone>, col: u16, row: u16) -> (r: CellStyle)
    requires
        tones_fit(fb, tones@),
    ensures
        r == spec_braille_cell(fb, tones@, col as int, row as int),
{
    let ghost g_col = col as int;
    let ghost g_row = row as int;
    let base_x = col as u32 * 2;
    let base_y = row as u32 * 4;

    let mut pattern: u8 = 0;
    let mut total_r: u32 = 0;
    let mut total_g: u32 = 0;
    let mut total_b: u32 = 0;
    let mut lit_count: u32 = 0;

    let mut dx: u32 = 0;
    while dx < 2
        invariant
            tones_fit(fb, tones@),
            base_x == 2 * g_col,
            base_y == 4 * g_row,
            dx <= 2,
            pattern == pattern_upto(fb, tones@, g_col, g_row, 4 * dx),
            lit_count == lit_upto(fb, tones@, g_col, g_row, 4 * dx),
            total_r == total_upto(fb, tones@, g_col, g_row, 4 * dx, 0),
            total_g == total_upto(fb, tones@, g_col, g_row, 4 * dx, 1),
            total_b == total_upto(fb, tones@, g_col, g_row, 4 * dx, 2),
            0 <= lit_count <= 4 * dx,
            total_r <= 255 * lit_count,
            total_g <= 255 * lit_count,
            total_b <= 255 * lit_count,
        decreases 2 - dx,
    {
        let mut dy: u32 = 0;
        while dy < 4
            invariant
                tones_fit(fb, tones@),
                base_x == 2 * g_col,
                base_y == 4 * g_row,
                dx < 2,
                dy <= 4,
                pattern == pattern_upto(fb, tones@, g_col, g_row, 4 * dx + dy),
                lit_count == lit_upto(fb, tones@, g_col, g_row, 4 * dx + dy),
                total_r == total_upto(fb, tones@, g_col, g_row, 4 * dx + dy, 0),
                total_g == total_upto(fb, tones@, g_col, g_row, 4 * dx + dy, 1),
                total_b == total_upto(fb, tones@, g_col, g_row, 4 * dx + dy, 2),
                0 <= lit_count <= 4 * dx + dy,
                total_r <= 255 * lit_count,
                total_g <= 255 * lit_count,
                total_b <= 255 * lit_count,
            decreases 4 - dy,
        {
            let ghost k = 4 * dx + dy;
            assert(k / 4 == dx && k % 4 == dy);
            assert(pattern | 0u8 == pattern) by (bit_vector);
            let px = base_x + dx;
            let py = base_y + dy;
            if px < fb.width && py < fb.height {
                let i = fb.pixel_offset(px, py);
                if tones[i].lit {
                    let color = fb.color[i];
                    pattern = pattern | dot_bit(dx, dy);
                    total_r = total_r + color.0 as u32;
                    total_g = total_g + color.1 as u32;
                    total_b = total_b + color.2 as u32;
                    lit_count = lit_count + 1;
                }
            }
            dy = dy + 1;
        }
        dx = dx + 1;
    }

    let ch = char_from_u32(0x2800 + pattern as u32).unwrap_or(' ');
    let fg = if lit_count > 0 {
        proof {
            lemma_average_fits(total_r as int, lit_count as int);
            lemma_average_fits(total_g as int, lit_count as int);
            lemma_average_fits(total_b as int, lit_count as int);
        }
        Rgb((total_r / lit_count) as u8, (total_g / lit_count) as u8, (total_b / lit_count) as u8)
    } else {
        Rgb::black()
    };
    CellStyle { symbol: ch, fg, bg: Rgb::black() }
}

/// The character at position `i` of the ASCII shading ramp.
fn ramp_char(i: usize) -> (r: char)
    requires
        i < 10,
    ensures
        r == ascii_ramp()[i as int],
{
    if i == 0 {
        ' '
    } else if i == 1 {
        '.'
    } else if i == 2 {
        ':'
    } else if i == 3 {
        '-'
    } else if i == 4 {
        '='
    } else if i == 5 {
        '+'
    } else if i == 6 {
        '*'
    } else if i == 7 {
        '#'
    } else if i == 8 {
        '%'
    } else {
        '@'
    }
}

/// ASCII cell `(col, row)`: map the pixel's luminance to a character ramp,
/// colored with the pixel color.
pub fn ascii_cell(fb: &Framebuffer, tones: &Vec<Tone>, col: u16, row: u16) -> (r: CellStyle)
    requires
        tones_fit(fb, tones@),
    ensures
        r == spec_ascii_cell(fb, tones@, col as int, row as int),
{
    let px = col as u32;
    let py = row as u32;
    let (color, idx) = if px < fb.width && py < fb.height {
        let i = fb.pixel_offset(px, py);
        (fb.color[i], tones[i].ramp)
    } else {
        (Rgb::black(), 0)
    };
    let clamped = if idx < 9 { idx } else { 9 };
    CellStyle { symbol: ramp_char(clamped), fg: color, bg: Rgb::black() }
}

/// The buffer `after` is `before` with the area drawn in `mode`: the same
/// area and positions, every cell of the area given the symbol and colors
/// the mode shows there (keeping its modifier and skip flag), and every other
/// cell as it was.
pub open spec fn drawn_over(
    mode: RenderMode,
    fb: &Framebuffer,
    tones: Seq<Tone>,
    area: Rect,
    before_buf: Buffer,
    after_buf: Buffer,
) -> bool {
    let before = buffer_cells(before_buf);
    let after = buffer_cells(after_buf);
    &&& buffer_area(after_buf) == buffer_area(before_buf)
    &&& after.dom() == before.dom()
    &&& forall|col: int, row: int|
        0 <= col < area.width && 0 <= row < area.height ==> #[trigger] after[area_cell(area, col, row)]
            == written_cell(mode.spec_cell(fb, tones, col, row), before[area_cell(area, col, row)])
    &&& forall|x: int, y: int|
        before.dom().contains((x, y)) && !in_rect(area, x, y) ==> #[trigger] after[(x, y)] == before[(x, y)]
}

impl RenderMode {
    /// Blit the framebuffer into the ratatui buffer: every cell of `area`
    /// gets what this mode shows there, row by row.
    pub fn blit(self, fb: &Framebuffer, tones: &Vec<Tone>, area: Rect, buf: &mut Buffer)
        requires
            tones_fit(fb, tones@),
            area_fits(*old(buf), area),
        ensures
            drawn_over(self, fb, tones@, area, *old(buf), *final(buf)),
    {
        let (barea, blen) = buffer_extent(buf);
        let mut row: u16 = 0;
        while row < area.height
            invariant
                tones_fit(fb, tones@),
                row <= area.height,
                area_fits(*old(buf), area),
                forall|x: int, y: int|
                    buffer_cells(*old(buf)).dom().contains((x, y)) <==> reaches_cell(
                        barea,
                        blen as int,
                        x,
                        y,
                    ),
                buffer_area(*buf) == buffer_area(*old(buf)),
                buffer_cells(*buf).dom() == buffer_cells(*old(buf)).dom(),
                forall|c: int, r: int|
                    0 <= c < area.width && 0 <= r < row ==> #[trigger] buffer_cells(*buf)[area_cell(
                        area,
                        c,
                        r,
                    )] == written_cell(
                        self.spec_cell(fb, tones@, c, r),
                        buffer_cells(*old(buf))[area_cell(area, c, r)],
                    ),
                forall|x: int, y: int|
                    buffer_cells(*old(buf)).dom().contains((x, y)) && !(in_rect(area, x, y) && y
                        < area.y + row) ==> #[trigger] buffer_cells(*buf)[(x, y)] == buffer_cells(
                        *old(buf),
                    )[(x, y)],
            decreases area.height - row,
        {
            let mut col: u16 = 0;
            while col < area.width
                invariant
                    tones_fit(fb, tones@),
                    row < area.height,
                    col <= area.width,
                    area_fits(*old(buf), area),
                    forall|x: int, y: int|
                        buffer_cells(*old(buf)).dom().contains((x, y)) <==> reaches_cell(
                            barea,
                            blen as int,
                            x,
                            y,
                        ),
                    buffer_area(*buf) == buffer_area(*old(buf)),
                    buffer_cells(*buf).dom() == buffer_cells(*old(buf)).dom(),
                    forall|c: int, r: int|
                        0 <= c < area.width && 0 <= r < row ==> #[trigger] buffer_cells(
                            *buf,
                        )[area_cell(area, c, r)] == written_cell(
                            self.spec_cell(fb, tones@, c, r),
                            buffer_cells(*old(buf))[area_cell(area, c, r)],
                        ),
                    forall|c: int|
                        0 <= c < col ==> #[trigger] buffer_cells(*buf)[area_cell(area, c, row as int)]
                            == written_cell(
                            self.spec_cell(fb, tones@, c, row as int),
                            buffer_cells(*old(buf))[area_cell(area, c, row as int)],
                        ),
                    forall|x: int, y: int|
                        buffer_cells(*old(buf)).dom().contains((x, y)) && !(in_rect(area, x, y) && (
                        y < area.y + row || (y == area.y + row && x < area.x + col)))
                            ==> #[trigger] buffer_cells(*buf)[(x, y)] == buffer_cells(
                            *old(buf),
                        )[(x, y)],
                decreases area.width - col,
            {
                let cell = self.cell(fb, tones, col, row);
                assert(buffer_cells(*old(buf)).dom().contains(
                    area_cell(area, col as int, row as int),
                ));
                assert(reaches_cell(barea, blen as int, area.x + col, area.y + row));
                let x = area.x + col;
                let y = area.y + row;
                set_cell_symbol(buf, x, y, cell.symbol);
                set_cell_colors(buf, x, y, cell.fg, cell.bg);
                col = col + 1;
            }
            row = row + 1;
        }
    }
}

/// Whether indexing at `(x, y)` reaches a cell of a buffer with area `barea`
/// and `len` cells.
fn reaches(barea: Rect, len: usize, x: u32, y: u32) -> (r: bool)
    ensures
        r == reaches_cell(barea, len as int, x as int, y as int),
{
    let right: u32 = if barea.x as u32 + barea.width as u32 > 65535 {
        65535
    } else {
        barea.x as u32 + barea.width as u32
    };
    let bottom: u32 = if barea.y as u32 + barea.height as u32 > 65535 {
        65535
    } else {
        barea.y as u32 + barea.height as u32
    };
    if x < barea.x as u32 || x >= right || y < barea.y as u32 || y >= bottom {
        return false;
    }
    let dy = (y - barea.y as u32) as u64;
    let dx = (x - barea.x as u32) as u64;
    assert(dy * barea.width <= 65535 * 65535) by (nonlinear_arith)
        requires
            dy <= 65535,
            barea.width <= 65535,
    ;
    dy * barea.width as u64 + dx < len as u64
}

/// Row-major offsets grow with the row and the column.
proof fn lemma_offset_monotone(x: int, y: int, xl: int, yl: int, w: int)
    requires
        0 <= x <= xl,
        0 <= y <= yl,
        0 <= w,
    ensures
        y * w + x <= yl * w + xl,
{
    assert(y * w <= yl * w) by (nonlinear_arith)
        requires
            0 <= y <= yl,
            0 <= w,
    ;
}

impl RenderMode {
    /// Blit the framebuffer into the ratatui buffer when every cell of `area`
    /// lies in the buffer, and report whether it did; the buffer is left as
    /// it was when the area does not fit.
    pub fn try_blit(self, fb: &Framebuffer, tones: &Vec<Tone>, area: Rect, buf: &mut Buffer) -> (drawn: bool)
        requires
            tones_fit(fb, tones@),
        ensures
            drawn == area_fits(*old(buf), area),
            drawn ==> drawn_over(self, fb, tones@, area, *old(buf), *final(buf)),
            !drawn ==> *final(buf) == *old(buf),
    {
        let (barea, blen) = buffer_extent(buf);
        if area.width == 0 || area.height == 0 {
            self.blit(fb, tones, area, buf);
            return true;
        }
        let x_last = area.x as u32 + area.width as u32 - 1;
        let y_last = area.y as u32 + area.height as u32 - 1;
        let fits = reaches(barea, blen, area.x as u32, area.y as u32) && reaches(
            barea,
            blen,
            x_last,
            y_last,
        );
        if !fits {
            proof {
                assert(!buffer_cells(*buf).dom().contains(area_cell(area, 0, 0))
                    || !buffer_cells(*buf).dom().contains(
                    area_cell(area, area.width - 1, area.height - 1),
                ));
            }
            return false;
        }
        proof {
            assert forall|col: int, row: int|
                0 <= col < area.width && 0 <= row < area.height implies #[trigger] buffer_cells(
                *buf,
            ).dom().contains(area_cell(area, col, row)) by {
                lemma_offset_monotone(
                    area.x + col - barea.x,
                    area.y + row - barea.y,
                    x_last - barea.x,
                    y_last - barea.y,
                    barea.width as int,
                );
                assert(reaches_cell(barea, blen as int, area.x + col, area.y + row));
            }
        }
        self.blit(fb, tones, area, buf);
        true
    }
}

/// The eight dot bits, one per dot in the order the dots are taken, are
/// disjoint: the pattern built from them tells each dot apart.
proof fn lemma_dot_bits_decode(l0: bool, l1: bool, l2: bool, l3: bool, l4: bool, l5: bool, l6: bool, l7: bool, p: u8)
    by (bit_vector)
    requires
        p == (((((((0u8 | (if l0 { 0x01u8 } else { 0u8 })) | (if l1 { 0x02u8 } else { 0u8 })) | (
        if l2 { 0x04u8 } else { 0u8 })) | (if l3 { 0x40u8 } else { 0u8 })) | (if l4 { 0x08u8 } else { 0u8 }))
            | (if l5 { 0x10u8 } else { 0u8 })) | (if l6 { 0x20u8 } else { 0u8 })) | (if l7 { 0x80u8 } else {
            0u8
        }),
    ensures
        ((p & 0x01u8) != 0u8) == l0,
        ((p & 0x02u8) != 0u8) == l1,
        ((p & 0x04u8) != 0u8) == l2,
        ((p & 0x40u8) != 0u8) == l3,
        ((p & 0x08u8) != 0u8) == l4,
        ((p & 0x10u8) != 0u8) == l5,
        ((p & 0x20u8) != 0u8) == l6,
        ((p & 0x80u8) != 0u8) == l7,
        (p == 0u8) == (!l0 && !l1 && !l2 && !l3 && !l4 && !l5 && !l6 && !l7),
{
}

/// The braille character of a cell shows exactly its lit dots: the bit of dot
/// `(dx, dy)` is set in the pattern if and only if the pixel under that dot is
/// in the grid and lit, and a cell with no lit dot is the blank braille
/// character U+2800 drawn in black.
pub proof fn law_braille_dots_are_lit_pixels(fb: &Framebuffer, tones: Seq<Tone>, col: int, row: int, dx: int, dy: int)
    requires
        0 <= dx < 2,
        0 <= dy < 4,
    ensures
        ((pattern_upto(fb, tones, col, row, 8) & spec_dot_bit(dx, dy)) != 0u8) <==> (fb.contains(
            2 * col + dx,
            4 * row + dy,
        ) && tones[fb.offset(2 * col + dx, 4 * row + dy)].lit),
        ((pattern_upto(fb, tones, col, row, 8) & spec_dot_bit(dx, dy)) != 0u8) <==> pixel_lit(
            fb,
            tones,
            2 * col + dx,
            4 * row + dy,
        ),
        (forall|k: int| 0 <= k < 8 ==> !dot_lit(fb, tones, col, row, k)) ==> spec_braille_cell(
            fb,
            tones,
            col,
            row,
        ).symbol == braille_char(0u8) && spec_braille_cell(fb, tones, col, row).fg == Rgb(0, 0, 0),
{
    reveal_with_fuel(pattern_upto, 9);
    reveal_with_fuel(lit_upto, 9);
    let l = |k: int| dot_lit(fb, tones, col, row, k);
    assert(0int / 4 == 0 && 0int % 4 == 0 && 1int / 4 == 0 && 1int % 4 == 1 && 2int / 4 == 0 && 2int % 4
        == 2 && 3int / 4 == 0 && 3int % 4 == 3 && 4int / 4 == 1 && 4int % 4 == 0 && 5int / 4 == 1 && 5int
        % 4 == 1 && 6int / 4 == 1 && 6int % 4 == 2 && 7int / 4 == 1 && 7int % 4 == 3);
    lemma_dot_bits_decode(
        l(0),
        l(1),
        l(2),
        l(3),
        l(4),
        l(5),
        l(6),
        l(7),
        pattern_upto(fb, tones, col, row, 8),
    );
    assert((4 * dx + dy) / 4 == dx && (4 * dx + dy) % 4 == dy);
}

/// The pixel resolution that `pixel_size` reports is the one the cells are
/// drawn from: it is the area's size times the pixels per cell of the mode,
/// and a pixel lies inside it exactly when the cell it belongs to (its
/// coordinates divided by the pixels per cell) is a cell of the area.
pub proof fn law_pixel_size_matches_cells(mode: RenderMode, area: Rect, px: int, py: int)
    requires
        0 <= px,
        0 <= py,
    ensures
        mode.spec_pixel_size(area) == (area.width * mode.scale().0, area.height * mode.scale().1),
        (px < mode.spec_pixel_size(area).0 && py < mode.spec_pixel_size(area).1) <==> (px / mode.scale().0
            < area.width && py / mode.scale().1 < area.height),
{
    let (sx, sy) = mode.scale();
    let (w, h) = (area.width as int, area.height as int);
    assert((px < w * sx) <==> (px / sx < w)) by (nonlinear_arith)
        requires
            0 <= px,
            0 < sx,
            0 <= w,
    ;
    assert((py < h * sy) <==> (py / sy < h)) by (nonlinear_arith)
        requires
            0 <= py,
            0 < sy,
            0 <= h,
    ;
}

/// Each character of the ASCII shading ramp stands at its own place.
proof fn lemma_ramp_ranks()
    ensures
        forall|i: int| 0 <= i < 10 ==> #[trigger] ramp_rank(ascii_ramp()[i]) == i,
{
    assert(ascii_ramp()[0] == ' ' && ascii_ramp()[1] == '.' && ascii_ramp()[2] == ':' && ascii_ramp()[3]
        == '-' && ascii_ramp()[4] == '=' && ascii_ramp()[5] == '+' && ascii_ramp()[6] == '*'
        && ascii_ramp()[7] == '#' && ascii_ramp()[8] == '%' && ascii_ramp()[9] == '@');
}

/// A brighter pixel never gets a darker shading character: every ASCII cell
/// shows a character of the ramp, and of two ASCII cells, the one whose pixel
/// has the lower or equal ramp position shows a character that stands no
/// later on the ramp than the other's.
pub proof fn law_ascii_ramp_monotone(fb: &Framebuffer, tones: Seq<Tone>, col1: int, row1: int, col2: int, row2: int)
    requires
        tones_fit(fb, tones),
        ramp_position(fb, tones, col1, row1) <= ramp_position(fb, tones, col2, row2),
    ensures
        0 <= ramp_rank(spec_ascii_cell(fb, tones, col1, row1).symbol),
        ramp_rank(spec_ascii_cell(fb, tones, col1, row1).symbol) <= ramp_rank(
            spec_ascii_cell(fb, tones, col2, row2).symbol,
        ),
{
    lemma_ramp_ranks();
    let p1 = ramp_position(fb, tones, col1, row1);
    let p2 = ramp_position(fb, tones, col2, row2);
    let i1 = if p1 < 9 { p1 } else { 9 };
    let i2 = if p2 < 9 { p2 } else { 9 };
    assert(ramp_rank(ascii_ramp()[i1]) == i1);
    assert(ramp_rank(ascii_ramp()[i2]) == i2);
}

/// A half-block cell shows the two pixels of its column in the rows `2 * row`
/// (foreground) and `2 * row + 1` (background), read straight from the
/// grid's row-major colors; a pixel is replaced by black exactly when it lies
/// outside the grid.
pub proof fn law_half_block_cell_pixels(fb: &Framebuffer, col: int, row: int)
    requires
        fb.wf(),
        0 <= col,
        0 <= row,
    ensures
        spec_half_block_cell(fb, col, row).symbol == '\u{2580}',
        col < fb.width && 2 * row < fb.height ==> spec_half_block_cell(fb, col, row).fg
            == fb.color@[2 * row * fb.width + col],
        col < fb.width && 2 * row + 1 < fb.height ==> spec_half_block_cell(fb, col, row).bg
            == fb.color@[(2 * row + 1) * fb.width + col],
        !(col < fb.width && 2 * row < fb.height) ==> spec_half_block_cell(fb, col, row).fg == Rgb(0, 0, 0),
        !(col < fb.width && 2 * row + 1 < fb.height) ==> spec_half_block_cell(fb, col, row).bg == Rgb(
            0,
            0,
            0,
        ),
{
}

/// An ASCII cell shows its own pixel: inside the grid, the pixel's color
/// (read straight from the row-major colors) on black, with the ramp
/// character at the pixel's ramp position, the last one for any position
/// beyond the ramp; outside the grid, a blank in black.
pub proof fn law_ascii_cell_pixel(fb: &Framebuffer, tones: Seq<Tone>, col: int, row: int)
    requires
        tones_fit(fb, tones),
        0 <= col,
        0 <= row,
    ensures
        spec_ascii_cell(fb, tones, col, row).bg == Rgb(0, 0, 0),
        col < fb.width && row < fb.height ==> {
            &&& spec_ascii_cell(fb, tones, col, row).fg == fb.color@[row * fb.width + col]
            &&& ramp_rank(spec_ascii_cell(fb, tones, col, row).symbol) == if tones[row * fb.width
                + col].ramp < 9 {
                tones[row * fb.width + col].ramp as int
            } else {
                9
            }
        },
        !(col < fb.width && row < fb.height) ==> spec_ascii_cell(fb, tones, col, row).fg == Rgb(0, 0, 0)
            && spec_ascii_cell(fb, tones, col, row).symbol == ' ',
{
    lemma_ramp_ranks();
    let p = ramp_position(fb, tones, col, row);
    let i = if p < 9 { p } else { 9 };
    assert(ramp_rank(ascii_ramp()[i]) == i);
    assert(ascii_ramp()[0] == ' ');
}

/// Whether pixel `(x, y)` is in the grid and its tone is lit, read straight
/// from the row-major tones.
pub open spec fn pixel_lit(fb: &Framebuffer, tones: Seq<Tone>, x: int, y: int) -> bool {
    0 <= x < fb.width && 0 <= y < fb.height && tones[y * fb.width + x].lit
}

/// 1 for a lit pixel, 0 otherwise.
pub open spec fn lit_one(fb: &Framebuffer, tones: Seq<Tone>, x: int, y: int) -> int {
    if pixel_lit(fb, tones, x, y) { 1 } else { 0 }
}

/// Channel `c` of pixel `(x, y)` when it is lit, 0 otherwise.
pub open spec fn lit_channel(fb: &Framebuffer, tones: Seq<Tone>, x: int, y: int, c: int) -> int {
    if pixel_lit(fb, tones, x, y) {
        channel(fb.color@[y * fb.width + x], c)
    } else {
        0
    }
}

/// How many of the eight pixels under braille cell `(col, row)` are lit.
pub open spec fn cell_lit_count(fb: &Framebuffer, tones: Seq<Tone>, col: int, row: int) -> int {
    let (x, y) = (2 * col, 4 * row);
    lit_one(fb, tones, x, y) + lit_one(fb, tones, x, y + 1) + lit_one(fb, tones, x, y + 2) + lit_one(
        fb,
        tones,
        x,
        y + 3,
    ) + lit_one(fb, tones, x + 1, y) + lit_one(fb, tones, x + 1, y + 1) + lit_one(fb, tones, x + 1, y + 2)
        + lit_one(fb, tones, x + 1, y + 3)
}

/// The sum of channel `c` over the lit pixels under braille cell `(col, row)`.
pub open spec fn cell_lit_total(fb: &Framebuffer, tones: Seq<Tone>, col: int, row: int, c: int) -> int {
    let (x, y) = (2 * col, 4 * row);
    lit_channel(fb, tones, x, y, c) + lit_channel(fb, tones, x, y + 1, c) + lit_channel(fb, tones, x, y + 2, c)
        + lit_channel(fb, tones, x, y + 3, c) + lit_channel(fb, tones, x + 1, y, c) + lit_channel(
        fb,
        tones,
        x + 1,
        y + 1,
        c,
    ) + lit_channel(fb, tones, x + 1, y + 2, c) + lit_channel(fb, tones, x + 1, y + 3, c)
}

/// A braille cell is drawn in the average color of the lit pixels under it
/// (each channel the integer mean over those pixels), on black; with no lit
/// pixel it is black on black.
pub proof fn law_braille_cell_color(fb: &Framebuffer, tones: Seq<Tone>, col: int, row: int)
    requires
        tones_fit(fb, tones),
        0 <= col,
        0 <= row,
    ensures
        spec_braille_cell(fb, tones, col, row).bg == Rgb(0, 0, 0),
        cell_lit_count(fb, tones, col, row) == 0 ==> spec_braille_cell(fb, tones, col, row).fg == Rgb(0, 0, 0),
        cell_lit_count(fb, tones, col, row) > 0 ==> {
            let n = cell_lit_count(fb, tones, col, row);
            let fg = spec_braille_cell(fb, tones, col, row).fg;
            &&& fg.0 == cell_lit_total(fb, tones, col, row, 0) / n
            &&& fg.1 == cell_lit_total(fb, tones, col, row, 1) / n
            &&& fg.2 == cell_lit_total(fb, tones, col, row, 2) / n
        },
{
    reveal_with_fuel(lit_upto, 9);
    reveal_with_fuel(total_upto, 9);
    assert(0int / 4 == 0 && 0int % 4 == 0 && 1int / 4 == 0 && 1int % 4 == 1 && 2int / 4 == 0 && 2int % 4
        == 2 && 3int / 4 == 0 && 3int % 4 == 3 && 4int / 4 == 1 && 4int % 4 == 0 && 5int / 4 == 1 && 5int
        % 4 == 1 && 6int / 4 == 1 && 6int % 4 == 2 && 7int / 4 == 1 && 7int % 4 == 3);
    assert(lit_upto(fb, tones, col, row, 8) == cell_lit_count(fb, tones, col, row));
    assert forall|c: int| 0 <= c < 3 implies total_upto(fb, tones, col, row, 8, c) == cell_lit_total(
        fb,
        tones,
        col,
        row,
        c,
    ) by {}
    let n = cell_lit_count(fb, tones, col, row);
    if n > 0 {
        assert forall|c: int| 0 <= c < 3 implies 0 <= #[trigger] total_upto(fb, tones, col, row, 8, c) <= 255 * n by {
            lemma_total_bound(fb, tones, col, row, 8, c);
        }
        lemma_average_fits(total_upto(fb, tones, col, row, 8, 0), n);
        lemma_average_fits(total_upto(fb, tones, col, row, 8, 1), n);
        lemma_average_fits(total_upto(fb, tones, col, row, 8, 2), n);
        assert(total_upto(fb, tones, col, row, 8, 0) == cell_lit_total(fb, tones, col, row, 0));
        assert(total_upto(fb, tones, col, row, 8, 1) == cell_lit_total(fb, tones, col, row, 1));
        assert(total_upto(fb, tones, col, row, 8, 2) == cell_lit_total(fb, tones, col, row, 2));
    }
}

/// The lit total over the first `k` dots is at most 255 per lit dot.
proof fn lemma_total_bound(fb: &Framebuffer, tones: Seq<Tone>, col: int, row: int, k: int, c: int)
    ensures
        0 <= total_upto(fb, tones, col, row, k, c) <= 255 * lit_upto(fb, tones, col, row, k),
    decreases k,
{
    if k > 0 {
        lemma_total_bound(fb, tones, col, row, k - 1, c);
    }
}

/// The resolution `pixel_size` reports is exactly the block of pixels that the
/// cells of the area read: every pixel a cell of the area reads lies inside
/// it, and every pixel inside it is read by a cell of the area. A half-block
/// cell `(col, row)` reads pixels `(col, 2 * row)` and `(col, 2 * row + 1)`, a
/// braille cell the pixels `(2 * col + dx, 4 * row + dy)` for `dx < 2` and
/// `dy < 4`, an ASCII cell the pixel `(col, row)`.
pub proof fn law_pixel_size_is_read_block(mode: RenderMode, area: Rect, col: int, row: int, px: int, py: int)
    requires
        0 <= col,
        0 <= row,
        0 <= px,
        0 <= py,
    ensures
        ({
            let (pw, ph) = mode.spec_pixel_size(area);
            match mode {
                RenderMode::HalfBlock => {
                    &&& (col < area.width && row < area.height) ==> (col < pw && 2 * row + 1 < ph)
                    &&& (px < pw && py < ph) <==> (px < area.width && py / 2 < area.height)
                },
                RenderMode::Braille => {
                    &&& (col < area.width && row < area.height) ==> (2 * col + 1 < pw && 4 * row + 3 < ph)
                    &&& (px < pw && py < ph) <==> (px / 2 < area.width && py / 4 < area.height)
                },
                RenderMode::Ascii => (px < pw && py < ph) <==> (px < area.width && py < area.height),
            }
        }),
{
}

} // verus!
