//! The terminal cell buffer that frames are drawn into: ratatui's `Buffer`,
//! seen through the cells that this library writes.

use vstd::prelude::*;

use ratatui::buffer::Buffer;
use ratatui::style::{Color, Style};

use crate::color::Rgb;
use crate::rect::Rect;

verus! {

#[verifier::external_type_specification]
#[verifier::external_body]
pub struct ExBuffer(Buffer);

/// What the cells of a ratatui `Buffer` hold, keyed by their (global)
/// `(x, y)` position. The domain is the set of positions at which indexing the
/// buffer reaches a cell (see `buffer_extent`). Each cell is its symbol (as
/// characters), its foreground and background colors (coded as `color_code`
/// describes), the bits of its modifier, and its skip flag: all of a cell's
/// fields as this crate builds ratatui, without its `underline-color` feature.
pub uninterp spec fn buffer_cells(buf: Buffer) -> Map<(int, int), (Seq<char>, (u8, u8, u8, u8), (u8, u8, u8, u8), u16, bool)>;

/// The area of a ratatui `Buffer` (its `area` field) as `(x, y, width, height)`.
pub uninterp spec fn buffer_area(buf: Buffer) -> (u16, u16, u16, u16);

/// How a ratatui `Color` is coded in `buffer_cells`: `(k, 0, 0, 0)` for the
/// `k`-th of the named colors `Reset` (0) to `White` (16) in the order of the
/// enum, `(17, r, g, b)` for `Rgb(r, g, b)`, `(18, i, 0, 0)` for `Indexed(i)`.
/// This is the code of an RGB color.
pub open spec fn rgb_code(c: Rgb) -> (u8, u8, u8, u8) {
    (17u8, c.0, c.1, c.2)
}

/// The right edge of a rectangle, saturated at `u16::MAX` as ratatui does.
pub open spec fn rect_right(r: Rect) -> int {
    if r.x + r.width > u16::MAX { u16::MAX as int } else { r.x + r.width }
}

/// The bottom edge of a rectangle, saturated at `u16::MAX` as ratatui does.
pub open spec fn rect_bottom(r: Rect) -> int {
    if r.y + r.height > u16::MAX { u16::MAX as int } else { r.y + r.height }
}

/// Whether indexing a buffer with area `area` and `len` cells at `(x, y)`
/// reaches a cell: the position lies in the area and its row-major offset
/// from the area's corner is below the number of cells.
pub open spec fn reaches_cell(area: Rect, len: int, x: int, y: int) -> bool {
    &&& area.x <= x < rect_right(area)
    &&& area.y <= y < rect_bottom(area)
    &&& (y - area.y) * area.width + (x - area.x) < len
}

/// Reads `Buffer::area` and the length of `Buffer::content`. Claims that the
/// first is the buffer's area, and that the positions at which `buf[(x, y)]`
/// reaches a cell are exactly those that `reaches_cell` describes for these
/// two values, as `Buffer::index_of` and the indexing of `content` show.
#[verifier::external_body]
pub(crate) fn buffer_extent(buf: &Buffer) -> (r: (Rect, usize))
    ensures
        (r.0.x, r.0.y, r.0.width, r.0.height) == buffer_area(*buf),
        forall|x: int, y: int|
            buffer_cells(*buf).dom().contains((x, y)) <==> reaches_cell(r.0, r.1 as int, x, y),
{
    let a = buf.area;
    (Rect { x: a.x, y: a.y, width: a.width, height: a.height }, buf.content.len())
}

/// Calls `Cell::set_char` on `buf[(x, y)]` (ratatui's `IndexMut` of `Buffer`).
/// Claims that the cell's symbol becomes the one character `ch`, that its
/// other fields stay, that no other cell changes and that the area stays.
#[verifier::external_body]
pub(crate) fn set_cell_symbol(buf: &mut Buffer, x: u16, y: u16, ch: char)
    requires
        buffer_cells(*old(buf)).dom().contains((x as int, y as int)),
    ensures
        buffer_cells(*final(buf)) == buffer_cells(*old(buf)).insert(
            (x as int, y as int),
            (
                seq![ch],
                buffer_cells(*old(buf))[(x as int, y as int)].1,
                buffer_cells(*old(buf))[(x as int, y as int)].2,
                buffer_cells(*old(buf))[(x as int, y as int)].3,
                buffer_cells(*old(buf))[(x as int, y as int)].4,
            ),
        ),
        buffer_area(*final(buf)) == buffer_area(*old(buf)),
{
    buf[(x, y)].set_char(ch);
}

/// Calls `Cell::set_style` on `buf[(x, y)]` with `Style::default()` given the
/// RGB foreground `fg` and background `bg`. Claims that the cell's colors
/// become these two, that its symbol, modifier and skip flag stay (the style
/// adds and removes no modifier), that no other cell changes and that the
/// area stays.
#[verifier::external_body]
pub(crate) fn set_cell_colors(buf: &mut Buffer, x: u16, y: u16, fg: Rgb, bg: Rgb)
    requires
        buffer_cells(*old(buf)).dom().contains((x as int, y as int)),
    ensures
        buffer_cells(*final(buf)) == buffer_cells(*old(buf)).insert(
            (x as int, y as int),
            (
                buffer_cells(*old(buf))[(x as int, y as int)].0,
                rgb_code(fg),
                rgb_code(bg),
                buffer_cells(*old(buf))[(x as int, y as int)].3,
                buffer_cells(*old(buf))[(x as int, y as int)].4,
            ),
        ),
        buffer_area(*final(buf)) == buffer_area(*old(buf)),
{
    buf[(x, y)].set_style(
        Style::default().fg(Color::Rgb(fg.0, fg.1, fg.2)).bg(Color::Rgb(bg.0, bg.1, bg.2)),
    );
}

} // verus!
