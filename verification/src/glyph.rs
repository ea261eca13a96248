//! The half-block encoding: two stacked pixels per character cell.

use crate::bitmap::{Bitmap, Pixel};
use crate::text::{decimal, line_break, line_break_text, push_decimal, BRACKET, ESCAPE, SEMICOLON};
use vstd::arithmetic::div_mod::lemma_fundamental_div_mod_converse;
use vstd::prelude::*;

verus! {

/// Selects the foreground colour in a colour sequence.
pub const FOREGROUND: u8 = 0x33;

/// Selects the background colour in a colour sequence.
pub const BACKGROUND: u8 = 0x34;

/// The space that stands for a fully transparent cell.
pub const SPACE: u8 = 0x20;

/// The truecolor sequence that sets the fore- or background to the pixel's colour.
pub open spec fn colour_text(layer: u8, pixel: Pixel) -> Seq<u8> {
    seq![ESCAPE, BRACKET, layer, 0x38u8, SEMICOLON, 0x32u8, SEMICOLON] + decimal(pixel.r as nat) + seq![SEMICOLON]
        + decimal(pixel.g as nat) + seq![SEMICOLON] + decimal(pixel.b as nat) + seq![0x6du8]
}

/// The lower half block, in UTF-8.
pub open spec fn lower_block() -> Seq<u8> {
    seq![0xe2u8, 0x96u8, 0x84u8]
}

/// The upper half block, in UTF-8.
pub open spec fn upper_block() -> Seq<u8> {
    seq![0xe2u8, 0x96u8, 0x80u8]
}

/// The sequence that resets all colours.
pub open spec fn reset_text() -> Seq<u8> {
    seq![ESCAPE, BRACKET, 0x30u8, 0x6du8]
}

/// The text of one cell, from its upper and its lower pixel.
pub open spec fn cell_text(upper: Pixel, lower: Pixel) -> Seq<u8> {
    if upper.a != 0 && lower.a != 0 {
        colour_text(BACKGROUND, upper) + colour_text(FOREGROUND, lower) + lower_block() + reset_text()
    } else if upper.a == 0 && lower.a == 0 {
        seq![SPACE]
    } else if upper.a != 0 {
        colour_text(FOREGROUND, upper) + upper_block() + reset_text()
    } else {
        colour_text(FOREGROUND, lower) + lower_block() + reset_text()
    }
}

/// One character cell of a rendered frame.
#[derive(Clone, Debug, PartialEq, Eq)]
pub struct Cell {
    /// The column of the cell's two pixels.
    pub x: u32,
    /// The row of the cell's upper pixel.
    pub y: u32,
    /// The glyph with its colours.
    pub glyph: Vec<u8>,
    /// What follows the glyph: the line break after the last column, else nothing.
    pub trailer: Vec<u8>,
}

/// The number of cells that a frame of the given size renders to.
pub open spec fn cell_count(width: int, height: int) -> int {
    width * (height / 2)
}

/// The column of cell `k` in a frame of the given width.
pub open spec fn cell_column(width: int, k: int) -> int {
    k % width
}

/// The row of the upper pixel of cell `k` in a frame of the given width.
pub open spec fn cell_row(width: int, k: int) -> int {
    2 * (k / width)
}

/// Whether cell `k` of a frame of the given width reads the pixel at `(x, y)`.
pub open spec fn cell_reads(width: int, k: int, x: int, y: int) -> bool {
    cell_column(width, k) == x && (cell_row(width, k) == y || cell_row(width, k) + 1 == y)
}

impl Cell {
    /// Whether this is cell `k` of `frame`.
    pub open spec fn is_cell_of(&self, frame: &Bitmap, k: int) -> bool {
        let x = cell_column(frame.width as int, k);
        let y = cell_row(frame.width as int, k);
        &&& self.x == x
        &&& self.y == y
        &&& self.glyph@ == cell_text(frame.pixel(x, y), frame.pixel(x, y + 1))
        &&& self.trailer@ == if x == frame.width - 1 {
            line_break_text()
        } else {
            Seq::<u8>::empty()
        }
    }
}

fn push_colour(out: &mut Vec<u8>, layer: u8, pixel: Pixel)
    ensures
        final(out)@ == old(out)@ + colour_text(layer, pixel),
{
    out.push(ESCAPE);
    out.push(BRACKET);
    out.push(layer);
    out.push(0x38);
    out.push(SEMICOLON);
    out.push(0x32);
    out.push(SEMICOLON);
    push_decimal(out, pixel.r as u32);
    out.push(SEMICOLON);
    push_decimal(out, pixel.g as u32);
    out.push(SEMICOLON);
    push_decimal(out, pixel.b as u32);
    out.push(0x6d);
    assert(out@ =~= old(out)@ + colour_text(layer, pixel));
}

fn push_block_and_reset(out: &mut Vec<u8>, last: u8)
    ensures
        final(out)@ == old(out)@ + seq![0xe2u8, 0x96u8, last] + reset_text(),
{
    out.push(0xe2);
    out.push(0x96);
    out.push(last);
    out.push(ESCAPE);
    out.push(BRACKET);
    out.push(0x30);
    out.push(0x6d);
    assert(out@ =~= old(out)@ + seq![0xe2u8, 0x96u8, last] + reset_text());
}

/// Encodes one cell from its upper and its lower pixel.
pub fn encode_cell(upper: Pixel, lower: Pixel) -> (text: Vec<u8>)
    ensures
        text@ == cell_text(upper, lower),
{
    let mut text: Vec<u8> = Vec::new();
    if upper.a != 0 && lower.a != 0 {
        push_colour(&mut text, BACKGROUND, upper);
        push_colour(&mut text, FOREGROUND, lower);
        push_block_and_reset(&mut text, 0x84);
    } else if upper.a == 0 && lower.a == 0 {
        text.push(SPACE);
    } else if upper.a != 0 {
        push_colour(&mut text, FOREGROUND, upper);
        push_block_and_reset(&mut text, 0x80);
    } else {
        push_colour(&mut text, FOREGROUND, lower);
        push_block_and_reset(&mut text, 0x84);
    }
    assert(text@ =~= cell_text(upper, lower));
    text
}

/// Renders a frame: one cell for each column of each pair of rows, row by
/// row from the top and left to right. An odd last row is not drawn.
pub fn render_frame(frame: &Bitmap) -> (cells: Vec<Cell>)
    requires
        frame.wf(),
    ensures
        cells.len() == cell_count(frame.width as int, frame.height as int),
        forall|k: int| 0 <= k < cells.len() ==> (#[trigger] cells[k]).is_cell_of(frame, k),
{
    let mut cells: Vec<Cell> = Vec::new();
    let width = frame.width;
    let pairs: u32 = frame.height / 2;
    let mut row: u32 = 0;
    assert(0 == width * 0) by (nonlinear_arith);
    while row < pairs
        invariant
            frame.wf(),
            width == frame.width,
            pairs == frame.height / 2,
            row <= pairs,
            cells.len() == width * row,
            forall|k: int| 0 <= k < cells.len() ==> (#[trigger] cells[k]).is_cell_of(frame, k),
        decreases pairs - row,
    {
        let mut x: u32 = 0;
        while x < width
            invariant
                frame.wf(),
                width == frame.width,
                pairs == frame.height / 2,
                row < pairs,
                x <= width,
                cells.len() == width * row + x,
                forall|k: int| 0 <= k < cells.len() ==> (#[trigger] cells[k]).is_cell_of(frame, k),
            decreases width - x,
        {
            let y: u32 = 2 * row;
            let glyph = encode_cell(frame.get_pixel(x, y), frame.get_pixel(x, y + 1));
            let trailer = if x == width - 1 {
                line_break()
            } else {
                Vec::new()
            };
            let ghost k = cells.len() as int;
            proof {
                assert(width * row == row * width) by (nonlinear_arith);
                lemma_fundamental_div_mod_converse(k, width as int, row as int, x as int);
            }
            let ghost before = cells@;
            cells.push(Cell { x, y, glyph, trailer });
            assert(cells[k].is_cell_of(frame, k));
            assert forall|j: int| 0 <= j < cells.len() implies (#[trigger] cells[j]).is_cell_of(frame, j) by {
                if j < k {
                    assert(cells[j] == before[j]);
                }
            }
            x = x + 1;
        }
        assert(width * row + width == width * (row + 1)) by (nonlinear_arith);
        row = row + 1;
    }
    cells
}

/// With an even height every pixel of a frame is read by exactly one of its
/// cells, and the cells are `width * height / 2` in number.
pub proof fn every_pixel_in_exactly_one_cell(width: int, height: int, x: int, y: int)
    requires
        0 <= x < width,
        0 <= y < height,
        height % 2 == 0,
    ensures
        cell_count(width, height) * 2 == width * height,
        ({
            let k = (y / 2) * width + x;
            &&& 0 <= k < cell_count(width, height)
            &&& cell_reads(width, k, x, y)
            &&& forall|j: int| 0 <= j < cell_count(width, height) && cell_reads(width, j, x, y) ==> j == k
        }),
{
    let pairs = height / 2;
    let pair = y / 2;
    let k = pair * width + x;
    assert(width * pairs * 2 == width * height) by (nonlinear_arith)
        requires
            pairs * 2 == height,
    ;
    assert(0 <= k < width * pairs) by (nonlinear_arith)
        requires
            0 <= pair < pairs,
            0 <= x < width,
            k == pair * width + x,
    ;
    lemma_fundamental_div_mod_converse(k, width, pair, x);
    assert forall|j: int| 0 <= j < cell_count(width, height) && cell_reads(width, j, x, y) implies j == k by {
        vstd::arithmetic::div_mod::lemma_fundamental_div_mod(j, width);
        assert(j / width == pair);
        assert(j == width * (j / width) + j % width);
        assert(width * pair == pair * width) by (nonlinear_arith);
    }
}

/// Every cell of a frame reads two pixels that the frame has.
pub proof fn cells_stay_inside(width: int, height: int, k: int)
    requires
        0 <= width,
        0 <= height,
        0 <= k < cell_count(width, height),
    ensures
        0 <= cell_column(width, k) < width,
        0 <= cell_row(width, k),
        cell_row(width, k) + 1 < height,
{
    let pairs = height / 2;
    assert(width > 0) by (nonlinear_arith)
        requires
            0 <= width,
            0 <= k < width * pairs,
    ;
    vstd::arithmetic::div_mod::lemma_fundamental_div_mod(k, width);
    vstd::arithmetic::div_mod::lemma_mod_bound(k, width);
    let row = k / width;
    assert(0 <= row < pairs) by (nonlinear_arith)
        requires
            width > 0,
            0 <= k < width * pairs,
            k == width * row + k % width,
            0 <= k % width < width,
    ;
}

/// A frame of fully transparent pixels renders as spaces only: every cell
/// is a single space, without any colour sequence.
pub proof fn clear_frame_renders_as_spaces(frame: &Bitmap, cell: &Cell, k: int)
    requires
        frame.wf(),
        forall|x: int, y: int| 0 <= x < frame.width && 0 <= y < frame.height ==> (#[trigger] frame.pixel(x, y)).a == 0,
        0 <= k < cell_count(frame.width as int, frame.height as int),
        cell.is_cell_of(frame, k),
    ensures
        cell.glyph@ == seq![SPACE],
{
    cells_stay_inside(frame.width as int, frame.height as int, k);
    let x = cell_column(frame.width as int, k);
    let y = cell_row(frame.width as int, k);
    assert(frame.pixel(x, y).a == 0);
    assert(frame.pixel(x, y + 1).a == 0);
}

} // verus!
