//! The cell renderer: pairs of pixel rows written as lines of half-block
//! glyphs with ANSI color sequences.

use vstd::prelude::*;
use crate::bitmap::Bitmap;
use crate::color::{cube_index, rgb_to_256, ColorMode, Rgb};

verus! {

/// The escape character that opens every control sequence.
pub const ESCAPE: u8 = 0x1b;

/// `[`, the second byte of a control sequence.
pub const BRACKET: u8 = 0x5b;

/// `;`, between the parameters of a control sequence.
pub const SEMICOLON: u8 = 0x3b;

/// `m`, which ends a color sequence.
pub const FINAL_M: u8 = 0x6d;

/// The line terminator.
pub const NEWLINE: u8 = 0x0a;

/// The parameter that selects the background color.
pub const BACKGROUND: u8 = 48;

/// The parameter that selects the foreground color.
pub const FOREGROUND: u8 = 38;

/// The parameter that announces a 24-bit color.
pub const DIRECT: u8 = 2;

/// The parameter that announces a palette index.
pub const INDEXED: u8 = 5;

/// One character cell of the output: the upper pixel of a pair as its
/// background, the lower pixel as its foreground.
#[derive(Clone, Copy, Debug, PartialEq, Eq, Structural)]
pub struct Cell {
    pub background: Rgb,
    pub foreground: Rgb,
}

/// The ASCII digit for `d`, which is below ten.
pub open spec fn digit(d: u8) -> u8 {
    (0x30 + d) as u8
}

/// A byte written in decimal, without leading zeros.
pub open spec fn decimal(v: u8) -> Seq<u8> {
    if v < 10 {
        seq![digit(v)]
    } else if v < 100 {
        seq![digit(v / 10), digit(v % 10)]
    } else {
        seq![digit(v / 100), digit((v / 10) % 10), digit(v % 10)]
    }
}

/// The sequence that sets one layer to a 24-bit color: `ESC [ layer ; 2 ; r ; g ; b m`.
pub open spec fn truecolor_code(layer: u8, color: Rgb) -> Seq<u8> {
    seq![ESCAPE, BRACKET] + decimal(layer) + seq![SEMICOLON] + decimal(DIRECT) + seq![SEMICOLON]
        + decimal(color.r) + seq![SEMICOLON] + decimal(color.g) + seq![SEMICOLON] + decimal(
        color.b,
    ) + seq![FINAL_M]
}

/// The sequence that sets one layer to a palette color: `ESC [ layer ; 5 ; index m`.
pub open spec fn palette_code(layer: u8, index: u8) -> Seq<u8> {
    seq![ESCAPE, BRACKET] + decimal(layer) + seq![SEMICOLON] + decimal(INDEXED) + seq![SEMICOLON]
        + decimal(index) + seq![FINAL_M]
}

/// The sequence that sets one layer to a color in the given mode. In palette
/// mode the color is quantized to the color cube first.
pub open spec fn color_code(layer: u8, color: Rgb, mode: ColorMode) -> Seq<u8> {
    match mode {
        ColorMode::Truecolor => truecolor_code(layer, color),
        ColorMode::Palette256 => palette_code(
            layer,
            cube_index(color.r as nat, color.g as nat, color.b as nat) as u8,
        ),
    }
}

/// The lower-half-block glyph, U+2584, in UTF-8.
pub open spec fn glyph() -> Seq<u8> {
    seq![0xe2u8, 0x96u8, 0x84u8]
}

/// The bytes of one cell: background, then foreground, then the glyph.
pub open spec fn cell_bytes(cell: Cell, mode: ColorMode) -> Seq<u8> {
    color_code(BACKGROUND, cell.background, mode) + color_code(FOREGROUND, cell.foreground, mode)
        + glyph()
}

/// What ends a line: the style reset `ESC [ 0 m` and a newline.
pub open spec fn line_end() -> Seq<u8> {
    seq![ESCAPE, BRACKET, 0x30u8, FINAL_M, NEWLINE]
}

/// The number of text lines that a grid takes: one for each pair of rows,
/// and one more for a last row left alone.
pub open spec fn line_count(grid: Seq<Seq<Rgb>>) -> nat {
    ((grid.len() + 1) / 2) as nat
}

/// The cell at column `x` of line `p`: rows `2p` and `2p + 1` of the grid.
/// A last row that has no partner is its own lower half.
pub open spec fn cell_of(grid: Seq<Seq<Rgb>>, x: int, p: int) -> Cell {
    let top = grid[2 * p][x];
    let bottom = if 2 * p + 1 < grid.len() {
        grid[2 * p + 1][x]
    } else {
        top
    };
    Cell { background: top, foreground: bottom }
}

/// The bytes of the first `n` cells of line `p`, one after the other.
pub open spec fn cells_bytes(grid: Seq<Seq<Rgb>>, p: int, n: nat, mode: ColorMode) -> Seq<u8> {
    Seq::new(n, |x: int| cell_bytes(cell_of(grid, x, p), mode)).flatten()
}

/// The bytes of line `p`: a cell for each column, then the line's end.
pub open spec fn line_bytes(grid: Seq<Seq<Rgb>>, p: int, mode: ColorMode) -> Seq<u8> {
    cells_bytes(grid, p, grid[2 * p].len(), mode) + line_end()
}

/// The bytes of the first `n` lines, one after the other.
pub open spec fn lines_bytes(grid: Seq<Seq<Rgb>>, n: nat, mode: ColorMode) -> Seq<u8> {
    Seq::new(n, |p: int| line_bytes(grid, p, mode)).flatten()
}

/// The whole picture: every line from top to bottom.
pub open spec fn rendered(grid: Seq<Seq<Rgb>>, mode: ColorMode) -> Seq<u8> {
    lines_bytes(grid, line_count(grid), mode)
}

/// Rows pair up: on a line that has both its rows, a cell's background is
/// the pixel of the upper row and its foreground the pixel right below it.
pub proof fn lemma_rows_pair_up(grid: Seq<Seq<Rgb>>, x: int, p: int)
    requires
        0 <= p,
        2 * p + 1 < grid.len(),
    ensures
        p < line_count(grid),
        cell_of(grid, x, p).background == grid[2 * p][x],
        cell_of(grid, x, p).foreground == grid[2 * p + 1][x],
{
}

/// A grid with an odd number of rows ends in a line made of its last row
/// alone: every cell there has that row's pixel as background and as
/// foreground.
pub proof fn lemma_last_row_pairs_with_itself(grid: Seq<Seq<Rgb>>, x: int)
    requires
        grid.len() % 2 == 1,
    ensures
        2 * (line_count(grid) - 1) == grid.len() - 1,
        cell_of(grid, x, line_count(grid) - 1).background == grid[grid.len() - 1][x],
        cell_of(grid, x, line_count(grid) - 1).foreground == grid[grid.len() - 1][x],
{
}

/// A grid with an even number of rows takes half as many lines, and each
/// of them has both its rows.
pub proof fn lemma_even_grid_has_full_lines(grid: Seq<Seq<Rgb>>, p: int)
    requires
        grid.len() % 2 == 0,
        0 <= p < line_count(grid),
    ensures
        2 * line_count(grid) == grid.len(),
        2 * p + 1 < grid.len(),
{
}

/// One more cell extends the bytes of a line by the bytes of that cell.
pub proof fn lemma_cells_bytes_step(grid: Seq<Seq<Rgb>>, p: int, n: nat, mode: ColorMode)
    ensures
        cells_bytes(grid, p, n + 1, mode) == cells_bytes(grid, p, n, mode) + cell_bytes(
            cell_of(grid, n as int, p),
            mode,
        ),
        cells_bytes(grid, p, 0, mode) == Seq::<u8>::empty(),
{
    let f = |x: int| cell_bytes(cell_of(grid, x, p), mode);
    let shorter = Seq::new(n, f);
    let longer = Seq::new(n + 1, f);
    assert(longer =~= shorter.push(f(n as int)));
    shorter.lemma_flatten_push(f(n as int));
    assert(Seq::new(0, f) =~= Seq::<Seq<u8>>::empty());
}

/// One more line extends the bytes of a picture by the bytes of that line.
pub proof fn lemma_lines_bytes_step(grid: Seq<Seq<Rgb>>, n: nat, mode: ColorMode)
    ensures
        lines_bytes(grid, n + 1, mode) == lines_bytes(grid, n, mode) + line_bytes(
            grid,
            n as int,
            mode,
        ),
        lines_bytes(grid, 0, mode) == Seq::<u8>::empty(),
{
    let f = |p: int| line_bytes(grid, p, mode);
    let shorter = Seq::new(n, f);
    let longer = Seq::new(n + 1, f);
    assert(longer =~= shorter.push(f(n as int)));
    shorter.lemma_flatten_push(f(n as int));
    assert(Seq::new(0, f) =~= Seq::<Seq<u8>>::empty());
}

fn push_decimal(out: &mut Vec<u8>, v: u8)
    ensures
        final(out)@ == old(out)@ + decimal(v),
{
    if v >= 100 {
        out.push(0x30 + v / 100);
    }
    if v >= 10 {
        out.push(0x30 + (v / 10) % 10);
    }
    out.push(0x30 + v % 10);
    assert(out@ =~= old(out)@ + decimal(v));
}

fn push_color(out: &mut Vec<u8>, layer: u8, color: Rgb, mode: ColorMode)
    ensures
        final(out)@ == old(out)@ + color_code(layer, color, mode),
{
    out.push(ESCAPE);
    out.push(BRACKET);
    push_decimal(out, layer);
    out.push(SEMICOLON);
    match mode {
        ColorMode::Truecolor => {
            push_decimal(out, DIRECT);
            out.push(SEMICOLON);
            push_decimal(out, color.r);
            out.push(SEMICOLON);
            push_decimal(out, color.g);
            out.push(SEMICOLON);
            push_decimal(out, color.b);
        },
        ColorMode::Palette256 => {
            push_decimal(out, INDEXED);
            out.push(SEMICOLON);
            push_decimal(out, rgb_to_256(color.r, color.g, color.b));
        },
    }
    out.push(FINAL_M);
    assert(out@ =~= old(out)@ + color_code(layer, color, mode));
}

fn push_cell(out: &mut Vec<u8>, cell: Cell, mode: ColorMode)
    ensures
        final(out)@ == old(out)@ + cell_bytes(cell, mode),
{
    push_color(out, BACKGROUND, cell.background, mode);
    push_color(out, FOREGROUND, cell.foreground, mode);
    out.push(0xe2);
    out.push(0x96);
    out.push(0x84);
    assert(out@ =~= old(out)@ + cell_bytes(cell, mode));
}

fn push_line(out: &mut Vec<u8>, bitmap: &Bitmap, p: u32, mode: ColorMode)
    requires
        2 * p < bitmap.spec_height(),
    ensures
        final(out)@ == old(out)@ + line_bytes(bitmap@, p as int, mode),
{
    let width: u32 = bitmap.width();
    let mut x: u32 = 0;
    proof {
        lemma_cells_bytes_step(bitmap@, p as int, 0, mode);
    }
    while x < width
        invariant
            x <= width,
            width == bitmap.spec_width(),
            2 * p < bitmap.spec_height(),
            out@ == old(out)@ + cells_bytes(bitmap@, p as int, x as nat, mode),
        decreases width - x,
    {
        let cell: Cell = cell_at(bitmap, x, p);
        push_cell(out, cell, mode);
        proof {
            lemma_cells_bytes_step(bitmap@, p as int, x as nat, mode);
            assert(out@ =~= old(out)@ + cells_bytes(bitmap@, p as int, (x + 1) as nat, mode));
        }
        x = x + 1;
    }
    out.push(ESCAPE);
    out.push(BRACKET);
    out.push(0x30);
    out.push(FINAL_M);
    out.push(NEWLINE);
    assert(out@ =~= old(out)@ + line_bytes(bitmap@, p as int, mode));
}

/// The number of text lines that the image takes.
pub fn count_lines(bitmap: &Bitmap) -> (lines: u32)
    ensures
        lines == line_count(bitmap@),
        2 * lines == bitmap.spec_height() + bitmap.spec_height() % 2,
{
    let height: u32 = bitmap.height();
    height / 2 + height % 2
}

/// The cell at column `x` of line `p`: the pixel of row `2p` over the pixel
/// of row `2p + 1`, or over itself where the image ends with row `2p`.
pub fn cell_at(bitmap: &Bitmap, x: u32, p: u32) -> (cell: Cell)
    requires
        x < bitmap.spec_width(),
        2 * p < bitmap.spec_height(),
    ensures
        cell == cell_of(bitmap@, x as int, p as int),
        cell.background == bitmap@[2 * p][x as int],
{
    let height: u32 = bitmap.height();
    let upper: u32 = 2 * p;
    let top: Rgb = bitmap.pixel(x, upper);
    let bottom: Rgb = if upper + 1 < height {
        bitmap.pixel(x, upper + 1)
    } else {
        top
    };
    Cell { background: top, foreground: bottom }
}

/// The bytes that draw one cell in the given mode.
pub fn encode_cell(cell: Cell, mode: ColorMode) -> (bytes: Vec<u8>)
    ensures
        bytes@ == cell_bytes(cell, mode),
{
    let mut out: Vec<u8> = Vec::new();
    push_cell(&mut out, cell, mode);
    assert(out@ =~= cell_bytes(cell, mode));
    out
}

/// The bytes of text line `p` of the image: its cells from left to right,
/// then the style reset and a newline.
pub fn render_line(bitmap: &Bitmap, p: u32, mode: ColorMode) -> (bytes: Vec<u8>)
    requires
        p < line_count(bitmap@),
    ensures
        bytes@ == line_bytes(bitmap@, p as int, mode),
{
    let mut out: Vec<u8> = Vec::new();
    push_line(&mut out, bitmap, p, mode);
    assert(out@ =~= line_bytes(bitmap@, p as int, mode));
    out
}

/// The bytes of the whole picture: every line from top to bottom.
pub fn render(bitmap: &Bitmap, mode: ColorMode) -> (bytes: Vec<u8>)
    ensures
        bytes@ == rendered(bitmap@, mode),
{
    let lines: u32 = count_lines(bitmap);
    let mut out: Vec<u8> = Vec::new();
    let mut p: u32 = 0;
    proof {
        lemma_lines_bytes_step(bitmap@, 0, mode);
    }
    while p < lines
        invariant
            p <= lines,
            lines == line_count(bitmap@),
            out@ == lines_bytes(bitmap@, p as nat, mode),
        decreases lines - p,
    {
        push_line(&mut out, bitmap, p, mode);
        proof {
            lemma_lines_bytes_step(bitmap@, p as nat, mode);
        }
        p = p + 1;
    }
    out
}

} // verus!
