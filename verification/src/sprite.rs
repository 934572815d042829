//! Where the pixels of a sprite fall on the display.
//!
//! A sprite is eight pixels wide and up to fifteen rows high. It is drawn
//! with its top left corner at a given cell, and both coordinates wrap
//! round the display's edges. The display is 64 cells wide and 32 high, and
//! cell `64 * y + x` is the pixel in column `x` of row `y`.

use vstd::prelude::*;
use crate::model::{DISPLAY_CELLS, DISPLAY_HEIGHT, DISPLAY_WIDTH};

verus! {

/// The row of a sprite that falls on a display cell, for a sprite whose top
/// edge is at `vy`, rows wrapping round the display's height.
#[verifier::opaque]
pub open spec fn sprite_row(cell: int, vy: u8) -> int {
    (cell / 64 - (vy as int) % 32 + 32) % 32
}

/// The column of a sprite that falls on a display cell, for a sprite whose
/// left edge is at `vx`, columns wrapping round the display's width.
#[verifier::opaque]
pub open spec fn sprite_col(cell: int, vx: u8) -> int {
    (cell % 64 - (vx as int) % 64 + 64) % 64
}

/// The display cell on which pixel (`row`, `col`) of a sprite falls.
pub open spec fn sprite_cell(vx: u8, vy: u8, row: int, col: int) -> int {
    ((vy + row) % 32) * 64 + (vx + col) % 64
}

/// Going `offset` rows down from row `origin` and back gives `offset`, and
/// the way back from a row of the display ends on that row.
proof fn lemma_wrap_rows(origin: int, offset: int, y: int)
    requires
        0 <= origin,
        0 <= offset < 32,
        0 <= y < 32,
    ensures
        ((origin + offset) % 32 - origin % 32 + 32) % 32 == offset,
        0 <= (y - origin % 32 + 32) % 32 < 32,
        (origin + (y - origin % 32 + 32) % 32) % 32 == y,
{
    let o = origin % 32;
    let q = origin / 32;
    assert(origin == 32 * q + o);
    let back = if y >= o { y - o } else { y - o + 32 };
    assert((y - o + 32) % 32 == back);
    assert(origin + back == 32 * (if y >= o { q } else { q + 1 }) + y);
    let down = if o + offset < 32 { o + offset } else { o + offset - 32 };
    assert(origin + offset == 32 * (if o + offset < 32 { q } else { q + 1 }) + down);
    assert((origin + offset) % 32 == down);
}

/// Going `offset` columns right from column `origin` and back gives
/// `offset`, and the way back from a column of the display ends on that
/// column.
proof fn lemma_wrap_columns(origin: int, offset: int, x: int)
    requires
        0 <= origin,
        0 <= offset < 64,
        0 <= x < 64,
    ensures
        ((origin + offset) % 64 - origin % 64 + 64) % 64 == offset,
        0 <= (x - origin % 64 + 64) % 64 < 64,
        (origin + (x - origin % 64 + 64) % 64) % 64 == x,
{
    let o = origin % 64;
    let q = origin / 64;
    assert(origin == 64 * q + o);
    let back = if x >= o { x - o } else { x - o + 64 };
    assert((x - o + 64) % 64 == back);
    assert(origin + back == 64 * (if x >= o { q } else { q + 1 }) + x);
    let right = if o + offset < 64 { o + offset } else { o + offset - 64 };
    assert(origin + offset == 64 * (if o + offset < 64 { q } else { q + 1 }) + right);
    assert((origin + offset) % 64 == right);
}

/// A sprite's pixel falls on the cell whose sprite row and column are the
/// pixel's own.
pub proof fn lemma_sprite_cell(vx: u8, vy: u8, row: int, col: int)
    requires
        0 <= row < DISPLAY_HEIGHT,
        0 <= col < DISPLAY_WIDTH,
    ensures
        0 <= sprite_cell(vx, vy, row, col) < DISPLAY_CELLS,
        sprite_row(sprite_cell(vx, vy, row, col), vy) == row,
        sprite_col(sprite_cell(vx, vy, row, col), vx) == col,
{
    reveal(sprite_row);
    reveal(sprite_col);
    lemma_wrap_rows(vy as int, row, 0);
    lemma_wrap_columns(vx as int, col, 0);
    let y = (vy + row) % 32;
    let x = (vx + col) % 64;
    let cell = sprite_cell(vx, vy, row, col);
    assert(cell == y * 64 + x);
    assert(cell / 64 == y && cell % 64 == x);
}

/// Every display cell lies under exactly one pixel position of a sprite
/// area that covers the display.
pub proof fn lemma_sprite_position(vx: u8, vy: u8, cell: int)
    requires
        0 <= cell < DISPLAY_CELLS,
    ensures
        0 <= sprite_row(cell, vy) < DISPLAY_HEIGHT,
        0 <= sprite_col(cell, vx) < DISPLAY_WIDTH,
        sprite_cell(vx, vy, sprite_row(cell, vy), sprite_col(cell, vx)) == cell,
{
    reveal(sprite_row);
    reveal(sprite_col);
    let y = cell / 64;
    let x = cell % 64;
    assert(cell == y * 64 + x);
    lemma_wrap_rows(vy as int, 0, y);
    lemma_wrap_columns(vx as int, 0, x);
}

/// Whether bit `col` of a sprite row is set, the leftmost pixel being the
/// most significant bit.
pub open spec fn row_bit(byte: u8, col: int) -> bool {
    byte & (0x80u8 >> (col as u8)) != 0
}

/// Whether the sprite of `rows` rows that memory holds from `index` on,
/// drawn with its corner at (`vx`, `vy`), has a set pixel on the display
/// cell.
pub open spec fn sprite_covers(
    memory: Seq<u8>,
    index: int,
    vx: u8,
    vy: u8,
    rows: int,
    cell: int,
) -> bool {
    let row = sprite_row(cell, vy);
    let col = sprite_col(cell, vx);
    col < 8 && row < rows && row_bit(memory[index + row], col)
}

} // verus!
