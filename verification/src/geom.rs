use vstd::prelude::*;

verus! {

/// Number of byte rows ("banks") on the panel; each byte holds 8 vertical pixels.
pub const ROWS: u8 = 6;

/// Number of byte columns on the panel.
pub const COLS: u8 = 84;

/// Size of one full frame: one byte per (column, row) cell.
pub const FRAME_BYTES: usize = 504;

/// Index of cell `(col, row)` in the shadow buffer, which is laid out row by
/// row in the device's horizontal addressing order.
pub open spec fn spec_offset(col: int, row: int) -> int {
    row * (COLS as int) + col
}

/// Maps an in-range cursor position to its shadow-buffer index.
pub fn offset_of(col: u8, row: u8) -> (r: usize)
    requires
        col < COLS,
        row < ROWS,
    ensures
        r == spec_offset(col as int, row as int),
        r < FRAME_BYTES,
{
    row as usize * COLS as usize + col as usize
}

/// The cell-to-index map is injective: distinct in-range positions never
/// share a shadow-buffer byte.
pub proof fn lemma_offset_injective(c1: int, r1: int, c2: int, r2: int)
    requires
        0 <= c1 < COLS,
        0 <= r1 < ROWS,
        0 <= c2 < COLS,
        0 <= r2 < ROWS,
        spec_offset(c1, r1) == spec_offset(c2, r2),
    ensures
        c1 == c2,
        r1 == r2,
{
}

/// The cell-to-index map covers `[0, ROWS * COLS)` exactly: every index in
/// that range is the image of exactly one in-range position.
pub proof fn lemma_offset_covers(k: int)
    requires
        0 <= k < FRAME_BYTES,
    ensures
        spec_offset(k % (COLS as int), k / (COLS as int)) == k,
        0 <= k % (COLS as int) < COLS,
        0 <= k / (COLS as int) < ROWS,
{
}

/// Every in-range position lands inside `[0, ROWS * COLS)`.
pub proof fn lemma_offset_in_range(col: int, row: int)
    requires
        0 <= col < COLS,
        0 <= row < ROWS,
    ensures
        0 <= spec_offset(col, row) < FRAME_BYTES,
{
}

} // verus!
