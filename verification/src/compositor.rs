//! The debug overlay compositor: lays two pattern tables and the palette out
//! into one fixed-shape pixel buffer.
//!
//! The buffer is 256 cells wide and 138 rows tall, top to bottom: 2 separator
//! rows, the two 128x128 pattern tables side by side (128 rows), 2 more
//! separator rows, and a 6-row palette strip. Its content is purely a
//! function of the three inputs; nothing is kept across calls.

use vstd::prelude::*;

use vstd::arithmetic::div_mod::lemma_fundamental_div_mod_converse;

use crate::color::Color;

verus! {

/// Width of the overlay, in cells.
pub const DEBUG_BUFFER_WIDTH: usize = 256;

/// Cells of one two-row separator.
pub const SEPARATOR_CELLS: usize = 2 * 256;

/// Cells of one 128x128 pattern table.
pub const PATTERN_TABLE_CELLS: usize = 128 * 128;

/// Cells of the strip holding both pattern tables side by side.
pub const PATTERN_REGION_CELLS: usize = 2 * (128 * 128);

/// Colors of the machine's palette.
pub const PALETTE_COLORS: usize = 32;

/// Cells of the six-row palette strip.
pub const PALETTE_REGION_CELLS: usize = 6 * 256;

/// First cell of the pattern-table strip.
pub const PATTERN_REGION_START: usize = 2 * 256;

/// First cell of the second separator.
pub const SECOND_SEPARATOR_START: usize = 2 * 256 + 2 * (128 * 128);

/// First cell of the palette strip.
pub const PALETTE_REGION_START: usize = 2 * 256 + 2 * (128 * 128) + 2 * 256;

/// Cells of the whole overlay: 138 rows of 256.
pub const DEBUG_BUFFER_CELLS: usize = 2 * 256 + 2 * (128 * 128) + 2 * 256 + 6 * 256;

/// The color of cell `r` of the pattern-table strip: the strip is 256 wide,
/// its left half shows table 0 and its right half table 1, each row-major at
/// width 128.
pub open spec fn pattern_cell(pt0: Seq<Color>, pt1: Seq<Color>, r: int) -> Color {
    let row = r / 256;
    let col = r % 256;
    if col < 128 {
        pt0[row * 128 + col]
    } else {
        pt1[row * 128 + (col - 128)]
    }
}

/// The first column of palette swatch `o`: swatches are six cells wide, and
/// every fourth one is pushed two cells right, which opens a visible gap in
/// front of each group of four.
pub open spec fn swatch_start(o: int) -> int {
    6 * o + if o % 4 == 0 {
        2int
    } else {
        0int
    }
}

/// Whether swatch `o` paints cell `r` of the palette strip.
pub open spec fn swatch_covers(o: int, r: int) -> bool {
    let row = r / 256;
    let col = r % 256;
    0 <= row < 6 && swatch_start(o) <= col < swatch_start(o) + 6
}

/// The color of cell `r` of the palette strip after the first `n` swatches
/// were painted in order, over a black ground. Where pushed swatches overlap,
/// the later swatch wins, exactly as the paint order has it.
pub open spec fn palette_cell_upto(palette: Seq<Color>, r: int, n: int) -> Color
    decreases n,
{
    if n <= 0 {
        Color::black_spec()
    } else if swatch_covers(n - 1, r) {
        palette[n - 1]
    } else {
        palette_cell_upto(palette, r, n - 1)
    }
}

/// The color of cell `r` of the finished palette strip.
pub open spec fn palette_cell(palette: Seq<Color>, r: int) -> Color {
    palette_cell_upto(palette, r, 32)
}

/// Splitting an index into a row of a fixed width and a column inside it is
/// exact: quotient and remainder recover the row and the column.
proof fn lemma_row_col(row: int, col: int, width: int)
    requires
        0 < width,
        0 <= row,
        0 <= col < width,
    ensures
        (row * width + col) / width == row,
        (row * width + col) % width == col,
{
    lemma_fundamental_div_mod_converse(row * width + col, width, row, col);
}

/// Every cell of pattern table 0 lands in the left half of the strip at the
/// position the strip spec names, and every cell of table 1 in the right
/// half: the layout places table cell `j` at row `j / 128`, column `j % 128`,
/// shifted 128 columns right for table 1.
pub proof fn lemma_pattern_placement(pt0: Seq<Color>, pt1: Seq<Color>, j: int)
    requires
        pt0.len() == 16384,
        pt1.len() == 16384,
        0 <= j < 16384,
    ensures
        pattern_cell(pt0, pt1, (j / 128) * 256 + j % 128) == pt0[j],
        pattern_cell(pt0, pt1, (j / 128) * 256 + j % 128 + 128) == pt1[j],
{
    let row = j / 128;
    let col = j % 128;
    lemma_row_col(row, col, 256);
    lemma_row_col(row, col + 128, 256);
    assert(row * 128 + col == j) by {
        vstd::arithmetic::div_mod::lemma_fundamental_div_mod(j, 128);
    }
}

/// Paints one two-row separator starting at `start`.
fn add_separation(buffer: &mut Vec<Color>, start: usize)
    requires
        start + SEPARATOR_CELLS <= old(buffer)@.len(),
    ensures
        final(buffer)@.len() == old(buffer)@.len(),
        forall|i: int|
            start <= i < start + SEPARATOR_CELLS ==> #[trigger] final(buffer)@[i]
                == Color::light_gray_spec(),
        forall|i: int|
            0 <= i < old(buffer)@.len() && !(start <= i < start + SEPARATOR_CELLS)
                ==> #[trigger] final(buffer)@[i] == old(buffer)@[i],
{
    let _buffer_len: usize = buffer.len();
    let mut i: usize = 0;
    while i < SEPARATOR_CELLS
        invariant
            i <= SEPARATOR_CELLS,
            start + SEPARATOR_CELLS <= buffer@.len(),
            buffer@.len() <= usize::MAX,
            buffer@.len() == old(buffer)@.len(),
            forall|k: int|
                start <= k < start + i ==> #[trigger] buffer@[k] == Color::light_gray_spec(),
            forall|k: int|
                0 <= k < old(buffer)@.len() && !(start <= k < start + i) ==> #[trigger] buffer@[k]
                    == old(buffer)@[k],
        decreases SEPARATOR_CELLS - i,
    {
        let cell = Color::light_gray();
        buffer[start + i] = cell;
        i = i + 1;
    }
}

/// Paints the 128-row strip holding both pattern tables, starting at `start`.
fn add_pattern_tables(
    buffer: &mut Vec<Color>,
    start: usize,
    pattern_table_0: &Vec<Color>,
    pattern_table_1: &Vec<Color>,
)
    requires
        start + PATTERN_REGION_CELLS <= old(buffer)@.len(),
        pattern_table_0@.len() == PATTERN_TABLE_CELLS,
        pattern_table_1@.len() == PATTERN_TABLE_CELLS,
    ensures
        final(buffer)@.len() == old(buffer)@.len(),
        forall|i: int|
            start <= i < start + PATTERN_REGION_CELLS ==> #[trigger] final(buffer)@[i]
                == pattern_cell(pattern_table_0@, pattern_table_1@, i - start),
        forall|i: int|
            0 <= i < old(buffer)@.len() && !(start <= i < start + PATTERN_REGION_CELLS)
                ==> #[trigger] final(buffer)@[i] == old(buffer)@[i],
{
    let _buffer_len: usize = buffer.len();
    let mut row: usize = 0;
    while row < 128
        invariant
            row <= 128,
            start + PATTERN_REGION_CELLS <= buffer@.len(),
            buffer@.len() <= usize::MAX,
            buffer@.len() == old(buffer)@.len(),
            pattern_table_0@.len() == PATTERN_TABLE_CELLS,
            pattern_table_1@.len() == PATTERN_TABLE_CELLS,
            forall|i: int|
                start <= i < start + row * 256 ==> #[trigger] buffer@[i] == pattern_cell(
                    pattern_table_0@,
                    pattern_table_1@,
                    i - start,
                ),
            forall|i: int|
                0 <= i < old(buffer)@.len() && !(start <= i < start + row * 256)
                    ==> #[trigger] buffer@[i] == old(buffer)@[i],
        decreases 128 - row,
    {
        let mut col: usize = 0;
        while col < 256
            invariant
                row < 128,
                col <= 256,
                start + PATTERN_REGION_CELLS <= buffer@.len(),
                buffer@.len() <= usize::MAX,
                buffer@.len() == old(buffer)@.len(),
                pattern_table_0@.len() == PATTERN_TABLE_CELLS,
                pattern_table_1@.len() == PATTERN_TABLE_CELLS,
                forall|i: int|
                    start <= i < start + row * 256 + col ==> #[trigger] buffer@[i] == pattern_cell(
                        pattern_table_0@,
                        pattern_table_1@,
                        i - start,
                    ),
                forall|i: int|
                    0 <= i < old(buffer)@.len() && !(start <= i < start + row * 256 + col)
                        ==> #[trigger] buffer@[i] == old(buffer)@[i],
            decreases 256 - col,
        {
            let cell = if col < 128 {
                pattern_table_0[row * 128 + col]
            } else {
                pattern_table_1[row * 128 + (col - 128)]
            };
            buffer[start + row * 256 + col] = cell;
            proof {
                lemma_row_col(row as int, col as int, 256);
            }
            col = col + 1;
        }
        row = row + 1;
    }
}

/// Paints the 32 palette swatches over a black six-row strip starting at
/// `start`, in palette order, six by six cells each, with every fourth
/// swatch pushed two cells right.
fn add_palette(buffer: &mut Vec<Color>, start: usize, palette: &Vec<Color>)
    requires
        start + PALETTE_REGION_CELLS <= old(buffer)@.len(),
        palette@.len() == PALETTE_COLORS,
        forall|i: int|
            start <= i < start + PALETTE_REGION_CELLS ==> #[trigger] old(buffer)@[i]
                == Color::black_spec(),
    ensures
        final(buffer)@.len() == old(buffer)@.len(),
        forall|i: int|
            start <= i < start + PALETTE_REGION_CELLS ==> #[trigger] final(buffer)@[i]
                == palette_cell(palette@, i - start),
        forall|i: int|
            0 <= i < old(buffer)@.len() && !(start <= i < start + PALETTE_REGION_CELLS)
                ==> #[trigger] final(buffer)@[i] == old(buffer)@[i],
{
    let _buffer_len: usize = buffer.len();
    let mut offset: usize = 0;
    while offset < 32
        invariant
            offset <= 32,
            start + PALETTE_REGION_CELLS <= buffer@.len(),
            buffer@.len() <= usize::MAX,
            buffer@.len() == old(buffer)@.len(),
            palette@.len() == PALETTE_COLORS,
            forall|k: int|
                start <= k < start + PALETTE_REGION_CELLS ==> #[trigger] buffer@[k]
                    == palette_cell_upto(palette@, k - start, offset as int),
            forall|k: int|
                0 <= k < old(buffer)@.len() && !(start <= k < start + PALETTE_REGION_CELLS)
                    ==> #[trigger] buffer@[k] == old(buffer)@[k],
        decreases 32 - offset,
    {
        let gap: usize = if offset % 4 == 0 {
            2
        } else {
            0
        };
        let first_col: usize = offset * 6 + gap;
        assert(first_col == swatch_start(offset as int));
        let mut i: usize = 0;
        while i < 6
            invariant
                offset < 32,
                i <= 6,
                first_col == swatch_start(offset as int),
                first_col + 6 <= 256,
                start + PALETTE_REGION_CELLS <= buffer@.len(),
                buffer@.len() <= usize::MAX,
                buffer@.len() == old(buffer)@.len(),
                palette@.len() == PALETTE_COLORS,
                forall|k: int|
                    start <= k < start + PALETTE_REGION_CELLS ==> #[trigger] buffer@[k] == (
                    if swatch_covers(offset as int, k - start) && ((k - start) % 256 < first_col
                        + i) {
                        palette@[offset as int]
                    } else {
                        palette_cell_upto(palette@, k - start, offset as int)
                    }),
                forall|k: int|
                    0 <= k < old(buffer)@.len() && !(start <= k < start + PALETTE_REGION_CELLS)
                        ==> #[trigger] buffer@[k] == old(buffer)@[k],
            decreases 6 - i,
        {
            let mut j: usize = 0;
            while j < 6
                invariant
                    offset < 32,
                    i < 6,
                    j <= 6,
                    first_col == swatch_start(offset as int),
                    first_col + 6 <= 256,
                    start + PALETTE_REGION_CELLS <= buffer@.len(),
                    buffer@.len() <= usize::MAX,
                    buffer@.len() == old(buffer)@.len(),
                    palette@.len() == PALETTE_COLORS,
                    forall|k: int|
                        start <= k < start + PALETTE_REGION_CELLS ==> #[trigger] buffer@[k] == (
                        if swatch_covers(offset as int, k - start) && ((k - start) % 256
                            < first_col + i || ((k - start) % 256 == first_col + i && (k - start)
                            / 256 < j)) {
                            palette@[offset as int]
                        } else {
                            palette_cell_upto(palette@, k - start, offset as int)
                        }),
                    forall|k: int|
                        0 <= k < old(buffer)@.len() && !(start <= k < start
                            + PALETTE_REGION_CELLS) ==> #[trigger] buffer@[k] == old(buffer)@[k],
                decreases 6 - j,
            {
                let cell = palette[offset];
                buffer[start + first_col + i + j * 256] = cell;
                proof {
                    lemma_row_col(j as int, (first_col + i) as int, 256);
                }
                j = j + 1;
            }
            i = i + 1;
        }
        proof {
            assert forall|k: int|
                start <= k < start + PALETTE_REGION_CELLS implies #[trigger] buffer@[k]
                == palette_cell_upto(palette@, k - start, offset as int + 1) by {
                if swatch_covers(offset as int, k - start) {
                    assert((k - start) % 256 < first_col + 6);
                }
            }
        }
        offset = offset + 1;
    }
}

/// Builds the whole debug overlay from the two pattern tables and the
/// palette: 35,328 cells, with both separators, the pattern strip and the
/// palette strip exactly where the layout places them, and black wherever no
/// swatch paints.
pub fn compose_debug_buffer(
    pattern_table_0: &Vec<Color>,
    pattern_table_1: &Vec<Color>,
    palette: &Vec<Color>,
) -> (out: Vec<Color>)
    requires
        pattern_table_0@.len() == PATTERN_TABLE_CELLS,
        pattern_table_1@.len() == PATTERN_TABLE_CELLS,
        palette@.len() == PALETTE_COLORS,
    ensures
        out@.len() == DEBUG_BUFFER_CELLS,
        forall|i: int| 0 <= i < SEPARATOR_CELLS ==> #[trigger] out@[i] == Color::light_gray_spec(),
        forall|i: int|
            PATTERN_REGION_START <= i < PATTERN_REGION_START + PATTERN_REGION_CELLS
                ==> #[trigger] out@[i] == pattern_cell(
                pattern_table_0@,
                pattern_table_1@,
                i - PATTERN_REGION_START,
            ),
        forall|i: int|
            SECOND_SEPARATOR_START <= i < SECOND_SEPARATOR_START + SEPARATOR_CELLS
                ==> #[trigger] out@[i] == Color::light_gray_spec(),
        forall|i: int|
            PALETTE_REGION_START <= i < PALETTE_REGION_START + PALETTE_REGION_CELLS
                ==> #[trigger] out@[i] == palette_cell(palette@, i - PALETTE_REGION_START),
{
    let mut buffer: Vec<Color> = Vec::new();
    let mut n: usize = 0;
    while n < DEBUG_BUFFER_CELLS
        invariant
            n <= DEBUG_BUFFER_CELLS,
            buffer@.len() == n,
            forall|k: int| 0 <= k < n ==> #[trigger] buffer@[k] == Color::black_spec(),
        decreases DEBUG_BUFFER_CELLS - n,
    {
        buffer.push(Color::black());
        n = n + 1;
    }
    add_separation(&mut buffer, 0);
    add_pattern_tables(&mut buffer, PATTERN_REGION_START, pattern_table_0, pattern_table_1);
    add_separation(&mut buffer, SECOND_SEPARATOR_START);
    add_palette(&mut buffer, PALETTE_REGION_START, palette);
    buffer
}

} // verus!
