//! The viewport window: which rows of the document are on screen.

use vstd::prelude::*;

verus! {

/// The half-open range of rows `(start, end)` that is shown when the document
/// has `total_lines` rows, the cursor is on `cursor_row` and the screen holds
/// `visible_height` rows.
///
/// The window always starts at the cursor's row. It is `visible_height` rows
/// long where the document has that many rows left, and runs to the end of the
/// document where it has fewer.
pub open spec fn window(total_lines: int, cursor_row: int, visible_height: int) -> (int, int) {
    if cursor_row + visible_height > total_lines {
        (cursor_row, total_lines)
    } else {
        (cursor_row, cursor_row + visible_height)
    }
}

/// Computes the window of rows to show.
///
/// The result is `window` of the arguments. It never reaches past the end of
/// the document, never holds more rows than the screen, and holds the cursor's
/// row whenever that row exists and the screen has at least one row.
pub fn compute_window(total_lines: usize, cursor_row: usize, visible_height: usize) -> (range: (
    usize,
    usize,
))
    ensures
        (range.0 as int, range.1 as int) == window(
            total_lines as int,
            cursor_row as int,
            visible_height as int,
        ),
        range.1 <= total_lines,
        range.1 - range.0 <= visible_height,
        cursor_row < total_lines && visible_height >= 1 ==> range.0 <= cursor_row < range.1,
{
    if cursor_row > total_lines || visible_height > total_lines - cursor_row {
        (cursor_row, total_lines)
    } else {
        (cursor_row, cursor_row + visible_height)
    }
}

} // verus!
