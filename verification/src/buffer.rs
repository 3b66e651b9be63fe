//! The text buffer: the lines of one file, and the path they belong to.

use crate::cursor::Cursor;
use crate::display::{
    cells_of, cells_of_spans, cursor_span, line_cells, line_of_spans, paragraph_of_lines,
    paragraph_rows, plain_span, rows_of_lines,
};
use crate::text::{
    join_lines, join_text, lemma_join_split, lemma_split_lines_shape, lines_of, push_char,
    split_lines, split_text,
};
use crate::viewport::{compute_window, window};
use ratatui::text::{Line, Span};
use ratatui::widgets::Paragraph;
use vstd::prelude::*;

verus! {

/// The cells of the cursor's line: its characters, with the one in `column`
/// marked. Where `column` is at or behind the end of the line, none is marked.
pub open spec fn cursor_cells(line: Seq<char>, column: int) -> Seq<(char, bool)> {
    Seq::new(line.len(), |i: int| (line[i], i == column))
}

/// What is on screen: the rows of `window`, the first of them, which is the
/// cursor's, with the cursor's cell marked.
pub open spec fn visible_rows(
    lines: Seq<Seq<char>>,
    column: int,
    row: int,
    visible_height: int,
) -> Seq<Seq<(char, bool)>> {
    let (start, end) = window(lines.len() as int, row, visible_height);
    Seq::new(
        (end - start) as nat,
        |i: int|
            if i == 0 {
                cursor_cells(lines[start], column)
            } else {
                cells_of(lines[start + i], false)
            },
    )
}

/// With the cursor on a row of the text and a screen of at least one row, the
/// first row on screen is the cursor's line, and the marked cells on screen
/// are exactly the one under the cursor.
pub proof fn lemma_cursor_is_on_screen(
    lines: Seq<Seq<char>>,
    column: int,
    row: int,
    visible_height: int,
)
    requires
        0 <= row < lines.len(),
        visible_height >= 1,
    ensures
        ({
            let rows = visible_rows(lines, column, row, visible_height);
            &&& 1 <= rows.len() <= visible_height
            &&& rows[0].len() == lines[row].len()
            &&& forall|i: int, j: int|
                0 <= i < rows.len() && 0 <= j < rows[i].len() ==> #[trigger] rows[i][j] == (
                    lines[row + i][j],
                    i == 0 && j == column,
                )
        }),
{
}

/// Builds the line that the cursor is on: one span for each character, the
/// one in `column` drawn as the cursor.
fn cursor_line(line: &str, column: usize) -> (shown: Line<'static>)
    ensures
        line_cells(shown) == cursor_cells(line@, column as int),
{
    let mut spans: Vec<Span<'static>> = Vec::new();
    for c in it: line.chars()
        invariant
            it.seq() == line@,
            spans@.len() == it.index(),
            cells_of_spans(spans@) == cursor_cells(line@, column as int).take(it.index() as int),
    {
        let ghost earlier = spans@;
        let mut text = String::new();
        push_char(&mut text, c);
        let span = if spans.len() == column {
            cursor_span(text)
        } else {
            plain_span(text)
        };
        spans.push(span);
        assert(spans@.drop_last() == earlier);
        assert(cells_of_spans(spans@) == cursor_cells(line@, column as int).take(
            it.index() + 1,
        ));
    }
    assert(cursor_cells(line@, column as int).take(line@.len() as int) == cursor_cells(
        line@,
        column as int,
    ));
    line_of_spans(spans)
}

/// Builds a line that the cursor is not on: its text in one span, or no span
/// at all where the line is empty.
fn plain_line(line: &str) -> (shown: Line<'static>)
    ensures
        line_cells(shown) == cells_of(line@, false),
{
    let mut spans: Vec<Span<'static>> = Vec::new();
    if !line.is_empty() {
        spans.push(plain_span(String::from_str(line)));
        assert(cells_of_spans(spans@.drop_last()) == Seq::<(char, bool)>::empty());
    }
    assert(cells_of_spans(spans@) == cells_of(line@, false));
    line_of_spans(spans)
}

/// An open file: its path and its lines.
#[derive(Debug)]
pub struct FileBuffer {
    file: String,
    file_content: Vec<String>,
}

impl View for FileBuffer {
    type V = Seq<Seq<char>>;

    /// The lines of the buffer, each as its characters.
    open spec fn view(&self) -> Seq<Seq<char>> {
        lines_of(self.strings())
    }
}

impl FileBuffer {
    /// The path of the file.
    pub closed spec fn path(&self) -> Seq<char> {
        self.file@
    }

    /// The lines of the buffer as strings.
    pub closed spec fn strings(&self) -> Seq<String> {
        self.file_content@
    }

    /// Makes the buffer of the file at `file` from what the file holds: the
    /// lines of `content`. The buffer has at least one line, and joining its
    /// lines gives `content` back.
    pub fn new(file: String, content: &str) -> (buffer: Self)
        ensures
            buffer.path() == file@,
            buffer@ == split_lines(content@),
            buffer@.len() >= 1,
            join_lines(buffer@) == content@,
    {
        proof {
            lemma_split_lines_shape(content@);
            lemma_join_split(content@);
        }
        Self { file, file_content: split_text(content) }
    }

    /// The text to write back to the file: the lines, joined by line feeds.
    pub fn to_text(&self) -> (text: String)
        ensures
            text@ == join_lines(self@),
    {
        join_text(self.file_content.as_slice())
    }

    /// Builds what is on screen when the screen holds `visible_height` rows:
    /// the rows of the window that starts at the cursor's row, the cursor's
    /// cell marked. The cursor is left as it was.
    pub fn to_paragraph(&self, cursor: &mut Cursor, visible_height: usize) -> (shown: Paragraph<
        'static,
    >)
        requires
            old(cursor).row() <= self@.len(),
        ensures
            paragraph_rows(shown) == visible_rows(
                self@,
                old(cursor).column() as int,
                old(cursor).row() as int,
                visible_height as int,
            ),
            *final(cursor) == *old(cursor),
    {
        let column = cursor.x_copy();
        let range = compute_window(self.file_content.len(), cursor.y_copy(), visible_height);
        let ghost rows = visible_rows(
            self@,
            column as int,
            range.0 as int,
            visible_height as int,
        );
        let mut lines: Vec<Line<'static>> = Vec::new();
        let mut row = range.0;
        while row < range.1
            invariant
                range.0 <= row <= range.1 <= self.file_content@.len(),
                rows.len() == range.1 - range.0,
                rows == visible_rows(self@, column as int, range.0 as int, visible_height as int),
                (range.0 as int, range.1 as int) == window(
                    self@.len() as int,
                    range.0 as int,
                    visible_height as int,
                ),
                rows_of_lines(lines@) == rows.take(row - range.0),
            decreases range.1 - row,
        {
            let line = self.file_content[row].as_str();
            let shown = if row == range.0 {
                cursor_line(line, column)
            } else {
                plain_line(line)
            };
            let ghost earlier = lines@;
            lines.push(shown);
            assert(self@[row as int] == line@);
            assert(rows_of_lines(lines@) == rows_of_lines(earlier).push(rows[row - range.0]));
            row = row + 1;
        }
        assert(rows.take(range.1 - range.0) == rows);
        paragraph_of_lines(lines)
    }

    /// Returns the lines.
    pub fn file_content(&self) -> (lines: &[String])
        ensures
            lines@ == self.strings(),
    {
        self.file_content.as_slice()
    }

    /// Hands out the lines for writing: whatever is written through the
    /// reference becomes the buffer's lines; the path stays.
    pub fn file_content_mut(&mut self) -> (lines: &mut Vec<String>)
        ensures
            lines@ == old(self).strings(),
            final(self).strings() == final(lines)@,
            final(self).path() == old(self).path(),
    {
        &mut self.file_content
    }

    /// Returns the path of the file.
    pub fn file(&self) -> (path: &str)
        ensures
            path@ == self.path(),
    {
        self.file.as_str()
    }
}

} // verus!
