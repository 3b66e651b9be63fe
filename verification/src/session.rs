//! The editing session as a mathematical value, and what each key does to it.
//!
//! A session is the text, the cursor, the mode and the quit flag. Every key
//! maps a session to the next one; which map applies depends on the mode.

use crate::key::Key;
use crate::text::join_lines;
use crate::tui_renderer::EditingMode;
use vstd::prelude::*;

verus! {

/// The state of an editing session.
pub struct Session {
    /// The path of the file that the text belongs to.
    pub path: Seq<char>,
    /// The lines of the text, in document order.
    pub lines: Seq<Seq<char>>,
    /// The cursor's column: a character position in its line.
    pub column: nat,
    /// The cursor's row: an index into `lines`.
    pub row: nat,
    /// The input mode.
    pub mode: EditingMode,
    /// Whether the session has been asked to end.
    pub should_quit: bool,
}

impl Session {
    /// Whether the cursor's row is a row of the text.
    pub open spec fn row_in_range(self) -> bool {
        self.row < self.lines.len()
    }

    /// The line that the cursor is on.
    pub open spec fn line(self) -> Seq<char>
        recommends
            self.row_in_range(),
    {
        self.lines[self.row as int]
    }

    /// Whether the cursor is inside the text: on a row of the text, and on one
    /// of its characters or directly behind the last one.
    pub open spec fn valid(self) -> bool {
        self.row_in_range() && self.column <= self.line().len()
    }

    /// The session with the cursor at `column`.
    pub open spec fn at_column(self, column: nat) -> Session {
        Session { column, ..self }
    }

    /// The session with the cursor on `row`.
    pub open spec fn at_row(self, row: nat) -> Session {
        Session { row, ..self }
    }

    /// The session in `mode`.
    pub open spec fn in_mode(self, mode: EditingMode) -> Session {
        Session { mode, ..self }
    }

    /// The session with `lines` as its text.
    pub open spec fn with_lines(self, lines: Seq<Seq<char>>) -> Session {
        Session { lines, ..self }
    }

    /// One column to the right, unless the cursor sits exactly behind the
    /// last character of its line.
    pub open spec fn moved_right(self) -> Session {
        if self.column != self.line().len() {
            self.at_column(self.column + 1)
        } else {
            self
        }
    }

    /// One column to the left, unless the cursor is in column 0.
    pub open spec fn moved_left(self) -> Session {
        if self.column != 0 {
            self.at_column((self.column - 1) as nat)
        } else {
            self
        }
    }

    /// To the left, mending a column that lies behind the end of the line: from
    /// there the cursor goes to the line's last character; from anywhere else
    /// but column 0 it goes one column to the left.
    pub open spec fn moved_left_mending(self) -> Session {
        if self.column == 0 {
            self
        } else if self.column > self.line().len() {
            self.at_column((self.line().len() - 1) as nat)
        } else {
            self.at_column((self.column - 1) as nat)
        }
    }

    /// One row down, unless the next row is the last row of the text.
    ///
    /// This is a known limitation: from above, the cursor never reaches the
    /// last row, and from the last row it moves to a row below the text.
    pub open spec fn moved_down(self) -> Session {
        if self.row + 1 != self.lines.len() - 1 {
            self.at_row(self.row + 1)
        } else {
            self
        }
    }

    /// One row up, unless the cursor is on row 0.
    pub open spec fn moved_up(self) -> Session {
        if self.row != 0 {
            self.at_row((self.row - 1) as nat)
        } else {
            self
        }
    }

    /// Into insertion mode, with a column behind the end of the line pulled
    /// back to the end of the line.
    pub open spec fn entered_insert(self) -> Session {
        let column = if self.column > self.line().len() {
            self.line().len()
        } else {
            self.column
        };
        self.at_column(column).in_mode(EditingMode::Insert)
    }

    /// Back into navigation mode, one column to the left unless the cursor is
    /// in column 0.
    pub open spec fn left_insert(self) -> Session {
        self.moved_left().in_mode(EditingMode::Normal)
    }

    /// With `c` put in at the cursor, and the cursor behind it.
    pub open spec fn typed(self, c: char) -> Session {
        self.with_lines(
            self.lines.update(self.row as int, self.line().insert(self.column as int, c)),
        ).at_column(self.column + 1)
    }

    /// With the character before the cursor removed. In column 0 of a row
    /// other than the first, the cursor's line is joined onto the end of the
    /// line above and the cursor goes to where the two meet. In column 0 of
    /// row 0 nothing changes.
    pub open spec fn erased(self) -> Session {
        if self.column != 0 {
            self.with_lines(
                self.lines.update(self.row as int, self.line().remove(self.column - 1)),
            ).at_column((self.column - 1) as nat)
        } else if self.row != 0 {
            let above = self.lines[self.row - 1];
            self.with_lines(
                self.lines.update(self.row - 1, above + self.line()).remove(self.row as int),
            ).at_row((self.row - 1) as nat).at_column(above.len())
        } else {
            self
        }
    }

    /// With the cursor's line cut in two at the cursor: the part before the
    /// cursor stays, the rest becomes a new line directly below, and the
    /// cursor goes to the start of that new line.
    pub open spec fn broke_line(self) -> Session {
        let left = self.line().subrange(0, self.column as int);
        let right = self.line().subrange(self.column as int, self.line().len() as int);
        self.with_lines(
            self.lines.update(self.row as int, left).insert(self.row as int + 1, right),
        ).at_row(self.row + 1).at_column(0)
    }

    /// With the quit flag set.
    pub open spec fn quitting(self) -> Session {
        Session { should_quit: true, ..self }
    }

    /// What `key` does in navigation mode.
    pub open spec fn normal_step(self, key: Key) -> Session {
        if key == Key::Char('q') {
            self.quitting()
        } else if key == Key::Char('i') {
            self.entered_insert()
        } else if key == Key::Char('j') || key == Key::Down {
            self.moved_down()
        } else if key == Key::Char('k') || key == Key::Up {
            self.moved_up()
        } else if key == Key::Char('l') || key == Key::Right {
            self.moved_right()
        } else if key == Key::Char('h') || key == Key::Left {
            self.moved_left_mending()
        } else {
            self
        }
    }

    /// What `key` does in insertion mode.
    pub open spec fn insert_step(self, key: Key) -> Session {
        match key {
            Key::Esc => self.left_insert(),
            Key::Char(c) => self.typed(c),
            Key::Backspace => self.erased(),
            Key::Enter => self.broke_line(),
            Key::Down => self.moved_down(),
            Key::Up => self.moved_up(),
            Key::Right => self.moved_right(),
            Key::Left => self.moved_left(),
            Key::Other => self,
        }
    }

    /// What `key` does in the session's mode.
    pub open spec fn step(self, key: Key) -> Session {
        match self.mode {
            EditingMode::Normal => self.normal_step(key),
            EditingMode::Insert => self.insert_step(key),
        }
    }

    /// The text that `key` asks to be written to the file in navigation
    /// mode: the joined lines on the quit key, nothing on any other.
    pub open spec fn normal_save(self, key: Key) -> Option<Seq<char>> {
        if key == Key::Char('q') {
            Some(join_lines(self.lines))
        } else {
            None
        }
    }

    /// The text that `key` asks to be written to the file in the session's
    /// mode. Only navigation mode ever writes.
    pub open spec fn save(self, key: Key) -> Option<Seq<char>> {
        match self.mode {
            EditingMode::Normal => self.normal_save(key),
            EditingMode::Insert => None,
        }
    }

    /// Whether the cursor can move right: its row must exist, and a column
    /// behind the end of the line must leave room for one more.
    pub open spec fn can_move_right(self) -> bool {
        self.row_in_range() && (self.column > self.line().len() ==> self.column < usize::MAX)
    }

    /// Whether the cursor can move left with mending: outside column 0 its row
    /// must exist, and a column behind the end of the line needs a line with
    /// a last character to go to.
    pub open spec fn can_move_left_mending(self) -> bool {
        self.column != 0 ==> self.row_in_range() && (self.column > self.line().len()
            ==> self.line().len() >= 1)
    }

    /// Whether the cursor can move down: the text must have a line, and a row
    /// below the text must leave room for one more.
    pub open spec fn can_move_down(self) -> bool {
        self.lines.len() >= 1 && (self.row >= self.lines.len() ==> self.row < usize::MAX)
    }

    /// Whether backspace can be applied: outside column 0 the cursor must be
    /// inside the text, and in column 0 of a row other than the first that row
    /// must exist.
    pub open spec fn can_erase(self) -> bool {
        if self.column != 0 {
            self.valid()
        } else {
            self.row != 0 ==> self.row_in_range()
        }
    }

    /// Whether `key` can be applied in navigation mode.
    pub open spec fn normal_accepts(self, key: Key) -> bool {
        if key == Key::Char('q') {
            true
        } else if key == Key::Char('i') {
            self.row_in_range()
        } else if key == Key::Char('j') || key == Key::Down {
            self.can_move_down()
        } else if key == Key::Char('k') || key == Key::Up {
            true
        } else if key == Key::Char('l') || key == Key::Right {
            self.can_move_right()
        } else if key == Key::Char('h') || key == Key::Left {
            self.can_move_left_mending()
        } else {
            true
        }
    }

    /// Whether `key` can be applied in insertion mode.
    pub open spec fn insert_accepts(self, key: Key) -> bool {
        match key {
            Key::Esc => true,
            Key::Char(_) => self.valid(),
            Key::Backspace => self.can_erase(),
            Key::Enter => self.valid(),
            Key::Down => self.can_move_down(),
            Key::Up => true,
            Key::Right => self.can_move_right(),
            Key::Left => true,
            Key::Other => true,
        }
    }

    /// Whether `key` can be applied in the session's mode: whether every
    /// line and character that the key's rule reads exists, and the cursor's
    /// new position is a pair of machine integers.
    pub open spec fn accepts(self, key: Key) -> bool {
        match self.mode {
            EditingMode::Normal => self.normal_accepts(key),
            EditingMode::Insert => self.insert_accepts(key),
        }
    }

    /// Whether `key` moves the cursor down in the session's mode.
    pub open spec fn goes_down(self, key: Key) -> bool {
        &&& key == Key::Down || (self.mode == EditingMode::Normal && key == Key::Char('j'))
        &&& self.row + 1 != self.lines.len() - 1
    }

    /// Whether `key` moves the cursor up in the session's mode.
    pub open spec fn goes_up(self, key: Key) -> bool {
        &&& key == Key::Up || (self.mode == EditingMode::Normal && key == Key::Char('k'))
        &&& self.row != 0
    }

    /// Whether `key` takes a cursor that is inside the text out of it. That
    /// happens on a move down from the last row, which leaves the text, and on
    /// a move up or down onto a line that is shorter than the cursor's column.
    pub open spec fn strands_cursor(self, key: Key) -> bool {
        ||| self.goes_down(key) && (self.row + 1 >= self.lines.len() || self.column
            > self.lines[self.row as int + 1].len())
        ||| self.goes_up(key) && self.column > self.lines[self.row - 1].len()
    }
}

/// A cursor inside the text makes every key applicable, in both modes.
pub proof fn lemma_valid_accepts(s: Session, key: Key)
    requires
        s.valid(),
    ensures
        s.accepts(key),
{
}

/// A key keeps the cursor inside the text exactly when it does not strand it:
/// every key but a move up or down does, and a move up or down does where the
/// line it reaches exists and is long enough for the cursor's column.
pub proof fn lemma_step_keeps_valid(s: Session, key: Key)
    requires
        s.valid(),
    ensures
        s.step(key).valid() <==> !s.strands_cursor(key),
{
}

/// A text with at least one line has at least one line after every key that
/// can be applied.
pub proof fn lemma_step_keeps_a_line(s: Session, key: Key)
    requires
        s.lines.len() >= 1,
        s.accepts(key),
    ensures
        s.step(key).lines.len() >= 1,
{
}

/// No key in navigation mode changes the text.
pub proof fn lemma_normal_keeps_text(s: Session, key: Key)
    ensures
        s.normal_step(key).lines == s.lines,
{
}

/// No key changes the path. Only the quit key in navigation mode sets the
/// quit flag, and nothing clears it. The mode changes only on the insert key
/// in navigation mode and on escape in insertion mode.
pub proof fn lemma_step_changes_little(s: Session, key: Key)
    ensures
        s.step(key).path == s.path,
        s.step(key).should_quit == (s.should_quit || (s.mode == EditingMode::Normal && key
            == Key::Char('q'))),
        s.step(key).mode == (if s.mode == EditingMode::Normal && key == Key::Char('i') {
            EditingMode::Insert
        } else if s.mode == EditingMode::Insert && key == Key::Esc {
            EditingMode::Normal
        } else {
            s.mode
        }),
{
}

/// Entering insertion mode and leaving it at once ends in navigation mode
/// with the cursor one column to the left, or still in column 0; so the column
/// never grows and never shrinks by more than one. Nothing else changes.
pub proof fn lemma_insert_then_escape(s: Session)
    requires
        s.valid(),
        s.mode == EditingMode::Normal,
    ensures
        ({
            let back = s.step(Key::Char('i')).step(Key::Esc);
            &&& back.mode == EditingMode::Normal
            &&& back.column == if s.column == 0 { 0 } else { s.column - 1 }
            &&& back.column <= s.column <= back.column + 1
            &&& back == s.at_column(back.column)
        }),
{
}

/// Breaking a line and pressing backspace at once gives the session back:
/// the same lines, the same cursor.
pub proof fn lemma_break_then_erase(s: Session)
    requires
        s.valid(),
        s.mode == EditingMode::Insert,
    ensures
        s.step(Key::Enter).step(Key::Backspace) == s,
        s.step(Key::Enter).valid(),
{
    let broken = s.step(Key::Enter);
    let back = broken.step(Key::Backspace);
    assert(back.lines =~= s.lines) by {
        let left = s.line().subrange(0, s.column as int);
        let right = s.line().subrange(s.column as int, s.line().len() as int);
        assert(left + right =~= s.line());
    }
}

} // verus!
