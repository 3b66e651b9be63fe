//! The editor itself: a buffer, a cursor, a mode and a quit flag, driven by
//! keys.

use crate::buffer::{visible_rows, FileBuffer};
use crate::cursor::Cursor;
use crate::display::paragraph_rows;
use crate::key::Key;
use crate::session::Session;
use crate::text::{insert_char, remove_char, split_line};
use ratatui::widgets::Paragraph;
use vstd::prelude::*;

verus! {

/// The two input modes.
#[derive(Debug, Clone, Copy, PartialEq, Eq, Structural)]
pub enum EditingMode {
    /// Navigation: keys move the cursor or change the mode.
    Normal,
    /// Insertion: keys change the text at the cursor.
    Insert,
}

/// What the caller has to do after a key.
#[derive(Debug, PartialEq, Eq)]
pub enum Action {
    /// Nothing.
    Idle,
    /// Write this text to the buffer's file.
    Save(String),
}

impl Action {
    /// The text to write, if there is one.
    pub open spec fn text(self) -> Option<Seq<char>> {
        match self {
            Action::Idle => None,
            Action::Save(text) => Some(text@),
        }
    }
}

/// An editor on one buffer. Make one with [`TuiRenderer::new`] and feed it
/// keys with [`TuiRenderer::handle_input`].
#[derive(Debug)]
pub struct TuiRenderer {
    buffer: FileBuffer,
    cursor: Cursor,
    mode: EditingMode,
    should_quit: bool,
}

impl View for TuiRenderer {
    type V = Session;

    /// The session that the editor is in.
    closed spec fn view(&self) -> Session {
        Session {
            path: self.buffer.path(),
            lines: self.buffer@,
            column: self.cursor.column() as nat,
            row: self.cursor.row() as nat,
            mode: self.mode,
            should_quit: self.should_quit,
        }
    }
}

impl TuiRenderer {
    /// Makes an editor on `buffer`: in navigation mode, with the cursor in
    /// column 0 of row 0.
    pub fn new(buffer: FileBuffer) -> (editor: Self)
        ensures
            editor@ == (Session {
                path: buffer.path(),
                lines: buffer@,
                column: 0,
                row: 0,
                mode: EditingMode::Normal,
                should_quit: false,
            }),
            buffer@.len() >= 1 ==> editor@.valid(),
    {
        let cursor = Cursor::new(0, 0);
        let mode = EditingMode::Normal;
        Self { buffer, cursor, mode, should_quit: false }
    }

    /// Returns the buffer.
    pub fn buffer(&self) -> (buffer: &FileBuffer)
        ensures
            buffer@ == self@.lines,
            buffer.path() == self@.path,
    {
        &self.buffer
    }

    /// Returns the cursor.
    pub fn cursor(&self) -> (cursor: &Cursor)
        ensures
            cursor.column() == self@.column,
            cursor.row() == self@.row,
    {
        &self.cursor
    }

    /// Returns the mode.
    pub fn mode(&self) -> (mode: EditingMode)
        ensures
            mode == self@.mode,
    {
        self.mode
    }

    /// Returns whether the quit key has been pressed.
    pub fn should_quit(&self) -> (quit: bool)
        ensures
            quit == self@.should_quit,
    {
        self.should_quit
    }

    /// Returns the name of the mode for the status line.
    pub fn status_label(&self) -> (label: &'static str)
        ensures
            label@ == (match self@.mode {
                EditingMode::Normal => "NORMAL"@,
                EditingMode::Insert => "INSERT"@,
            }),
    {
        match self.mode {
            EditingMode::Normal => "NORMAL",
            EditingMode::Insert => "INSERT",
        }
    }

    /// Builds what is on screen when the screen holds `visible_height` rows.
    /// The editor is left as it was.
    pub fn main_text(&mut self, visible_height: usize) -> (shown: Paragraph<'static>)
        requires
            old(self)@.row <= old(self)@.lines.len(),
        ensures
            paragraph_rows(shown) == visible_rows(
                old(self)@.lines,
                old(self)@.column as int,
                old(self)@.row as int,
                visible_height as int,
            ),
            final(self)@ == old(self)@,
    {
        self.buffer.to_paragraph(&mut self.cursor, visible_height)
    }

    /// Returns whether the cursor is inside the text.
    pub fn is_valid(&self) -> (valid: bool)
        ensures
            valid == self@.valid(),
    {
        let (column, row) = self.cursor.position();
        row < self.buffer.file_content().len() && column <= self.line_len()
    }

    /// Returns whether `key` can be handled in navigation mode.
    pub fn normal_accepts(&self, key: Key) -> (ok: bool)
        ensures
            ok == self@.normal_accepts(key),
    {
        let (column, row) = self.cursor.position();
        let lines = self.buffer.file_content();
        match key {
            Key::Char('i') => row < lines.len(),
            Key::Char('j') | Key::Down => lines.len() >= 1 && row < usize::MAX,
            Key::Char('l') | Key::Right => row < lines.len() && (column < usize::MAX || column
                <= self.line_len()),
            Key::Char('h') | Key::Left => column == 0 || (row < lines.len() && (
            !lines[row].as_str().is_empty() || column <= self.line_len())),
            _ => true,
        }
    }

    /// Returns whether `key` can be handled in insertion mode.
    pub fn insert_accepts(&self, key: Key) -> (ok: bool)
        ensures
            ok == self@.insert_accepts(key),
    {
        let (column, row) = self.cursor.position();
        let lines = self.buffer.file_content();
        match key {
            Key::Char(_) | Key::Enter => self.is_valid(),
            Key::Backspace => if column != 0 {
                self.is_valid()
            } else {
                row == 0 || row < lines.len()
            },
            Key::Down => lines.len() >= 1 && row < usize::MAX,
            Key::Right => row < lines.len() && (column < usize::MAX || column <= self.line_len()),
            _ => true,
        }
    }

    /// Returns whether `key` can be handled in the editor's mode.
    pub fn accepts(&self, key: Key) -> (ok: bool)
        ensures
            ok == self@.accepts(key),
    {
        match self.mode {
            EditingMode::Normal => self.normal_accepts(key),
            EditingMode::Insert => self.insert_accepts(key),
        }
    }

    /// The number of characters in the cursor's line.
    fn line_len(&self) -> (len: usize)
        requires
            self@.row_in_range(),
        ensures
            len == self@.line().len(),
    {
        let row = self.cursor.position().1;
        self.buffer.file_content()[row].as_str().unicode_len()
    }

    /// Moves the cursor one row down, unless the next row is the last.
    fn move_down(&mut self)
        requires
            old(self)@.can_move_down(),
        ensures
            final(self)@ == old(self)@.moved_down(),
    {
        let last = self.buffer.file_content().len() - 1;
        if self.cursor.y_copy() + 1 != last {
            *self.cursor.y_mut() += 1;
        }
    }

    /// Moves the cursor one row up, unless it is on the first row.
    fn move_up(&mut self)
        ensures
            final(self)@ == old(self)@.moved_up(),
    {
        if self.cursor.y_copy() != 0 {
            *self.cursor.y_mut() -= 1;
        }
    }

    /// Moves the cursor one column to the right, unless it sits exactly
    /// behind the end of its line.
    fn move_right(&mut self)
        requires
            old(self)@.can_move_right(),
        ensures
            final(self)@ == old(self)@.moved_right(),
    {
        if self.cursor.x_copy() != self.line_len() {
            *self.cursor.x_mut() += 1;
        }
    }

    /// Handles a key in navigation mode.
    ///
    /// The quit key sets the quit flag and asks for the joined lines to be
    /// written; no key changes the text.
    pub fn normal_ih(&mut self, key: Key) -> (action: Action)
        requires
            old(self)@.normal_accepts(key),
        ensures
            final(self)@ == old(self)@.normal_step(key),
            action.text() == old(self)@.normal_save(key),
    {
        match key {
            Key::Char('q') => {
                self.should_quit = true;
                return Action::Save(self.buffer.to_text());
            },
            Key::Char('i') => {
                let x_copy = self.cursor.x_copy();
                let line_len = self.line_len();
                if x_copy > line_len {
                    *self.cursor.x_mut() = line_len;
                }
                self.mode = EditingMode::Insert;
            },
            Key::Char('j') | Key::Down => {
                self.move_down();
            },
            Key::Char('k') | Key::Up => {
                self.move_up();
            },
            Key::Char('l') | Key::Right => {
                self.move_right();
            },
            Key::Char('h') | Key::Left => {
                let x_copy = self.cursor.x_copy();
                if x_copy != 0 {
                    let line_len = self.line_len();
                    if x_copy > line_len {
                        *self.cursor.x_mut() = line_len - 1;
                    } else {
                        *self.cursor.x_mut() -= 1;
                    }
                }
            },
            _ => {},
        }
        Action::Idle
    }

    /// Handles a key in insertion mode.
    pub fn insert_ih(&mut self, key: Key)
        requires
            old(self)@.insert_accepts(key),
        ensures
            final(self)@ == old(self)@.insert_step(key),
    {
        match key {
            Key::Esc => {
                if self.cursor.x_copy() != 0 {
                    *self.cursor.x_mut() -= 1;
                }
                self.mode = EditingMode::Normal;
            },
            Key::Char(x) => {
                let y_copy = self.cursor.y_copy();
                let x_copy = self.cursor.x_copy();
                let lines = self.buffer.file_content_mut();
                let (edited, behind) = insert_char(lines[y_copy].as_str(), x_copy, x);
                lines[y_copy] = edited;
                *self.cursor.x_mut() = behind;
                assert(self@.lines == old(self)@.typed(x).lines);
            },
            Key::Backspace => {
                let y_copy = self.cursor.y_copy();
                let x_copy = self.cursor.x_copy();
                if x_copy != 0 {
                    let lines = self.buffer.file_content_mut();
                    let edited = remove_char(lines[y_copy].as_str(), x_copy - 1);
                    lines[y_copy] = edited;
                    *self.cursor.x_mut() -= 1;
                    assert(self@.lines == old(self)@.erased().lines);
                } else if y_copy != 0 {
                    let lines = self.buffer.file_content_mut();
                    let line_size = lines[y_copy - 1].as_str().unicode_len();
                    let line = lines.remove(y_copy);
                    lines[y_copy - 1].append(line.as_str());
                    *self.cursor.y_mut() -= 1;
                    *self.cursor.x_mut() = line_size;
                    assert(self@.lines == old(self)@.erased().lines);
                }
            },
            Key::Enter => {
                let y_copy = self.cursor.y_copy();
                let x_copy = self.cursor.x_copy();
                let lines = self.buffer.file_content_mut();
                let (left, right) = split_line(lines[y_copy].as_str(), x_copy);
                lines[y_copy] = left;
                assert(y_copy < lines.len());
                lines.insert(y_copy + 1, right);
                *self.cursor.y_mut() += 1;
                *self.cursor.x_mut() = 0;
                assert(self@.lines == old(self)@.broke_line().lines);
            },
            Key::Down => {
                self.move_down();
            },
            Key::Up => {
                self.move_up();
            },
            Key::Right => {
                self.move_right();
            },
            Key::Left => {
                if self.cursor.x_copy() != 0 {
                    *self.cursor.x_mut() -= 1;
                }
            },
            Key::Other => {},
        }
    }

    /// Handles a key in the editor's mode, and says what the caller has to
    /// do: write the text on the quit key in navigation mode, nothing on any
    /// other key.
    pub fn handle_input(&mut self, key: Key) -> (action: Action)
        requires
            old(self)@.accepts(key),
        ensures
            final(self)@ == old(self)@.step(key),
            action.text() == old(self)@.save(key),
    {
        match self.mode {
            EditingMode::Normal => self.normal_ih(key),
            EditingMode::Insert => {
                self.insert_ih(key);
                Action::Idle
            },
        }
    }
}

} // verus!
