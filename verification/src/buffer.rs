//! The buffer in memory: the lines as strings, and the cursor.
//!
//! A [`Buffer`] is only ever changed through the operations of this module.
//! Each one is stated against the mathematical buffer of [`crate::model`],
//! and each one leaves the buffer valid.

use vstd::prelude::*;
use crate::input::Command;
use crate::model::{BufferView, Change};
use crate::text::{char_count, joined, slice, with_char_inserted, with_char_removed};

verus! {

/// What an operation did to the buffer, as far as the screen is concerned.
#[derive(Clone, Copy, Debug, PartialEq, Eq)]
pub enum Edit {
    /// Nothing that is shown has changed.
    Unchanged,
    /// The text or the cursor changed within the cursor's line.
    WithinLine,
    /// The cursor went to another row; `from` is the row it left.
    RowChanged { from: usize },
    /// A line was added or removed.
    LinesChanged,
}

impl View for Edit {
    type V = Change;

    open spec fn view(&self) -> Change {
        match self {
            Edit::Unchanged => Change::Unchanged,
            Edit::WithinLine => Change::WithinLine,
            Edit::RowChanged { from } => Change::RowChanged { from: *from as int },
            Edit::LinesChanged => Change::LinesChanged,
        }
    }
}

/// The characters of each of `lines`, in order.
pub open spec fn line_views(lines: Seq<String>) -> Seq<Seq<char>> {
    lines.map_values(|line: String| line@)
}

/// The text of the editor and the place of its cursor.
///
/// There is always at least one line, and the cursor is always on a line and
/// within it or directly behind its last character.
#[derive(Debug, PartialEq, Eq)]
pub struct Buffer {
    lines: Vec<String>,
    cursor_row: usize,
    cursor_col: usize,
}

impl View for Buffer {
    type V = BufferView;

    closed spec fn view(&self) -> BufferView {
        BufferView {
            lines: line_views(self.lines@),
            row: self.cursor_row as int,
            col: self.cursor_col as int,
        }
    }
}

impl Buffer {
    /// The buffer is well formed when its text and cursor are valid.
    pub open spec fn wf(&self) -> bool {
        self@.valid()
    }

    /// A buffer of one empty line, with the cursor at its start.
    pub fn new() -> (buffer: Buffer)
        ensures
            buffer.wf(),
            buffer@ == (BufferView { lines: seq![Seq::<char>::empty()], row: 0, col: 0 }),
    {
        let mut lines = Vec::new();
        lines.push(String::new());
        Buffer { lines, cursor_row: 0, cursor_col: 0 }
    }

    /// The buffer the editor starts with: three lines of sample text, with
    /// the cursor at the start of the first.
    pub fn init() -> (buffer: Buffer)
        ensures
            buffer.wf(),
            buffer@ == (BufferView {
                lines: seq!["Hello World"@, "Test123"@, "Finish123"@],
                row: 0,
                col: 0,
            }),
    {
        let mut lines = Vec::new();
        lines.push(String::from_str("Hello World"));
        lines.push(String::from_str("Test123"));
        lines.push(String::from_str("Finish123"));
        Buffer { lines, cursor_row: 0, cursor_col: 0 }
    }

    /// A buffer of the given lines with the cursor at (`row`, `col`), where
    /// that is a valid buffer, and nothing where it is not: with no line at
    /// all, with `row` not the index of a line, or with `col` beyond the
    /// length of line `row`.
    pub fn from_lines(lines: Vec<String>, row: usize, col: usize) -> (made: Option<Buffer>)
        ensures
            made is Some <==> (BufferView {
                lines: line_views(lines@),
                row: row as int,
                col: col as int,
            }).valid(),
            made matches Some(buffer) ==> buffer.wf() && buffer@ == (BufferView {
                lines: line_views(lines@),
                row: row as int,
                col: col as int,
            }),
    {
        if row >= lines.len() {
            return None;
        }
        if col > char_count(&lines[row]) {
            return None;
        }
        Some(Buffer { lines, cursor_row: row, cursor_col: col })
    }

    /// The number of lines.
    pub fn line_count(&self) -> (count: usize)
        ensures
            count == self@.lines.len(),
    {
        self.lines.len()
    }

    /// The row of the cursor.
    pub fn cursor_row(&self) -> (row: usize)
        ensures
            row == self@.row,
    {
        self.cursor_row
    }

    /// The column of the cursor, in characters.
    pub fn cursor_col(&self) -> (col: usize)
        ensures
            col == self@.col,
    {
        self.cursor_col
    }

    /// All lines, from top to bottom.
    pub fn lines(&self) -> (lines: &Vec<String>)
        ensures
            line_views(lines@) == self@.lines,
    {
        &self.lines
    }

    /// Line `row`, where there is one.
    pub fn line(&self, row: usize) -> (line: Option<&String>)
        ensures
            line is Some <==> row < self@.lines.len(),
            line matches Some(text) ==> text@ == self@.lines[row as int],
    {
        if row < self.lines.len() {
            Some(&self.lines[row])
        } else {
            None
        }
    }

    /// The line the cursor is on.
    pub fn current_line(&self) -> (line: &String)
        requires
            self.wf(),
        ensures
            line@ == self@.line(),
    {
        &self.lines[self.cursor_row]
    }

    /// Puts the cursor on row `row` and holds its column back to the length
    /// of that line.
    fn go_to_row(&mut self, row: usize)
        requires
            old(self).wf(),
            row < old(self)@.lines.len(),
        ensures
            final(self).wf(),
            final(self)@ == old(self)@.on_row(row as int),
    {
        let len = char_count(&self.lines[row]);
        self.cursor_row = row;
        if self.cursor_col > len {
            self.cursor_col = len;
        }
    }

    /// Moves the cursor one row up and holds its column back to the length
    /// of the line it comes to. On the first row nothing happens.
    pub fn move_up(&mut self) -> (edit: Edit)
        requires
            old(self).wf(),
        ensures
            final(self).wf(),
            final(self)@ == old(self)@.move_up(),
            edit@ == old(self)@.change(Command::MoveUp),
    {
        if self.cursor_row == 0 {
            return Edit::Unchanged;
        }
        let from = self.cursor_row;
        self.go_to_row(from - 1);
        Edit::RowChanged { from }
    }

    /// Moves the cursor one row down and holds its column back to the length
    /// of the line it comes to. On the last row nothing happens.
    pub fn move_down(&mut self) -> (edit: Edit)
        requires
            old(self).wf(),
        ensures
            final(self).wf(),
            final(self)@ == old(self)@.move_down(),
            edit@ == old(self)@.change(Command::MoveDown),
    {
        if self.cursor_row == self.lines.len() - 1 {
            return Edit::Unchanged;
        }
        let from = self.cursor_row;
        self.go_to_row(from + 1);
        Edit::RowChanged { from }
    }

    /// Moves the cursor one column to the left. At the start of a line
    /// nothing happens: the cursor does not wrap to the line above.
    pub fn move_left(&mut self) -> (edit: Edit)
        requires
            old(self).wf(),
        ensures
            final(self).wf(),
            final(self)@ == old(self)@.move_left(),
            edit@ == old(self)@.change(Command::MoveLeft),
    {
        if self.cursor_col == 0 {
            return Edit::Unchanged;
        }
        self.cursor_col = self.cursor_col - 1;
        Edit::WithinLine
    }

    /// Moves the cursor one column to the right. Behind the last character
    /// of a line the cursor stays: it does not wrap to the line below. The
    /// line counts as changed either way.
    pub fn move_right(&mut self) -> (edit: Edit)
        requires
            old(self).wf(),
        ensures
            final(self).wf(),
            final(self)@ == old(self)@.move_right(),
            edit@ == old(self)@.change(Command::MoveRight),
    {
        let len = char_count(&self.lines[self.cursor_row]);
        if self.cursor_col < len {
            self.cursor_col = self.cursor_col + 1;
        }
        Edit::WithinLine
    }

    /// Inserts `c` at the cursor and moves the cursor behind it.
    ///
    /// Columns count characters, so `c` goes between two characters of the
    /// line whatever their width in bytes, and takes one column itself.
    pub fn insert_char(&mut self, c: char) -> (edit: Edit)
        requires
            old(self).wf(),
        ensures
            final(self).wf(),
            final(self)@ == old(self)@.insert_char(c),
            edit@ == old(self)@.change(Command::InsertChar(c)),
    {
        let row = self.cursor_row;
        let col = self.cursor_col;
        let longer = with_char_inserted(&self.lines[row], col, c);
        let len = char_count(&longer);
        self.lines.set(row, longer);
        // The longer line has a column behind `col`, so the cursor never
        // takes the second branch: it is there to keep the cursor within
        // the line whatever the numbers are.
        self.cursor_col = if col < len {
            col + 1
        } else {
            len
        };
        Edit::WithinLine
    }

    /// Splits the cursor's line at the cursor. What stood behind the cursor
    /// becomes a new line directly below, and the cursor goes to its start.
    pub fn split_line(&mut self) -> (edit: Edit)
        requires
            old(self).wf(),
        ensures
            final(self).wf(),
            final(self)@ == old(self)@.split_line(),
            edit@ == old(self)@.change(Command::Enter),
    {
        let row = self.cursor_row;
        let col = self.cursor_col;
        let len = char_count(&self.lines[row]);
        let first = slice(&self.lines[row], 0, col);
        let second = slice(&self.lines[row], col, len);
        self.lines.set(row, first);
        assert(row < self.lines.len());
        self.lines.insert(row + 1, second);
        self.cursor_row = row + 1;
        self.cursor_col = 0;
        Edit::LinesChanged
    }

    /// Deletes backward from the cursor.
    ///
    /// Within a line, the character before the cursor goes and the cursor
    /// moves one column to the left. At the start of a line that has a line
    /// above it, the two lines become one, the upper one first, and the
    /// cursor stands where they meet. At the start of the first line nothing
    /// happens.
    pub fn delete_backward(&mut self) -> (edit: Edit)
        requires
            old(self).wf(),
        ensures
            final(self).wf(),
            final(self)@ == old(self)@.delete_backward(),
            edit@ == old(self)@.change(Command::Backspace),
    {
        let row = self.cursor_row;
        let col = self.cursor_col;
        if col > 0 {
            let shorter = with_char_removed(&self.lines[row], col - 1);
            self.lines.set(row, shorter);
            self.cursor_col = col - 1;
            Edit::WithinLine
        } else if row > 0 {
            let above_len = char_count(&self.lines[row - 1]);
            let merged = joined(&self.lines[row - 1], &self.lines[row]);
            self.lines.set(row - 1, merged);
            self.lines.remove(row);
            self.cursor_row = row - 1;
            self.cursor_col = above_len;
            Edit::LinesChanged
        } else {
            Edit::Unchanged
        }
    }

    /// Carries out `command` on the buffer and says what it did. Quitting
    /// and an ignored event leave the buffer as it is.
    pub fn apply(&mut self, command: Command) -> (edit: Edit)
        requires
            old(self).wf(),
        ensures
            final(self).wf(),
            final(self)@ == old(self)@.apply(command),
            edit@ == old(self)@.change(command),
    {
        match command {
            Command::MoveUp => self.move_up(),
            Command::MoveDown => self.move_down(),
            Command::MoveLeft => self.move_left(),
            Command::MoveRight => self.move_right(),
            Command::InsertChar(c) => self.insert_char(c),
            Command::Enter => self.split_line(),
            Command::Backspace => self.delete_backward(),
            Command::Quit => Edit::Unchanged,
            Command::Ignored => Edit::Unchanged,
        }
    }
}

} // verus!
