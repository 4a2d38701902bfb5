//! The buffer as a mathematical value, and what each command makes of it.
//!
//! Lines are sequences of characters and the cursor is a pair of integers.
//! Every position counts characters: a character that takes several bytes in
//! memory still takes exactly one column here.

use vstd::prelude::*;
use crate::input::Command;

verus! {

/// What a command did to the buffer, as far as the screen is concerned.
pub enum Change {
    /// Nothing that is shown has changed.
    Unchanged,
    /// The text or the cursor changed within the cursor's line.
    WithinLine,
    /// The cursor went to another row; `from` is the row it left.
    RowChanged { from: int },
    /// A line was added or removed.
    LinesChanged,
}

/// The text and the cursor of a buffer.
#[verifier::ext_equal]
pub struct BufferView {
    /// The lines, from top to bottom.
    pub lines: Seq<Seq<char>>,
    /// The row of the cursor: an index into `lines`.
    pub row: int,
    /// The column of the cursor: the number of characters of its line that
    /// stand before it.
    pub col: int,
}

impl BufferView {
    /// There is at least one line, the cursor is on one of the lines, and it
    /// stands within that line or directly behind its last character.
    pub open spec fn valid(self) -> bool {
        &&& self.lines.len() >= 1
        &&& 0 <= self.row < self.lines.len()
        &&& 0 <= self.col <= self.lines[self.row].len()
    }

    /// The line the cursor is on.
    pub open spec fn line(self) -> Seq<char> {
        self.lines[self.row]
    }

    /// The cursor put on row `row`, its column held back to that line's
    /// length.
    pub open spec fn on_row(self, row: int) -> BufferView {
        let len = self.lines[row].len() as int;
        BufferView { lines: self.lines, row, col: if self.col < len { self.col } else { len } }
    }

    /// One row up; nothing on the first row.
    pub open spec fn move_up(self) -> BufferView {
        if self.row == 0 {
            self
        } else {
            self.on_row(self.row - 1)
        }
    }

    /// One row down; nothing on the last row.
    pub open spec fn move_down(self) -> BufferView {
        if self.row == self.lines.len() - 1 {
            self
        } else {
            self.on_row(self.row + 1)
        }
    }

    /// One column to the left; nothing at the start of the line. The cursor
    /// never wraps to the line above.
    pub open spec fn move_left(self) -> BufferView {
        if self.col == 0 {
            self
        } else {
            BufferView { col: self.col - 1, ..self }
        }
    }

    /// One column to the right; nothing behind the last character. The cursor
    /// never wraps to the line below.
    pub open spec fn move_right(self) -> BufferView {
        if self.col >= self.line().len() {
            self
        } else {
            BufferView { col: self.col + 1, ..self }
        }
    }

    /// `c` put into the cursor's line at the cursor, which then stands behind
    /// it.
    pub open spec fn insert_char(self, c: char) -> BufferView {
        BufferView {
            lines: self.lines.update(self.row, self.line().insert(self.col, c)),
            row: self.row,
            col: self.col + 1,
        }
    }

    /// The cursor's line cut in two at the cursor. What stood before the
    /// cursor stays, what stood behind it becomes a new line directly below,
    /// and the cursor goes to the start of that new line.
    pub open spec fn split_line(self) -> BufferView {
        let line = self.line();
        BufferView {
            lines: self.lines.update(self.row, line.subrange(0, self.col)).insert(
                self.row + 1,
                line.subrange(self.col, line.len() as int),
            ),
            row: self.row + 1,
            col: 0,
        }
    }

    /// The character before the cursor removed. At the start of a line, the
    /// line is joined to the end of the line above and the cursor stands
    /// where the two meet. At the start of the first line nothing happens.
    pub open spec fn delete_backward(self) -> BufferView {
        if self.col > 0 {
            BufferView {
                lines: self.lines.update(self.row, self.line().remove(self.col - 1)),
                row: self.row,
                col: self.col - 1,
            }
        } else if self.row > 0 {
            let above = self.lines[self.row - 1];
            BufferView {
                lines: self.lines.update(self.row - 1, above + self.line()).remove(self.row),
                row: self.row - 1,
                col: above.len() as int,
            }
        } else {
            self
        }
    }

    /// The buffer after `command`.
    pub open spec fn apply(self, command: Command) -> BufferView {
        match command {
            Command::MoveUp => self.move_up(),
            Command::MoveDown => self.move_down(),
            Command::MoveLeft => self.move_left(),
            Command::MoveRight => self.move_right(),
            Command::InsertChar(c) => self.insert_char(c),
            Command::Enter => self.split_line(),
            Command::Backspace => self.delete_backward(),
            Command::Quit => self,
            Command::Ignored => self,
        }
    }

    /// What `command` does to this buffer, as far as the screen is concerned.
    ///
    /// A move that is held back at an edge changes nothing, with one
    /// exception: a move to the right always counts as a change within the
    /// line, also where the cursor stays behind the last character.
    pub open spec fn change(self, command: Command) -> Change {
        match command {
            Command::MoveUp => if self.row == 0 {
                Change::Unchanged
            } else {
                Change::RowChanged { from: self.row }
            },
            Command::MoveDown => if self.row == self.lines.len() - 1 {
                Change::Unchanged
            } else {
                Change::RowChanged { from: self.row }
            },
            Command::MoveLeft => if self.col == 0 {
                Change::Unchanged
            } else {
                Change::WithinLine
            },
            Command::MoveRight => Change::WithinLine,
            Command::InsertChar(_) => Change::WithinLine,
            Command::Enter => Change::LinesChanged,
            Command::Backspace => if self.col > 0 {
                Change::WithinLine
            } else if self.row > 0 {
                Change::LinesChanged
            } else {
                Change::Unchanged
            },
            Command::Quit => Change::Unchanged,
            Command::Ignored => Change::Unchanged,
        }
    }

    /// The buffer after all of `commands`, the first one first.
    pub open spec fn run(self, commands: Seq<Command>) -> BufferView
        decreases commands.len(),
    {
        if commands.len() == 0 {
            self
        } else {
            self.run(commands.drop_last()).apply(commands.last())
        }
    }
}

/// No command takes a valid buffer to one that is not valid: there is still a
/// line, and the cursor is still on a line and within it.
pub proof fn law_apply_keeps_valid(buffer: BufferView, command: Command)
    requires
        buffer.valid(),
    ensures
        buffer.apply(command).valid(),
{
}

/// Along any sequence of commands from a valid buffer, the buffer is valid
/// after every single command.
pub proof fn law_run_keeps_valid(buffer: BufferView, commands: Seq<Command>)
    requires
        buffer.valid(),
    ensures
        forall|n: int| 0 <= n <= commands.len() ==> (#[trigger] buffer.run(commands.take(n))).valid(),
{
    assert forall|n: int| 0 <= n <= commands.len() implies (#[trigger] buffer.run(
        commands.take(n),
    )).valid() by {
        lemma_run_valid(buffer, commands.take(n));
    }
}

/// A run of commands from a valid buffer ends in a valid buffer.
proof fn lemma_run_valid(buffer: BufferView, commands: Seq<Command>)
    requires
        buffer.valid(),
    ensures
        buffer.run(commands).valid(),
    decreases commands.len(),
{
    if commands.len() > 0 {
        lemma_run_valid(buffer, commands.drop_last());
        law_apply_keeps_valid(buffer.run(commands.drop_last()), commands.last());
    }
}

/// Inserting a character and then deleting backward gives back the buffer as
/// it was: the same lines and the same cursor.
pub proof fn law_insert_then_delete(buffer: BufferView, c: char)
    requires
        buffer.valid(),
    ensures
        buffer.insert_char(c).delete_backward() == buffer,
{
    let line = buffer.line();
    assert(line.insert(buffer.col, c).remove(buffer.col) =~= line);
}

/// Splitting the line at the cursor and then deleting backward gives back the
/// buffer as it was: the same lines and the same cursor.
pub proof fn law_split_then_delete(buffer: BufferView)
    requires
        buffer.valid(),
    ensures
        buffer.split_line().delete_backward() == buffer,
{
    let line = buffer.line();
    assert(line.subrange(0, buffer.col) + line.subrange(buffer.col, line.len() as int) =~= line);
}

/// At an edge a move changes nothing: to the left at the start of a line, to
/// the right behind its last character, up on the first row, down on the
/// last.
pub proof fn law_moves_stop_at_edges(buffer: BufferView)
    requires
        buffer.valid(),
    ensures
        buffer.col == 0 ==> buffer.move_left() == buffer,
        buffer.col == buffer.line().len() ==> buffer.move_right() == buffer,
        buffer.row == 0 ==> buffer.move_up() == buffer,
        buffer.row == buffer.lines.len() - 1 ==> buffer.move_down() == buffer,
{
}

/// Inserting a character, of whatever width in bytes, makes the cursor's line
/// exactly one column longer and leaves every other character as it was:
/// those before the cursor keep their column, those from the cursor on move
/// one column to the right, and the other lines are untouched.
pub proof fn law_insert_keeps_neighbours(buffer: BufferView, c: char)
    requires
        buffer.valid(),
    ensures
        buffer.insert_char(c).lines.len() == buffer.lines.len(),
        buffer.insert_char(c).line().len() == buffer.line().len() + 1,
        buffer.insert_char(c).line()[buffer.col] == c,
        forall|i: int| 0 <= i < buffer.col ==> buffer.insert_char(c).line()[i] == buffer.line()[i],
        forall|i: int|
            buffer.col <= i < buffer.line().len() ==> buffer.insert_char(c).line()[i + 1]
                == buffer.line()[i],
        forall|r: int|
            0 <= r < buffer.lines.len() && r != buffer.row ==> buffer.insert_char(c).lines[r]
                == buffer.lines[r],
{
}

/// The kind of edit that a command reports covers everything the command
/// changed, so that what is not painted anew is still right on the screen.
///
/// Where the edit is `Unchanged`, the buffer is as it was. Where it is
/// `WithinLine`, the cursor is on the same row and every other line is as it
/// was. Where it is `RowChanged`, all lines are as they were, the row named
/// is the one the cursor was on, and the cursor is now on a row next to it.
pub proof fn law_change_covers_the_edit(buffer: BufferView, command: Command)
    requires
        buffer.valid(),
    ensures
        buffer.change(command) == Change::Unchanged ==> buffer.apply(command) == buffer,
        buffer.change(command) == Change::WithinLine ==> {
            &&& buffer.apply(command).row == buffer.row
            &&& buffer.apply(command).lines.len() == buffer.lines.len()
            &&& forall|r: int|
                0 <= r < buffer.lines.len() && r != buffer.row ==> buffer.apply(command).lines[r]
                    == buffer.lines[r]
        },
        buffer.change(command) matches Change::RowChanged { from } ==> {
            &&& buffer.apply(command).lines == buffer.lines
            &&& from == buffer.row
            &&& buffer.apply(command).row == from - 1 || buffer.apply(command).row == from + 1
        },
{
}

} // verus!
