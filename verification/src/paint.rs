//! Paint operations, the cursor highlight and the line-number gutter.
//!
//! The editor never touches the terminal. It describes what has to be painted
//! as a list of [`PaintOp`] values, which a front end performs in order.

use vstd::prelude::*;
use crate::text::{char_count, push_char, slice};

verus! {

/// One step of painting the screen.
#[derive(Debug, PartialEq, Eq)]
pub enum PaintOp {
    /// Put the terminal's cursor at column `col` of screen row `row`.
    MoveTo { col: usize, row: usize },
    /// Clear the whole screen.
    ClearAll,
    /// Clear from the terminal's cursor to the end of its row.
    ClearToLineEnd,
    /// Write text in the default style.
    WritePlain(String),
    /// Write text in the style that marks the cursor.
    WriteHighlighted(String),
    /// Send everything queued so far to the terminal.
    Flush,
}

/// A paint operation as a mathematical value: positions are integers and
/// text is a sequence of characters.
pub enum Paint {
    MoveTo { col: int, row: int },
    ClearAll,
    ClearToLineEnd,
    WritePlain(Seq<char>),
    WriteHighlighted(Seq<char>),
    Flush,
}

impl View for PaintOp {
    type V = Paint;

    open spec fn view(&self) -> Paint {
        match self {
            PaintOp::MoveTo { col, row } => Paint::MoveTo { col: *col as int, row: *row as int },
            PaintOp::ClearAll => Paint::ClearAll,
            PaintOp::ClearToLineEnd => Paint::ClearToLineEnd,
            PaintOp::WritePlain(text) => Paint::WritePlain(text@),
            PaintOp::WriteHighlighted(text) => Paint::WriteHighlighted(text@),
            PaintOp::Flush => Paint::Flush,
        }
    }
}

/// The mathematical values of a list of paint operations, in order.
pub open spec fn paints(ops: Seq<PaintOp>) -> Seq<Paint> {
    ops.map_values(|op: PaintOp| op@)
}

/// What ends every painted line.
pub open spec fn line_break() -> Seq<char> {
    seq!['\n']
}

/// The column at which the cursor is shown in a line: `col`, held back to the
/// line's length.
pub open spec fn shown_col(line: Seq<char>, col: int) -> int {
    if col < line.len() {
        col
    } else {
        line.len() as int
    }
}

/// The text of the highlighted cell: the character under the cursor, or one
/// blank where the cursor stands behind the last character.
pub open spec fn cursor_cell(line: Seq<char>, col: int) -> Seq<char> {
    if col < line.len() {
        line.subrange(col, col + 1)
    } else {
        seq![' ']
    }
}

/// The characters behind the highlighted cell.
pub open spec fn behind_cursor(line: Seq<char>, col: int) -> Seq<char> {
    if col < line.len() {
        line.subrange(col + 1, line.len() as int)
    } else {
        Seq::empty()
    }
}

/// A line painted with the cursor at column `col`: the characters before the
/// cursor in the default style, the cursor's cell highlighted, then the rest
/// of the line and the line break in the default style.
pub open spec fn highlighted(line: Seq<char>, col: int) -> Seq<Paint> {
    seq![
        Paint::WritePlain(line.subrange(0, shown_col(line, col))),
        Paint::WriteHighlighted(cursor_cell(line, col)),
        Paint::WritePlain(behind_cursor(line, col) + line_break()),
    ]
}

/// The three writes of a highlighted line put the line's characters on the
/// screen in order, each of them once, and then the line break. The one
/// character they add is the blank that shows a cursor standing behind the
/// last character.
pub proof fn law_highlight_writes_the_line(line: Seq<char>, col: int)
    requires
        0 <= col,
    ensures
        highlighted(line, col)[0]->WritePlain_0 + highlighted(line, col)[1]->WriteHighlighted_0
            + highlighted(line, col)[2]->WritePlain_0 == if col < line.len() {
            line + line_break()
        } else {
            line + seq![' '] + line_break()
        },
{
}

/// Adds `op` to the end of `ops`.
pub(crate) fn emit(ops: &mut Vec<PaintOp>, op: PaintOp)
    ensures
        paints(final(ops)@) == paints(old(ops)@).push(op@),
{
    ops.push(op);
}

/// `text` followed by the line break.
pub(crate) fn with_line_break(text: String) -> (ended: String)
    ensures
        ended@ == text@ + line_break(),
{
    let mut ended = text;
    push_char(&mut ended, '\n');
    ended
}

/// Adds to `ops` the three writes that paint `line` with the cursor at `col`.
pub(crate) fn emit_highlighted(ops: &mut Vec<PaintOp>, line: &String, col: usize)
    ensures
        paints(final(ops)@) == paints(old(ops)@) + highlighted(line@, col as int),
{
    let len = char_count(line);
    if col < len {
        emit(ops, PaintOp::WritePlain(slice(line, 0, col)));
        emit(ops, PaintOp::WriteHighlighted(slice(line, col, col + 1)));
        emit(ops, PaintOp::WritePlain(with_line_break(slice(line, col + 1, len))));
    } else {
        let mut blank = String::new();
        push_char(&mut blank, ' ');
        assert(line@.subrange(0, len as int) =~= line@);
        emit(ops, PaintOp::WritePlain(line.clone()));
        emit(ops, PaintOp::WriteHighlighted(blank));
        emit(ops, PaintOp::WritePlain(with_line_break(String::new())));
    }
}

/// Paints one line with the cursor highlighted at column `col`.
///
/// The result is three writes: the characters before the cursor, the cursor's
/// cell, and the rest of the line with its line break. Where `col` is the
/// line's length or more, the cursor's cell is one highlighted blank behind
/// the whole line.
pub fn highlight_line(line: &String, col: usize) -> (ops: Vec<PaintOp>)
    ensures
        paints(ops@) == highlighted(line@, col as int),
{
    let mut ops = Vec::new();
    emit_highlighted(&mut ops, line, col);
    ops
}

} // verus!
