//! Which paint operations bring the screen in step with the buffer.
//!
//! Nothing here remembers what is on the screen. How much is painted follows
//! from the kind of edit that was just made: an edit within a line repaints
//! that line, a move to another row repaints the row that was left and the
//! row that was entered, and an edit that adds or removes a line repaints
//! everything. Every repaint ends with one flush, so that the terminal gets
//! it in one piece.

use vstd::prelude::*;
use crate::buffer::{line_views, Buffer, Edit};
use crate::gutter::{gutter, gutter_text, GUTTER_WIDTH};
use crate::model::{BufferView, Change};
use crate::paint::{emit, emit_highlighted, highlighted, line_break, paints, with_line_break, Paint, PaintOp};

verus! {

/// The move to where the text of screen row `row` starts, directly behind
/// the gutter.
pub open spec fn to_text_start(row: int) -> Paint {
    Paint::MoveTo { col: GUTTER_WIDTH as int, row }
}

/// Line `row` painted anew without a cursor: its text is cleared from the
/// gutter to the end of the row and written again. Nothing where there is no
/// such line.
pub open spec fn plain_line(lines: Seq<Seq<char>>, row: int) -> Seq<Paint> {
    if 0 <= row < lines.len() {
        seq![
            to_text_start(row),
            Paint::ClearToLineEnd,
            Paint::WritePlain(lines[row] + line_break()),
        ]
    } else {
        Seq::empty()
    }
}

/// The cursor's line painted anew: its text is cleared from the gutter to
/// the end of the row and written again with the cursor highlighted.
pub open spec fn cursor_line(buffer: BufferView) -> Seq<Paint> {
    seq![to_text_start(buffer.row), Paint::ClearToLineEnd] + highlighted(
        buffer.line(),
        buffer.col,
    )
}

/// The repaint after an edit within the cursor's line.
pub open spec fn line_repaint(buffer: BufferView) -> Seq<Paint> {
    cursor_line(buffer) + seq![Paint::Flush]
}

/// The repaint after the cursor went from row `from` to another row: the row
/// that was left, without a highlight, then the cursor's row.
pub open spec fn rows_repaint(buffer: BufferView, from: int) -> Seq<Paint> {
    plain_line(buffer.lines, from) + cursor_line(buffer) + seq![Paint::Flush]
}

/// Every line in order, each as two writes: its gutter, then its text with
/// the line break.
pub open spec fn listing(lines: Seq<Seq<char>>) -> Seq<Paint>
    decreases lines.len(),
{
    if lines.len() == 0 {
        Seq::empty()
    } else {
        listing(lines.drop_last()) + seq![
            Paint::WritePlain(gutter(lines.len())),
            Paint::WritePlain(lines.last() + line_break()),
        ]
    }
}

/// The repaint of the whole screen: it is cleared, every line is listed from
/// the top left corner, and the cursor's line is written over once more with
/// the cursor highlighted.
pub open spec fn full_repaint(buffer: BufferView) -> Seq<Paint> {
    seq![Paint::ClearAll, Paint::MoveTo { col: 0, row: 0 }] + listing(buffer.lines) + seq![
        to_text_start(buffer.row),
    ] + highlighted(buffer.line(), buffer.col) + seq![Paint::Flush]
}

/// The repaint that an edit calls for. An edit that changed nothing paints
/// nothing, not even a flush.
pub open spec fn repaint_for(buffer: BufferView, change: Change) -> Seq<Paint> {
    match change {
        Change::Unchanged => Seq::empty(),
        Change::WithinLine => line_repaint(buffer),
        Change::RowChanged { from } => rows_repaint(buffer, from),
        Change::LinesChanged => full_repaint(buffer),
    }
}

/// The listing of lines is made of writes in the default style alone, two
/// for each line.
proof fn lemma_listing_is_plain(lines: Seq<Seq<char>>)
    ensures
        listing(lines).len() == 2 * lines.len(),
        forall|i: int| 0 <= i < listing(lines).len() ==> (#[trigger] listing(lines)[i]) is WritePlain,
    decreases lines.len(),
{
    if lines.len() > 0 {
        lemma_listing_is_plain(lines.drop_last());
    }
}

/// Every repaint that paints at all ends with the three writes of the
/// highlighted cursor line and then a flush, and holds no other flush: what
/// one edit paints reaches the terminal in one piece.
pub proof fn law_repaint_ends_with_cursor_and_flush(buffer: BufferView, change: Change)
    requires
        buffer.valid(),
        change != Change::Unchanged,
    ensures
        repaint_for(buffer, change).len() >= 4,
        repaint_for(buffer, change).subrange(
            repaint_for(buffer, change).len() - 4,
            repaint_for(buffer, change).len() - 1,
        ) == highlighted(buffer.line(), buffer.col),
        repaint_for(buffer, change).last() == Paint::Flush,
        forall|i: int|
            0 <= i < repaint_for(buffer, change).len() - 1 ==> repaint_for(buffer, change)[i]
                != Paint::Flush,
{
    lemma_listing_is_plain(buffer.lines);
}

/// Adds to `ops` the repaint of the cursor's line, without the flush.
fn emit_cursor_line(ops: &mut Vec<PaintOp>, buffer: &Buffer)
    requires
        buffer.wf(),
    ensures
        paints(final(ops)@) == paints(old(ops)@) + cursor_line(buffer@),
{
    emit(ops, PaintOp::MoveTo { col: GUTTER_WIDTH, row: buffer.cursor_row() });
    emit(ops, PaintOp::ClearToLineEnd);
    emit_highlighted(ops, buffer.current_line(), buffer.cursor_col());
}

/// Repaints the cursor's line, as after an edit within it.
pub fn repaint_line(buffer: &Buffer) -> (ops: Vec<PaintOp>)
    requires
        buffer.wf(),
    ensures
        paints(ops@) == line_repaint(buffer@),
{
    let mut ops = Vec::new();
    emit_cursor_line(&mut ops, buffer);
    emit(&mut ops, PaintOp::Flush);
    ops
}

/// Repaints row `from` without a highlight and then the cursor's line, as
/// after the cursor went from row `from` to the row it is on now. Where the
/// buffer has no line `from`, only the cursor's line is repainted.
pub fn repaint_rows(buffer: &Buffer, from: usize) -> (ops: Vec<PaintOp>)
    requires
        buffer.wf(),
    ensures
        paints(ops@) == rows_repaint(buffer@, from as int),
{
    let mut ops = Vec::new();
    match buffer.line(from) {
        Some(text) => {
            emit(&mut ops, PaintOp::MoveTo { col: GUTTER_WIDTH, row: from });
            emit(&mut ops, PaintOp::ClearToLineEnd);
            emit(&mut ops, PaintOp::WritePlain(with_line_break(text.clone())));
        },
        None => {},
    }
    emit_cursor_line(&mut ops, buffer);
    emit(&mut ops, PaintOp::Flush);
    ops
}

/// Repaints the whole screen, as at the start and after a line was added or
/// removed.
pub fn repaint_all(buffer: &Buffer) -> (ops: Vec<PaintOp>)
    requires
        buffer.wf(),
    ensures
        paints(ops@) == full_repaint(buffer@),
{
    let mut ops = Vec::new();
    emit(&mut ops, PaintOp::ClearAll);
    emit(&mut ops, PaintOp::MoveTo { col: 0, row: 0 });
    let ghost head = paints(ops@);
    let lines = buffer.lines();
    let count = lines.len();
    let mut row: usize = 0;
    while row < count
        invariant
            row <= count,
            count == lines@.len(),
            line_views(lines@) == buffer@.lines,
            paints(ops@) == head + listing(buffer@.lines.take(row as int)),
        decreases count - row,
    {
        assert(buffer@.lines.take(row + 1).drop_last() =~= buffer@.lines.take(row as int));
        emit(&mut ops, PaintOp::WritePlain(gutter_text(row + 1)));
        emit(&mut ops, PaintOp::WritePlain(with_line_break(lines[row].clone())));
        row = row + 1;
    }
    assert(buffer@.lines.take(count as int) =~= buffer@.lines);
    emit(&mut ops, PaintOp::MoveTo { col: GUTTER_WIDTH, row: buffer.cursor_row() });
    emit_highlighted(&mut ops, buffer.current_line(), buffer.cursor_col());
    emit(&mut ops, PaintOp::Flush);
    ops
}

/// The paint operations that bring the screen in step with `buffer` after
/// an edit of the given kind.
pub fn repaint(buffer: &Buffer, edit: Edit) -> (ops: Vec<PaintOp>)
    requires
        buffer.wf(),
    ensures
        paints(ops@) == repaint_for(buffer@, edit@),
{
    match edit {
        Edit::Unchanged => Vec::new(),
        Edit::WithinLine => repaint_line(buffer),
        Edit::RowChanged { from } => repaint_rows(buffer, from),
        Edit::LinesChanged => repaint_all(buffer),
    }
}

} // verus!
