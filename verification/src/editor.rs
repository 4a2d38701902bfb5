//! One step of the editor: from a key event to the changed buffer and the
//! paint operations that show the change.
//!
//! The editor itself neither reads keys nor paints. A front end reads one
//! event at a time, hands it to [`handle_key`], performs what comes back and
//! only then reads the next event.

use vstd::prelude::*;
use crate::buffer::Buffer;
use crate::input::{command_of, decode, Command, KeyInput};
use crate::model::BufferView;
use crate::paint::{emit, paints, Paint, PaintOp};
use crate::render::{full_repaint, repaint, repaint_all, repaint_for};

verus! {

/// What the front end has to do after a key event.
#[derive(Debug, PartialEq, Eq)]
pub enum Action {
    /// Perform these paint operations in order, then go on. The list is
    /// empty where the event changed nothing.
    Paint(Vec<PaintOp>),
    /// Leave the editor.
    Quit,
}

/// An action as a mathematical value.
pub enum ActionView {
    Paint(Seq<Paint>),
    Quit,
}

impl View for Action {
    type V = ActionView;

    open spec fn view(&self) -> ActionView {
        match self {
            Action::Paint(ops) => ActionView::Paint(paints(ops@)),
            Action::Quit => ActionView::Quit,
        }
    }
}

/// What follows from `command` on `buffer`: quitting, or else the repaint
/// that the command's edit calls for, painted from the buffer as it is after
/// the command.
pub open spec fn reaction(buffer: BufferView, command: Command) -> ActionView {
    if command == Command::Quit {
        ActionView::Quit
    } else {
        ActionView::Paint(repaint_for(buffer.apply(command), buffer.change(command)))
    }
}

/// The first paint of the screen, before any key is read: the whole buffer.
pub fn start(buffer: &Buffer) -> (ops: Vec<PaintOp>)
    requires
        buffer.wf(),
    ensures
        paints(ops@) == full_repaint(buffer@),
{
    repaint_all(buffer)
}

/// The last paint of the screen, on leaving the editor: the terminal's
/// cursor goes to the top left corner and the screen is cleared.
pub fn stop() -> (ops: Vec<PaintOp>)
    ensures
        paints(ops@) == seq![Paint::MoveTo { col: 0, row: 0 }, Paint::ClearAll, Paint::Flush],
{
    let mut ops = Vec::new();
    emit(&mut ops, PaintOp::MoveTo { col: 0, row: 0 });
    emit(&mut ops, PaintOp::ClearAll);
    emit(&mut ops, PaintOp::Flush);
    ops
}

/// Carries out one command: the buffer is changed first, and the repaint is
/// then made from the changed buffer.
pub fn execute(buffer: &mut Buffer, command: Command) -> (action: Action)
    requires
        old(buffer).wf(),
    ensures
        final(buffer).wf(),
        final(buffer)@ == old(buffer)@.apply(command),
        action@ == reaction(old(buffer)@, command),
{
    match command {
        Command::Quit => Action::Quit,
        _ => {
            let edit = buffer.apply(command);
            Action::Paint(repaint(buffer, edit))
        },
    }
}

/// Handles one key event: decodes it, carries out the command it stands
/// for, and says what the front end has to do.
pub fn handle_key(buffer: &mut Buffer, input: KeyInput) -> (action: Action)
    requires
        old(buffer).wf(),
    ensures
        final(buffer).wf(),
        final(buffer)@ == old(buffer)@.apply(command_of(input)),
        action@ == reaction(old(buffer)@, command_of(input)),
{
    execute(buffer, decode(input))
}

} // verus!
