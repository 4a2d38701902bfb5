//! Key events as the editor sees them, and the commands they stand for.

use vstd::prelude::*;

verus! {

/// The key of a keyboard event, as far as the editor tells keys apart.
#[derive(Clone, Copy, Debug, PartialEq, Eq)]
pub enum Key {
    /// A key that produces the given character.
    Char(char),
    Enter,
    Backspace,
    Up,
    Down,
    Left,
    Right,
    /// Any key the editor has no use for.
    Other,
}

/// The phase of a key event.
#[derive(Clone, Copy, Debug, PartialEq, Eq)]
pub enum Phase {
    Press,
    Repeat,
    Release,
}

/// One decoded keyboard event.
#[derive(Clone, Copy, Debug, PartialEq, Eq)]
pub struct KeyInput {
    pub key: Key,
    /// Whether the Control modifier was held.
    pub control: bool,
    pub phase: Phase,
}

/// What a key event asks the editor to do.
#[derive(Clone, Copy, Debug, PartialEq, Eq)]
pub enum Command {
    MoveUp,
    MoveDown,
    MoveLeft,
    MoveRight,
    InsertChar(char),
    Enter,
    Backspace,
    Quit,
    /// The event is discarded: nothing changes and nothing is painted.
    Ignored,
}

/// The command that a key event stands for.
///
/// Control together with `q` quits, in any phase. Every other event counts
/// only when the key is released; a key the editor has no use for is ignored.
pub open spec fn command_of(input: KeyInput) -> Command {
    if input.control && input.key == Key::Char('q') {
        Command::Quit
    } else if input.phase != Phase::Release {
        Command::Ignored
    } else {
        match input.key {
            Key::Char(c) => Command::InsertChar(c),
            Key::Enter => Command::Enter,
            Key::Backspace => Command::Backspace,
            Key::Up => Command::MoveUp,
            Key::Down => Command::MoveDown,
            Key::Left => Command::MoveLeft,
            Key::Right => Command::MoveRight,
            Key::Other => Command::Ignored,
        }
    }
}

/// Decodes one key event into the command it stands for.
pub fn decode(input: KeyInput) -> (command: Command)
    ensures
        command == command_of(input),
{
    let quits = input.control && match input.key {
        Key::Char(c) => c == 'q',
        _ => false,
    };
    if quits {
        return Command::Quit;
    }
    match input.phase {
        Phase::Release => match input.key {
            Key::Char(c) => Command::InsertChar(c),
            Key::Enter => Command::Enter,
            Key::Backspace => Command::Backspace,
            Key::Up => Command::MoveUp,
            Key::Down => Command::MoveDown,
            Key::Left => Command::MoveLeft,
            Key::Right => Command::MoveRight,
            Key::Other => Command::Ignored,
        },
        _ => Command::Ignored,
    }
}

} // verus!
