//! Keyboard input as the session sees it, and what each key asks for.
use vstd::prelude::*;

verus! {

/// Which key an input event names.
#[derive(Clone, Copy, Debug, PartialEq, Eq, Structural)]
pub enum KeyCode {
    Char(char),
    Esc,
    /// Any key that carries no meaning for the session.
    Other,
}

/// Whether a key went down, came up or is auto-repeating.
#[derive(Clone, Copy, Debug, PartialEq, Eq, Structural)]
pub enum KeyEventKind {
    Press,
    Release,
    Repeat,
}

/// An input event delivered by the terminal.
#[derive(Clone, Copy, Debug, PartialEq, Eq, Structural)]
pub enum InputEvent {
    Key { code: KeyCode, kind: KeyEventKind },
    /// Mouse, resize, focus and paste events: none of them is acted on.
    Other,
}

/// What a key asks the session to do.
#[derive(Clone, Copy, Debug, PartialEq, Eq, Structural)]
pub enum KeyCommand {
    Quit,
    /// Reserved for a help display; it currently changes nothing.
    Help,
    Ignore,
}

/// The keys that end a session: `q` and Escape.
pub open spec fn is_quit_key(code: KeyCode) -> bool {
    code == KeyCode::Char('q') || code == KeyCode::Esc
}

pub open spec fn key_command_spec(code: KeyCode) -> KeyCommand {
    if is_quit_key(code) {
        KeyCommand::Quit
    } else if code == KeyCode::Char('h') {
        KeyCommand::Help
    } else {
        KeyCommand::Ignore
    }
}

/// The command of an event: only key presses count; releases, repeats and
/// non-key events are ignored.
pub open spec fn event_command_spec(ev: InputEvent) -> KeyCommand {
    match ev {
        InputEvent::Key { code, kind } => if kind == KeyEventKind::Press {
            key_command_spec(code)
        } else {
            KeyCommand::Ignore
        },
        InputEvent::Other => KeyCommand::Ignore,
    }
}

/// Whether an event asks the session to quit.
pub open spec fn requests_quit(ev: InputEvent) -> bool {
    event_command_spec(ev) == KeyCommand::Quit
}

/// Maps a key to its command.
pub fn key_command(code: KeyCode) -> (r: KeyCommand)
    ensures
        r == key_command_spec(code),
{
    match code {
        KeyCode::Char(c) => if c == 'q' {
            KeyCommand::Quit
        } else if c == 'h' {
            KeyCommand::Help
        } else {
            KeyCommand::Ignore
        },
        KeyCode::Esc => KeyCommand::Quit,
        KeyCode::Other => KeyCommand::Ignore,
    }
}

/// Maps an input event to its command.
pub fn event_command(ev: InputEvent) -> (r: KeyCommand)
    ensures
        r == event_command_spec(ev),
        r == KeyCommand::Quit <==> requests_quit(ev),
{
    match ev {
        InputEvent::Key { code, kind } => match kind {
            KeyEventKind::Press => key_command(code),
            _ => KeyCommand::Ignore,
        },
        InputEvent::Other => KeyCommand::Ignore,
    }
}

} // verus!
