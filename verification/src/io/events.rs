//! Key presses as the terminal reports them, and what becomes of them.

use vstd::prelude::*;

verus! {

/// The key of a key event.
#[derive(Clone, Copy, Debug, PartialEq, Eq, Structural)]
pub enum KeyCode {
    Backspace,
    Enter,
    Left,
    Right,
    Up,
    Down,
    Home,
    End,
    PageUp,
    PageDown,
    Tab,
    BackTab,
    Delete,
    Esc,
    F(u8),
    Char(char),
    Other,
}

/// The modifier keys held with a key: none, shift alone, control alone, or
/// anything else.
#[derive(Clone, Copy, Debug, PartialEq, Eq, Structural)]
pub enum KeyModifiers {
    Plain,
    Shift,
    Control,
    Other,
}

/// Whether a key went down, repeats or came up.
#[derive(Clone, Copy, Debug, PartialEq, Eq, Structural)]
pub enum KeyEventKind {
    Press,
    Repeat,
    Release,
}

/// A key event of the terminal.
#[derive(Clone, Copy, Debug, PartialEq, Eq, Structural)]
pub struct KeyEvent {
    pub code: KeyCode,
    pub modifiers: KeyModifiers,
    pub kind: KeyEventKind,
}

/// What the terminal reports.
#[derive(Clone, Copy, Debug, PartialEq, Eq, Structural)]
pub enum TerminalEvent {
    Key(KeyEvent),
    Resize,
    Other,
}

/// What the user interface is told of a terminal event.
#[derive(Clone, Copy, Debug, PartialEq, Eq, Structural)]
pub enum Forwarded {
    Input(KeyEvent),
    Redraw,
    Nothing,
}

/// The reader of terminal events.
#[derive(Clone, Copy, Debug)]
pub struct Events;

impl Events {
    /// Whether a key event is the pressed control-c that ends the reading.
    pub open spec fn is_quit(key: KeyEvent) -> bool {
        key.kind == KeyEventKind::Press && key.modifiers == KeyModifiers::Control && key.code
            == KeyCode::Char('c')
    }

    /// What is forwarded for a terminal event, and whether reading goes on:
    /// each key is forwarded, a resize asks for a redraw, and a pressed
    /// control-c is the last event read.
    pub fn step(event: TerminalEvent) -> (r: (Forwarded, bool))
        ensures
            r.0 == match event {
                TerminalEvent::Key(key) => Forwarded::Input(key),
                TerminalEvent::Resize => Forwarded::Redraw,
                TerminalEvent::Other => Forwarded::Nothing,
            },
            r.1 == !(event matches TerminalEvent::Key(key) && Self::is_quit(key)),
    {
        match event {
            TerminalEvent::Key(key) => {
                let quit = key.kind == KeyEventKind::Press && key.modifiers
                    == KeyModifiers::Control && key.code == KeyCode::Char('c');
                (Forwarded::Input(key), !quit)
            },
            TerminalEvent::Resize => (Forwarded::Redraw, true),
            TerminalEvent::Other => (Forwarded::Nothing, true),
        }
    }
}

} // verus!
