//! What the control loop is fed: heartbeats, requests to redraw, what the
//! terminal reports, and actions that arrive from other participants.

use crate::relay::TimerMessage;
use vstd::prelude::*;

verus! {

/// The key of a key event, as far as the controller tells keys apart.
#[derive(Clone, Copy, Debug, PartialEq, Eq, Structural)]
pub enum KeyCode {
    Char(char),
    /// Any key that does not type a character.
    Other,
}

/// The modifier keys held with a key; `other` stands for any beyond shift,
/// control and alt.
#[derive(Clone, Copy, Debug, PartialEq, Eq, Structural)]
pub struct KeyModifiers {
    pub shift: bool,
    pub control: bool,
    pub alt: bool,
    pub other: bool,
}

impl KeyModifiers {
    /// Control is held and nothing else.
    pub open spec fn only_control(self) -> bool {
        self.control && !self.shift && !self.alt && !self.other
    }

    /// Whether control is held and nothing else.
    pub fn is_only_control(&self) -> (b: bool)
        ensures
            b == self.only_control(),
    {
        self.control && !self.shift && !self.alt && !self.other
    }
}

/// Whether a key went down, is held down, or came up.
#[derive(Clone, Copy, Debug, PartialEq, Eq, Structural)]
pub enum KeyEventKind {
    Press,
    Repeat,
    Release,
}

/// A key with the modifiers held and what happened to it.
#[derive(Clone, Copy, Debug, PartialEq, Eq, Structural)]
pub struct KeyEvent {
    pub code: KeyCode,
    pub modifiers: KeyModifiers,
    pub kind: KeyEventKind,
}

/// What the terminal reports.
#[derive(Clone, Copy, Debug, PartialEq, Eq, Structural)]
pub enum TerminalEvent {
    Key(KeyEvent),
    /// Anything else that the terminal reports: the mouse, a resize, focus.
    Other,
}

/// One reading of the terminal: an event, or the failure to read one.
#[derive(Clone, Copy, Debug, PartialEq, Eq, Structural)]
pub enum TerminalRead {
    Event(TerminalEvent),
    Failed,
}

/// One event of the merged stream that the control loop consumes.
#[derive(Clone, Copy, Debug, PartialEq, Eq, Structural)]
pub enum Event {
    Terminal(TerminalEvent),
    Error,
    Render,
    Tick,
    /// An action taken by another participant.
    Remote(TimerMessage),
}

impl Event {
    /// What a reading of the terminal becomes in the stream of events. Keys
    /// count when they are pressed: a key held down or let go is no event.
    pub open spec fn of_terminal(read: TerminalRead) -> Option<Event> {
        match read {
            TerminalRead::Event(TerminalEvent::Key(key)) => if key.kind == KeyEventKind::Press {
                Some(Event::Terminal(TerminalEvent::Key(key)))
            } else {
                None
            },
            TerminalRead::Event(TerminalEvent::Other) => Some(
                Event::Terminal(TerminalEvent::Other),
            ),
            TerminalRead::Failed => Some(Event::Error),
        }
    }

    /// The event that a reading of the terminal becomes, if it becomes one.
    pub fn from_terminal(read: TerminalRead) -> (event: Option<Event>)
        ensures
            event == Self::of_terminal(read),
    {
        match read {
            TerminalRead::Event(TerminalEvent::Key(key)) => {
                if key.kind == KeyEventKind::Press {
                    Some(Event::Terminal(TerminalEvent::Key(key)))
                } else {
                    None
                }
            },
            TerminalRead::Event(TerminalEvent::Other) => Some(
                Event::Terminal(TerminalEvent::Other),
            ),
            TerminalRead::Failed => Some(Event::Error),
        }
    }
}

} // verus!
