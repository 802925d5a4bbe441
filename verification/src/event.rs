//! Events that drive the application, and what a component did with one.

use vstd::prelude::*;

verus! {

/// Whether a component acted on an event.
#[derive(Debug, Clone, Copy, PartialEq, Eq, Structural)]
pub enum Outcome {
    Handled,
    Ignored,
}

/// Whether a component consumed an event or left it for others.
#[derive(Debug, Clone, Copy, PartialEq, Eq, Structural)]
pub enum EventOutcome {
    Consumed,
    NotConsumed,
}

/// The key of a key press, as far as the application tells keys apart.
#[derive(Debug, Clone, Copy, PartialEq, Eq, Structural)]
pub enum KeyCode {
    Enter,
    Char(char),
    Other,
}

/// A key press: the key, and whether it came without any modifier key.
#[derive(Debug, Clone, Copy, PartialEq, Eq, Structural)]
pub struct KeyPress {
    pub code: KeyCode,
    pub unmodified: bool,
}

/// An event of the terminal.
#[derive(Debug, Clone, Copy, PartialEq, Eq, Structural)]
pub enum TerminalEvent {
    Key(KeyPress),
    Other,
}

/// An event of the application.
#[derive(Debug, Clone, Copy, PartialEq, Eq, Structural)]
pub enum Event {
    Tick,
    Quit,
    Crossterm(TerminalEvent),
    AuthenticationSuccess,
}

/// A signal sent to the process, as far as the application tells signals
/// apart.
#[derive(Debug, Clone, Copy, PartialEq, Eq, Structural)]
pub enum Signal {
    Hangup,
    Terminate,
    Interrupt,
    Quit,
}

/// The time between two ticks, in milliseconds: sixty ticks a second.
pub const TICK_RATE_MILLIS: u64 = 1000 / 60;

/// The event that a signal stands for: a request to end the program asks
/// the application to quit, and a hang-up is nothing to act on.
pub fn signal_event(signal: Signal) -> (r: Option<Event>)
    ensures
        r == (match signal {
            Signal::Hangup => None,
            _ => Some(Event::Quit),
        }),
{
    match signal {
        Signal::Terminate | Signal::Interrupt | Signal::Quit => Some(Event::Quit),
        Signal::Hangup => None,
    }
}

} // verus!
