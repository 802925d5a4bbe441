//! The main loop's decisions: which events go on to the screen, and which
//! end the program.

use vstd::prelude::*;
use crate::event::{Event, KeyCode, Outcome, TerminalEvent};

verus! {

/// Whether `event` is a press of the key `q`.
pub open spec fn is_quit_key(event: Event) -> bool {
    match event {
        Event::Crossterm(TerminalEvent::Key(key)) => key.code == KeyCode::Char('q'),
        _ => false,
    }
}

/// Whether what came from the event channel is handed to the screen: every
/// event but the request to quit, and not the end of the channel.
pub open spec fn goes_to_root(event: Option<Event>) -> bool {
    match event {
        None => false,
        Some(Event::Quit) => false,
        Some(_) => true,
    }
}

/// Whether the program ends after this turn of the loop: when the channel
/// has ended, on a request to quit, and on the key `q` where the screen
/// did not handle it.
pub open spec fn ends_program(event: Option<Event>, root_outcome: Outcome) -> bool {
    match event {
        None => true,
        Some(Event::Quit) => true,
        Some(Event::Tick) => false,
        Some(e) => root_outcome != Outcome::Handled && is_quit_key(e),
    }
}

/// The state of the main loop.
#[derive(Debug)]
pub struct App {
    shutdown: bool,
}

impl App {
    /// Whether the loop has been told to end.
    pub closed spec fn view(&self) -> bool {
        self.shutdown
    }

    /// A loop that has not been told to end.
    pub fn new() -> (r: App)
        ensures
            !r@,
    {
        App { shutdown: false }
    }

    /// Whether the loop has been told to end.
    pub fn is_shutdown(&self) -> (r: bool)
        ensures
            r == self@,
    {
        self.shutdown
    }

    /// Tells whether the screen is to handle what came from the channel.
    pub fn needs_root(event: Option<&Event>) -> (r: bool)
        ensures
            r == goes_to_root(
                match event {
                    Some(e) => Some(*e),
                    None => None,
                },
            ),
    {
        match event {
            None => false,
            Some(Event::Quit) => false,
            Some(_) => true,
        }
    }

    /// Takes in what came from the channel, with what the screen did with
    /// it (`root_outcome` is looked at only where the screen was asked):
    /// the loop is told to end where [`ends_program`] says so, and once
    /// told it stays so.
    pub fn handle_events(&mut self, event: Option<&Event>, root_outcome: Outcome)
        ensures
            final(self)@ == (old(self)@ || ends_program(
                match event {
                    Some(e) => Some(*e),
                    None => None,
                },
                root_outcome,
            )),
    {
        match event {
            None => {
                self.shutdown = true;
            },
            Some(Event::Quit) => {
                self.shutdown = true;
            },
            Some(Event::Tick) => {},
            Some(Event::Crossterm(TerminalEvent::Key(key))) => {
                match root_outcome {
                    Outcome::Handled => {},
                    Outcome::Ignored => {
                        match key.code {
                            KeyCode::Char(c) => {
                                if c == 'q' {
                                    self.shutdown = true;
                                }
                            },
                            _ => {},
                        }
                    },
                }
            },
            Some(_) => {},
        }
    }
}

} // verus!
