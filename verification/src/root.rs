//! The root of the screen: which part is in charge, where an event goes,
//! and what the bars show.

use vstd::prelude::*;
use vstd::string::*;
use crate::authentication::{default_server_url, Authentication};
use crate::event::{Event, Outcome};
use crate::home::{Home, HomeError};

verus! {

/// The part of the screen that is in charge.
#[derive(Debug, Clone, Copy, PartialEq, Eq, Structural)]
pub enum State {
    Authentication,
    Home,
}

/// Where an event goes.
#[derive(Debug, Clone, Copy, PartialEq, Eq, Structural)]
pub enum Route {
    /// The sign-in has succeeded: the timeline takes over and is started.
    StartHome,
    /// To the sign-in screen.
    Authentication,
    /// To the timeline.
    Home,
}

/// The state after an event, and where the event goes: the success of the
/// sign-in switches from the sign-in screen to the timeline, and nothing
/// else changes the state.
pub open spec fn route_spec(state: State, event: Event) -> (State, Route) {
    match state {
        State::Authentication => if event == Event::AuthenticationSuccess {
            (State::Home, Route::StartHome)
        } else {
            (State::Authentication, Route::Authentication)
        },
        State::Home => (State::Home, Route::Home),
    }
}

/// Once the timeline is in charge it stays in charge.
pub proof fn lemma_home_is_final(event: Event)
    ensures
        route_spec(State::Home, event).0 == State::Home,
{
}

/// What the root reports of an event that went to the timeline: what the
/// timeline did with it, and an event that it failed on counts as not
/// handled.
pub fn timeline_outcome(result: Result<Outcome, HomeError>) -> (r: Outcome)
    ensures
        r == (match result {
            Ok(outcome) => outcome,
            Err(_) => Outcome::Ignored,
        }),
{
    match result {
        Ok(outcome) => outcome,
        Err(_) => Outcome::Ignored,
    }
}

/// The root of the screen.
pub struct Root {
    pub state: State,
    pub authentication: Authentication,
    pub home: Home,
    pub show_logs: bool,
}

impl Root {
    /// The number of rows of the log area where logs are shown.
    pub const LOG_HEIGHT: u16 = 7;

    /// The part in charge.
    pub open spec fn spec_state(&self) -> State {
        self.state
    }

    /// Whether logs are shown.
    pub open spec fn spec_show_logs(&self) -> bool {
        self.show_logs
    }

    /// A root that begins with the sign-in screen and an empty timeline.
    pub fn new(show_logs: bool) -> (r: Root)
        ensures
            r.spec_state() == State::Authentication,
            r.spec_show_logs() == show_logs,
            r.home@.title.len() == 0,
            r.home@.items.len() == 0,
            r.home@.status.len() == 0,
            r.home@.selected.is_none(),
            r.authentication.spec_server_url() == default_server_url(),
            r.authentication.spec_error().is_none(),
    {
        Root {
            state: State::Authentication,
            authentication: Authentication::new(),
            home: Home::new(),
            show_logs,
        }
    }

    /// The part in charge.
    pub fn state(&self) -> (r: State)
        ensures
            r == self.spec_state(),
    {
        self.state
    }

    /// Whether logs are shown.
    pub fn show_logs(&self) -> (r: bool)
        ensures
            r == self.spec_show_logs(),
    {
        self.show_logs
    }

    /// Decides where `event` goes, and switches to the timeline when the
    /// sign-in has succeeded; see [`route_spec`].
    pub fn handle_event(&mut self, event: &Event) -> (r: Route)
        ensures
            (final(self).spec_state(), r) == route_spec(old(self).spec_state(), *event),
            final(self).spec_show_logs() == old(self).spec_show_logs(),
            final(self).authentication == old(self).authentication,
            final(self).home == old(self).home,
    {
        match self.state {
            State::Authentication => {
                match event {
                    Event::AuthenticationSuccess => {
                        self.state = State::Home;
                        Route::StartHome
                    },
                    _ => Route::Authentication,
                }
            },
            State::Home => Route::Home,
        }
    }

    /// The number of rows of the log area: seven where logs are shown,
    /// none otherwise.
    pub fn log_height(&self) -> (r: u16)
        ensures
            r == (if self.spec_show_logs() { 7u16 } else { 0u16 }),
    {
        if self.show_logs {
            Self::LOG_HEIGHT
        } else {
            0
        }
    }

    /// The title for the title bar: that of the part in charge.
    pub fn title(&self) -> (r: String)
        ensures
            r@ == (match self.spec_state() {
                State::Authentication => "Authenticating at "@
                    + self.authentication.spec_server_url(),
                State::Home => self.home@.title,
            }),
    {
        match self.state {
            State::Authentication => self.authentication.title(),
            State::Home => String::from_str(self.home.title()),
        }
    }

    /// The text for the status bar: a notice while signing in, the
    /// timeline's status line afterwards.
    pub fn status(&self) -> (r: String)
        ensures
            r@ == (match self.spec_state() {
                State::Authentication => "Loading..."@,
                State::Home => self.home@.status,
            }),
    {
        match self.state {
            State::Authentication => String::from_str("Loading..."),
            State::Home => String::from_str(self.home.status()),
        }
    }
}

} // verus!
