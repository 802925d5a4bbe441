//! The earlier sign-in component, which tries once and shows why it
//! stopped, and the root that draws it.

use vstd::prelude::*;
use vstd::string::*;
use crate::authentication::{default_server_url, InputRequest};
use crate::event::{Event, EventOutcome, KeyCode, TerminalEvent};
use crate::text::opt_view;
use crate::widgets::AuthenticationWidget;

verus! {

/// Where the single sign-in attempt stands.
#[derive(Debug, Clone, Copy, PartialEq, Eq, Structural)]
pub enum RunStep {
    /// Nothing has been started.
    Idle,
    /// Wait for the user to submit a server address.
    AwaitingServerUrl,
    /// Register this client at the server.
    Registering,
    /// Send the user to the consent page and wait for the code.
    AwaitingCode,
    /// Exchange the code for an access token.
    Completing,
    /// Save the configuration.
    SavingConfig,
    /// Ask the server whose credentials these are.
    Verifying,
    /// Post the greeting.
    SendingTestToot,
    /// The attempt succeeded.
    Finished,
    /// The attempt failed.
    Failed,
}

/// The message shown when the authorisation at the server fails.
pub open spec fn authorizing_failed() -> Seq<char> {
    "Error authorizing with mastodon"@
}

/// The greeting that is posted after signing in.
pub open spec fn test_toot() -> Seq<char> {
    "Hello from tooters!"@
}

/// The step that follows `step` when its work succeeded.
pub open spec fn run_step_after_success(step: RunStep) -> RunStep {
    match step {
        RunStep::Idle => RunStep::Idle,
        RunStep::AwaitingServerUrl => RunStep::Registering,
        RunStep::Registering => RunStep::AwaitingCode,
        RunStep::AwaitingCode => RunStep::Completing,
        RunStep::Completing => RunStep::SavingConfig,
        RunStep::SavingConfig => RunStep::Verifying,
        RunStep::Verifying => RunStep::SendingTestToot,
        RunStep::SendingTestToot => RunStep::Finished,
        RunStep::Finished => RunStep::Finished,
        RunStep::Failed => RunStep::Failed,
    }
}

/// Whether `step` belongs to the authorisation at the server.
pub open spec fn is_authorizing(step: RunStep) -> bool {
    step == RunStep::AwaitingServerUrl || step == RunStep::Registering || step
        == RunStep::AwaitingCode || step == RunStep::Completing
}

/// Whether `step` has work that can fail the attempt after the
/// authorisation.
pub open spec fn is_closing(step: RunStep) -> bool {
    step == RunStep::Verifying || step == RunStep::SendingTestToot
}

/// The component as plain values.
pub struct ComponentState {
    pub server_url: Seq<char>,
    pub accepting_url: bool,
    pub authenticated: bool,
    pub error: Option<Seq<char>>,
    pub step: RunStep,
}

/// The component after the work of its step ended. A failure of the
/// authorisation ends the attempt with a fixed message; a failure to save
/// the configuration is passed over; a failure of one of the closing steps
/// ends the attempt with the message that came with it.
pub open spec fn advance_run_spec(s: ComponentState, result: Result<(), Seq<char>>)
    -> ComponentState {
    match result {
        Ok(_) => ComponentState { step: run_step_after_success(s.step), ..s },
        Err(message) => if is_authorizing(s.step) {
            ComponentState { step: RunStep::Failed, error: Some(authorizing_failed()), ..s }
        } else if is_closing(s.step) {
            ComponentState { step: RunStep::Failed, error: Some(message), ..s }
        } else if s.step == RunStep::SavingConfig {
            ComponentState { step: RunStep::Verifying, ..s }
        } else {
            s
        },
    }
}

/// The earlier sign-in component.
#[derive(Debug)]
pub struct AuthenticationComponent {
    server_url: String,
    accepting_url: bool,
    authenticated: bool,
    error: Option<String>,
    step: RunStep,
}

impl AuthenticationComponent {
    /// The component as plain values.
    pub closed spec fn view(&self) -> ComponentState {
        ComponentState {
            server_url: self.server_url@,
            accepting_url: self.accepting_url,
            authenticated: self.authenticated,
            error: opt_view(self.error),
            step: self.step,
        }
    }

    /// A component that has not started: the input line holds the default
    /// server, and nobody is signed in.
    pub fn new() -> (r: Self)
        ensures
            r@ == (ComponentState {
                server_url: default_server_url(),
                accepting_url: false,
                authenticated: false,
                error: None,
                step: RunStep::Idle,
            }),
    {
        Self {
            server_url: String::from_str("https://mastodon.social"),
            accepting_url: false,
            authenticated: false,
            error: None,
            step: RunStep::Idle,
        }
    }

    /// The title of the component.
    pub fn title(&self) -> (r: &'static str)
        ensures
            r@ == "Authentication"@,
    {
        "Authentication"
    }

    /// Whether the saved credentials were confirmed.
    pub fn is_authenticated(&self) -> (r: bool)
        ensures
            r == self@.authenticated,
    {
        self.authenticated
    }

    /// The step whose work is due.
    pub fn step(&self) -> (r: RunStep)
        ensures
            r == self@.step,
    {
        self.step
    }

    /// Starts the component with what came of the saved configuration:
    /// where the server confirmed it the user is signed in and nothing
    /// more is to do; otherwise the sign-in attempt begins, and the result
    /// says so.
    pub fn start(&mut self, config_confirmed: bool) -> (r: bool)
        ensures
            r == !config_confirmed,
            config_confirmed ==> final(self)@ == (ComponentState {
                authenticated: true,
                ..old(self)@
            }),
            !config_confirmed ==> final(self)@ == (ComponentState {
                accepting_url: true,
                step: RunStep::AwaitingServerUrl,
                ..old(self)@
            }),
    {
        if config_confirmed {
            self.authenticated = true;
            false
        } else {
            self.accepting_url = true;
            self.step = RunStep::AwaitingServerUrl;
            true
        }
    }

    /// Takes over the text of the input line after an edit.
    pub fn set_server_url(&mut self, value: &str)
        ensures
            final(self)@ == (ComponentState { server_url: value@, ..old(self)@ }),
    {
        self.server_url = String::from_str(value);
    }

    /// Decides what an event means to the component, which never keeps an
    /// event from the others: Enter submits the input line once the
    /// attempt has begun, every other terminal event edits the line, and
    /// the rest does nothing.
    pub fn handle_event(&self, event: &Event) -> (r: (EventOutcome, InputRequest))
        ensures
            r.0 == EventOutcome::NotConsumed,
            match *event {
                Event::Crossterm(TerminalEvent::Key(key)) if key.code == KeyCode::Enter => {
                    if self@.accepting_url {
                        r.1 matches InputRequest::Submit(url) && url@ == self@.server_url
                    } else {
                        r.1 == InputRequest::Nothing
                    }
                },
                Event::Crossterm(_) => r.1 == InputRequest::Edit,
                _ => r.1 == InputRequest::Nothing,
            },
    {
        let request = match event {
            Event::Crossterm(TerminalEvent::Key(key)) => {
                match key.code {
                    KeyCode::Enter => {
                        if self.accepting_url {
                            InputRequest::Submit(self.server_url.clone())
                        } else {
                            InputRequest::Nothing
                        }
                    },
                    _ => InputRequest::Edit,
                }
            },
            Event::Crossterm(_) => InputRequest::Edit,
            _ => InputRequest::Nothing,
        };
        (EventOutcome::NotConsumed, request)
    }

    /// Moves the attempt on after the work of its step; see
    /// [`advance_run_spec`].
    pub fn advance(&mut self, result: Result<(), String>)
        ensures
            final(self)@ == advance_run_spec(
                old(self)@,
                match result {
                    Ok(_) => Ok(()),
                    Err(m) => Err(m@),
                },
            ),
    {
        match result {
            Ok(_) => {
                self.step = match self.step {
                    RunStep::Idle => RunStep::Idle,
                    RunStep::AwaitingServerUrl => RunStep::Registering,
                    RunStep::Registering => RunStep::AwaitingCode,
                    RunStep::AwaitingCode => RunStep::Completing,
                    RunStep::Completing => RunStep::SavingConfig,
                    RunStep::SavingConfig => RunStep::Verifying,
                    RunStep::Verifying => RunStep::SendingTestToot,
                    RunStep::SendingTestToot => RunStep::Finished,
                    RunStep::Finished => RunStep::Finished,
                    RunStep::Failed => RunStep::Failed,
                };
            },
            Err(message) => {
                match self.step {
                    RunStep::AwaitingServerUrl | RunStep::Registering | RunStep::AwaitingCode
                    | RunStep::Completing => {
                        self.error = Some(String::from_str("Error authorizing with mastodon"));
                        self.step = RunStep::Failed;
                    },
                    RunStep::Verifying | RunStep::SendingTestToot => {
                        self.error = Some(message);
                        self.step = RunStep::Failed;
                    },
                    RunStep::SavingConfig => {
                        self.step = RunStep::Verifying;
                    },
                    _ => {},
                }
            },
        }
    }

    /// The greeting that is posted after signing in.
    pub fn test_toot_text(&self) -> (r: &'static str)
        ensures
            r@ == test_toot(),
    {
        "Hello from tooters!"
    }

    /// The form that shows the component: its error and its input line.
    pub fn widget(&self) -> (r: AuthenticationWidget)
        ensures
            r.spec_error() == self@.error,
            r.spec_server_url() == self@.server_url,
    {
        let error = match &self.error {
            Some(e) => Some(e.clone()),
            None => None,
        };
        AuthenticationWidget::new(error, self.server_url.clone())
    }
}

/// An attempt that has ended stays as it ended, and an error is on display
/// exactly when the attempt has failed, provided none was before.
pub proof fn lemma_run_ends_once(s: ComponentState, result: Result<(), Seq<char>>)
    ensures
        s.step == RunStep::Finished || s.step == RunStep::Failed ==> advance_run_spec(s, result)
            == s,
        s.error.is_none() ==> (advance_run_spec(s, result).error.is_some() <==> advance_run_spec(
            s,
            result,
        ).step == RunStep::Failed && s.step != RunStep::Failed),
{
}

/// The earlier root: the title bar, the sign-in component, the logs and
/// the status bar, from top to bottom.
#[derive(Debug)]
pub struct RootComponent {
    pub auth: AuthenticationComponent,
}

impl RootComponent {
    /// The number of rows of the log area.
    pub const LOG_HEIGHT: u16 = 20;

    /// A root with a sign-in component that has not started.
    pub fn new() -> (r: Self)
        ensures
            r.auth@.step == RunStep::Idle,
            !r.auth@.authenticated,
            r.auth@.error.is_none(),
            r.auth@.server_url == default_server_url(),
    {
        Self { auth: AuthenticationComponent::new() }
    }

    /// Hands an event to the sign-in component.
    pub fn handle_event(&self, event: &Event) -> (r: (EventOutcome, InputRequest))
        ensures
            r.0 == EventOutcome::NotConsumed,
            match *event {
                Event::Crossterm(TerminalEvent::Key(key)) if key.code == KeyCode::Enter => {
                    if self.auth@.accepting_url {
                        r.1 matches InputRequest::Submit(url) && url@ == self.auth@.server_url
                    } else {
                        r.1 == InputRequest::Nothing
                    }
                },
                Event::Crossterm(_) => r.1 == InputRequest::Edit,
                _ => r.1 == InputRequest::Nothing,
            },
    {
        self.auth.handle_event(event)
    }

    /// The title for the title bar.
    pub fn title(&self) -> (r: &'static str)
        ensures
            r@ == "Authentication"@,
    {
        self.auth.title()
    }

    /// The text for the status bar.
    pub fn status(&self) -> (r: &'static str)
        ensures
            r@ == "Loading..."@,
    {
        "Loading..."
    }
}

} // verus!
