//! Signing in: the steps from a saved configuration, or from a server
//! address typed by the user, to a verified account; what the sign-in
//! screen shows; and what the local callback page answers.

use vstd::prelude::*;
use vstd::string::*;
use crate::event::{Event, KeyCode, Outcome, TerminalEvent};
use crate::style::{line_view, Color, Span, TextStyle, BOLD};
use crate::text::opt_view;

verus! {

/// Where the sign-in stands. Each step names the work that has to be done
/// outside before the flow can go on.
#[derive(Debug, Clone, Copy, PartialEq, Eq, Structural)]
pub enum AuthStep {
    /// Read the saved configuration.
    LoadingConfig,
    /// Wait for the user to submit a server address.
    AwaitingServerUrl,
    /// Register this client at the server.
    Registering,
    /// Send the user to the server's consent page and wait for the code.
    AwaitingCode,
    /// Exchange the code for an access token.
    Completing,
    /// Save the configuration for the next start.
    SavingConfig,
    /// Ask the server whose credentials these are.
    Verifying,
    /// Signed in.
    Authenticated,
}

/// The sign-in flow as plain values.
pub struct AuthFlowState {
    pub step: AuthStep,
    pub server_url: Seq<char>,
    pub code: Seq<char>,
    pub error: Option<Seq<char>>,
}

/// The message shown when a step between asking for the server address and
/// receiving the token fails.
pub open spec fn authorize_failed() -> Seq<char> {
    "unable to authorize"@
}

/// The message shown when the server does not confirm the credentials.
pub open spec fn verify_failed() -> Seq<char> {
    "failed to verify credentials"@
}

/// The step that follows `step` when its work succeeded.
pub open spec fn step_after_success(step: AuthStep) -> AuthStep {
    match step {
        AuthStep::LoadingConfig => AuthStep::Verifying,
        AuthStep::AwaitingServerUrl => AuthStep::Registering,
        AuthStep::Registering => AuthStep::AwaitingCode,
        AuthStep::AwaitingCode => AuthStep::Completing,
        AuthStep::Completing => AuthStep::SavingConfig,
        AuthStep::SavingConfig => AuthStep::Verifying,
        AuthStep::Verifying => AuthStep::Authenticated,
        AuthStep::Authenticated => AuthStep::Authenticated,
    }
}

/// The step that follows `step` when its work failed. Without a saved
/// configuration the user is asked for a server; a configuration that
/// cannot be saved does not stop the sign-in; every other failure starts
/// the flow again.
pub open spec fn step_after_failure(step: AuthStep) -> AuthStep {
    match step {
        AuthStep::LoadingConfig => AuthStep::AwaitingServerUrl,
        AuthStep::SavingConfig => AuthStep::Verifying,
        AuthStep::Authenticated => AuthStep::Authenticated,
        _ => AuthStep::LoadingConfig,
    }
}

/// The message that a failure of `step` puts on the screen, if any.
pub open spec fn failure_message(step: AuthStep) -> Option<Seq<char>> {
    match step {
        AuthStep::AwaitingServerUrl | AuthStep::Registering | AuthStep::AwaitingCode
        | AuthStep::Completing => Some(authorize_failed()),
        AuthStep::Verifying => Some(verify_failed()),
        _ => None,
    }
}

/// The flow after the work of its step ended with `result`: `None` for a
/// failure, `Some` for a success, holding the text that the work produced
/// (the server address, the code) or any text where it produces none.
pub open spec fn advance_spec(s: AuthFlowState, result: Option<Seq<char>>) -> AuthFlowState {
    match result {
        Some(text) => AuthFlowState {
            step: step_after_success(s.step),
            server_url: if s.step == AuthStep::AwaitingServerUrl {
                text
            } else {
                s.server_url
            },
            code: if s.step == AuthStep::AwaitingCode {
                text
            } else {
                s.code
            },
            error: s.error,
        },
        None => AuthFlowState {
            step: step_after_failure(s.step),
            error: match failure_message(s.step) {
                Some(m) => Some(m),
                None => s.error,
            },
            ..s
        },
    }
}

/// How many successful steps separate `step` from being signed in.
pub open spec fn steps_left(step: AuthStep) -> nat {
    match step {
        AuthStep::LoadingConfig => 2,
        AuthStep::AwaitingServerUrl => 6,
        AuthStep::Registering => 5,
        AuthStep::AwaitingCode => 4,
        AuthStep::Completing => 3,
        AuthStep::SavingConfig => 2,
        AuthStep::Verifying => 1,
        AuthStep::Authenticated => 0,
    }
}

/// Every success brings the flow one step closer to being signed in.
pub proof fn lemma_success_makes_progress(s: AuthFlowState, text: Seq<char>)
    requires
        s.step != AuthStep::Authenticated,
    ensures
        steps_left(advance_spec(s, Some(text)).step) + 1 == steps_left(s.step),
        advance_spec(s, Some(text)).error == s.error,
{
}

/// Being signed in is final, and it is reached only by a confirmation of
/// the credentials.
pub proof fn lemma_authenticated_only_after_verifying(s: AuthFlowState, result: Option<Seq<char>>)
    ensures
        s.step == AuthStep::Authenticated ==> advance_spec(s, result) == s,
        advance_spec(s, result).step == AuthStep::Authenticated ==> s.step
            == AuthStep::Authenticated || (s.step == AuthStep::Verifying && result.is_some()),
{
    if s.step == AuthStep::Authenticated {
        match result {
            Some(_) => {},
            None => {},
        }
    }
}

/// The sign-in flow.
pub struct AuthFlow {
    step: AuthStep,
    server_url: String,
    code: String,
    error: Option<String>,
}

impl AuthFlow {
    /// The flow as plain values.
    pub closed spec fn view(&self) -> AuthFlowState {
        AuthFlowState {
            step: self.step,
            server_url: self.server_url@,
            code: self.code@,
            error: opt_view(self.error),
        }
    }

    /// A flow that begins by reading the saved configuration.
    pub fn new() -> (r: AuthFlow)
        ensures
            r@.step == AuthStep::LoadingConfig,
            r@.server_url.len() == 0,
            r@.code.len() == 0,
            r@.error.is_none(),
    {
        AuthFlow {
            step: AuthStep::LoadingConfig,
            server_url: String::new(),
            code: String::new(),
            error: None,
        }
    }

    /// The step whose work is due.
    pub fn step(&self) -> (r: AuthStep)
        ensures
            r == self@.step,
    {
        self.step
    }

    /// The server address that the user submitted.
    pub fn server_url(&self) -> (r: &str)
        ensures
            r@ == self@.server_url,
    {
        self.server_url.as_str()
    }

    /// The code that the server's consent page handed back.
    pub fn code(&self) -> (r: &str)
        ensures
            r@ == self@.code,
    {
        self.code.as_str()
    }

    /// The message of the last failure that is shown to the user.
    pub fn error(&self) -> (r: Option<&str>)
        ensures
            match r {
                Some(m) => self@.error == Some(m@),
                None => self@.error.is_none(),
            },
    {
        match &self.error {
            Some(m) => Some(m.as_str()),
            None => None,
        }
    }

    /// Whether the flow has ended with a verified account.
    pub fn is_authenticated(&self) -> (r: bool)
        ensures
            r == (self@.step == AuthStep::Authenticated),
    {
        match self.step {
            AuthStep::Authenticated => true,
            _ => false,
        }
    }

    /// Moves on after the work of the current step; see [`advance_spec`].
    pub fn advance(&mut self, result: Option<String>)
        ensures
            final(self)@ == advance_spec(old(self)@, opt_view(result)),
    {
        match result {
            Some(text) => {
                match self.step {
                    AuthStep::LoadingConfig => {
                        self.step = AuthStep::Verifying;
                    },
                    AuthStep::AwaitingServerUrl => {
                        self.server_url = text;
                        self.step = AuthStep::Registering;
                    },
                    AuthStep::Registering => {
                        self.step = AuthStep::AwaitingCode;
                    },
                    AuthStep::AwaitingCode => {
                        self.code = text;
                        self.step = AuthStep::Completing;
                    },
                    AuthStep::Completing => {
                        self.step = AuthStep::SavingConfig;
                    },
                    AuthStep::SavingConfig => {
                        self.step = AuthStep::Verifying;
                    },
                    AuthStep::Verifying => {
                        self.step = AuthStep::Authenticated;
                    },
                    AuthStep::Authenticated => {},
                }
            },
            None => {
                match self.step {
                    AuthStep::LoadingConfig => {
                        self.step = AuthStep::AwaitingServerUrl;
                    },
                    AuthStep::SavingConfig => {
                        self.step = AuthStep::Verifying;
                    },
                    AuthStep::Verifying => {
                        self.error = Some(String::from_str("failed to verify credentials"));
                        self.step = AuthStep::LoadingConfig;
                    },
                    AuthStep::Authenticated => {},
                    _ => {
                        self.error = Some(String::from_str("unable to authorize"));
                        self.step = AuthStep::LoadingConfig;
                    },
                }
            },
        }
    }
}

/// What the sign-in screen asks of its surroundings after an event.
#[derive(Debug, Clone, PartialEq, Eq)]
pub enum InputRequest {
    /// Hand the server address to the sign-in flow.
    Submit(String),
    /// Apply the event to the input line.
    Edit,
    /// Nothing.
    Nothing,
}

/// The address that the input line starts with.
pub open spec fn default_server_url() -> Seq<char> {
    "https://mastodon.social"@
}

/// The sign-in screen: the input line's text and the last error.
pub struct Authentication {
    server_url: String,
    error: Option<String>,
}

impl Authentication {
    /// The text of the input line.
    pub closed spec fn spec_server_url(&self) -> Seq<char> {
        self.server_url@
    }

    /// The error on display.
    pub closed spec fn spec_error(&self) -> Option<Seq<char>> {
        opt_view(self.error)
    }

    /// A screen whose input line holds the default server, without error.
    pub fn new() -> (r: Authentication)
        ensures
            r.spec_server_url() == default_server_url(),
            r.spec_error().is_none(),
    {
        Authentication { server_url: String::from_str("https://mastodon.social"), error: None }
    }

    /// The title: which server the user is signing in to.
    pub fn title(&self) -> (r: String)
        ensures
            r@ == "Authenticating at "@ + self.spec_server_url(),
    {
        let mut title = String::from_str("Authenticating at ");
        title.append(self.server_url.as_str());
        title
    }

    /// Takes over the text of the input line after an edit.
    pub fn set_server_url(&mut self, value: &str)
        ensures
            final(self).spec_server_url() == value@,
            final(self).spec_error() == old(self).spec_error(),
    {
        self.server_url = String::from_str(value);
    }

    /// Puts `message` on display as the last error.
    pub fn display_error(&mut self, message: &str)
        ensures
            final(self).spec_error() == Some(message@),
            final(self).spec_server_url() == old(self).spec_server_url(),
    {
        self.error = Some(String::from_str(message));
    }

    /// Decides what an event means on the sign-in screen: Enter submits
    /// the input line, every other terminal event edits it, and the rest
    /// is not for this screen.
    pub fn handle_event(&self, event: &Event) -> (r: (Outcome, InputRequest))
        ensures
            match *event {
                Event::Crossterm(TerminalEvent::Key(key)) if key.code == KeyCode::Enter => {
                    &&& r.0 == Outcome::Handled
                    &&& r.1 matches InputRequest::Submit(url)
                    &&& url@ == self.spec_server_url()
                },
                Event::Crossterm(_) => r.0 == Outcome::Handled && r.1 == InputRequest::Edit,
                _ => r.0 == Outcome::Ignored && r.1 == InputRequest::Nothing,
            },
    {
        match event {
            Event::Crossterm(TerminalEvent::Key(key)) => {
                match key.code {
                    KeyCode::Enter => (
                        Outcome::Handled,
                        InputRequest::Submit(self.server_url.clone()),
                    ),
                    _ => (Outcome::Handled, InputRequest::Edit),
                }
            },
            Event::Crossterm(_) => (Outcome::Handled, InputRequest::Edit),
            _ => (Outcome::Ignored, InputRequest::Nothing),
        }
    }

    /// The heights of the three areas of the screen, from the top: the
    /// welcome text, the error (two rows if there is one, none otherwise)
    /// and the input line.
    pub fn layout(&self) -> (r: [u16; 3])
        ensures
            r[0] == 3,
            r[1] == (if self.spec_error().is_some() { 2u16 } else { 0u16 }),
            r[2] == 2,
    {
        let error_height: u16 = if self.error.is_some() { 2 } else { 0 };
        [3, error_height, 2]
    }

    /// The welcome text.
    pub fn welcome(&self) -> (r: &'static str)
        ensures
            r@ == "Welcome to tooters. Sign in to your mastodon server.\nYou will be redirected to your browser to complete the authentication process."@,
    {
        "Welcome to tooters. Sign in to your mastodon server.\nYou will be redirected to your browser to complete the authentication process."
    }

    /// The line that shows the error, where there is one: a bold red
    /// label, a blank and the message.
    pub fn error_line(&self) -> (r: Option<Vec<Span>>)
        ensures
            match self.spec_error() {
                Some(message) => r.is_some() && line_view(r.unwrap()@) == seq![
                    ("Error:"@, TextStyle::spec_plain().spec_add_modifier(BOLD).spec_fg(Color::Red)),
                    (" "@, TextStyle::spec_plain()),
                    (message, TextStyle::spec_plain()),
                ],
                None => r.is_none(),
            },
    {
        match &self.error {
            Some(message) => {
                let mut line: Vec<Span> = Vec::new();
                line.push(
                    Span::styled("Error:", TextStyle::plain().add_modifier(BOLD).fg(Color::Red)),
                );
                line.push(Span::raw(" "));
                line.push(Span::raw(message.as_str()));
                assert(line_view(line@) =~= seq![
                    ("Error:"@, TextStyle::spec_plain().spec_add_modifier(BOLD).spec_fg(Color::Red)),
                    (" "@, TextStyle::spec_plain()),
                    (message@, TextStyle::spec_plain()),
                ]);
                Some(line)
            },
            None => None,
        }
    }

    /// The line that shows the input: a bold label, a blank and the text.
    pub fn server_url_line(&self) -> (r: Vec<Span>)
        ensures
            line_view(r@) == seq![
                ("Server URL:"@, TextStyle::spec_plain().spec_add_modifier(BOLD)),
                (" "@, TextStyle::spec_plain()),
                (self.spec_server_url(), TextStyle::spec_plain()),
            ],
    {
        let mut line: Vec<Span> = Vec::new();
        line.push(Span::styled("Server URL:", TextStyle::plain().add_modifier(BOLD)));
        line.push(Span::raw(" "));
        line.push(Span::raw(self.server_url.as_str()));
        assert(line_view(line@) =~= seq![
            ("Server URL:"@, TextStyle::spec_plain().spec_add_modifier(BOLD)),
            (" "@, TextStyle::spec_plain()),
            (self.server_url@, TextStyle::spec_plain()),
        ]);
        line
    }
}

/// What the callback page answers.
#[derive(Debug, Clone, PartialEq, Eq)]
pub struct CallbackReply {
    /// The HTTP status.
    pub status: u16,
    /// The text of the page.
    pub body: String,
}

/// Which part of handling the callback went wrong, if any.
#[derive(Debug, Clone, Copy, PartialEq, Eq, Structural)]
pub enum CallbackProgress {
    /// The request carried no code.
    NoCode,
    /// The code could not be handed to the sign-in flow.
    CodeNotSent,
    /// The code was handed on, but the server could not be told to stop.
    ShutdownNotSent,
    /// The code was handed on and the server told to stop.
    Done,
}

/// The text of the callback page for each way the handling can end.
pub open spec fn callback_body(progress: CallbackProgress) -> Seq<char> {
    match progress {
        CallbackProgress::NoCode => "No code in query string"@,
        CallbackProgress::CodeNotSent => "Error sending code to main thread"@,
        CallbackProgress::ShutdownNotSent => "Error sending shutdown signal to webserver"@,
        CallbackProgress::Done => "Authentication successful! You can close this window now."@,
    }
}

/// The answer of the callback page: success only where the code was
/// handed on and the server told to stop, a server error otherwise.
pub fn callback_reply(progress: CallbackProgress) -> (r: CallbackReply)
    ensures
        r.status == (if progress == CallbackProgress::Done { 200u16 } else { 500u16 }),
        r.body@ == callback_body(progress),
{
    match progress {
        CallbackProgress::NoCode => CallbackReply {
            status: 500,
            body: String::from_str("No code in query string"),
        },
        CallbackProgress::CodeNotSent => CallbackReply {
            status: 500,
            body: String::from_str("Error sending code to main thread"),
        },
        CallbackProgress::ShutdownNotSent => CallbackReply {
            status: 500,
            body: String::from_str("Error sending shutdown signal to webserver"),
        },
        CallbackProgress::Done => CallbackReply {
            status: 200,
            body: String::from_str("Authentication successful! You can close this window now."),
        },
    }
}

} // verus!
