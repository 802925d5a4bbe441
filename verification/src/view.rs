//! The earlier screens: the start-up screen that tries the saved
//! credentials, the step-by-step login, and the signed-in and signed-out
//! notices.

use vstd::prelude::*;
use vstd::string::*;
use crate::event::Event;
use crate::home::{title_for, Toot};
use crate::text::{opt_view, trim_start_matches};

verus! {

/// The credentials of a registered client, as they are saved.
#[derive(Debug, Clone, PartialEq, Eq)]
pub struct Credentials {
    pub base: String,
    pub client_id: String,
    pub client_secret: String,
    pub redirect: String,
    pub token: String,
}

/// Who is signed in, and where.
#[derive(Debug, Clone, PartialEq, Eq)]
pub struct LoginDetails {
    pub url: String,
    pub username: String,
}

/// What a screen tells the application.
#[derive(Debug, Clone, PartialEq, Eq)]
pub enum ViewEvent {
    /// Signed in, as the user of this name.
    LoggedIn(String),
    /// Not signed in, for this reason.
    LoggedOut(String),
}

/// What the server said of the saved credentials.
#[derive(Debug, Clone, PartialEq, Eq)]
pub enum Verification {
    /// They belong to the user of this name.
    Accepted(String),
    /// The answer could not be decoded.
    Undecodable,
    /// The server refused, with this status and this explanation.
    Rejected { status: String, error: String },
    /// Anything else went wrong; the text describes it.
    Failed(String),
}

/// What came of trying the saved credentials.
#[derive(Debug, Clone, PartialEq, Eq)]
pub enum LoginAttempt {
    /// There are no saved credentials.
    NoCredentials,
    /// There are some, for the server `server`, and the server answered.
    Verified { server: String, outcome: Verification },
}

/// The reason given when the server refuses or cannot be understood.
pub open spec fn failure_reason(outcome: Verification) -> Seq<char> {
    match outcome {
        Verification::Accepted(_) => Seq::<char>::empty(),
        Verification::Undecodable => "Login failed: Could not understand the server's response"@,
        Verification::Rejected { status, error } => "Login failed: "@ + status@ + " "@ + error@,
        Verification::Failed(message) => "Login failed: "@ + message@,
    }
}

/// The screen shown while the saved credentials are tried.
#[derive(Debug)]
pub struct IntitialView {
    status: String,
}

impl IntitialView {
    /// The status on the screen.
    pub closed spec fn view(&self) -> Seq<char> {
        self.status@
    }

    /// A screen that says that it is loading.
    pub fn new() -> (r: Self)
        ensures
            r@ == "Loading..."@,
    {
        Self { status: String::from_str("Loading...") }
    }

    /// The title: the status.
    pub fn title(&self) -> (r: String)
        ensures
            r@ == self@,
    {
        self.status.clone()
    }

    /// Takes in what came of trying the saved credentials, and says what
    /// to tell the application. Without credentials the user is signed out
    /// and the status stays. With credentials the status names the server,
    /// and after a confirmation the user; every other answer signs the
    /// user out with the reason.
    pub fn attempt_login(&mut self, attempt: LoginAttempt) -> (r: ViewEvent)
        ensures
            match attempt {
                LoginAttempt::NoCredentials => {
                    &&& final(self)@ == old(self)@
                    &&& r matches ViewEvent::LoggedOut(reason)
                    &&& reason@ == "No previous login"@
                },
                LoginAttempt::Verified { server, outcome: Verification::Accepted(username) } => {
                    &&& final(self)@ == "Logged in as "@ + username@ + "@"@ + server@
                    &&& r == ViewEvent::LoggedIn(username)
                },
                LoginAttempt::Verified { server, outcome } => {
                    &&& final(self)@ == "Logging in to "@ + server@ + "..."@
                    &&& r matches ViewEvent::LoggedOut(reason)
                    &&& reason@ == failure_reason(outcome)
                },
            },
    {
        match attempt {
            LoginAttempt::NoCredentials => ViewEvent::LoggedOut(
                String::from_str("No previous login"),
            ),
            LoginAttempt::Verified { server, outcome } => {
                let mut status = String::from_str("Logging in to ");
                status.append(server.as_str());
                status.append("...");
                self.status = status;
                match outcome {
                    Verification::Accepted(username) => {
                        let mut status = String::from_str("Logged in as ");
                        status.append(username.as_str());
                        status.append("@");
                        status.append(server.as_str());
                        self.status = status;
                        ViewEvent::LoggedIn(username)
                    },
                    Verification::Undecodable => ViewEvent::LoggedOut(
                        String::from_str(
                            "Login failed: Could not understand the server's response",
                        ),
                    ),
                    Verification::Rejected { status, error } => {
                        let mut msg = String::from_str("Login failed: ");
                        msg.append(status.as_str());
                        msg.append(" ");
                        msg.append(error.as_str());
                        ViewEvent::LoggedOut(msg)
                    },
                    Verification::Failed(message) => {
                        let mut msg = String::from_str("Login failed: ");
                        msg.append(message.as_str());
                        ViewEvent::LoggedOut(msg)
                    },
                }
            },
        }
    }
}

/// The notice that someone is signed in.
#[derive(Debug)]
pub struct LoggedInView {
    username: String,
}

impl LoggedInView {
    /// The name of the user.
    pub closed spec fn view(&self) -> Seq<char> {
        self.username@
    }

    /// A notice for the user `username`.
    pub fn new(username: String) -> (r: Self)
        ensures
            r@ == username@,
    {
        Self { username }
    }

    /// The title: who is signed in.
    pub fn title(&self) -> (r: String)
        ensures
            r@ == "Logged in as @"@ + self@,
    {
        let mut title = String::from_str("Logged in as @");
        title.append(self.username.as_str());
        title
    }
}

/// The notice that nobody is signed in.
#[derive(Debug)]
pub struct LoggedOutView {
    reason: String,
}

impl LoggedOutView {
    /// The reason.
    pub closed spec fn view(&self) -> Seq<char> {
        self.reason@
    }

    /// A notice with the reason `reason`.
    pub fn new(reason: String) -> (r: Self)
        ensures
            r@ == reason@,
    {
        Self { reason }
    }

    /// The title: that nobody is signed in, and why.
    pub fn title(&self) -> (r: String)
        ensures
            r@ == "Logged out. "@ + self@,
    {
        let mut title = String::from_str("Logged out. ");
        title.append(self.reason.as_str());
        title
    }
}

/// Where the step-by-step login stands.
#[derive(Debug, Clone, PartialEq, Eq)]
pub enum LoginState {
    InputServerUrl,
    RegisteringApp(String),
    InputAuthenticationCode,
    LoadingCredentialsFile,
    VerifyingCredentials(Credentials),
    LoggedIn(LoginDetails),
    CompleteAuth(String),
    SavingCredentials(Credentials),
}

/// What the work of a login step gave.
#[derive(Debug, Clone, PartialEq, Eq)]
pub enum LoginReply {
    /// The work failed; the text says how.
    Failed(String),
    /// The saved credentials.
    Credentials(Credentials),
    /// The confirmed account.
    Details(LoginDetails),
    /// The server address that the user entered.
    Url(String),
    /// The client is registered at the server.
    Registered,
    /// The code that the user entered.
    Code(String),
    /// The application was told of the login.
    Sent,
    /// The server exchanged the code for these credentials.
    Completed(Credentials),
    /// The credentials were saved.
    Saved,
}

/// How the login goes on after a step.
#[derive(Debug, Clone, PartialEq, Eq)]
pub enum LoginProgress {
    /// The next step is due.
    Continue,
    /// The login is done.
    Finished,
    /// The login has ended with this error.
    Failed(String),
}

/// The status shown while the work of `state` is done; the exchange of
/// the code has none of its own and keeps `previous`.
pub open spec fn login_status(state: LoginState, previous: Seq<char>) -> Seq<char> {
    match state {
        LoginState::LoadingCredentialsFile => "Loading credentials file..."@,
        LoginState::VerifyingCredentials(_) => "Verifying credentials..."@,
        LoginState::LoggedIn(_) => "Logged in"@,
        LoginState::InputServerUrl => "Enter server url"@,
        LoginState::RegisteringApp(_) => "Registering app..."@,
        LoginState::InputAuthenticationCode => "Enter authentication code"@,
        LoginState::CompleteAuth(_) => previous,
        LoginState::SavingCredentials(_) => "Saving credentials..."@,
    }
}

/// What a failure of the work of `state` is called on the screen; `None`
/// for the steps whose failure ends the login.
pub open spec fn flash_prefix(state: LoginState) -> Option<Seq<char>> {
    match state {
        LoginState::LoadingCredentialsFile => Some("Error loading credentials file: "@),
        LoginState::VerifyingCredentials(_) => Some("Error verifying credentials: "@),
        LoginState::InputServerUrl => Some("Error reading server url: "@),
        LoginState::RegisteringApp(_) => Some("Error registering app: "@),
        LoginState::InputAuthenticationCode => Some("Error reading authorization code: "@),
        LoginState::SavingCredentials(_) => Some("Error saving credentials: "@),
        LoginState::LoggedIn(_) => None,
        LoginState::CompleteAuth(_) => None,
    }
}

/// The state that follows `state` after `reply`. A success leads on along
/// the login: the credentials that the exchange of the code gave are
/// saved and then verified like saved ones. Credentials that cannot be
/// saved are verified all the same; a failure of another step that can be
/// tried again leads back to asking for the server; everything else
/// leaves the state as it is.
pub open spec fn next_login_state(state: LoginState, reply: LoginReply) -> LoginState {
    match (state, reply) {
        (LoginState::LoadingCredentialsFile, LoginReply::Credentials(c)) => {
            LoginState::VerifyingCredentials(c)
        },
        (LoginState::VerifyingCredentials(_), LoginReply::Details(d)) => LoginState::LoggedIn(d),
        (LoginState::InputServerUrl, LoginReply::Url(u)) => LoginState::RegisteringApp(u),
        (LoginState::RegisteringApp(_), LoginReply::Registered) => {
            LoginState::InputAuthenticationCode
        },
        (LoginState::InputAuthenticationCode, LoginReply::Code(c)) => LoginState::CompleteAuth(c),
        (LoginState::CompleteAuth(_), LoginReply::Completed(c)) => {
            LoginState::SavingCredentials(c)
        },
        (LoginState::SavingCredentials(c), LoginReply::Saved) => {
            LoginState::VerifyingCredentials(c)
        },
        (LoginState::SavingCredentials(c), LoginReply::Failed(_)) => {
            LoginState::VerifyingCredentials(c)
        },
        (s, LoginReply::Failed(_)) => if flash_prefix(s).is_some() {
            LoginState::InputServerUrl
        } else {
            s
        },
        (s, _) => s,
    }
}

/// The message on the screen after `reply` to the work of `state`: a
/// failure that does not end the login is shown with what failed;
/// otherwise the message stays.
pub open spec fn next_flash(state: LoginState, reply: LoginReply, flash: Option<Seq<char>>)
    -> Option<Seq<char>> {
    match (flash_prefix(state), reply) {
        (Some(prefix), LoginReply::Failed(e)) => Some(prefix + e@),
        _ => flash,
    }
}

/// Whether the login is over after `reply` to the work of `state`, and
/// how.
pub open spec fn login_progress(state: LoginState, reply: LoginReply) -> LoginProgress {
    match (state, reply) {
        (LoginState::LoggedIn(_), LoginReply::Sent) => LoginProgress::Finished,
        (LoginState::LoggedIn(_), LoginReply::Failed(e)) => LoginProgress::Failed(e),
        (LoginState::CompleteAuth(_), LoginReply::Failed(e)) => LoginProgress::Failed(e),
        _ => LoginProgress::Continue,
    }
}

/// A successful exchange of the code leads to saving the credentials that
/// it gave, and from there, saved or not, to verifying them; none of
/// these steps ends the login.
pub proof fn lemma_exchange_leads_to_saving(code: String, fresh: Credentials, error: String)
    ensures
        next_login_state(LoginState::CompleteAuth(code), LoginReply::Completed(fresh))
            == LoginState::SavingCredentials(fresh),
        login_progress(LoginState::CompleteAuth(code), LoginReply::Completed(fresh))
            == LoginProgress::Continue,
        next_login_state(LoginState::SavingCredentials(fresh), LoginReply::Saved)
            == LoginState::VerifyingCredentials(fresh),
        next_login_state(LoginState::SavingCredentials(fresh), LoginReply::Failed(error))
            == LoginState::VerifyingCredentials(fresh),
        login_progress(LoginState::SavingCredentials(fresh), LoginReply::Saved)
            == LoginProgress::Continue,
        login_progress(LoginState::SavingCredentials(fresh), LoginReply::Failed(error))
            == LoginProgress::Continue,
{
}

/// The step-by-step login.
#[derive(Debug)]
pub struct LoginView {
    state: LoginState,
    status: &'static str,
    flash_message: Option<String>,
}

impl LoginView {
    /// The step that is due.
    pub closed spec fn spec_state(&self) -> LoginState {
        self.state
    }

    /// The status on the screen.
    pub closed spec fn spec_status(&self) -> Seq<char> {
        self.status@
    }

    /// The message on the screen.
    pub closed spec fn spec_flash(&self) -> Option<Seq<char>> {
        opt_view(self.flash_message)
    }

    /// A login that begins by loading the saved credentials.
    pub fn new() -> (r: Self)
        ensures
            r.spec_state() == LoginState::LoadingCredentialsFile,
            r.spec_status() == ""@,
            r.spec_flash().is_none(),
    {
        Self { state: LoginState::LoadingCredentialsFile, status: "", flash_message: None }
    }

    /// The title of the screen.
    pub fn title(&self) -> (r: String)
        ensures
            r@ == "Login"@,
    {
        String::from_str("Login")
    }

    /// The status on the screen.
    pub fn status(&self) -> (r: String)
        ensures
            r@ == self.spec_status(),
    {
        String::from_str(self.status)
    }

    /// The step that is due.
    pub fn state(&self) -> (r: &LoginState)
        ensures
            *r == self.spec_state(),
    {
        &self.state
    }

    /// The message on the screen, or nothing.
    pub fn flash_message(&self) -> (r: &str)
        ensures
            r@ == (match self.spec_flash() {
                Some(m) => m,
                None => ""@,
            }),
    {
        match &self.flash_message {
            Some(m) => m.as_str(),
            None => "",
        }
    }

    /// Takes an event. The login has no use for any yet: nothing changes.
    pub fn handle_event(&mut self, event: Event)
        ensures
            final(self).spec_state() == old(self).spec_state(),
            final(self).spec_status() == old(self).spec_status(),
            final(self).spec_flash() == old(self).spec_flash(),
    {
    }

    /// Begins the step that is due: the status says what is being done.
    pub fn begin(&mut self)
        ensures
            final(self).spec_state() == old(self).spec_state(),
            final(self).spec_flash() == old(self).spec_flash(),
            final(self).spec_status() == login_status(old(self).spec_state(), old(self).spec_status()),
    {
        match &self.state {
            LoginState::LoadingCredentialsFile => {
                self.status = "Loading credentials file...";
            },
            LoginState::VerifyingCredentials(_) => {
                self.status = "Verifying credentials...";
            },
            LoginState::LoggedIn(_) => {
                self.status = "Logged in";
            },
            LoginState::InputServerUrl => {
                self.status = "Enter server url";
            },
            LoginState::RegisteringApp(_) => {
                self.status = "Registering app...";
            },
            LoginState::InputAuthenticationCode => {
                self.status = "Enter authentication code";
            },
            LoginState::CompleteAuth(_) => {},
            LoginState::SavingCredentials(_) => {
                self.status = "Saving credentials...";
            },
        }
    }

    /// Ends the step that is due with what its work gave; see
    /// [`next_login_state`], [`next_flash`] and [`login_progress`].
    pub fn finish(&mut self, reply: LoginReply) -> (r: LoginProgress)
        ensures
            final(self).spec_state() == next_login_state(old(self).spec_state(), reply),
            final(self).spec_flash() == next_flash(
                old(self).spec_state(),
                reply,
                old(self).spec_flash(),
            ),
            final(self).spec_status() == old(self).spec_status(),
            r == login_progress(old(self).spec_state(), reply),
    {
        let mut state = LoginState::InputServerUrl;
        core::mem::swap(&mut self.state, &mut state);
        match reply {
            LoginReply::Failed(e) => {
                let prefix = match state {
                    LoginState::LoadingCredentialsFile => "Error loading credentials file: ",
                    LoginState::VerifyingCredentials(_) => "Error verifying credentials: ",
                    LoginState::InputServerUrl => "Error reading server url: ",
                    LoginState::RegisteringApp(_) => "Error registering app: ",
                    LoginState::InputAuthenticationCode => "Error reading authorization code: ",
                    LoginState::SavingCredentials(c) => {
                        let mut message = String::from_str("Error saving credentials: ");
                        message.append(e.as_str());
                        self.flash_message = Some(message);
                        self.state = LoginState::VerifyingCredentials(c);
                        return LoginProgress::Continue;
                    },
                    LoginState::LoggedIn(d) => {
                        self.state = LoginState::LoggedIn(d);
                        return LoginProgress::Failed(e);
                    },
                    LoginState::CompleteAuth(c) => {
                        self.state = LoginState::CompleteAuth(c);
                        return LoginProgress::Failed(e);
                    },
                };
                let mut message = String::from_str(prefix);
                message.append(e.as_str());
                self.flash_message = Some(message);
                LoginProgress::Continue
            },
            LoginReply::Credentials(c) => {
                self.state = match state {
                    LoginState::LoadingCredentialsFile => LoginState::VerifyingCredentials(c),
                    other => other,
                };
                LoginProgress::Continue
            },
            LoginReply::Details(d) => {
                self.state = match state {
                    LoginState::VerifyingCredentials(_) => LoginState::LoggedIn(d),
                    other => other,
                };
                LoginProgress::Continue
            },
            LoginReply::Url(u) => {
                self.state = match state {
                    LoginState::InputServerUrl => LoginState::RegisteringApp(u),
                    other => other,
                };
                LoginProgress::Continue
            },
            LoginReply::Registered => {
                self.state = match state {
                    LoginState::RegisteringApp(_) => LoginState::InputAuthenticationCode,
                    other => other,
                };
                LoginProgress::Continue
            },
            LoginReply::Code(c) => {
                self.state = match state {
                    LoginState::InputAuthenticationCode => LoginState::CompleteAuth(c),
                    other => other,
                };
                LoginProgress::Continue
            },
            LoginReply::Completed(c) => {
                self.state = match state {
                    LoginState::CompleteAuth(_) => LoginState::SavingCredentials(c),
                    other => other,
                };
                LoginProgress::Continue
            },
            LoginReply::Saved => {
                self.state = match state {
                    LoginState::SavingCredentials(c) => LoginState::VerifyingCredentials(c),
                    other => other,
                };
                LoginProgress::Continue
            },
            LoginReply::Sent => {
                let done = match &state {
                    LoginState::LoggedIn(_) => true,
                    _ => false,
                };
                self.state = state;
                if done {
                    LoginProgress::Finished
                } else {
                    LoginProgress::Continue
                }
            },
        }
    }
}

/// The text of a row of the timeline list: display name, colon, body.
pub open spec fn row_text(toot: Toot) -> Seq<char> {
    toot.display_name@ + ": "@ + toot.content@
}

/// The rows of the timeline list: one for each post, or a notice while
/// the timeline is loading.
pub open spec fn rows_spec(timeline: Option<Seq<Toot>>) -> Seq<Seq<char>> {
    match timeline {
        Some(items) => items.map_values(|t: Toot| row_text(t)),
        None => seq!["Loading timeline..."@],
    }
}

/// The texts of the rows.
pub open spec fn rows_view(rows: Seq<String>) -> Seq<Seq<char>> {
    rows.map_values(|r: String| r@)
}

/// The earlier timeline screen: a plain list of the first page.
#[derive(Debug)]
pub struct HomeView {
    username: String,
    url: String,
    timeline: Option<Vec<Toot>>,
}

impl HomeView {
    /// The name of the user.
    pub closed spec fn spec_username(&self) -> Seq<char> {
        self.username@
    }

    /// The address of the server.
    pub closed spec fn spec_url(&self) -> Seq<char> {
        self.url@
    }

    /// The posts, once they are loaded.
    pub closed spec fn spec_timeline(&self) -> Option<Seq<Toot>> {
        match self.timeline {
            Some(t) => Some(t@),
            None => None,
        }
    }

    /// The screen for the account that has signed in, before its timeline
    /// is loaded.
    pub fn from_details(details: LoginDetails) -> (r: Self)
        ensures
            r.spec_username() == details.username@,
            r.spec_url() == details.url@,
            r.spec_timeline().is_none(),
    {
        Self { username: details.username, url: details.url, timeline: None }
    }

    /// The name of the screen: the user name, `@`, and the server without
    /// its scheme.
    pub fn to_string(&self) -> (r: String)
        ensures
            r@ == title_for(self.spec_username(), self.spec_url()),
    {
        let mut out = self.username.clone();
        out.append("@");
        out.append(trim_start_matches(self.url.as_str(), "https://"));
        proof {
            reveal_strlit("https://");
            reveal_strlit("@");
            assert("https://"@ =~= crate::home::https_scheme());
            assert("@"@ =~= seq!['@']);
        }
        out
    }

    /// Takes in the first page of the timeline, where loading succeeded,
    /// and says whether it did.
    pub fn run(&mut self, fetched: Option<Vec<Toot>>) -> (r: bool)
        ensures
            final(self).spec_username() == old(self).spec_username(),
            final(self).spec_url() == old(self).spec_url(),
            match fetched {
                Some(items) => r && final(self).spec_timeline() == Some(items@),
                None => !r && final(self).spec_timeline() == old(self).spec_timeline(),
            },
    {
        match fetched {
            Some(items) => {
                self.timeline = Some(items);
                true
            },
            None => false,
        }
    }

    /// The rows of the list.
    pub fn rows(&self) -> (r: Vec<String>)
        ensures
            rows_view(r@) == rows_spec(self.spec_timeline()),
    {
        let mut rows: Vec<String> = Vec::new();
        match &self.timeline {
            Some(items) => {
                let mut i: usize = 0;
                while i < items.len()
                    invariant
                        i <= items.len(),
                        rows@.len() == i,
                        forall|k: int| 0 <= k < i ==> (#[trigger] rows@[k])@ == row_text(items@[k]),
                    decreases items.len() - i,
                {
                    let mut row = items[i].display_name.clone();
                    row.append(": ");
                    row.append(items[i].content.as_str());
                    rows.push(row);
                    i += 1;
                }
                assert(rows_view(rows@) =~= rows_spec(Some(items@)));
            },
            None => {
                rows.push(String::from_str("Loading timeline..."));
                assert(rows_view(rows@) =~= rows_spec(None));
            },
        }
        rows
    }
}

} // verus!
