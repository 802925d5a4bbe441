use tooters::event::Event;
use tooters::home::{Timestamp, Toot};
use tooters::view::{
    Credentials, HomeView, IntitialView, LoggedInView, LoggedOutView, LoginAttempt, LoginDetails,
    LoginProgress, LoginReply, LoginState, LoginView, Verification, ViewEvent,
};

fn credentials() -> Credentials {
    Credentials {
        base: "https://mastodon.social".into(),
        client_id: "adbc01234".into(),
        client_secret: "0987dcba".into(),
        redirect: "urn:ietf:wg:oauth:2.0:oob".into(),
        token: "fedc5678".into(),
    }
}

fn details() -> LoginDetails {
    LoginDetails { url: "https://mastodon.social".to_string(), username: "joshka".to_string() }
}

#[test]
fn test_attempt_login() {
    let mut view = IntitialView::new();
    assert_eq!(
        view.attempt_login(LoginAttempt::NoCredentials),
        ViewEvent::LoggedOut("No previous login".to_string())
    );
    assert_eq!(view.title(), "Loading...");
}

#[test]
fn test_attempt_login_with_bad_credentials() {
    let mut view = IntitialView::new();
    let attempt = LoginAttempt::Verified {
        server: "https://mastodon.social".to_string(),
        outcome: Verification::Rejected {
            status: "401 Unauthorized".to_string(),
            error: "The access token is invalid".to_string(),
        },
    };
    assert_eq!(
        view.attempt_login(attempt),
        ViewEvent::LoggedOut(
            "Login failed: 401 Unauthorized The access token is invalid".to_string()
        )
    );
    assert_eq!(view.title(), "Logging in to https://mastodon.social...");
}

#[test]
fn test_attempt_login_with_real_credentials() {
    let mut view = IntitialView::new();
    let attempt = LoginAttempt::Verified {
        server: "https://mastodon.social".to_string(),
        outcome: Verification::Accepted("joshka".to_string()),
    };
    assert_eq!(view.attempt_login(attempt), ViewEvent::LoggedIn("joshka".to_string()));
    assert_eq!(view.title(), "Logged in as joshka@https://mastodon.social");
}

#[test]
fn attempt_login_with_other_failures() {
    let mut view = IntitialView::new();
    let attempt = LoginAttempt::Verified {
        server: "s".to_string(),
        outcome: Verification::Undecodable,
    };
    assert_eq!(
        view.attempt_login(attempt),
        ViewEvent::LoggedOut(
            "Login failed: Could not understand the server's response".to_string()
        )
    );
    let attempt = LoginAttempt::Verified {
        server: "s".to_string(),
        outcome: Verification::Failed("connection refused".to_string()),
    };
    assert_eq!(
        view.attempt_login(attempt),
        ViewEvent::LoggedOut("Login failed: connection refused".to_string())
    );
    assert_eq!(view.title(), "Logging in to s...");
}

#[test]
fn notices() {
    assert_eq!(LoggedInView::new("joshka".to_string()).title(), "Logged in as @joshka");
    assert_eq!(
        LoggedOutView::new("No previous login".to_string()).title(),
        "Logged out. No previous login"
    );
}

#[test]
fn login_with_saved_credentials() {
    let mut view = LoginView::new();
    assert_eq!(view.title(), "Login");
    assert_eq!(view.status(), "");
    assert_eq!(view.state(), &LoginState::LoadingCredentialsFile);
    view.begin();
    assert_eq!(view.status(), "Loading credentials file...");
    assert_eq!(view.finish(LoginReply::Credentials(credentials())), LoginProgress::Continue);
    assert_eq!(view.state(), &LoginState::VerifyingCredentials(credentials()));
    view.begin();
    assert_eq!(view.status(), "Verifying credentials...");
    assert_eq!(view.finish(LoginReply::Details(details())), LoginProgress::Continue);
    assert_eq!(view.state(), &LoginState::LoggedIn(details()));
    view.begin();
    assert_eq!(view.status(), "Logged in");
    assert_eq!(view.finish(LoginReply::Sent), LoginProgress::Finished);
    view.handle_event(Event::Tick);
    assert_eq!(view.state(), &LoginState::LoggedIn(details()));
    assert_eq!(view.status(), "Logged in");
    assert_eq!(view.flash_message(), "");
}

#[test]
fn login_through_the_server() {
    let mut view = LoginView::new();
    view.begin();
    assert_eq!(view.finish(LoginReply::Failed("no file".to_string())), LoginProgress::Continue);
    assert_eq!(view.state(), &LoginState::InputServerUrl);
    assert_eq!(view.flash_message(), "Error loading credentials file: no file");
    view.begin();
    assert_eq!(view.status(), "Enter server url");
    view.finish(LoginReply::Url("https://mastodon.social".to_string()));
    assert_eq!(view.state(), &LoginState::RegisteringApp("https://mastodon.social".to_string()));
    view.begin();
    assert_eq!(view.status(), "Registering app...");
    view.finish(LoginReply::Registered);
    assert_eq!(view.state(), &LoginState::InputAuthenticationCode);
    view.begin();
    assert_eq!(view.status(), "Enter authentication code");
    view.finish(LoginReply::Code("asdf".to_string()));
    assert_eq!(view.state(), &LoginState::CompleteAuth("asdf".to_string()));
    view.begin();
    assert_eq!(view.status(), "Enter authentication code");
    assert_eq!(view.finish(LoginReply::Completed(credentials())), LoginProgress::Continue);
    assert_eq!(view.state(), &LoginState::SavingCredentials(credentials()));
    view.begin();
    assert_eq!(view.status(), "Saving credentials...");
    assert_eq!(view.finish(LoginReply::Saved), LoginProgress::Continue);
    assert_eq!(view.state(), &LoginState::VerifyingCredentials(credentials()));
    view.begin();
    assert_eq!(view.status(), "Verifying credentials...");
    assert_eq!(view.finish(LoginReply::Details(details())), LoginProgress::Continue);
    assert_eq!(view.state(), &LoginState::LoggedIn(details()));
    assert_eq!(view.finish(LoginReply::Sent), LoginProgress::Finished);
    assert_eq!(view.flash_message(), "Error loading credentials file: no file");
}

#[test]
fn a_failed_exchange_of_the_code_ends_the_login() {
    let mut view = LoginView::new();
    view.finish(LoginReply::Failed("no file".to_string()));
    view.finish(LoginReply::Url("u".to_string()));
    view.finish(LoginReply::Registered);
    view.finish(LoginReply::Code("asdf".to_string()));
    assert_eq!(
        view.finish(LoginReply::Failed("bad code".to_string())),
        LoginProgress::Failed("bad code".to_string())
    );
    assert_eq!(view.state(), &LoginState::CompleteAuth("asdf".to_string()));
    assert_eq!(view.flash_message(), "Error loading credentials file: no file");
}

#[test]
fn credentials_that_cannot_be_saved_are_verified_all_the_same() {
    let mut view = LoginView::new();
    view.finish(LoginReply::Failed("no file".to_string()));
    view.finish(LoginReply::Url("u".to_string()));
    view.finish(LoginReply::Registered);
    view.finish(LoginReply::Code("asdf".to_string()));
    view.finish(LoginReply::Completed(credentials()));
    assert_eq!(view.finish(LoginReply::Failed("disk full".to_string())), LoginProgress::Continue);
    assert_eq!(view.state(), &LoginState::VerifyingCredentials(credentials()));
    assert_eq!(view.flash_message(), "Error saving credentials: disk full");
    assert_eq!(view.finish(LoginReply::Saved), LoginProgress::Continue);
    assert_eq!(view.finish(LoginReply::Completed(credentials())), LoginProgress::Continue);
    assert_eq!(view.state(), &LoginState::VerifyingCredentials(credentials()));
}

#[test]
fn login_failures_lead_back_to_the_server_address() {
    let mut view = LoginView::new();
    view.finish(LoginReply::Credentials(credentials()));
    view.finish(LoginReply::Failed("401".to_string()));
    assert_eq!(view.state(), &LoginState::InputServerUrl);
    assert_eq!(view.flash_message(), "Error verifying credentials: 401");
    view.finish(LoginReply::Failed("closed".to_string()));
    assert_eq!(view.state(), &LoginState::InputServerUrl);
    assert_eq!(view.flash_message(), "Error reading server url: closed");
    view.finish(LoginReply::Url("u".to_string()));
    view.finish(LoginReply::Failed("refused".to_string()));
    assert_eq!(view.state(), &LoginState::InputServerUrl);
    assert_eq!(view.flash_message(), "Error registering app: refused");
    view.finish(LoginReply::Url("u".to_string()));
    view.finish(LoginReply::Registered);
    view.finish(LoginReply::Failed("eof".to_string()));
    assert_eq!(view.state(), &LoginState::InputServerUrl);
    assert_eq!(view.flash_message(), "Error reading authorization code: eof");
}

#[test]
fn login_drops_a_reply_that_does_not_belong_to_the_step() {
    let mut view = LoginView::new();
    assert_eq!(view.finish(LoginReply::Registered), LoginProgress::Continue);
    assert_eq!(view.finish(LoginReply::Sent), LoginProgress::Continue);
    assert_eq!(view.finish(LoginReply::Code("c".to_string())), LoginProgress::Continue);
    assert_eq!(view.state(), &LoginState::LoadingCredentialsFile);
    view.finish(LoginReply::Credentials(credentials()));
    view.finish(LoginReply::Details(details()));
    assert_eq!(
        view.finish(LoginReply::Failed("channel closed".to_string())),
        LoginProgress::Failed("channel closed".to_string())
    );
    assert_eq!(view.flash_message(), "");
}

#[test]
fn home_view_lists_the_first_page() {
    let mut view = HomeView::from_details(details());
    assert_eq!(view.to_string(), "joshka@mastodon.social");
    assert_eq!(view.rows(), vec!["Loading timeline...".to_string()]);
    assert!(!view.run(None));
    assert_eq!(view.rows(), vec!["Loading timeline...".to_string()]);
    let toot = Toot {
        created_at: Timestamp { unix_seconds: 0, offset_seconds: 0 },
        acct: "a".to_string(),
        display_name: "Alice".to_string(),
        content: "<p>hi</p>".to_string(),
        url: None,
        reblog: None,
        card: None,
    };
    assert!(view.run(Some(vec![toot.clone(), toot])));
    assert_eq!(view.rows(), vec!["Alice: <p>hi</p>".to_string(), "Alice: <p>hi</p>".to_string()]);
    assert!(view.run(Some(vec![])));
    assert_eq!(view.rows(), Vec::<String>::new());
}
