use tooters::authentication::{
    callback_reply, AuthFlow, AuthStep, Authentication, CallbackProgress, InputRequest,
};
use tooters::event::{Event, KeyCode, KeyPress, Outcome, TerminalEvent};
use tooters::style::{Color, Span, TextStyle, BOLD};

fn plain() -> TextStyle {
    TextStyle { fg: None, bg: None, add_modifier: 0, sub_modifier: 0 }
}

fn bold() -> TextStyle {
    TextStyle { fg: None, bg: None, add_modifier: BOLD, sub_modifier: 0 }
}

fn ok() -> Option<String> {
    Some(String::new())
}

#[test]
fn a_saved_configuration_leads_straight_to_verification() {
    let mut flow = AuthFlow::new();
    assert_eq!(flow.step(), AuthStep::LoadingConfig);
    flow.advance(ok());
    assert_eq!(flow.step(), AuthStep::Verifying);
    assert!(!flow.is_authenticated());
    flow.advance(ok());
    assert_eq!(flow.step(), AuthStep::Authenticated);
    assert!(flow.is_authenticated());
    assert_eq!(flow.error(), None);
    flow.advance(None);
    assert_eq!(flow.step(), AuthStep::Authenticated);
    flow.advance(ok());
    assert_eq!(flow.step(), AuthStep::Authenticated);
    assert_eq!(flow.error(), None);
}

#[test]
fn without_configuration_the_whole_flow_runs() {
    let mut flow = AuthFlow::new();
    flow.advance(None);
    assert_eq!(flow.step(), AuthStep::AwaitingServerUrl);
    assert_eq!(flow.error(), None);
    flow.advance(Some("https://example.social".to_string()));
    assert_eq!(flow.step(), AuthStep::Registering);
    assert_eq!(flow.server_url(), "https://example.social");
    flow.advance(Some("ignored".to_string()));
    assert_eq!(flow.step(), AuthStep::AwaitingCode);
    assert_eq!(flow.server_url(), "https://example.social");
    flow.advance(Some("abc123".to_string()));
    assert_eq!(flow.step(), AuthStep::Completing);
    assert_eq!(flow.code(), "abc123");
    flow.advance(ok());
    assert_eq!(flow.step(), AuthStep::SavingConfig);
    flow.advance(None);
    assert_eq!(flow.step(), AuthStep::Verifying);
    assert_eq!(flow.error(), None);
    flow.advance(ok());
    assert!(flow.is_authenticated());
    assert_eq!(flow.code(), "abc123");
}

#[test]
fn a_failed_step_shows_an_error_and_starts_again() {
    for failing in 0..4 {
        let mut flow = AuthFlow::new();
        flow.advance(None);
        for _ in 0..failing {
            flow.advance(Some("x".to_string()));
        }
        flow.advance(None);
        assert_eq!(flow.step(), AuthStep::LoadingConfig);
        assert_eq!(flow.error(), Some("unable to authorize"));
    }
    let mut flow = AuthFlow::new();
    flow.advance(ok());
    flow.advance(None);
    assert_eq!(flow.step(), AuthStep::LoadingConfig);
    assert_eq!(flow.error(), Some("failed to verify credentials"));
    flow.advance(ok());
    flow.advance(ok());
    assert!(flow.is_authenticated());
    assert_eq!(flow.error(), Some("failed to verify credentials"));
}

#[test]
fn the_screen_starts_with_the_default_server() {
    let auth = Authentication::new();
    assert_eq!(auth.title(), "Authenticating at https://mastodon.social");
    assert_eq!(auth.layout(), [3, 0, 2]);
    assert_eq!(auth.error_line(), None);
    assert_eq!(
        auth.server_url_line(),
        vec![
            Span { text: "Server URL:".to_string(), style: bold() },
            Span { text: " ".to_string(), style: plain() },
            Span { text: "https://mastodon.social".to_string(), style: plain() },
        ]
    );
    assert_eq!(
        auth.welcome(),
        "Welcome to tooters. Sign in to your mastodon server.\nYou will be redirected to your browser to complete the authentication process."
    );
}

#[test]
fn an_error_takes_two_rows() {
    let mut auth = Authentication::new();
    auth.display_error("unable to authorize");
    assert_eq!(auth.layout(), [3, 2, 2]);
    assert_eq!(
        auth.error_line(),
        Some(vec![
            Span {
                text: "Error:".to_string(),
                style: TextStyle { fg: Some(Color::Red), bg: None, add_modifier: BOLD, sub_modifier: 0 }
            },
            Span { text: " ".to_string(), style: plain() },
            Span { text: "unable to authorize".to_string(), style: plain() },
        ])
    );
    assert_eq!(auth.title(), "Authenticating at https://mastodon.social");
}

#[test]
fn enter_submits_and_other_terminal_events_edit() {
    let mut auth = Authentication::new();
    auth.set_server_url("https://example.social");
    let enter =
        Event::Crossterm(TerminalEvent::Key(KeyPress { code: KeyCode::Enter, unmodified: true }));
    assert_eq!(
        auth.handle_event(&enter),
        (Outcome::Handled, InputRequest::Submit("https://example.social".to_string()))
    );
    let letter = Event::Crossterm(TerminalEvent::Key(KeyPress {
        code: KeyCode::Char('a'),
        unmodified: true,
    }));
    assert_eq!(auth.handle_event(&letter), (Outcome::Handled, InputRequest::Edit));
    assert_eq!(
        auth.handle_event(&Event::Crossterm(TerminalEvent::Other)),
        (Outcome::Handled, InputRequest::Edit)
    );
    assert_eq!(auth.handle_event(&Event::Tick), (Outcome::Ignored, InputRequest::Nothing));
    assert_eq!(auth.handle_event(&Event::Quit), (Outcome::Ignored, InputRequest::Nothing));
    assert_eq!(
        auth.handle_event(&Event::AuthenticationSuccess),
        (Outcome::Ignored, InputRequest::Nothing)
    );
    assert_eq!(auth.title(), "Authenticating at https://example.social");
}

#[test]
fn the_callback_page_answers() {
    let done = callback_reply(CallbackProgress::Done);
    assert_eq!(done.status, 200);
    assert_eq!(done.body, "Authentication successful! You can close this window now.");
    let no_code = callback_reply(CallbackProgress::NoCode);
    assert_eq!(no_code.status, 500);
    assert_eq!(no_code.body, "No code in query string");
    let not_sent = callback_reply(CallbackProgress::CodeNotSent);
    assert_eq!(not_sent.status, 500);
    assert_eq!(not_sent.body, "Error sending code to main thread");
    let not_stopped = callback_reply(CallbackProgress::ShutdownNotSent);
    assert_eq!(not_stopped.status, 500);
    assert_eq!(not_stopped.body, "Error sending shutdown signal to webserver");
}
