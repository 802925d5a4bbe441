use tooters::style::{Color, Span, TextStyle, BOLD};
use tooters::widgets::{field, AuthenticationWidget, StatusBar, TitleBar};

fn plain() -> TextStyle {
    TextStyle { fg: None, bg: None, add_modifier: 0, sub_modifier: 0 }
}

fn bold() -> TextStyle {
    TextStyle { fg: None, bg: None, add_modifier: BOLD, sub_modifier: 0 }
}

fn span(text: &str, style: TextStyle) -> Span {
    Span { text: text.to_string(), style }
}

fn white_on_blue() -> TextStyle {
    TextStyle { fg: Some(Color::White), bg: Some(Color::Blue), add_modifier: 0, sub_modifier: 0 }
}

#[test]
fn status_bar_shows_the_keys_and_the_text() {
    let bar = StatusBar::new("https://example.social/@a/1");
    assert_eq!(StatusBar::HEIGHT, 1);
    assert_eq!(bar.style(), white_on_blue());
    assert_eq!(
        bar.line(),
        vec![
            span("Esc ", bold()),
            span("quit | ", plain()),
            span("J", bold()),
            span(" down | ", plain()),
            span("K", bold()),
            span(" up | ", plain()),
            span("https://example.social/@a/1", plain()),
        ]
    );
}

#[test]
fn title_bar_shows_the_program_and_the_title() {
    let bar = TitleBar::new("joshka@mastodon.social");
    assert_eq!(TitleBar::HEIGHT, 1);
    assert_eq!(bar.style(), white_on_blue());
    assert_eq!(
        bar.line(),
        vec![
            span("Toot-rs", bold()),
            span(" | ", plain()),
            span(
                "joshka@mastodon.social",
                TextStyle { fg: Some(Color::Gray), bg: None, add_modifier: 0, sub_modifier: 0 }
            ),
        ]
    );
}

#[test]
fn authentication_widget_fields() {
    let widget = AuthenticationWidget::new(None, "https://mastodon.social".to_string());
    assert_eq!(AuthenticationWidget::FIELD_HEIGHT, 3);
    assert_eq!(
        widget.message_field(),
        field("Welcome to tooters. Sign in to your mastodon server", "")
    );
    assert_eq!(widget.server_url_field(), field("Server URL:", "https://mastodon.social"));
    let widget = AuthenticationWidget::new(Some("no such server".to_string()), String::new());
    assert_eq!(widget.message_field().value, "no such server");
    assert_eq!(widget.message_field().label, span("Welcome to tooters. Sign in to your mastodon server", bold()));
    assert_eq!(widget.server_url_field().value, "");
}
