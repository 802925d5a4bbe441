use tooters::logging::{level_color, name_color, Level, LogCollector, LogMessage};
use tooters::style::{Color, Span, TextStyle, DIM};
use tooters::widgets::LogWidget;

fn message(level: Level, text: &str) -> LogMessage {
    let mut m = LogMessage::new(level, "tooters::app".to_string());
    m.record_debug("message", text);
    m
}

fn plain() -> TextStyle {
    TextStyle { fg: None, bg: None, add_modifier: 0, sub_modifier: 0 }
}

fn line(level: &str, color: Color, text: &str) -> Vec<Span> {
    let dim = TextStyle { fg: None, bg: None, add_modifier: DIM, sub_modifier: 0 };
    vec![
        Span {
            text: level.to_string(),
            style: TextStyle { fg: Some(color), bg: None, add_modifier: 0, sub_modifier: 0 },
        },
        Span { text: " ".to_string(), style: plain() },
        Span { text: "tooters::app".to_string(), style: dim },
        Span { text: ": ".to_string(), style: dim },
        Span { text: text.to_string(), style: plain() },
    ]
}

#[test]
fn level_names_and_colours() {
    let all = [
        (Level::Error, "ERROR", Color::Red),
        (Level::Warn, "WARN", Color::Yellow),
        (Level::Info, "INFO", Color::Green),
        (Level::Debug, "DEBUG", Color::Blue),
        (Level::Trace, "TRACE", Color::Cyan),
    ];
    for (level, name, color) in all {
        assert_eq!(level.as_str(), name);
        assert_eq!(level_color(level), color);
        assert_eq!(name_color(name), color);
        assert_eq!(name_color(level.as_str()), level_color(level));
    }
    assert_eq!(name_color("error"), Color::White);
    assert_eq!(name_color(""), Color::White);
}

#[test]
fn record_debug_tells_the_message_from_other_fields() {
    let mut m = LogMessage::new(Level::Info, "t".to_string());
    assert_eq!(m.message, "");
    assert!(m.fields.is_empty());
    m.record_debug("username", "\"joshka\"");
    m.record_debug("message", "logged in");
    m.record_debug("attempt", "2");
    assert_eq!(m.level, Level::Info);
    assert_eq!(m.target, "t");
    assert_eq!(m.message, "logged in");
    assert_eq!(
        m.fields,
        vec![
            ("username".to_string(), "\"joshka\"".to_string()),
            ("attempt".to_string(), "2".to_string())
        ]
    );
    m.record_debug("message", "again");
    assert_eq!(m.message, "again");
    assert_eq!(m.fields.len(), 2);
    assert_eq!(m.duplicate(), m);
}

#[test]
fn to_line_colours_the_level() {
    assert_eq!(message(Level::Warn, "careful").to_line(), line("WARN", Color::Yellow, "careful"));
}

#[test]
fn last_n_gives_the_newest_messages_oldest_first() {
    let mut logs = LogCollector::new();
    assert_eq!(logs.last_n(3), vec![]);
    for i in 0..5 {
        logs.push(message(Level::Info, &format!("m{i}")));
    }
    assert_eq!(logs.len(), 5);
    let last = logs.last_n(2);
    assert_eq!(last, vec![message(Level::Info, "m3"), message(Level::Info, "m4")]);
    assert_eq!(logs.last_n(0), vec![]);
    assert_eq!(logs.last_n(5).len(), 5);
    assert_eq!(logs.last_n(9).len(), 5);
    assert_eq!(logs.last_n(9)[0], message(Level::Info, "m0"));
    assert_eq!(logs.last_n(usize::MAX).len(), 5);
    assert_eq!(logs.logs(), logs.last_n(5));
    assert_eq!(logs.logs()[4], message(Level::Info, "m4"));
}

#[test]
fn lines_fill_the_height() {
    let mut logs = LogCollector::new();
    logs.push(message(Level::Error, "a"));
    logs.push(message(Level::Debug, "b"));
    logs.push(message(Level::Trace, "c"));
    assert_eq!(
        logs.lines(2),
        vec![line("DEBUG", Color::Blue, "b"), line("TRACE", Color::Cyan, "c")]
    );
    assert_eq!(logs.lines(0), Vec::<Vec<Span>>::new());
    assert_eq!(logs.lines(7).len(), 3);
}

#[test]
fn the_log_widget_shows_the_same_lines() {
    let messages = vec![
        message(Level::Error, "a"),
        message(Level::Info, "b"),
        message(Level::Warn, "c"),
    ];
    let mut logs = LogCollector::new();
    for m in &messages {
        logs.push(m.duplicate());
    }
    let widget = LogWidget::new(messages);
    for height in 0..5 {
        assert_eq!(widget.lines(height), logs.lines(height));
    }
    assert_eq!(
        widget.lines(1),
        vec![line("WARN", Color::Yellow, "c")]
    );
}
