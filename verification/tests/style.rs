use ratatui::style::{Color as TuiColor, Modifier, Style};
use tooters::logging::Level;
use tooters::style::{Color, TextStyle, BOLD, CROSSED_OUT, DIM, ITALIC, UNDERLINED};

fn color(color: Color) -> TuiColor {
    match color {
        Color::Red => TuiColor::Red,
        Color::Green => TuiColor::Green,
        Color::Yellow => TuiColor::Yellow,
        Color::Blue => TuiColor::Blue,
        Color::Cyan => TuiColor::Cyan,
        Color::Gray => TuiColor::Gray,
        Color::DarkGray => TuiColor::DarkGray,
        Color::LightGreen => TuiColor::LightGreen,
        Color::LightYellow => TuiColor::LightYellow,
        Color::White => TuiColor::White,
        Color::Rgb(r, g, b) => TuiColor::Rgb(r, g, b),
    }
}

fn style(style: TextStyle) -> Style {
    let mut out = Style::default();
    out.fg = style.fg.map(color);
    out.bg = style.bg.map(color);
    out.add_modifier = Modifier::from_bits_truncate(style.add_modifier);
    out.sub_modifier = Modifier::from_bits_truncate(style.sub_modifier);
    out
}

fn samples() -> Vec<TextStyle> {
    let mut out = vec![];
    let colors = [None, Some(Color::Red), Some(Color::Rgb(1, 2, 3))];
    let modifiers = [0, BOLD, ITALIC | UNDERLINED, DIM | CROSSED_OUT | BOLD];
    for fg in colors {
        for bg in colors {
            for add_modifier in modifiers {
                for sub_modifier in modifiers {
                    out.push(TextStyle { fg, bg, add_modifier, sub_modifier });
                }
            }
        }
    }
    out
}

#[test]
fn the_modifiers_are_those_of_the_terminal_toolkit() {
    assert_eq!(Modifier::BOLD.bits(), BOLD);
    assert_eq!(Modifier::DIM.bits(), DIM);
    assert_eq!(Modifier::ITALIC.bits(), ITALIC);
    assert_eq!(Modifier::UNDERLINED.bits(), UNDERLINED);
    assert_eq!(Modifier::CROSSED_OUT.bits(), CROSSED_OUT);
}

#[test]
fn patch_agrees_with_the_terminal_toolkit() {
    for a in samples() {
        for b in samples() {
            assert_eq!(style(a.patch(b)), style(a).patch(style(b)));
        }
    }
}

#[test]
fn building_a_style_agrees_with_the_terminal_toolkit() {
    assert_eq!(style(TextStyle::plain()), Style::default());
    assert_eq!(style(TextStyle::default()), Style::default());
    for a in samples() {
        assert_eq!(style(a.fg(Color::Blue)), style(a).fg(TuiColor::Blue));
        assert_eq!(style(a.bg(Color::Gray)), style(a).bg(TuiColor::Gray));
        for modifier in [BOLD, DIM, ITALIC, UNDERLINED, CROSSED_OUT, BOLD | ITALIC] {
            assert_eq!(
                style(a.add_modifier(modifier)),
                style(a).add_modifier(Modifier::from_bits_truncate(modifier))
            );
        }
    }
}

#[test]
fn level_names_are_those_of_the_logging_library() {
    assert_eq!(Level::Error.as_str(), tracing::Level::ERROR.as_str());
    assert_eq!(Level::Warn.as_str(), tracing::Level::WARN.as_str());
    assert_eq!(Level::Info.as_str(), tracing::Level::INFO.as_str());
    assert_eq!(Level::Debug.as_str(), tracing::Level::DEBUG.as_str());
    assert_eq!(Level::Trace.as_str(), tracing::Level::TRACE.as_str());
}
