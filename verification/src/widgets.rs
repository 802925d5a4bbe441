//! The bars at the top and bottom of the screen and the older sign-in and
//! log widgets, as the text and styles that they show.

use vstd::prelude::*;
use vstd::string::*;
use crate::logging::{
    lemma_name_color_is_level_color, level_color_spec, lines_view, message_line, message_lines,
    messages_view, name_color, tail_start, LogMessage,
};
use crate::style::{line_view, Color, Span, TextStyle, BOLD, DIM};
use crate::text::opt_view;

verus! {

/// The style of both bars: white on blue.
pub open spec fn bar_style() -> TextStyle {
    TextStyle::spec_plain().spec_fg(Color::White).spec_bg(Color::Blue)
}

/// The bar at the bottom of the screen: the keys, and a text.
pub struct StatusBar<'a> {
    text: &'a str,
}

impl<'a> StatusBar<'a> {
    /// The number of rows that the bar takes.
    pub const HEIGHT: u16 = 1;

    /// The text of the bar.
    pub closed spec fn view(&self) -> Seq<char> {
        self.text@
    }

    /// A status bar that shows `text` behind the keys.
    pub fn new(text: &'a str) -> (r: Self)
        ensures
            r@ == text@,
    {
        Self { text }
    }

    /// The style of the bar.
    pub fn style(&self) -> (r: TextStyle)
        ensures
            r == bar_style(),
    {
        TextStyle::plain().fg(Color::White).bg(Color::Blue)
    }

    /// The line of the bar: the keys in bold with what they do, then the
    /// text.
    pub fn line(&self) -> (r: Vec<Span>)
        ensures
            line_view(r@) == seq![
                ("Esc "@, TextStyle::spec_plain().spec_add_modifier(BOLD)),
                ("quit | "@, TextStyle::spec_plain()),
                ("J"@, TextStyle::spec_plain().spec_add_modifier(BOLD)),
                (" down | "@, TextStyle::spec_plain()),
                ("K"@, TextStyle::spec_plain().spec_add_modifier(BOLD)),
                (" up | "@, TextStyle::spec_plain()),
                (self@, TextStyle::spec_plain()),
            ],
    {
        let bold = TextStyle::plain().add_modifier(BOLD);
        let mut line: Vec<Span> = Vec::new();
        line.push(Span::styled("Esc ", bold));
        line.push(Span::raw("quit | "));
        line.push(Span::styled("J", bold));
        line.push(Span::raw(" down | "));
        line.push(Span::styled("K", bold));
        line.push(Span::raw(" up | "));
        line.push(Span::raw(self.text));
        assert(line_view(line@) =~= seq![
            ("Esc "@, TextStyle::spec_plain().spec_add_modifier(BOLD)),
            ("quit | "@, TextStyle::spec_plain()),
            ("J"@, TextStyle::spec_plain().spec_add_modifier(BOLD)),
            (" down | "@, TextStyle::spec_plain()),
            ("K"@, TextStyle::spec_plain().spec_add_modifier(BOLD)),
            (" up | "@, TextStyle::spec_plain()),
            (self@, TextStyle::spec_plain()),
        ]);
        line
    }
}

/// The bar at the top of the screen: the name of the program, and a title.
#[derive(Debug)]
pub struct TitleBar<'a> {
    title: &'a str,
}

impl<'a> TitleBar<'a> {
    /// The number of rows that the bar takes.
    pub const HEIGHT: u16 = 1;

    /// The title on the bar.
    pub closed spec fn view(&self) -> Seq<char> {
        self.title@
    }

    /// A title bar that shows `title` behind the name of the program.
    pub fn new(title: &'a str) -> (r: Self)
        ensures
            r@ == title@,
    {
        Self { title }
    }

    /// The style of the bar.
    pub fn style(&self) -> (r: TextStyle)
        ensures
            r == bar_style(),
    {
        TextStyle::plain().fg(Color::White).bg(Color::Blue)
    }

    /// The line of the bar: the name of the program in bold, a divider,
    /// and the title in gray.
    pub fn line(&self) -> (r: Vec<Span>)
        ensures
            line_view(r@) == seq![
                ("Toot-rs"@, TextStyle::spec_plain().spec_add_modifier(BOLD)),
                (" | "@, TextStyle::spec_plain()),
                (self@, TextStyle::spec_plain().spec_fg(Color::Gray)),
            ],
    {
        let mut line: Vec<Span> = Vec::new();
        line.push(Span::styled("Toot-rs", TextStyle::plain().add_modifier(BOLD)));
        line.push(Span::raw(" | "));
        line.push(Span::styled(self.title, TextStyle::plain().fg(Color::Gray)));
        assert(line_view(line@) =~= seq![
            ("Toot-rs"@, TextStyle::spec_plain().spec_add_modifier(BOLD)),
            (" | "@, TextStyle::spec_plain()),
            (self@, TextStyle::spec_plain().spec_fg(Color::Gray)),
        ]);
        line
    }
}

/// A labelled value: the label is drawn in bold above the value.
#[derive(Debug, Clone, PartialEq, Eq)]
pub struct Field {
    pub label: Span,
    pub value: String,
}

/// Makes a field of a label and a value.
pub fn field(label: &str, value: &str) -> (r: Field)
    ensures
        r.label@ == (label@, TextStyle::spec_plain().spec_add_modifier(BOLD)),
        r.value@ == value@,
{
    Field {
        label: Span::styled(label, TextStyle::plain().add_modifier(BOLD)),
        value: String::from_str(value),
    }
}

/// The sign-in form: a welcome with the last error below it, and the
/// server address.
#[derive(Debug)]
pub struct AuthenticationWidget {
    error: Option<String>,
    server_url: String,
}

impl AuthenticationWidget {
    /// The number of rows of each of the two fields.
    pub const FIELD_HEIGHT: u16 = 3;

    /// The error on the form.
    pub closed spec fn spec_error(&self) -> Option<Seq<char>> {
        opt_view(self.error)
    }

    /// The server address on the form.
    pub closed spec fn spec_server_url(&self) -> Seq<char> {
        self.server_url@
    }

    /// A form that shows `error` and `server_url`.
    pub fn new(error: Option<String>, server_url: String) -> (r: Self)
        ensures
            r.spec_error() == opt_view(error),
            r.spec_server_url() == server_url@,
    {
        Self { error, server_url }
    }

    /// The upper field: the welcome as its label, and the error, or
    /// nothing, as its value.
    pub fn message_field(&self) -> (r: Field)
        ensures
            r.label@ == (
                "Welcome to tooters. Sign in to your mastodon server"@,
                TextStyle::spec_plain().spec_add_modifier(BOLD),
            ),
            r.value@ == (match self.spec_error() {
                Some(e) => e,
                None => Seq::<char>::empty(),
            }),
    {
        match &self.error {
            Some(e) => field("Welcome to tooters. Sign in to your mastodon server", e.as_str()),
            None => {
                let empty = String::new();
                field("Welcome to tooters. Sign in to your mastodon server", empty.as_str())
            },
        }
    }

    /// The lower field: the server address under its label.
    pub fn server_url_field(&self) -> (r: Field)
        ensures
            r.label@ == ("Server URL:"@, TextStyle::spec_plain().spec_add_modifier(BOLD)),
            r.value@ == self.spec_server_url(),
    {
        field("Server URL:", self.server_url.as_str())
    }
}

/// Shows the last log messages, as many as there are rows.
#[derive(Debug)]
pub struct LogWidget {
    logs: Vec<LogMessage>,
}

impl LogWidget {
    /// The messages of the widget, oldest first.
    pub closed spec fn view(&self) -> Seq<LogMessage> {
        self.logs@
    }

    /// A widget over `logs`.
    pub fn new(logs: Vec<LogMessage>) -> (r: Self)
        ensures
            r@ == logs@,
    {
        Self { logs }
    }

    /// The lines for an area `height` rows high: one for each of the last
    /// `height` messages, the level coloured by its name.
    pub fn lines(&self, height: u16) -> (r: Vec<Vec<Span>>)
        ensures
            lines_view(r@) == message_lines(
                messages_view(self@).skip(tail_start(self@.len(), height as nat) as int),
            ),
    {
        let max_lines = height as usize;
        let len = self.logs.len();
        let start_index: usize = if len > max_lines { len - max_lines } else { 0 };
        let mut out: Vec<Vec<Span>> = Vec::new();
        let mut i: usize = start_index;
        while i < len
            invariant
                len == self.logs.len(),
                start_index <= i <= len,
                out@.len() == i - start_index,
                forall|k: int|
                    0 <= k < i - start_index ==> line_view((#[trigger] out@[k])@) == message_line(
                        self.logs@[start_index + k]@,
                        level_color_spec(self.logs@[start_index + k].level),
                    ),
            decreases len - i,
        {
            let log = &self.logs[i];
            let level_color = name_color(log.level.as_str());
            proof {
                lemma_name_color_is_level_color(log.level);
            }
            let mut line: Vec<Span> = Vec::new();
            line.push(Span::styled(log.level.as_str(), TextStyle::plain().fg(level_color)));
            line.push(Span::raw(" "));
            line.push(Span::styled(log.target.as_str(), TextStyle::plain().add_modifier(DIM)));
            line.push(Span::styled(": ", TextStyle::plain().add_modifier(DIM)));
            line.push(Span::styled(log.message.as_str(), TextStyle::plain()));
            assert(line_view(line@) =~= message_line(log@, level_color_spec(log.level)));
            out.push(line);
            i += 1;
        }
        assert(lines_view(out@) =~= message_lines(messages_view(self@).skip(start_index as int)));
        out
    }
}

} // verus!
