//! Log messages, the collector that keeps them, and the lines that show
//! them.

use vstd::prelude::*;
use vstd::string::*;
use crate::style::{line_view, Color, Span, TextStyle, DIM};

verus! {

/// How severe a log message is.
#[derive(Debug, Clone, Copy, PartialEq, Eq, Structural)]
pub enum Level {
    Error,
    Warn,
    Info,
    Debug,
    Trace,
}

/// The name of a level, in capitals.
pub open spec fn level_name(level: Level) -> Seq<char> {
    match level {
        Level::Error => "ERROR"@,
        Level::Warn => "WARN"@,
        Level::Info => "INFO"@,
        Level::Debug => "DEBUG"@,
        Level::Trace => "TRACE"@,
    }
}

/// The colour in which a level is shown.
pub open spec fn level_color_spec(level: Level) -> Color {
    match level {
        Level::Error => Color::Red,
        Level::Warn => Color::Yellow,
        Level::Info => Color::Green,
        Level::Debug => Color::Blue,
        Level::Trace => Color::Cyan,
    }
}

/// The colour for a level given by name: that of the level for the five
/// names in capitals, white for every other text.
pub open spec fn name_color_spec(name: Seq<char>) -> Color {
    if name == "ERROR"@ {
        Color::Red
    } else if name == "WARN"@ {
        Color::Yellow
    } else if name == "INFO"@ {
        Color::Green
    } else if name == "DEBUG"@ {
        Color::Blue
    } else if name == "TRACE"@ {
        Color::Cyan
    } else {
        Color::White
    }
}

/// Looking a level's colour up by its name gives the colour of the level.
pub proof fn lemma_name_color_is_level_color(level: Level)
    ensures
        name_color_spec(level_name(level)) == level_color_spec(level),
{
    reveal_strlit("ERROR");
    reveal_strlit("WARN");
    reveal_strlit("INFO");
    reveal_strlit("DEBUG");
    reveal_strlit("TRACE");
    assert("ERROR"@.len() == 5 && "WARN"@.len() == 4 && "INFO"@.len() == 4);
    assert("DEBUG"@.len() == 5 && "TRACE"@.len() == 5);
    assert("ERROR"@[0] == 'E' && "DEBUG"@[0] == 'D' && "TRACE"@[0] == 'T');
    assert("WARN"@[0] == 'W' && "INFO"@[0] == 'I');
}

impl Level {
    /// The name of the level, in capitals.
    pub fn as_str(&self) -> (r: &'static str)
        ensures
            r@ == level_name(*self),
    {
        match self {
            Level::Error => "ERROR",
            Level::Warn => "WARN",
            Level::Info => "INFO",
            Level::Debug => "DEBUG",
            Level::Trace => "TRACE",
        }
    }
}

/// The colour in which a level is shown.
pub fn level_color(level: Level) -> (r: Color)
    ensures
        r == level_color_spec(level),
{
    match level {
        Level::Error => Color::Red,
        Level::Warn => Color::Yellow,
        Level::Info => Color::Green,
        Level::Debug => Color::Blue,
        Level::Trace => Color::Cyan,
    }
}

fn same_text(a: &str, b: &str) -> (r: bool)
    ensures
        r == (a@ == b@),
{
    String::from_str(a) == String::from_str(b)
}

/// The colour for a level given by name.
pub fn name_color(name: &str) -> (r: Color)
    ensures
        r == name_color_spec(name@),
{
    if same_text(name, "ERROR") {
        Color::Red
    } else if same_text(name, "WARN") {
        Color::Yellow
    } else if same_text(name, "INFO") {
        Color::Green
    } else if same_text(name, "DEBUG") {
        Color::Blue
    } else if same_text(name, "TRACE") {
        Color::Cyan
    } else {
        Color::White
    }
}

/// A log message: its level, where it came from, its text, and the other
/// fields that were recorded with it.
#[derive(Debug, Clone, PartialEq, Eq)]
pub struct LogMessage {
    pub level: Level,
    pub target: String,
    pub message: String,
    pub fields: Vec<(String, String)>,
}

/// A log message as plain values.
pub struct LogMessageView {
    pub level: Level,
    pub target: Seq<char>,
    pub message: Seq<char>,
    pub fields: Seq<(Seq<char>, Seq<char>)>,
}

/// The recorded fields as plain values.
pub open spec fn fields_view(fields: Seq<(String, String)>) -> Seq<(Seq<char>, Seq<char>)> {
    fields.map_values(|f: (String, String)| (f.0@, f.1@))
}

/// The line that shows a message: the level in its colour, a blank, the
/// target and a colon dimmed, and the text.
pub open spec fn message_line(m: LogMessageView, color: Color) -> Seq<(Seq<char>, TextStyle)> {
    seq![
        (level_name(m.level), TextStyle::spec_plain().spec_fg(color)),
        (" "@, TextStyle::spec_plain()),
        (m.target, TextStyle::spec_plain().spec_add_modifier(DIM)),
        (": "@, TextStyle::spec_plain().spec_add_modifier(DIM)),
        (m.message, TextStyle::spec_plain()),
    ]
}

impl LogMessage {
    /// The message as plain values.
    pub open spec fn view(&self) -> LogMessageView {
        LogMessageView {
            level: self.level,
            target: self.target@,
            message: self.message@,
            fields: fields_view(self.fields@),
        }
    }

    /// A message of the given level and target, without text or fields.
    pub fn new(level: Level, target: String) -> (r: LogMessage)
        ensures
            r@ == (LogMessageView {
                level,
                target: target@,
                message: Seq::<char>::empty(),
                fields: Seq::<(Seq<char>, Seq<char>)>::empty(),
            }),
    {
        let r = LogMessage { level, target, message: String::new(), fields: Vec::new() };
        assert(fields_view(r.fields@) =~= Seq::<(Seq<char>, Seq<char>)>::empty());
        r
    }

    /// Records a field of a log event. The field named `message` becomes
    /// the text; every other field is kept, with its name, behind those
    /// recorded before.
    pub fn record_debug(&mut self, field: &str, value: &str)
        ensures
            field@ == "message"@ ==> final(self)@ == (LogMessageView {
                message: value@,
                ..old(self)@
            }),
            field@ != "message"@ ==> final(self)@ == (LogMessageView {
                fields: old(self)@.fields.push((field@, value@)),
                ..old(self)@
            }),
    {
        if same_text(field, "message") {
            self.message = String::from_str(value);
        } else {
            self.fields.push((String::from_str(field), String::from_str(value)));
            assert(fields_view(self.fields@) =~= fields_view(old(self).fields@).push(
                (field@, value@),
            ));
        }
    }

    /// The line that shows the message.
    pub fn to_line(&self) -> (r: Vec<Span>)
        ensures
            line_view(r@) == message_line(self@, level_color_spec(self.level)),
    {
        let mut line: Vec<Span> = Vec::new();
        line.push(Span::styled(self.level.as_str(), TextStyle::plain().fg(level_color(self.level))));
        line.push(Span::raw(" "));
        line.push(Span::styled(self.target.as_str(), TextStyle::plain().add_modifier(DIM)));
        line.push(Span::styled(": ", TextStyle::plain().add_modifier(DIM)));
        line.push(Span::raw(self.message.as_str()));
        assert(line_view(line@) =~= message_line(self@, level_color_spec(self.level)));
        line
    }

    /// A copy of the message.
    pub fn duplicate(&self) -> (r: LogMessage)
        ensures
            r@ == self@,
    {
        let mut fields: Vec<(String, String)> = Vec::new();
        let mut i: usize = 0;
        while i < self.fields.len()
            invariant
                i <= self.fields.len(),
                fields@.len() == i,
                forall|k: int| 0 <= k < i ==> #[trigger] fields@[k] == self.fields@[k],
            decreases self.fields.len() - i,
        {
            fields.push((self.fields[i].0.clone(), self.fields[i].1.clone()));
            i += 1;
        }
        assert(fields_view(fields@) =~= fields_view(self.fields@));
        LogMessage {
            level: self.level,
            target: self.target.clone(),
            message: self.message.clone(),
            fields,
        }
    }
}

/// The messages as plain values.
pub open spec fn messages_view(logs: Seq<LogMessage>) -> Seq<LogMessageView> {
    logs.map_values(|m: LogMessage| m@)
}

/// Where the last `n` of `len` messages begin.
pub open spec fn tail_start(len: nat, n: nat) -> nat {
    if len > n {
        (len - n) as nat
    } else {
        0
    }
}

/// The lines that show the messages, each level in its colour.
pub open spec fn message_lines(logs: Seq<LogMessageView>) -> Seq<Seq<(Seq<char>, TextStyle)>> {
    logs.map_values(|m: LogMessageView| message_line(m, level_color_spec(m.level)))
}

/// The views of the spans of each line.
pub open spec fn lines_view(lines: Seq<Vec<Span>>) -> Seq<Seq<(Seq<char>, TextStyle)>> {
    lines.map_values(|l: Vec<Span>| line_view(l@))
}

/// The last `n` of the messages are `n` messages, or all of them where
/// fewer are held, and the newest message is the last of them.
pub proof fn lemma_tail(logs: Seq<LogMessageView>, n: nat)
    ensures
        logs.skip(tail_start(logs.len(), n) as int).len() == (if logs.len() < n {
            logs.len()
        } else {
            n
        }),
        n > 0 && logs.len() > 0 ==> logs.skip(tail_start(logs.len(), n) as int).last()
            == logs.last(),
{
}

/// A message that was just added is the one that the last message shown
/// is, whatever was held before.
pub proof fn lemma_pushed_message_is_shown_last(
    logs: Seq<LogMessageView>,
    log: LogMessageView,
    n: nat,
)
    requires
        n > 0,
    ensures
        logs.push(log).skip(tail_start(logs.push(log).len(), n) as int).last() == log,
{
}

/// Keeps the log messages in the order in which they came.
#[derive(Debug)]
pub struct LogCollector {
    logs: Vec<LogMessage>,
}

impl LogCollector {
    /// The messages held, oldest first.
    pub closed spec fn view(&self) -> Seq<LogMessageView> {
        messages_view(self.logs@)
    }

    /// A collector without messages.
    pub fn new() -> (r: LogCollector)
        ensures
            r@ == Seq::<LogMessageView>::empty(),
    {
        let r = LogCollector { logs: Vec::new() };
        assert(r@ =~= Seq::<LogMessageView>::empty());
        r
    }

    /// Adds a message behind those held.
    pub fn push(&mut self, log: LogMessage)
        ensures
            final(self)@ == old(self)@.push(log@),
    {
        self.logs.push(log);
        assert(self@ =~= old(self)@.push(log@));
    }

    /// The number of messages held.
    pub fn len(&self) -> (r: usize)
        ensures
            r == self@.len(),
    {
        self.logs.len()
    }

    /// All the messages held, oldest first.
    pub fn logs(&self) -> (r: Vec<LogMessage>)
        ensures
            messages_view(r@) == self@,
    {
        let all = self.last_n(self.logs.len());
        assert(self@.skip(0) =~= self@);
        all
    }

    /// The last `n` messages, oldest first; all of them where fewer are
    /// held.
    pub fn last_n(&self, n: usize) -> (r: Vec<LogMessage>)
        ensures
            messages_view(r@) == self@.skip(tail_start(self@.len(), n as nat) as int),
    {
        let len = self.logs.len();
        let start: usize = if len > n { len - n } else { 0 };
        let mut out: Vec<LogMessage> = Vec::new();
        let mut i: usize = start;
        while i < len
            invariant
                len == self.logs.len(),
                start <= i <= len,
                out@.len() == i - start,
                forall|k: int| 0 <= k < i - start ==> (#[trigger] out@[k])@ == self.logs@[start + k]@,
            decreases len - i,
        {
            out.push(self.logs[i].duplicate());
            i += 1;
        }
        assert(messages_view(out@) =~= self@.skip(start as int));
        out
    }

    /// The lines that show the messages in an area `height` rows high: one
    /// line for each of the last `height` messages.
    pub fn lines(&self, height: u16) -> (r: Vec<Vec<Span>>)
        ensures
            lines_view(r@) == message_lines(
                self@.skip(tail_start(self@.len(), height as nat) as int),
            ),
    {
        let logs = self.last_n(height as usize);
        let mut out: Vec<Vec<Span>> = Vec::new();
        let mut i: usize = 0;
        while i < logs.len()
            invariant
                i <= logs.len(),
                out@.len() == i,
                forall|k: int|
                    0 <= k < i ==> line_view((#[trigger] out@[k])@) == message_line(
                        logs@[k]@,
                        level_color_spec(logs@[k].level),
                    ),
            decreases logs.len() - i,
        {
            out.push(logs[i].to_line());
            i += 1;
        }
        assert(lines_view(out@) =~= message_lines(messages_view(logs@)));
        out
    }
}

} // verus!
