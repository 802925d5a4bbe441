//! The marks and styles that stand for HTML markup in rendered text.

use vstd::prelude::*;
use vstd::string::*;
use crate::style::{Color, TextStyle, BOLD, CROSSED_OUT, ITALIC, UNDERLINED};
use crate::text::{decimal, int_digits, repeat, repeated};

verus! {

/// The addresses of links, innermost last.
pub open spec fn links_view(links: Seq<String>) -> Seq<Seq<char>> {
    links.map_values(|l: String| l@)
}

/// The style of link text.
pub open spec fn link_style() -> TextStyle {
    TextStyle::spec_plain().spec_fg(Color::Rgb(192, 192, 208)).spec_add_modifier(UNDERLINED)
}

/// The style of inline code.
pub open spec fn code_style() -> TextStyle {
    TextStyle::spec_plain().spec_fg(Color::White).spec_bg(Color::Rgb(0, 16, 32))
}

/// Decorates rendered HTML in the manner of Markdown, with a style for
/// each kind of markup. It remembers the links that are open, so that the
/// end of a link can show its address.
#[derive(Debug)]
pub struct StyledDecorator {
    links: Vec<String>,
}

impl StyledDecorator {
    /// The addresses of the links that are open, innermost last.
    pub closed spec fn view(&self) -> Seq<Seq<char>> {
        links_view(self.links@)
    }

    /// A decorator with no link open.
    pub fn new() -> (r: StyledDecorator)
        ensures
            r@ == Seq::<Seq<char>>::empty(),
    {
        let r = StyledDecorator { links: Vec::new() };
        assert(r@ =~= Seq::<Seq<char>>::empty());
        r
    }

    /// The number of links that are open.
    pub fn open_links(&self) -> (r: usize)
        ensures
            r == self@.len(),
    {
        self.links.len()
    }

    /// Opens a link to `url`: the address is remembered, and the link text
    /// begins with a bracket.
    pub fn decorate_link_start(&mut self, url: &str) -> (r: (String, TextStyle))
        ensures
            final(self)@ == old(self)@.push(url@),
            r.0@ == "["@,
            r.1 == link_style(),
    {
        self.links.push(String::from_str(url));
        assert(self@ =~= old(self)@.push(url@));
        (
            String::from_str("["),
            TextStyle::plain().fg(Color::Rgb(192, 192, 208)).add_modifier(UNDERLINED),
        )
    }

    /// Closes the innermost open link: the link text ends with a bracket
    /// and the address in parentheses.
    pub fn decorate_link_end(&mut self) -> (r: String)
        requires
            old(self)@.len() > 0,
        ensures
            final(self)@ == old(self)@.drop_last(),
            r@ == "]("@ + old(self)@.last() + ")"@,
    {
        let link = self.links.pop().unwrap();
        assert(self@ =~= old(self)@.drop_last());
        assert(link@ == old(self)@.last());
        let mut out = String::from_str("](");
        out.append(link.as_str());
        out.append(")");
        out
    }

    /// Emphasis begins with an asterisk and is italic.
    pub fn decorate_em_start(&mut self) -> (r: (String, TextStyle))
        ensures
            final(self)@ == old(self)@,
            r.0@ == "*"@,
            r.1 == TextStyle::spec_plain().spec_add_modifier(ITALIC),
    {
        (String::from_str("*"), TextStyle::plain().add_modifier(ITALIC))
    }

    /// Emphasis ends with an asterisk.
    pub fn decorate_em_end(&mut self) -> (r: String)
        ensures
            final(self)@ == old(self)@,
            r@ == "*"@,
    {
        String::from_str("*")
    }

    /// Strong text begins with two asterisks and is bold.
    pub fn decorate_strong_start(&mut self) -> (r: (String, TextStyle))
        ensures
            final(self)@ == old(self)@,
            r.0@ == "**"@,
            r.1 == TextStyle::spec_plain().spec_add_modifier(BOLD),
    {
        (String::from_str("**"), TextStyle::plain().add_modifier(BOLD))
    }

    /// Strong text ends with two asterisks.
    pub fn decorate_strong_end(&mut self) -> (r: String)
        ensures
            final(self)@ == old(self)@,
            r@ == "**"@,
    {
        String::from_str("**")
    }

    /// Struck-out text has no mark of its own and is crossed out.
    pub fn decorate_strikeout_start(&mut self) -> (r: (String, TextStyle))
        ensures
            final(self)@ == old(self)@,
            r.0@ == ""@,
            r.1 == TextStyle::spec_plain().spec_add_modifier(CROSSED_OUT),
    {
        (String::from_str(""), TextStyle::plain().add_modifier(CROSSED_OUT))
    }

    /// Struck-out text ends without a mark.
    pub fn decorate_strikeout_end(&mut self) -> (r: String)
        ensures
            final(self)@ == old(self)@,
            r@ == ""@,
    {
        String::from_str("")
    }

    /// Inline code begins with a backtick, white on a dark background.
    pub fn decorate_code_start(&mut self) -> (r: (String, TextStyle))
        ensures
            final(self)@ == old(self)@,
            r.0@ == "`"@,
            r.1 == code_style(),
    {
        (String::from_str("`"), TextStyle::plain().fg(Color::White).bg(Color::Rgb(0, 16, 32)))
    }

    /// Inline code ends with a backtick.
    pub fn decorate_code_end(&mut self) -> (r: String)
        ensures
            final(self)@ == old(self)@,
            r@ == "`"@,
    {
        String::from_str("`")
    }

    /// The first line of preformatted text is not styled.
    pub fn decorate_preformat_first(&mut self) -> (r: TextStyle)
        ensures
            final(self)@ == old(self)@,
            r == TextStyle::spec_plain(),
    {
        TextStyle::plain()
    }

    /// The further lines of preformatted text are not styled.
    pub fn decorate_preformat_cont(&mut self) -> (r: TextStyle)
        ensures
            final(self)@ == old(self)@,
            r == TextStyle::spec_plain(),
    {
        TextStyle::plain()
    }

    /// An image is shown by its title and source, unstyled.
    pub fn decorate_image(&mut self, src: &str, title: &str) -> (r: (String, TextStyle))
        ensures
            final(self)@ == old(self)@,
            r.0@ == "!["@ + title@ + "]("@ + src@ + ")"@,
            r.1 == TextStyle::spec_plain(),
    {
        let mut out = String::from_str("![");
        out.append(title);
        out.append("](");
        out.append(src);
        out.append(")");
        (out, TextStyle::plain())
    }

    /// A heading of the given level begins with that many hash signs and a
    /// blank.
    pub fn header_prefix(&mut self, level: usize) -> (r: String)
        ensures
            final(self)@ == old(self)@,
            r@ == repeated("#"@, level as nat) + " "@,
    {
        let mut out = repeat("#", level);
        out.append(" ");
        out
    }

    /// A quoted line begins with an angle bracket and a blank.
    pub fn quote_prefix(&mut self) -> (r: String)
        ensures
            final(self)@ == old(self)@,
            r@ == "> "@,
    {
        String::from_str("> ")
    }

    /// An item of a plain list begins with an asterisk and a blank.
    pub fn unordered_item_prefix(&mut self) -> (r: String)
        ensures
            final(self)@ == old(self)@,
            r@ == "* "@,
    {
        String::from_str("* ")
    }

    /// An item of a numbered list begins with its number in decimal, a
    /// full stop and a blank.
    pub fn ordered_item_prefix(&mut self, i: i64) -> (r: String)
        ensures
            final(self)@ == old(self)@,
            r@ == int_digits(i as int) + ". "@,
    {
        let mut out = decimal(i);
        out.append(". ");
        out
    }

    /// The decorator for a nested block: a fresh one, with no link open.
    pub fn make_subblock_decorator(&self) -> (r: StyledDecorator)
        ensures
            r@ == Seq::<Seq<char>>::empty(),
    {
        StyledDecorator::new()
    }
}

/// Links nest: closing a link that was just opened shows its address and
/// leaves the links that were open before.
pub proof fn lemma_links_nest(open: Seq<Seq<char>>, url: Seq<char>)
    ensures
        open.push(url).last() == url,
        open.push(url).drop_last() == open,
{
    assert(open.push(url).drop_last() =~= open);
}

/// The kinds of markup that rendered text can carry.
#[derive(Debug, Clone, PartialEq, Eq)]
pub enum Annotation {
    Default,
    /// A link, with its target.
    Link(String),
    /// An image, with its source.
    Image(String),
    Emphasis,
    Strong,
    Strikeout,
    Code,
    /// Preformatted text; `true` on the continuation of a long line.
    Preformat(bool),
}

/// The characters that switch a kind of markup on, for a terminal that
/// understands ANSI escape sequences.
pub open spec fn colour_start(annotation: Annotation) -> Seq<char> {
    match annotation {
        Annotation::Default => ""@,
        Annotation::Link(link) => "\x1B]8;;"@ + link@ + "\x1B\\"@,
        Annotation::Image(_) => ""@,
        Annotation::Emphasis => "\x1B[3m"@,
        Annotation::Strong => "\x1B[1m"@,
        Annotation::Strikeout => "\x1B[9m"@,
        Annotation::Code => "`"@,
        Annotation::Preformat(_) => "```"@,
    }
}

/// The characters that switch a kind of markup off again.
pub open spec fn colour_end(annotation: Annotation) -> Seq<char> {
    match annotation {
        Annotation::Default => ""@,
        Annotation::Link(_) => "\x1B]8;;\x1B\\"@,
        Annotation::Image(_) => ""@,
        Annotation::Emphasis => "\x1B[23m"@,
        Annotation::Strong => "\x1B[22m"@,
        Annotation::Strikeout => "\x1B[29m"@,
        Annotation::Code => "`"@,
        Annotation::Preformat(_) => "```"@,
    }
}

/// The pair of escape sequences that go before and behind text of the
/// given kind: a hyperlink, italics, bold, strike-through, or backticks
/// for code.
pub fn default_colour_map(annotation: &Annotation) -> (r: (String, String))
    ensures
        r.0@ == colour_start(*annotation),
        r.1@ == colour_end(*annotation),
{
    match annotation {
        Annotation::Default => (String::from_str(""), String::from_str("")),
        Annotation::Link(link) => {
            let mut start = String::from_str("\x1B]8;;");
            start.append(link.as_str());
            start.append("\x1B\\");
            (start, String::from_str("\x1B]8;;\x1B\\"))
        },
        Annotation::Image(_) => (String::from_str(""), String::from_str("")),
        Annotation::Emphasis => (String::from_str("\x1B[3m"), String::from_str("\x1B[23m")),
        Annotation::Strong => (String::from_str("\x1B[1m"), String::from_str("\x1B[22m")),
        Annotation::Strikeout => (String::from_str("\x1B[9m"), String::from_str("\x1B[29m")),
        Annotation::Code => (String::from_str("`"), String::from_str("`")),
        Annotation::Preformat(_) => (String::from_str("```"), String::from_str("```")),
    }
}

} // verus!
