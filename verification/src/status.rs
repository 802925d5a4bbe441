//! How a post of the timeline is laid out as text: the header line, the
//! rendered body, the shared post and the link preview.

use time::{OffsetDateTime, UtcOffset};
use vstd::prelude::*;
use vstd::string::*;
use crate::home::{Card, Toot};
use crate::style::{line_view, Color, Span, TextStyle, ITALIC};
use crate::text::{blank, is_blank, trim, trimmed};

verus! {

/// The background of the header line.
pub open spec fn header_bg() -> Color {
    Color::Rgb(80, 96, 128)
}

/// The colour of the less important parts of the header line.
pub open spec fn subtle_fg() -> Color {
    Color::Rgb(160, 176, 208)
}

/// The style of dates and of the word that marks a shared post.
pub open spec fn subtle_style() -> TextStyle {
    TextStyle::spec_plain().spec_bg(header_bg()).spec_fg(subtle_fg())
}

/// The style of account names.
pub open spec fn acct_style() -> TextStyle {
    TextStyle::spec_plain().spec_bg(header_bg()).spec_fg(Color::LightYellow)
}

/// The style of display names.
pub open spec fn display_style() -> TextStyle {
    TextStyle::spec_plain().spec_bg(header_bg()).spec_fg(Color::LightGreen).spec_add_modifier(
        ITALIC,
    )
}

/// The header line of a post whose time of posting reads `date`: date,
/// account and display name, and for a shared post the word `reblogging`
/// with the account and display name of its author; three empty unstyled
/// spans stand in their place otherwise.
pub open spec fn header_spec(toot: Toot, date: Seq<char>) -> Seq<(Seq<char>, TextStyle)> {
    let front = seq![
        (date + " "@, subtle_style()),
        (toot.acct@ + " "@, acct_style()),
        ("("@ + toot.display_name@ + ") "@, display_style()),
    ];
    match toot.reblog {
        Some(reblog) => front + seq![
            ("reblogging "@, subtle_style()),
            (reblog.acct@ + " "@, acct_style()),
            ("("@ + reblog.display_name@ + ") "@, display_style()),
        ],
        None => front + seq![
            (""@, TextStyle::spec_plain()),
            (""@, TextStyle::spec_plain()),
            (""@, TextStyle::spec_plain()),
        ],
    }
}

fn subtle() -> (r: TextStyle)
    ensures
        r == subtle_style(),
{
    TextStyle::plain().bg(Color::Rgb(80, 96, 128)).fg(Color::Rgb(160, 176, 208))
}

fn acct_span(acct: &str) -> (r: Span)
    ensures
        r@ == (acct@ + " "@, acct_style()),
{
    let mut text = String::from_str(acct);
    text.append(" ");
    Span { text, style: TextStyle::plain().bg(Color::Rgb(80, 96, 128)).fg(Color::LightYellow) }
}

fn display_span(display_name: &str) -> (r: Span)
    ensures
        r@ == ("("@ + display_name@ + ") "@, display_style()),
{
    let mut text = String::from_str("(");
    text.append(display_name);
    text.append(") ");
    Span {
        text,
        style: TextStyle::plain().bg(Color::Rgb(80, 96, 128)).fg(Color::LightGreen).add_modifier(
            ITALIC,
        ),
    }
}

/// The text that the `time` crate prints for the moment `unix_seconds`
/// shown at the offset `offset_seconds`, in the format that `description`
/// describes; the empty text where the crate refuses one of the three.
pub uninterp spec fn formatted_time(
    description: Seq<char>,
    unix_seconds: i64,
    offset_seconds: i32,
) -> Seq<char>;

/// Calls `OffsetDateTime::format` of the `time` crate. Its arguments are
/// made of the plain values by `format_description::parse`,
/// `OffsetDateTime::from_unix_timestamp`, `UtcOffset::from_whole_seconds`
/// and `OffsetDateTime::checked_to_offset`, none of which panics; what one
/// of them refuses gives the empty text, as a failure to format does. The
/// result depends on nothing but the three values; the contract gives it a
/// name.
#[allow(deprecated)]
#[verifier::external_body]
fn format_time(description: &str, unix_seconds: i64, offset_seconds: i32) -> (r: String)
    ensures
        r@ == formatted_time(description@, unix_seconds, offset_seconds),
{
    let items = time::format_description::parse(description).unwrap_or_default();
    let at = OffsetDateTime::from_unix_timestamp(unix_seconds).ok();
    let offset = UtcOffset::from_whole_seconds(offset_seconds).ok();
    let local = at.zip(offset).and_then(|(at, offset)| at.checked_to_offset(offset));
    local.and_then(|local| local.format(&items).ok()).unwrap_or_default()
}

/// The format of the time of posting: year, month and day, then hour,
/// minute and second.
pub open spec fn date_format() -> Seq<char> {
    "[year]-[month]-[day] [hour]:[minute]:[second]"@
}

/// The time of posting as the header shows it.
pub open spec fn created_at_spec(toot: Toot) -> Seq<char> {
    formatted_time(date_format(), toot.created_at.unix_seconds, toot.created_at.offset_seconds)
}

/// The time of posting as the header shows it: year, month and day, then
/// hour, minute and second, at the offset that the post carries.
pub fn created_at_text(toot: &Toot) -> (r: String)
    ensures
        r@ == created_at_spec(*toot),
{
    format_time(
        "[year]-[month]-[day] [hour]:[minute]:[second]",
        toot.created_at.unix_seconds,
        toot.created_at.offset_seconds,
    )
}

/// Builds the header line of a post whose time of posting reads `date`.
pub fn format_header(toot: &Toot, date: &str) -> (r: Vec<Span>)
    ensures
        line_view(r@) == header_spec(*toot, date@),
{
    let ghost old_date = date@;
    let mut date = String::from_str(date);
    date.append(" ");
    let mut line: Vec<Span> = Vec::new();
    line.push(Span { text: date, style: subtle() });
    line.push(acct_span(toot.acct.as_str()));
    line.push(display_span(toot.display_name.as_str()));
    match &toot.reblog {
        Some(reblog) => {
            line.push(Span::styled("reblogging ", subtle()));
            line.push(acct_span(reblog.acct.as_str()));
            line.push(display_span(reblog.display_name.as_str()));
        },
        None => {
            line.push(Span::raw(""));
            line.push(Span::raw(""));
            line.push(Span::raw(""));
        },
    }
    assert(line_view(line@) =~= header_spec(*toot, old_date));
    line
}

/// The style that marks the post under the cursor: a dark background.
pub fn highlight_style() -> (r: TextStyle)
    ensures
        r == TextStyle::spec_plain().spec_bg(Color::Rgb(24, 32, 40)),
{
    TextStyle::plain().bg(Color::Rgb(24, 32, 40))
}

/// A piece of rendered text with the styles that apply to it, outermost
/// first.
#[derive(Debug, Clone, PartialEq, Eq)]
pub struct TaggedText {
    pub text: String,
    pub tags: Vec<TextStyle>,
}

/// The styles of `tags` applied one after the other, beginning with the
/// plain style.
pub open spec fn patched(tags: Seq<TextStyle>) -> TextStyle
    decreases tags.len(),
{
    if tags.len() == 0 {
        TextStyle::spec_plain()
    } else {
        patched(tags.drop_last()).spec_patch(tags.last())
    }
}

/// The spans of a rendered line: each piece keeps its text and gets the
/// one style that its tags add up to.
pub open spec fn line_spans(line: Seq<TaggedText>) -> Seq<(Seq<char>, TextStyle)> {
    line.map_values(|t: TaggedText| (t.text@, patched(t.tags@)))
}

/// The spans of each rendered line.
pub open spec fn lines_spans(lines: Seq<Vec<TaggedText>>) -> Seq<Seq<(Seq<char>, TextStyle)>> {
    lines.map_values(|l: Vec<TaggedText>| line_spans(l@))
}

/// The views of the spans of each line.
pub open spec fn lines_view(lines: Seq<Vec<Span>>) -> Seq<Seq<(Seq<char>, TextStyle)>> {
    lines.map_values(|l: Vec<Span>| line_view(l@))
}

fn patch_all(tags: &Vec<TextStyle>) -> (r: TextStyle)
    ensures
        r == patched(tags@),
{
    let mut style = TextStyle::plain();
    let mut i: usize = 0;
    assert(tags@.take(0) =~= Seq::<TextStyle>::empty());
    while i < tags.len()
        invariant
            i <= tags.len(),
            style == patched(tags@.take(i as int)),
        decreases tags.len() - i,
    {
        assert(tags@.take(i + 1).drop_last() =~= tags@.take(i as int));
        style = style.patch(tags[i]);
        i += 1;
    }
    assert(tags@.take(tags.len() as int) =~= tags@);
    style
}

fn to_line(line: &Vec<TaggedText>) -> (r: Vec<Span>)
    ensures
        line_view(r@) == line_spans(line@),
{
    let mut spans: Vec<Span> = Vec::new();
    let mut i: usize = 0;
    while i < line.len()
        invariant
            i <= line.len(),
            spans@.len() == i,
            forall|k: int| 0 <= k < i ==> (#[trigger] spans@[k])@ == (
                line@[k].text@,
                patched(line@[k].tags@),
            ),
        decreases line.len() - i,
    {
        let style = patch_all(&line[i].tags);
        spans.push(Span { text: line[i].text.clone(), style });
        i += 1;
    }
    assert(line_view(spans@) =~= line_spans(line@));
    spans
}

/// Turns rendered lines into lines of spans, one span per piece.
pub fn to_spans(lines: &Vec<Vec<TaggedText>>) -> (r: Vec<Vec<Span>>)
    ensures
        lines_view(r@) == lines_spans(lines@),
{
    let mut out: Vec<Vec<Span>> = Vec::new();
    let mut i: usize = 0;
    while i < lines.len()
        invariant
            i <= lines.len(),
            out@.len() == i,
            forall|k: int| 0 <= k < i ==> line_view((#[trigger] out@[k])@) == line_spans(lines@[k]@),
        decreases lines.len() - i,
    {
        out.push(to_line(&lines[i]));
        i += 1;
    }
    assert(lines_view(out@) =~= lines_spans(lines@));
    out
}

/// The text of a link preview before it is wrapped: the address, then the
/// title and the description, each on a line of its own and only where it
/// is not blank.
pub open spec fn card_text_spec(card: Card) -> Seq<char> {
    card.url@ + (if blank(card.title@) {
        Seq::<char>::empty()
    } else {
        "\ntitle: "@ + card.title@
    }) + (if blank(card.description@) {
        Seq::<char>::empty()
    } else {
        "\ndescription: "@ + card.description@
    })
}

/// Puts the text of a link preview together.
pub fn card_text(card: &Card) -> (r: String)
    ensures
        r@ == card_text_spec(*card),
{
    let mut content = card.url.clone();
    if !is_blank(card.title.as_str()) {
        content.append("\ntitle: ");
        content.append(card.title.as_str());
    }
    if !is_blank(card.description.as_str()) {
        content.append("\ndescription: ");
        content.append(card.description.as_str());
    }
    assert(content@ =~= card_text_spec(*card));
    content
}

/// `text` wrapped to lines of at most `width` columns, the first line
/// beginning with `initial_indent` and the others with
/// `subsequent_indent`, as the wrapping library lays it out.
pub uninterp spec fn filled(
    text: Seq<char>,
    width: usize,
    initial_indent: Seq<char>,
    subsequent_indent: Seq<char>,
) -> Seq<char>;

/// Calls `textwrap::fill` with options of the given width and indents and
/// the library's defaults otherwise. The result depends on nothing but
/// these four values; the contract gives it a name.
#[verifier::external_body]
fn fill(text: &str, width: usize, initial_indent: &str, subsequent_indent: &str) -> (r: String)
    ensures
        r@ == filled(text@, width, initial_indent@, subsequent_indent@),
{
    let options = textwrap::Options::new(width).initial_indent(initial_indent).subsequent_indent(
        subsequent_indent,
    );
    textwrap::fill(text, options)
}

/// The mark that stands before each line of a link preview.
pub open spec fn card_indent() -> Seq<char> {
    "\u{258c} "@
}

/// Lays out a link preview: its text, wrapped two columns short of
/// `width`, each line behind the preview mark.
pub fn format_card(card: &Card, width: u16) -> (r: String)
    requires
        width >= 2,
    ensures
        r@ == filled(card_text_spec(*card), (width - 2) as usize, card_indent(), card_indent()),
{
    let content = card_text(card);
    let columns: u16 = width - 2;
    fill(content.as_str(), columns as usize, "\u{258c} ", "\u{258c} ")
}

/// A part of the text of a post.
#[derive(Debug, Clone, PartialEq, Eq)]
pub enum TextPart {
    /// One line of styled spans.
    Line(Vec<Span>),
    /// Text of one style that may run over several lines.
    Block(String, TextStyle),
}

/// A part of the text of a post, as plain values.
pub enum TextPartView {
    Line(Seq<(Seq<char>, TextStyle)>),
    Block(Seq<char>, TextStyle),
}

impl TextPart {
    /// The part as plain values.
    pub open spec fn view(&self) -> TextPartView {
        match *self {
            TextPart::Line(spans) => TextPartView::Line(line_view(spans@)),
            TextPart::Block(text, style) => TextPartView::Block(text@, style),
        }
    }
}

/// The parts of a text, as plain values.
pub open spec fn parts_view(parts: Seq<TextPart>) -> Seq<TextPartView> {
    parts.map_values(|p: TextPart| p@)
}

/// Each line as a part of a text.
pub open spec fn as_parts(lines: Seq<Seq<(Seq<char>, TextStyle)>>) -> Seq<TextPartView> {
    lines.map_values(|l: Seq<(Seq<char>, TextStyle)>| TextPartView::Line(l))
}

/// A request to render HTML to lines of a given width.
#[derive(Debug, Clone, PartialEq, Eq)]
pub struct RenderJob {
    pub html: String,
    pub width: usize,
}

/// The body of a post that has to be rendered, if any: the trimmed HTML at
/// the full width, unless the body is blank.
pub fn content_job(toot: &Toot, width: u16) -> (r: Option<RenderJob>)
    ensures
        blank(toot.content@) ==> r.is_none(),
        !blank(toot.content@) ==> r.is_some() && r.unwrap().html@ == trimmed(toot.content@)
            && r.unwrap().width == width,
{
    proof {
        crate::text::lemma_trimmed_empty_iff_blank(toot.content@);
    }
    let html = trim(toot.content.as_str());
    if html.unicode_len() == 0 {
        None
    } else {
        Some(RenderJob { html: String::from_str(html), width: width as usize })
    }
}

/// The shared post that has to be rendered, if any: its HTML as it is, two
/// columns short of the full width.
pub fn reblog_job(toot: &Toot, width: u16) -> (r: Option<RenderJob>)
    requires
        toot.reblog.is_some() ==> width >= 2,
    ensures
        match toot.reblog {
            Some(reblog) => r.is_some() && r.unwrap().html@ == reblog.content@ && r.unwrap().width
                == width - 2,
            None => r.is_none(),
        },
{
    match &toot.reblog {
        Some(reblog) => {
            let columns: u16 = width - 2;
            Some(RenderJob { html: reblog.content.clone(), width: columns as usize })
        },
        None => None,
    }
}

/// The text of a post whose time of posting reads `date`. The header line
/// comes first. The rendered body follows unless the body is blank, then
/// the rendered shared post if there is one, then the link preview in dark
/// gray if there is one, and an empty block closes the text.
pub open spec fn format_status_spec(
    toot: Toot,
    date: Seq<char>,
    width: u16,
    content: Seq<Vec<TaggedText>>,
    reblog_content: Seq<Vec<TaggedText>>,
) -> Seq<TextPartView> {
    seq![TextPartView::Line(header_spec(toot, date))] + (if blank(toot.content@) {
        Seq::<TextPartView>::empty()
    } else {
        as_parts(lines_spans(content))
    }) + (if toot.reblog.is_some() {
        as_parts(lines_spans(reblog_content))
    } else {
        Seq::<TextPartView>::empty()
    }) + (match toot.card {
        Some(card) => seq![
            TextPartView::Block(
                filled(card_text_spec(card), (width - 2) as usize, card_indent(), card_indent()),
                TextStyle::spec_plain().spec_fg(Color::DarkGray),
            ),
        ],
        None => Seq::<TextPartView>::empty(),
    }) + seq![TextPartView::Block(""@, TextStyle::spec_plain())]
}

fn push_lines(parts: &mut Vec<TextPart>, lines: &Vec<Vec<TaggedText>>)
    ensures
        parts_view(final(parts)@) == parts_view(old(parts)@) + as_parts(lines_spans(lines@)),
{
    let ghost before = parts@;
    let mut i: usize = 0;
    while i < lines.len()
        invariant
            i <= lines.len(),
            parts@.len() == before.len() + i,
            forall|k: int| 0 <= k < before.len() ==> parts@[k] == before[k],
            forall|j: int|
                before.len() <= j < before.len() + i ==> (#[trigger] parts@[j])@
                    == TextPartView::Line(line_spans(lines@[j - before.len()]@)),
        decreases lines.len() - i,
    {
        parts.push(TextPart::Line(to_line(&lines[i])));
        i += 1;
    }
    let ghost added = as_parts(lines_spans(lines@));
    assert forall|j: int| 0 <= j < parts@.len() implies parts_view(parts@)[j] == (parts_view(before)
        + added)[j] by {
        if j >= before.len() {
            assert(parts@[j]@ == TextPartView::Line(line_spans(lines@[j - before.len()]@)));
            assert(added[j - before.len()] == TextPartView::Line(
                lines_spans(lines@)[j - before.len()],
            ));
        }
    }
    assert(parts_view(parts@) =~= parts_view(before) + added);
}

/// Lays out a post whose time of posting reads `date`. `content` and
/// `reblog_content` hold the lines that rendering [`content_job`] and
/// [`reblog_job`] gave; each is looked at only where its job exists. A
/// shared post and a link preview are laid out two columns short, so a
/// post with either needs a width of two or more.
pub fn format_status_dated(
    toot: &Toot,
    date: &str,
    width: u16,
    content: &Vec<Vec<TaggedText>>,
    reblog_content: &Vec<Vec<TaggedText>>,
) -> (r: Vec<TextPart>)
    requires
        toot.reblog.is_some() || toot.card.is_some() ==> width >= 2,
    ensures
        parts_view(r@) == format_status_spec(*toot, date@, width, content@, reblog_content@),
{
    let mut parts: Vec<TextPart> = Vec::new();
    parts.push(TextPart::Line(format_header(toot, date)));
    assert(parts_view(parts@) =~= seq![TextPartView::Line(header_spec(*toot, date@))]);
    if !is_blank(toot.content.as_str()) {
        push_lines(&mut parts, content);
    }
    if toot.reblog.is_some() {
        push_lines(&mut parts, reblog_content);
    }
    let ghost with_reblog = parts_view(parts@);
    match &toot.card {
        Some(card) => {
            let text = format_card(card, width);
            parts.push(TextPart::Block(text, TextStyle::plain().fg(Color::DarkGray)));
            assert(parts_view(parts@) =~= with_reblog + seq![
                TextPartView::Block(
                    filled(
                        card_text_spec(*card),
                        (width - 2) as usize,
                        card_indent(),
                        card_indent(),
                    ),
                    TextStyle::spec_plain().spec_fg(Color::DarkGray),
                ),
            ]);
        },
        None => {},
    }
    let ghost with_card = parts_view(parts@);
    parts.push(TextPart::Block(String::from_str(""), TextStyle::plain()));
    assert(parts_view(parts@) =~= with_card + seq![
        TextPartView::Block(""@, TextStyle::spec_plain()),
    ]);
    assert(parts_view(parts@) =~= format_status_spec(
        *toot,
        date@,
        width,
        content@,
        reblog_content@,
    ));
    parts
}

/// Lays out a post, with its time of posting as [`created_at_text`] reads
/// it.
pub fn format_status(
    toot: &Toot,
    width: u16,
    content: &Vec<Vec<TaggedText>>,
    reblog_content: &Vec<Vec<TaggedText>>,
) -> (r: Vec<TextPart>)
    requires
        toot.reblog.is_some() || toot.card.is_some() ==> width >= 2,
    ensures
        parts_view(r@) == format_status_spec(
            *toot,
            created_at_spec(*toot),
            width,
            content@,
            reblog_content@,
        ),
{
    let date = created_at_text(toot);
    format_status_dated(toot, date.as_str(), width, content, reblog_content)
}

} // verus!
