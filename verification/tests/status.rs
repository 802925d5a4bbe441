use time::{OffsetDateTime, UtcOffset};
use tooters::home::{Card, Reblog, Timestamp, Toot};
use tooters::status::{
    card_text, content_job, created_at_text, format_card, format_header, format_status,
    format_status_dated, highlight_style, reblog_job, to_spans, RenderJob, TaggedText, TextPart,
};
use tooters::style::{Color, Span, TextStyle, BOLD, CROSSED_OUT, ITALIC, UNDERLINED};

fn plain() -> TextStyle {
    TextStyle { fg: None, bg: None, add_modifier: 0, sub_modifier: 0 }
}

fn subtle() -> TextStyle {
    TextStyle {
        fg: Some(Color::Rgb(160, 176, 208)),
        bg: Some(Color::Rgb(80, 96, 128)),
        add_modifier: 0,
        sub_modifier: 0,
    }
}

fn acct() -> TextStyle {
    TextStyle {
        fg: Some(Color::LightYellow),
        bg: Some(Color::Rgb(80, 96, 128)),
        add_modifier: 0,
        sub_modifier: 0,
    }
}

fn display() -> TextStyle {
    TextStyle {
        fg: Some(Color::LightGreen),
        bg: Some(Color::Rgb(80, 96, 128)),
        add_modifier: ITALIC,
        sub_modifier: 0,
    }
}

fn span(text: &str, style: TextStyle) -> Span {
    Span { text: text.to_string(), style }
}

fn toot() -> Toot {
    Toot {
        created_at: Timestamp { unix_seconds: 1_680_352_200, offset_seconds: 0 },
        acct: "alice@example.social".to_string(),
        display_name: "Alice".to_string(),
        content: "  <p>hello</p> ".to_string(),
        url: None,
        reblog: None,
        card: None,
    }
}

fn card() -> Card {
    Card {
        url: "https://example.com".to_string(),
        title: "Title".to_string(),
        description: "aaa bbb ccc ddd".to_string(),
    }
}

#[test]
fn header_of_a_plain_post() {
    assert_eq!(
        format_header(&toot(), "2023-04-01 12:30:00"),
        vec![
            span("2023-04-01 12:30:00 ", subtle()),
            span("alice@example.social ", acct()),
            span("(Alice) ", display()),
            span("", plain()),
            span("", plain()),
            span("", plain()),
        ]
    );
}

#[test]
fn header_of_a_shared_post() {
    let mut t = toot();
    t.reblog = Some(Reblog {
        acct: "bob".to_string(),
        display_name: "Bob B".to_string(),
        content: "<p>shared</p>".to_string(),
    });
    let header = format_header(&t, "");
    assert_eq!(header[0], span(" ", subtle()));
    assert_eq!(header.len(), 6);
    assert_eq!(header[3], span("reblogging ", subtle()));
    assert_eq!(header[4], span("bob ", acct()));
    assert_eq!(header[5], span("(Bob B) ", display()));
}

#[test]
fn card_text_leaves_blank_parts_out() {
    assert_eq!(
        card_text(&card()),
        "https://example.com\ntitle: Title\ndescription: aaa bbb ccc ddd"
    );
    let mut c = card();
    c.title = " \t".to_string();
    assert_eq!(card_text(&c), "https://example.com\ndescription: aaa bbb ccc ddd");
    c.description = String::new();
    assert_eq!(card_text(&c), "https://example.com");
}

#[test]
fn format_card_wraps_behind_the_mark() {
    let mut c = card();
    c.title = String::new();
    c.description = String::new();
    assert_eq!(format_card(&c, 40), "\u{258c} https://example.com");
    c.url = "aaa bbb ccc ddd".to_string();
    assert_eq!(format_card(&c, 12), "\u{258c} aaa bbb\n\u{258c} ccc ddd");
    assert_eq!(
        format_card(&card(), 80),
        "\u{258c} https://example.com\n\u{258c} title: Title\n\u{258c} description: aaa bbb ccc ddd"
    );
}

#[test]
fn format_card_at_the_narrowest_width() {
    let c = Card { url: "ab".to_string(), title: String::new(), description: String::new() };
    assert_eq!(format_card(&c, 2), "\u{258c} a\n\u{258c} b");
    assert_eq!(format_card(&c, 3), "\u{258c} a\n\u{258c} b");
    assert_eq!(format_card(&c, 4), "\u{258c} a\n\u{258c} b");
    assert_eq!(format_card(&c, 6), "\u{258c} ab");
    assert_eq!(format_card(&c, u16::MAX), "\u{258c} ab");
}

#[test]
fn render_jobs() {
    assert_eq!(
        content_job(&toot(), 80),
        Some(RenderJob { html: "<p>hello</p>".to_string(), width: 80 })
    );
    let mut t = toot();
    t.content = " \n ".to_string();
    assert_eq!(content_job(&t, 80), None);
    assert_eq!(reblog_job(&t, 0), None);
    t.reblog = Some(Reblog {
        acct: "bob".to_string(),
        display_name: "Bob".to_string(),
        content: " <p>shared</p> ".to_string(),
    });
    assert_eq!(
        reblog_job(&t, 80),
        Some(RenderJob { html: " <p>shared</p> ".to_string(), width: 78 })
    );
    assert_eq!(reblog_job(&t, 2).unwrap().width, 0);
}

#[test]
fn to_spans_patches_the_tags_in_order() {
    let red = TextStyle { fg: Some(Color::Red), bg: None, add_modifier: BOLD, sub_modifier: 0 };
    let blue_no_bold =
        TextStyle { fg: Some(Color::Blue), bg: Some(Color::Gray), add_modifier: ITALIC, sub_modifier: BOLD };
    let lines = vec![
        vec![
            TaggedText { text: "a".to_string(), tags: vec![] },
            TaggedText { text: "b".to_string(), tags: vec![red] },
            TaggedText { text: "c".to_string(), tags: vec![red, blue_no_bold] },
            TaggedText { text: "d".to_string(), tags: vec![blue_no_bold, red] },
        ],
        vec![],
    ];
    let spans = to_spans(&lines);
    assert_eq!(spans.len(), 2);
    assert_eq!(spans[1], vec![]);
    assert_eq!(spans[0][0], span("a", plain()));
    assert_eq!(spans[0][1], span("b", red));
    assert_eq!(
        spans[0][2],
        span(
            "c",
            TextStyle {
                fg: Some(Color::Blue),
                bg: Some(Color::Gray),
                add_modifier: ITALIC,
                sub_modifier: BOLD
            }
        )
    );
    assert_eq!(
        spans[0][3],
        span(
            "d",
            TextStyle {
                fg: Some(Color::Red),
                bg: Some(Color::Gray),
                add_modifier: ITALIC | BOLD,
                sub_modifier: 0
            }
        )
    );
}

#[test]
fn style_operations() {
    let s = TextStyle::plain().fg(Color::Red).bg(Color::Blue).add_modifier(UNDERLINED);
    assert_eq!(
        s,
        TextStyle { fg: Some(Color::Red), bg: Some(Color::Blue), add_modifier: UNDERLINED, sub_modifier: 0 }
    );
    let off = TextStyle { fg: None, bg: None, add_modifier: 0, sub_modifier: UNDERLINED | CROSSED_OUT };
    assert_eq!(off.add_modifier(CROSSED_OUT).sub_modifier, UNDERLINED);
    assert_eq!(s.patch(off).add_modifier, 0);
    assert_eq!(s.patch(off).fg, Some(Color::Red));
    assert_eq!(s.patch(plain()), s);
    assert_eq!(Span::raw("x"), span("x", plain()));
    assert_eq!(TextStyle::default(), plain());
    assert_eq!(
        highlight_style(),
        TextStyle { fg: None, bg: Some(Color::Rgb(24, 32, 40)), add_modifier: 0, sub_modifier: 0 }
    );
    assert_eq!(Span::styled("x", s), span("x", s));
}

#[test]
fn status_text_in_order() {
    let mut t = toot();
    t.reblog = Some(Reblog {
        acct: "bob".to_string(),
        display_name: "Bob".to_string(),
        content: "<p>shared</p>".to_string(),
    });
    t.card = Some(Card {
        url: "https://example.com".to_string(),
        title: String::new(),
        description: String::new(),
    });
    let content = vec![vec![TaggedText { text: "hello".to_string(), tags: vec![] }]];
    let reblog = vec![
        vec![TaggedText { text: "shared".to_string(), tags: vec![] }],
        vec![TaggedText { text: "more".to_string(), tags: vec![] }],
    ];
    let parts = format_status(&t, 40, &content, &reblog);
    assert_eq!(
        parts,
        vec![
            TextPart::Line(format_header(&t, "2023-04-01 12:30:00")),
            TextPart::Line(vec![span("hello", plain())]),
            TextPart::Line(vec![span("shared", plain())]),
            TextPart::Line(vec![span("more", plain())]),
            TextPart::Block(
                "\u{258c} https://example.com".to_string(),
                TextStyle { fg: Some(Color::DarkGray), bg: None, add_modifier: 0, sub_modifier: 0 }
            ),
            TextPart::Block(String::new(), plain()),
        ]
    );
}

#[test]
fn status_text_without_body_share_or_card() {
    let mut t = toot();
    t.content = "   ".to_string();
    let content = vec![vec![TaggedText { text: "ignored".to_string(), tags: vec![] }]];
    let parts = format_status_dated(&t, "now", 0, &content, &content);
    assert_eq!(
        parts,
        vec![TextPart::Line(format_header(&t, "now")), TextPart::Block(String::new(), plain())]
    );
    assert_eq!(
        format_status(&t, 0, &content, &content),
        format_status_dated(&t, "2023-04-01 12:30:00", 0, &content, &content)
    );
}

#[test]
fn the_time_of_posting_reads_as_date_and_time() {
    let mut t = toot();
    assert_eq!(created_at_text(&t), "2023-04-01 12:30:00");
    t.created_at.offset_seconds = 7200;
    assert_eq!(created_at_text(&t), "2023-04-01 14:30:00");
    t.created_at.offset_seconds = -3600 * 13;
    assert_eq!(created_at_text(&t), "2023-03-31 23:30:00");
    t.created_at = Timestamp { unix_seconds: 5, offset_seconds: 0 };
    assert_eq!(created_at_text(&t), "1970-01-01 00:00:05");
    t.created_at = Timestamp { unix_seconds: -1, offset_seconds: 0 };
    assert_eq!(created_at_text(&t), "1969-12-31 23:59:59");
}

#[test]
fn the_time_of_posting_reads_as_the_time_library_prints_it() {
    let description = "[year]-[month]-[day] [hour]:[minute]:[second]";
    #[allow(deprecated)]
    let items = time::format_description::parse(description).unwrap();
    for (unix_seconds, offset_seconds) in [(0, 0), (1_680_352_200, 3600), (951_782_400, -18_000)] {
        let at = OffsetDateTime::from_unix_timestamp(unix_seconds)
            .unwrap()
            .to_offset(UtcOffset::from_whole_seconds(offset_seconds).unwrap());
        let mut t = toot();
        t.created_at = Timestamp {
            unix_seconds: at.unix_timestamp(),
            offset_seconds: at.offset().whole_seconds(),
        };
        assert_eq!(created_at_text(&t), at.format(&items).unwrap());
    }
}

#[test]
fn a_time_out_of_range_reads_as_nothing() {
    let mut t = toot();
    t.created_at = Timestamp { unix_seconds: i64::MAX, offset_seconds: 0 };
    assert_eq!(created_at_text(&t), "");
    t.created_at = Timestamp { unix_seconds: 0, offset_seconds: i32::MAX };
    assert_eq!(created_at_text(&t), "");
}
