use html2text::render::text_renderer::{TaggedLine, TextDecorator};
use tooters::decorator::StyledDecorator;
use tooters::status::{to_spans, TaggedText};
use tooters::style::{Span, TextStyle, BOLD, ITALIC, UNDERLINED};

struct Decorator(StyledDecorator);

impl TextDecorator for Decorator {
    type Annotation = TextStyle;

    fn decorate_link_start(&mut self, url: &str) -> (String, Self::Annotation) {
        self.0.decorate_link_start(url)
    }

    fn decorate_link_end(&mut self) -> String {
        assert!(self.0.open_links() > 0);
        self.0.decorate_link_end()
    }

    fn decorate_em_start(&mut self) -> (String, Self::Annotation) {
        self.0.decorate_em_start()
    }

    fn decorate_em_end(&mut self) -> String {
        self.0.decorate_em_end()
    }

    fn decorate_strong_start(&mut self) -> (String, Self::Annotation) {
        self.0.decorate_strong_start()
    }

    fn decorate_strong_end(&mut self) -> String {
        self.0.decorate_strong_end()
    }

    fn decorate_strikeout_start(&mut self) -> (String, Self::Annotation) {
        self.0.decorate_strikeout_start()
    }

    fn decorate_strikeout_end(&mut self) -> String {
        self.0.decorate_strikeout_end()
    }

    fn decorate_code_start(&mut self) -> (String, Self::Annotation) {
        self.0.decorate_code_start()
    }

    fn decorate_code_end(&mut self) -> String {
        self.0.decorate_code_end()
    }

    fn decorate_preformat_first(&mut self) -> Self::Annotation {
        self.0.decorate_preformat_first()
    }

    fn decorate_preformat_cont(&mut self) -> Self::Annotation {
        self.0.decorate_preformat_cont()
    }

    fn decorate_image(&mut self, src: &str, title: &str) -> (String, Self::Annotation) {
        self.0.decorate_image(src, title)
    }

    fn header_prefix(&mut self, level: usize) -> String {
        self.0.header_prefix(level)
    }

    fn quote_prefix(&mut self) -> String {
        self.0.quote_prefix()
    }

    fn unordered_item_prefix(&mut self) -> String {
        self.0.unordered_item_prefix()
    }

    fn ordered_item_prefix(&mut self, i: i64) -> String {
        self.0.ordered_item_prefix(i)
    }

    fn make_subblock_decorator(&self) -> Self {
        Decorator(self.0.make_subblock_decorator())
    }

    fn finalise(self) -> Vec<TaggedLine<Self::Annotation>> {
        vec![]
    }
}

fn render(html: &str, width: usize) -> Vec<Vec<Span>> {
    let lines: Vec<Vec<TaggedText>> = html2text::parse(html.as_bytes())
        .render(width, Decorator(StyledDecorator::new()))
        .into_lines()
        .into_iter()
        .map(|line| {
            line.tagged_strings()
                .map(|tagged| TaggedText { text: tagged.s.clone(), tags: tagged.tag.clone() })
                .collect()
        })
        .collect();
    to_spans(&lines)
}

fn text(line: &[Span]) -> String {
    line.iter().map(|span| span.text.as_str()).collect()
}

fn style_of(line: &[Span], piece: &str) -> TextStyle {
    line.iter().find(|span| span.text.contains(piece)).unwrap().style
}

#[test]
fn a_paragraph_with_markup_renders_with_marks_and_styles() {
    let lines = render(
        "<p>Hello <em>world</em> and <strong>all</strong> at <a href=\"https://a.example\">home</a></p>",
        80,
    );
    assert_eq!(lines.len(), 1);
    assert_eq!(text(&lines[0]), "Hello *world* and **all** at [home](https://a.example)");
    assert_eq!(style_of(&lines[0], "Hello").add_modifier, 0);
    assert_eq!(style_of(&lines[0], "world").add_modifier, ITALIC);
    assert_eq!(style_of(&lines[0], "all").add_modifier, BOLD);
    assert_eq!(style_of(&lines[0], "home").add_modifier, UNDERLINED);
}

#[test]
fn lists_and_headings_get_their_prefixes() {
    let lines = render("<h2>Title</h2><ol><li>one</li><li>two</li></ol><ul><li>dot</li></ul>", 80);
    let texts: Vec<String> = lines.iter().map(|line| text(line)).collect();
    assert!(texts.contains(&"## Title".to_string()));
    assert!(texts.contains(&"1. one".to_string()));
    assert!(texts.contains(&"2. two".to_string()));
    assert!(texts.contains(&"* dot".to_string()));
}
