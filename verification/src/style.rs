//! Styled text: colours, text modifiers, styles, spans and lines.
use vstd::prelude::*;
use vstd::string::*;

verus! {

/// A terminal colour: one of the named ANSI colours, a 24-bit colour or an
/// index into the 256-colour palette.
#[derive(Clone, Copy, Debug, PartialEq, Eq, Structural)]
pub enum Color {
    Reset,
    Black,
    Red,
    Green,
    Yellow,
    Blue,
    Magenta,
    Cyan,
    Gray,
    DarkGray,
    LightRed,
    LightGreen,
    LightYellow,
    LightBlue,
    LightMagenta,
    LightCyan,
    White,
    Rgb(u8, u8, u8),
    Indexed(u8),
}

/// Bold text.
pub const BOLD: u16 = 0x1;
/// Dimmed text.
pub const DIM: u16 = 0x2;
/// Italic text.
pub const ITALIC: u16 = 0x4;
/// Underlined text.
pub const UNDERLINED: u16 = 0x8;
/// Slowly blinking text.
pub const SLOW_BLINK: u16 = 0x10;
/// Rapidly blinking text.
pub const RAPID_BLINK: u16 = 0x20;
/// Foreground and background swapped.
pub const REVERSED: u16 = 0x40;
/// Hidden text.
pub const HIDDEN: u16 = 0x80;
/// Crossed-out text.
pub const CROSSED_OUT: u16 = 0x100;

/// An incremental change to the look of a cell: optional colours, and the
/// modifier bits to switch on (`add_modifier`) and off (`sub_modifier`).
#[derive(Clone, Copy, Debug, PartialEq, Eq, Structural)]
pub struct Style {
    pub fg: Option<Color>,
    pub bg: Option<Color>,
    pub add_modifier: u16,
    pub sub_modifier: u16,
}

impl Style {
    /// The style that changes nothing.
    #[verifier::allow_in_spec]
    pub fn new() -> Style
        returns
            (Style { fg: None, bg: None, add_modifier: 0, sub_modifier: 0 }),
    {
        Style { fg: None, bg: None, add_modifier: 0, sub_modifier: 0 }
    }

    /// This style with the foreground colour set.
    #[verifier::allow_in_spec]
    pub fn fg(self, color: Color) -> Style
        returns
            (Style { fg: Some(color), ..self }),
    {
        Style { fg: Some(color), ..self }
    }

    /// This style with the background colour set.
    #[verifier::allow_in_spec]
    pub fn bg(self, color: Color) -> Style
        returns
            (Style { bg: Some(color), ..self }),
    {
        Style { bg: Some(color), ..self }
    }

    /// This style with the given modifier bits switched on: they are added to
    /// `add_modifier` and taken out of `sub_modifier`.
    #[verifier::allow_in_spec]
    pub fn add_modifier(self, modifier: u16) -> Style
        returns
            (Style {
                add_modifier: self.add_modifier | modifier,
                sub_modifier: self.sub_modifier & !modifier,
                ..self
            }),
    {
        Style {
            add_modifier: self.add_modifier | modifier,
            sub_modifier: self.sub_modifier & !modifier,
            ..self
        }
    }
}

impl Default for Style {
    fn default() -> (s: Style)
        ensures
            s == Style::new(),
    {
        Style::new()
    }
}

/// The text of a span and its style.
pub type SpanView = (Seq<char>, Style);

/// The spans of a line, as text and style.
pub type LineView = Seq<SpanView>;

/// A piece of text drawn in one style.
pub struct Span {
    pub content: String,
    pub style: Style,
}

impl View for Span {
    type V = (Seq<char>, Style);

    open spec fn view(&self) -> (Seq<char>, Style) {
        (self.content@, self.style)
    }
}

/// The text and style of each span of a sequence.
pub open spec fn spans_view(spans: Seq<Span>) -> Seq<(Seq<char>, Style)> {
    spans.map_values(|s: Span| s@)
}

impl Span {
    /// A span of the given text in the style that changes nothing.
    pub fn raw(content: &str) -> (s: Span)
        ensures
            s@ == (content@, Style::new()),
    {
        Span { content: String::from_str(content), style: Style::new() }
    }

    /// A span of the given text in the given style.
    pub fn styled(content: &str, style: Style) -> (s: Span)
        ensures
            s@ == (content@, style),
    {
        Span { content: String::from_str(content), style }
    }

    /// A span that takes ownership of the given text.
    pub fn styled_string(content: String, style: Style) -> (s: Span)
        ensures
            s@ == (content@, style),
    {
        Span { content, style }
    }
}

/// The text and style of each span of each line.
pub open spec fn lines_view(lines: Seq<Line>) -> Seq<LineView> {
    lines.map_values(|l: Line| l@)
}

/// A line of text made of spans, drawn left to right.
pub struct Line {
    pub spans: Vec<Span>,
}

impl View for Line {
    type V = Seq<(Seq<char>, Style)>;

    open spec fn view(&self) -> Seq<(Seq<char>, Style)> {
        spans_view(self.spans@)
    }
}

impl Line {
    /// The line made of the given spans.
    pub fn from_spans(spans: Vec<Span>) -> (l: Line)
        ensures
            l@ == spans_view(spans@),
    {
        Line { spans }
    }

    /// The line made of one span.
    pub fn from_span(span: Span) -> (l: Line)
        ensures
            l@ == seq![span@],
    {
        let mut spans: Vec<Span> = Vec::new();
        spans.push(span);
        let l = Line { spans };
        assert(l@ =~= seq![span@]);
        l
    }

    /// The line without any text.
    pub fn empty() -> (l: Line)
        ensures
            l@ == Seq::<(Seq<char>, Style)>::empty(),
    {
        let l = Line { spans: Vec::new() };
        assert(l@ =~= Seq::<(Seq<char>, Style)>::empty());
        l
    }
}

} // verus!
