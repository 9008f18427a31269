//! Styled text: what a screen shows, independent of how it is drawn.

use vstd::prelude::*;
use crate::model;

verus! {

/// A terminal colour.
#[derive(Clone, Copy, PartialEq, Eq, Structural, Debug)]
pub enum Color {
    Black,
    Red,
    Green,
    Yellow,
    Blue,
    Cyan,
    DarkGray,
}

/// How a text is drawn.
#[derive(Clone, Copy, PartialEq, Eq, Structural, Debug)]
pub struct Style {
    pub fg: Option<Color>,
    pub bg: Option<Color>,
    pub bold: bool,
}

/// The terminal's own style.
pub open spec fn plain_style() -> Style {
    Style { fg: None, bg: None, bold: false }
}

/// Text in `color`.
pub open spec fn fg_style(color: Color) -> Style {
    Style { fg: Some(color), bg: None, bold: false }
}

/// Bold text in `color`.
pub open spec fn bold_fg_style(color: Color) -> Style {
    Style { fg: Some(color), bg: None, bold: true }
}

/// Bold text.
pub open spec fn bold_style() -> Style {
    Style { fg: None, bg: None, bold: true }
}

impl Style {
    /// The terminal's own style.
    pub fn plain() -> (style: Style)
        ensures
            style == plain_style(),
    {
        Style { fg: None, bg: None, bold: false }
    }

    /// Text in `color`.
    pub fn fg(color: Color) -> (style: Style)
        ensures
            style == fg_style(color),
    {
        Style { fg: Some(color), bg: None, bold: false }
    }

    /// Bold text in `color`.
    pub fn bold_fg(color: Color) -> (style: Style)
        ensures
            style == bold_fg_style(color),
    {
        Style { fg: Some(color), bg: None, bold: true }
    }

    /// Bold text.
    pub fn bold() -> (style: Style)
        ensures
            style == bold_style(),
    {
        Style { fg: None, bg: None, bold: true }
    }
}

/// A run of text in one style.
pub struct Span {
    pub text: String,
    pub style: Style,
}

/// What a `Span` shows.
pub struct SpanView {
    pub text: Seq<char>,
    pub style: Style,
}

impl View for Span {
    type V = SpanView;

    open spec fn view(&self) -> SpanView {
        SpanView { text: self.text@, style: self.style }
    }
}

/// A run of text in one style.
pub open spec fn run(text: Seq<char>, style: Style) -> SpanView {
    SpanView { text, style }
}

impl Span {
    /// `text` in `style`.
    pub fn styled(text: String, style: Style) -> (span: Span)
        ensures
            span@ == run(text@, style),
    {
        Span { text, style }
    }

    /// `text` in the terminal's own style.
    pub fn raw(text: &str) -> (span: Span)
        ensures
            span@ == run(text@, plain_style()),
    {
        Span { text: text.to_owned(), style: Style::plain() }
    }
}

/// A line of runs.
pub struct Line {
    pub spans: Vec<Span>,
}

impl View for Line {
    type V = Seq<SpanView>;

    open spec fn view(&self) -> Seq<SpanView> {
        model::views(self.spans@)
    }
}

impl Line {
    /// A line of the given runs.
    pub fn from_spans(spans: Vec<Span>) -> (line: Line)
        ensures
            line@ == model::views(spans@),
    {
        Line { spans }
    }

    /// A line of one run.
    pub fn single(span: Span) -> (line: Line)
        ensures
            line@ == seq![span@],
    {
        let mut spans: Vec<Span> = Vec::new();
        spans.push(span);
        let line = Line { spans };
        assert(line@ =~= seq![span@]);
        line
    }

    /// A line without text.
    pub fn blank() -> (line: Line)
        ensures
            line@ == Seq::<SpanView>::empty(),
    {
        let line = Line { spans: Vec::new() };
        assert(line@ =~= Seq::<SpanView>::empty());
        line
    }
}

} // verus!
