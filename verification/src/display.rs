//! The styled text that a frame is drawn from.
//!
//! Spans, lines and paragraphs are `ratatui` values, which this library builds
//! and never looks into. What they hold is named here as cells: a character
//! and whether it is drawn as the cursor, black on white. The constructors
//! below are the only code that touches `ratatui`; their contracts are taken
//! from its source and are not proved.

use ratatui::style::Color;
use ratatui::text::{Line, Span};
use ratatui::widgets::Paragraph;
use vstd::prelude::*;

verus! {

/// `ratatui::text::Span`: a run of text in one style.
#[verifier::external_type_specification]
#[verifier::external_body]
pub struct ExSpan<'a>(Span<'a>);

/// `ratatui::text::Line`: a row of spans.
#[verifier::external_type_specification]
#[verifier::external_body]
pub struct ExLine<'a>(Line<'a>);

/// `ratatui::widgets::Paragraph`: a block of lines, ready to be drawn.
#[verifier::external_type_specification]
#[verifier::external_body]
pub struct ExParagraph<'a>(Paragraph<'a>);

/// The cells of a span: the characters of its content in order, each with
/// `true` where the span's style has a black foreground on a white background
/// and `false` where it has the default style.
pub uninterp spec fn span_cells(span: Span<'static>) -> Seq<(char, bool)>;

/// The cells of a line: those of its spans, one span after the other.
pub uninterp spec fn line_cells(line: Line<'static>) -> Seq<(char, bool)>;

/// The rows of a paragraph: the cells of each of its lines, top to bottom.
pub uninterp spec fn paragraph_rows(paragraph: Paragraph<'static>) -> Seq<Seq<(char, bool)>>;

/// The characters of `text` as cells that all carry the same mark.
pub open spec fn cells_of(text: Seq<char>, marked: bool) -> Seq<(char, bool)> {
    Seq::new(text.len(), |i: int| (text[i], marked))
}

/// The cells of `spans`, one span after the other.
pub open spec fn cells_of_spans(spans: Seq<Span<'static>>) -> Seq<(char, bool)>
    decreases spans.len(),
{
    if spans.len() == 0 {
        Seq::empty()
    } else {
        cells_of_spans(spans.drop_last()) + span_cells(spans.last())
    }
}

/// The cells of each of `lines`.
pub open spec fn rows_of_lines(lines: Seq<Line<'static>>) -> Seq<Seq<(char, bool)>> {
    Seq::new(lines.len(), |i: int| line_cells(lines[i]))
}

/// Makes a span in the default style by `Span::from`, which keeps `text` as
/// the span's content and sets no colour.
#[verifier::external_body]
pub(crate) fn plain_span(text: String) -> (span: Span<'static>)
    ensures
        span_cells(span) == cells_of(text@, false),
{
    Span::from(text)
}

/// Makes a span for the cursor by `Span::styled`, which keeps `text` as the
/// span's content and takes the pair of colours as foreground and background:
/// black on white.
#[verifier::external_body]
pub(crate) fn cursor_span(text: String) -> (span: Span<'static>)
    ensures
        span_cells(span) == cells_of(text@, true),
{
    Span::styled(text, (Color::Black, Color::White))
}

/// Makes a line by `Line::from`, which keeps `spans` as the line's spans and
/// gives the line no style of its own.
#[verifier::external_body]
pub(crate) fn line_of_spans(spans: Vec<Span<'static>>) -> (line: Line<'static>)
    ensures
        line_cells(line) == cells_of_spans(spans@),
{
    Line::from(spans)
}

/// Makes a paragraph by `Paragraph::new`, which keeps `lines` as the
/// paragraph's text, without a block, a style, wrapping or scrolling.
#[verifier::external_body]
pub(crate) fn paragraph_of_lines(lines: Vec<Line<'static>>) -> (paragraph: Paragraph<'static>)
    ensures
        paragraph_rows(paragraph) == rows_of_lines(lines@),
{
    Paragraph::new(lines)
}

} // verus!
