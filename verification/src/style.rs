//! Screen rectangles, and styled text by the roles its colours play.

use crate::outside::{columns, display_width};
use crate::text::copy_of;
use crate::views::{group_views, views};
use vstd::prelude::*;

verus! {

broadcast use group_views;

/// A rectangle of screen cells.
#[derive(Clone, Copy, Debug, PartialEq, Eq, Structural)]
pub struct Rect {
    pub x: u16,
    pub y: u16,
    pub width: u16,
    pub height: u16,
}

/// The sum of two coordinates, held at the largest one.
pub open spec fn plus(a: u16, b: u16) -> u16 {
    if a + b > u16::MAX {
        u16::MAX
    } else {
        (a + b) as u16
    }
}

/// What is left of a coordinate, held at zero.
pub open spec fn minus(a: u16, b: u16) -> u16 {
    if a < b {
        0
    } else {
        (a - b) as u16
    }
}

/// Whether `part` stays inside `area`.
pub open spec fn within(part: Rect, area: Rect) -> bool {
    &&& area.x <= part.x
    &&& part.x + part.width <= area.x + area.width
    &&& area.y <= part.y
    &&& part.y + part.height <= area.y + area.height
}

/// How many rows a single row under a part with a minimum has: one where there is a
/// row more than the minimum, else none.
pub open spec fn row_after(height: u16, minimum: u16) -> u16 {
    if height > minimum {
        1
    } else {
        0
    }
}

impl Rect {
    /// A rectangle at `x`, `y`.
    pub fn new(x: u16, y: u16, width: u16, height: u16) -> (rect: Rect)
        ensures
            rect == (Rect { x, y, width, height }),
    {
        Rect { x, y, width, height }
    }

    /// The first column right of the rectangle.
    pub open spec fn right_edge(self) -> u16 {
        plus(self.x, self.width)
    }

    /// The first row below the rectangle.
    pub open spec fn bottom_edge(self) -> u16 {
        plus(self.y, self.height)
    }

    /// Whether a cell is inside.
    pub open spec fn holds(self, column: u16, row: u16) -> bool {
        self.x <= column < self.right_edge() && self.y <= row < self.bottom_edge()
    }

    /// The first column right of the rectangle.
    pub fn right(&self) -> (edge: u16)
        ensures
            edge == self.right_edge(),
    {
        self.x.saturating_add(self.width)
    }

    /// The first row below the rectangle.
    pub fn bottom(&self) -> (edge: u16)
        ensures
            edge == self.bottom_edge(),
    {
        self.y.saturating_add(self.height)
    }

    /// What a border on all four sides leaves of the rectangle.
    pub open spec fn framed(self) -> Rect {
        Rect {
            x: if plus(self.x, 1) < self.right_edge() {
                plus(self.x, 1)
            } else {
                self.right_edge()
            },
            y: if plus(self.y, 1) < self.bottom_edge() {
                plus(self.y, 1)
            } else {
                self.bottom_edge()
            },
            width: minus(self.width, 2),
            height: minus(self.height, 2),
        }
    }

    /// What a border on all four sides leaves of the rectangle.
    pub fn inner(&self) -> (inner: Rect)
        ensures
            inner == self.framed(),
    {
        let left: u16 = self.x.saturating_add(1);
        let top: u16 = self.y.saturating_add(1);
        Rect {
            x: if left < self.right() {
                left
            } else {
                self.right()
            },
            y: if top < self.bottom() {
                top
            } else {
                self.bottom()
            },
            width: self.width.saturating_sub(2),
            height: self.height.saturating_sub(2),
        }
    }

    /// Whether a cell is inside.
    pub fn contains(&self, column: u16, row: u16) -> (inside: bool)
        ensures
            inside == self.holds(column, row),
    {
        self.x <= column && column < self.right() && self.y <= row && row < self.bottom()
    }
}

/// Which way an area is split.
#[derive(Clone, Copy, Debug, PartialEq, Eq, Structural)]
pub enum Direction {
    Horizontal,
    Vertical,
}

/// How much of an area one part of it is to get.
#[derive(Clone, Copy, Debug, PartialEq, Eq, Structural)]
pub enum Constraint {
    Length(u16),
    Min(u16),
    Percentage(u16),
}

/// How a run stands, as its colour shows it.
#[derive(Clone, Copy, Debug, PartialEq, Eq, Structural)]
pub enum Tone {
    Active,
    Waiting,
    Stale,
    Paused,
    Complete,
    CompleteInteractive,
    Cancelled,
    Error,
}

/// What a colour is for. The terminal maps each role to a colour of its own.
#[derive(Clone, Copy, Debug, PartialEq, Eq, Structural)]
pub enum Color {
    Accent,
    Active,
    Border,
    BorderFocus,
    Dim,
    Error,
    Muted,
    Success,
    Warn,
    White,
    Black,
    Yellow,
    DarkGray,
    Rgb(u8, u8, u8),
    Status(Tone),
}

/// How a stretch of text is drawn.
#[derive(Clone, Copy, Debug, PartialEq, Eq)]
pub struct Style {
    pub fg: Option<Color>,
    pub bg: Option<Color>,
    pub bold: bool,
    pub reversed: bool,
}

/// No colour and no emphasis.
pub open spec fn plain() -> Style {
    Style { fg: None, bg: None, bold: false, reversed: false }
}

/// Text in one colour.
pub open spec fn ink(color: Color) -> Style {
    Style { fg: Some(color), ..plain() }
}

/// Bold text in one colour.
pub open spec fn bold_ink(color: Color) -> Style {
    Style { fg: Some(color), bold: true, ..plain() }
}

/// Bold text in no colour of its own.
pub open spec fn strong() -> Style {
    Style { bold: true, ..plain() }
}

impl Style {
    /// No colour and no emphasis.
    pub fn plain() -> (style: Style)
        ensures
            style == plain(),
    {
        Style { fg: None, bg: None, bold: false, reversed: false }
    }

    /// Text in one colour.
    pub fn ink(color: Color) -> (style: Style)
        ensures
            style == ink(color),
    {
        Style { fg: Some(color), bg: None, bold: false, reversed: false }
    }

    /// Bold text in one colour.
    pub fn bold_ink(color: Color) -> (style: Style)
        ensures
            style == bold_ink(color),
    {
        Style { fg: Some(color), bg: None, bold: true, reversed: false }
    }

    /// Bold text in no colour of its own.
    pub fn strong() -> (style: Style)
        ensures
            style == strong(),
    {
        Style { fg: None, bg: None, bold: true, reversed: false }
    }
}

/// A stretch of text in one style.
#[derive(Clone, Debug, PartialEq, Eq)]
pub struct Span {
    pub content: String,
    pub style: Style,
}

/// A stretch of text in one style.
#[verifier::ext_equal]
pub struct SpanView {
    pub content: Seq<char>,
    pub style: Style,
}

impl View for Span {
    type V = SpanView;

    open spec fn view(&self) -> SpanView {
        SpanView { content: self.content@, style: self.style }
    }
}

/// A span as it stands in a contract.
pub open spec fn sp(content: Seq<char>, style: Style) -> SpanView {
    SpanView { content, style }
}

/// A span of `text`.
pub fn span(text: &str, style: Style) -> (span: Span)
    ensures
        span@ == sp(text@, style),
{
    Span { content: copy_of(text), style }
}

/// A span that takes `text` over.
pub fn styled(text: String, style: Style) -> (span: Span)
    ensures
        span@ == sp(text@, style),
        span.content == text,
        span.style == style,
{
    Span { content: text, style }
}

/// A copy of a span.
pub fn copy_span(original: &Span) -> (copy: Span)
    ensures
        copy@ == original@,
{
    Span { content: copy_of(original.content.as_str()), style: original.style }
}

/// One line of styled text.
#[derive(Clone, Debug, PartialEq, Eq)]
pub struct Line {
    pub spans: Vec<Span>,
}

impl View for Line {
    type V = Seq<SpanView>;

    open spec fn view(&self) -> Seq<SpanView> {
        views(self.spans@)
    }
}

/// A line of one span.
pub fn line1(a: Span) -> (line: Line)
    ensures
        line@ == seq![a@],
{
    let mut spans: Vec<Span> = Vec::new();
    spans.push(a);
    Line { spans }
}

/// A line of two spans.
pub fn line2(a: Span, b: Span) -> (line: Line)
    ensures
        line@ == seq![a@, b@],
{
    let mut spans: Vec<Span> = Vec::new();
    spans.push(a);
    spans.push(b);
    Line { spans }
}

/// A line of three spans.
pub fn line3(a: Span, b: Span, c: Span) -> (line: Line)
    ensures
        line@ == seq![a@, b@, c@],
{
    let mut spans: Vec<Span> = Vec::new();
    spans.push(a);
    spans.push(b);
    spans.push(c);
    Line { spans }
}

/// A line of four spans.
pub fn line4(a: Span, b: Span, c: Span, d: Span) -> (line: Line)
    ensures
        line@ == seq![a@, b@, c@, d@],
{
    let mut spans: Vec<Span> = Vec::new();
    spans.push(a);
    spans.push(b);
    spans.push(c);
    spans.push(d);
    Line { spans }
}

/// The line of one unstyled text.
pub open spec fn raw_line(text: Seq<char>) -> Seq<SpanView> {
    seq![sp(text, plain())]
}

/// The line of one unstyled text.
pub fn raw(text: &str) -> (line: Line)
    ensures
        line@ == raw_line(text@),
{
    line1(span(text, Style::plain()))
}

/// A copy of a line.
pub fn copy_line(line: &Line) -> (copy: Line)
    ensures
        copy@ == line@,
{
    let mut spans: Vec<Span> = Vec::new();
    let mut i: usize = 0;
    while i < line.spans.len()
        invariant
            i <= line.spans@.len(),
            spans@.len() == i,
            forall|j: int| 0 <= j < i ==> spans@[j]@ == line.spans@[j]@,
        decreases line.spans.len() - i,
    {
        spans.push(copy_span(&line.spans[i]));
        i = i + 1;
    }
    let copy = Line { spans };
    proof {
        assert(copy@ =~= line@);
    }
    copy
}

/// The columns the first `count` spans of a line take together.
pub open spec fn columns_of(line: Seq<SpanView>, count: int) -> nat
    decreases count,
{
    if count <= 0 {
        0
    } else {
        columns_of(line, count - 1) + columns(line[count - 1].content)
    }
}

/// The columns a line takes: those of its spans, added up.
pub open spec fn line_columns(line: Seq<SpanView>) -> nat {
    columns_of(line, line.len() as int)
}

/// The text of the first `count` spans of a line.
pub open spec fn text_of(line: Seq<SpanView>, count: int) -> Seq<char>
    decreases count,
{
    if count <= 0 {
        Seq::empty()
    } else {
        text_of(line, count - 1) + line[count - 1].content
    }
}

/// The text of a line.
pub open spec fn line_text(line: Seq<SpanView>) -> Seq<char> {
    text_of(line, line.len() as int)
}

impl Line {
    /// The columns the line takes, held at the largest count.
    pub fn width(&self) -> (width: usize)
        ensures
            width == if line_columns(self@) > usize::MAX {
                usize::MAX as nat
            } else {
                line_columns(self@)
            },
    {
        let mut width: usize = 0;
        let mut i: usize = 0;
        while i < self.spans.len()
            invariant
                i <= self.spans@.len(),
                width == if columns_of(self@, i as int) > usize::MAX {
                    usize::MAX as nat
                } else {
                    columns_of(self@, i as int)
                },
            decreases self.spans.len() - i,
        {
            let next: usize = display_width(self.spans[i].content.as_str());
            proof {
                assert(self@[i as int] == self.spans@[i as int]@);
            }
            width = width.saturating_add(next);
            i = i + 1;
        }
        width
    }

    /// The text of the line.
    pub fn text(&self) -> (text: String)
        ensures
            text@ == line_text(self@),
    {
        let mut text = String::new();
        let mut i: usize = 0;
        while i < self.spans.len()
            invariant
                i <= self.spans@.len(),
                text@ == text_of(self@, i as int),
            decreases self.spans.len() - i,
        {
            text.append(self.spans[i].content.as_str());
            proof {
                assert(self@[i as int] == self.spans@[i as int]@);
            }
            i = i + 1;
        }
        text
    }
}

} // verus!
