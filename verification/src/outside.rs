//! What the library takes from outside: the calls whose contracts are believed
//! rather than proved, and the names for what they return.

use crate::style::{Constraint, Direction, Line, Rect, SpanView};
use crate::text::{digit, occurs, opt_text};
use crate::views::views;
use ratatui::buffer::Buffer;
use ratatui::layout::Position;
use ratatui::style::Modifier;
use ratatui::widgets::{Paragraph, Wrap};
use std::sync::Arc;
use unicode_width::UnicodeWidthStr;
use vstd::prelude::*;

verus! {

/// `String::push` appends one character to the end of the text.
pub assume_specification[ String::push ](text: &mut String, c: char)
    ensures
        final(text)@ == old(text)@.push(c),
;

/// `String::pop` takes the last character off the text and returns it, or
/// returns `None` and leaves an empty text as it is.
pub assume_specification[ String::pop ](text: &mut String) -> (last: Option<char>)
    ensures
        old(text)@.len() > 0 ==> last == Some(old(text)@.last()) && final(text)@
            == old(text)@.drop_last(),
        old(text)@.len() == 0 ==> last == None::<char> && final(text)@ == old(text)@,
;

/// `String::clear` leaves an empty text.
pub assume_specification[ String::clear ](text: &mut String)
    ensures
        final(text)@ == Seq::<char>::empty(),
;

/// Whether a text is made of the characters of ASCII.
pub open spec fn is_basic(text: Seq<char>) -> bool {
    forall|i: int| 0 <= i < text.len() ==> (#[trigger] text[i]) <= '\u{7f}'
}

/// The lowercase equivalent of a character of ASCII.
pub open spec fn small(c: char) -> char {
    if 'A' <= c <= 'Z' {
        (c as u32 + 32) as char
    } else {
        c
    }
}

/// The lowercase equivalent of a text, as `str::to_lowercase` gives it, where it
/// is not made of the characters of ASCII.
pub uninterp spec fn folded(text: Seq<char>) -> Seq<char>;

/// The lowercase equivalent of a text: character for character where it is made of
/// those of ASCII, and any other is folded.
pub open spec fn lowercase(text: Seq<char>) -> Seq<char> {
    if is_basic(text) {
        text.map_values(|c: char| small(c))
    } else {
        folded(text)
    }
}

/// Calls `str::to_lowercase`. In a text of the characters of ASCII each capital
/// becomes its small letter and every other character stays; what any other text
/// becomes is named `folded`, and the Unicode case tables behind it are left unsaid.
#[verifier::external_body]
pub(crate) fn to_lowercase(text: &str) -> (lower: String)
    ensures
        is_basic(text@) ==> lower@ == text@.map_values(|c: char| small(c)),
        !is_basic(text@) ==> lower@ == folded(text@),
{
    text.to_lowercase()
}

/// Whether a character has the `White_Space` property of Unicode.
pub open spec fn white_space(c: char) -> bool {
    let point = c as u32;
    ||| 0x09 <= point <= 0x0d
    ||| point == 0x20
    ||| point == 0x85
    ||| point == 0xa0
    ||| point == 0x1680
    ||| 0x2000 <= point <= 0x200a
    ||| point == 0x2028
    ||| point == 0x2029
    ||| point == 0x202f
    ||| point == 0x205f
    ||| point == 0x3000
}

/// Calls `char::is_whitespace`: whether the character has the `White_Space`
/// property, which Unicode gives to these characters and no others.
#[verifier::external_body]
pub(crate) fn is_whitespace(c: char) -> (blank: bool)
    ensures
        blank == white_space(c),
{
    c.is_whitespace()
}

/// Where the last part of a path begins.
pub open spec fn last_part(path: Seq<char>) -> int
    decreases path.len(),
{
    if path.len() == 0 || path.last() == '/' {
        path.len() as int
    } else {
        last_part(path.drop_last())
    }
}

/// The name at the end of a path: its last part but for empty parts and `.`,
/// where that is not `..`.
pub open spec fn final_name(path: Seq<char>) -> Option<Seq<char>>
    decreases path.len(),
{
    let cut = last_part(path);
    if cut < 0 || cut > path.len() {
        None
    } else {
        let part = path.skip(cut);
        if part.len() == 0 || part == seq!['.'] {
            if cut == 0 {
                None
            } else {
                final_name(path.take(cut - 1))
            }
        } else if part == seq!['.', '.'] {
            None
        } else {
            Some(part)
        }
    }
}

/// Whether a path has the same parts on every system: it is relative, and has no
/// character that some systems keep for prefixes and separators of their own.
pub open spec fn is_portable(path: Seq<char>) -> bool {
    &&& path.len() > 0 ==> path[0] != '/'
    &&& forall|i: int| 0 <= i < path.len() ==> (#[trigger] path[i]) != '\\' && path[i] != ':'
}

/// Calls `Path::file_name` of std, and takes the name as text: the last part of the
/// path, unless that is `..`. A path that is not portable has the parts that the
/// system gives it: of those it is said only that the name is a stretch of the path.
#[verifier::external_body]
pub(crate) fn path_name(path: &str) -> (name: Option<String>)
    ensures
        is_portable(path@) ==> opt_text(name) == final_name(path@),
        name matches Some(found) ==> occurs(path@, found@),
{
    std::path::Path::new(path).file_name().map(|name| name.to_string_lossy().to_string())
}

/// Whether a text is made of the printable characters of ASCII.
pub open spec fn is_plain(text: Seq<char>) -> bool {
    forall|i: int| 0 <= i < text.len() ==> ' ' <= (#[trigger] text[i]) <= '~'
}

/// How many terminal columns a text takes, as `UnicodeWidthStr::width` counts
/// them, where it is not plain.
pub uninterp spec fn counted_columns(text: Seq<char>) -> nat;

/// How many terminal columns a text takes: plain text takes one for each character,
/// and any other is counted.
pub open spec fn columns(text: Seq<char>) -> nat {
    if is_plain(text) {
        text.len()
    } else {
        counted_columns(text)
    }
}

/// Calls `UnicodeWidthStr::width` of the unicode-width crate. A printable character
/// of ASCII takes one column, and among its like it joins no sequence; the width of
/// any other text is named `counted_columns`.
#[verifier::external_body]
pub(crate) fn display_width(text: &str) -> (width: usize)
    ensures
        is_plain(text@) ==> width == text@.len(),
        !is_plain(text@) ==> width == counted_columns(text@),
{
    UnicodeWidthStr::width(text)
}

/// The first moment that has a date, in Unix seconds: the calendar begins with
/// the year -262143.
pub const FIRST_MOMENT: i64 = -8_334_601_228_800;

/// The last moment that has a date, in Unix seconds: the calendar ends with the
/// year 262142.
pub const LAST_MOMENT: i64 = 8_210_266_876_799;

/// A number below a hundred in two digits.
pub open spec fn two_digits(n: int) -> Seq<char> {
    seq![digit((n / 10) as nat), digit((n % 10) as nat)]
}

/// The time of day at a moment, so many seconds east of Greenwich.
pub open spec fn time_of_day(at: i64, offset: i32) -> Seq<char> {
    let second = (at + offset) % 86_400;
    two_digits(second / 3_600) + seq![':'] + two_digits(second / 60 % 60) + seq![':'] + two_digits(
        second % 60,
    )
}

/// Calls `DateTime::from_timestamp`, `DateTime::with_timezone` and
/// `DateTime::format` of the chrono crate, with `FixedOffset::east_opt` for the
/// zone: the time of day at a moment as `%H:%M:%S`, so many seconds east of
/// Greenwich; nothing where the moment has no date.
#[verifier::external_body]
pub(crate) fn local_time(at: i64, offset: i32) -> (time: Option<String>)
    requires
        -86_400 < offset < 86_400,
    ensures
        match time {
            Some(text) => FIRST_MOMENT <= at <= LAST_MOMENT && text@ == time_of_day(at, offset),
            None => !(FIRST_MOMENT <= at <= LAST_MOMENT),
        },
{
    let zone = chrono::FixedOffset::east_opt(offset)?;
    let moment = chrono::DateTime::from_timestamp(at, 0)?;
    Some(moment.with_timezone(&zone).format("%H:%M:%S").to_string())
}

/// The widest pane whose text can be wrapped: the wrapper adds up to three
/// widths in sixteen bits.
pub const WIDEST: u16 = 16_383;

/// The contents of some spans, without their styles.
pub open spec fn contents(spans: Seq<SpanView>) -> Seq<Seq<char>> {
    spans.map_values(|span: SpanView| span.content)
}

/// The contents of some lines, without their styles.
pub open spec fn texts(lines: Seq<Seq<SpanView>>) -> Seq<Seq<Seq<char>>> {
    lines.map_values(|line: Seq<SpanView>| contents(line))
}

/// How many rows lines with these contents take once they are wrapped at a width
/// without trimming, as `Paragraph::line_count` counts them.
pub uninterp spec fn counted_rows(texts: Seq<Seq<Seq<char>>>, width: u16) -> nat;

/// How many rows lines take once they are wrapped at a width without trimming. The
/// styles make no difference.
pub open spec fn rows_of(lines: Seq<Seq<SpanView>>, width: u16) -> nat {
    counted_rows(texts(lines), width)
}

/// Calls `Paragraph::line_count` of the ratatui crate on the lines from `from`
/// up to `to`, wrapped without trimming. Its result is named `counted_rows`: where
/// the wrapper breaks a line is left unsaid. No lines, and no width, take no
/// rows.
#[verifier::external_body]
pub(crate) fn wrapped_rows(lines: &Vec<Line>, from: usize, to: usize, width: u16) -> (rows: usize)
    requires
        from <= to <= lines@.len(),
        width <= WIDEST,
    ensures
        rows == counted_rows(texts(views(lines@).subrange(from as int, to as int)), width),
        from == to || width == 0 ==> rows == 0,
{
    let part: Vec<ratatui::text::Line> = lines[from..to].iter().map(
        |line| -> ratatui::text::Line { ratatui::text::Line::from(
                line.spans.iter().map(|span| ratatui::text::Span::raw(span.content.as_str())).collect::<
                    Vec<_>,
                >(),
            ) },
    ).collect();
    Paragraph::new(part).wrap(Wrap { trim: false }).line_count(width)
}

/// What the first `count` constraints ask for in cells.
pub open spec fn asked(constraints: Seq<Constraint>, count: int) -> int
    decreases count,
{
    if count <= 0 {
        0
    } else {
        asked(constraints, count - 1) + match constraints[count - 1] {
            Constraint::Length(n) => n as int,
            Constraint::Min(n) => n as int,
            Constraint::Percentage(_) => 0,
        }
    }
}

/// How many of the first `count` constraints take what the others leave.
pub open spec fn takers(constraints: Seq<Constraint>, count: int) -> int
    decreases count,
{
    if count <= 0 {
        0
    } else {
        takers(constraints, count - 1) + if constraints[count - 1] is Min {
            1int
        } else {
            0int
        }
    }
}

/// What the first `count` constraints ask for in hundredths of the whole.
pub open spec fn shares(constraints: Seq<Constraint>, count: int) -> int
    decreases count,
{
    if count <= 0 {
        0
    } else {
        shares(constraints, count - 1) + match constraints[count - 1] {
            Constraint::Percentage(n) => n as int,
            _ => 0,
        }
    }
}

/// Whether the constraints are lengths around one part that takes the rest, and
/// all of them can be had in `size` cells.
pub open spec fn lengths_fit(constraints: Seq<Constraint>, size: int) -> bool {
    &&& forall|i: int|
        0 <= i < constraints.len() ==> !((#[trigger] constraints[i]) is Percentage)
    &&& takers(constraints, constraints.len() as int) == 1
    &&& asked(constraints, constraints.len() as int) <= size
}

/// Whether the constraints are shares that make up the whole.
pub open spec fn shares_fill(constraints: Seq<Constraint>) -> bool {
    &&& forall|i: int| 0 <= i < constraints.len() ==> (#[trigger] constraints[i]) is Percentage
    &&& shares(constraints, constraints.len() as int) == 100
}

/// Where the part after the first `count` begins, in `size` cells, of lengths
/// that fit.
pub open spec fn length_cut(constraints: Seq<Constraint>, size: int, count: int) -> int {
    asked(constraints, count) + if takers(constraints, count) > 0 {
        size - asked(constraints, constraints.len() as int)
    } else {
        0
    }
}

/// The least that those of the first `count` constraints ask for that take what the
/// others leave.
pub open spec fn least(constraints: Seq<Constraint>, count: int) -> int
    decreases count,
{
    if count <= 0 {
        0
    } else {
        least(constraints, count - 1) + match constraints[count - 1] {
            Constraint::Min(n) => n as int,
            _ => 0,
        }
    }
}

/// How many of the first `count` constraints are lengths of a cell or more.
pub open spec fn lengths(constraints: Seq<Constraint>, count: int) -> int
    decreases count,
{
    if count <= 0 {
        0
    } else {
        lengths(constraints, count - 1) + match constraints[count - 1] {
            Constraint::Length(n) if n > 0 => 1int,
            _ => 0int,
        }
    }
}

/// Whether the constraints are lengths around one part with a minimum, not all of
/// them can be had in `size` cells, and it is plain which gives way: the minimum
/// takes every cell, or there is only one length. The minimum is one that a signed
/// number of sixteen bits holds, as the solver keeps it.
pub open spec fn lengths_give_way(constraints: Seq<Constraint>, size: int) -> bool {
    let count = constraints.len() as int;
    &&& forall|i: int|
        0 <= i < constraints.len() ==> !((#[trigger] constraints[i]) is Percentage)
    &&& takers(constraints, count) == 1
    &&& least(constraints, count) <= i16::MAX
    &&& asked(constraints, count) > size
    &&& size <= least(constraints, count) || lengths(constraints, count) <= 1
}

/// Where the part after the first `count` begins, in `size` cells, of lengths that
/// give way: the minimum is had first, and the length has what is left.
pub open spec fn minimum_cut(constraints: Seq<Constraint>, size: int, count: int) -> int {
    let minimum = least(constraints, constraints.len() as int);
    let had = if minimum < size {
        minimum
    } else {
        size
    };
    let first = if takers(constraints, count) > 0 {
        had
    } else {
        0
    };
    first + if lengths(constraints, count) > 0 {
        size - had
    } else {
        0
    }
}

/// Where the part after the first `count` begins, in `size` cells, of shares
/// that fill them: to the nearest cell, and on from the middle of one.
pub open spec fn share_cut(constraints: Seq<Constraint>, size: int, count: int) -> int {
    (shares(constraints, count) * size + 50) / 100
}

/// How wide the first `count` parts are together.
pub open spec fn widths_of(parts: Seq<Rect>, count: int) -> int
    decreases count,
{
    if count <= 0 {
        0
    } else {
        widths_of(parts, count - 1) + parts[count - 1].width
    }
}

/// Whether a width is a share of `whole` columns, in hundredths, less at most `gaps`
/// columns: each end of a part is moved to a whole column.
pub open spec fn near_share(width: int, share: int, whole: int, gaps: int) -> bool {
    &&& share * whole <= 100 * (width + gaps + 2)
    &&& 100 * width <= share * whole + 200
}

/// The columns between the parts, all together.
pub open spec fn room_between(constraints: Seq<Constraint>, spacing: u16) -> int {
    (constraints.len() - 1) * spacing
}

/// Whether the parts take all but the room between them, each near its share.
pub open spec fn take_their_shares(
    parts: Seq<Rect>,
    constraints: Seq<Constraint>,
    spacing: u16,
    area: Rect,
) -> bool {
    &&& widths_of(parts, parts.len() as int) == area.width - room_between(constraints, spacing)
    &&& forall|i: int|
        0 <= i < parts.len() ==> near_share(
            (#[trigger] parts[i]).width as int,
            constraints[i]->Percentage_0 as int,
            area.width as int,
            room_between(constraints, spacing),
        )
}

/// Calls `Layout::split` of the ratatui crate: one part of `area` for each
/// constraint, in order, with `spacing` columns or rows between them. A part of a
/// horizontal split keeps the area's rows, one of a vertical split its columns,
/// and no part leaves the area. Without spacing, rows whose lengths fit around one
/// part with a minimum are had to the cell and that part takes the rest; where they do
/// not fit, the minimum is had first, so that it takes every row of an area no larger
/// than it, and a length that is the only one has what is left. Columns whose shares
/// make up the whole are cut at the nearest cell. With spacing, columns
/// whose shares make up the whole give up the room between them and no more: their
/// widths add up to what that leaves, and each is its share, less at most all of that
/// room, to two cells. Where the parts begin and end otherwise is left unsaid: the
/// solver behind the split then weighs the constraints against each other, and walks
/// hash maps that each process seeds anew.
#[verifier::external_body]
pub(crate) fn split_area(
    direction: Direction,
    constraints: &Vec<Constraint>,
    spacing: u16,
    area: Rect,
) -> (parts: Vec<Rect>)
    requires
        spacing <= 1,
    ensures
        parts@.len() == constraints@.len(),
        forall|i: int|
            0 <= i < parts@.len() ==> match direction {
                Direction::Horizontal => {
                    &&& (#[trigger] parts@[i]).y == area.y
                    &&& parts@[i].height == area.height
                    &&& area.x <= parts@[i].x
                    &&& parts@[i].x + parts@[i].width <= area.x + area.width
                },
                Direction::Vertical => {
                    &&& parts@[i].x == area.x
                    &&& parts@[i].width == area.width
                    &&& area.y <= parts@[i].y
                    &&& parts@[i].y + parts@[i].height <= area.y + area.height
                },
            },
        direction == Direction::Vertical && spacing == 0 && area.y + area.height <= u16::MAX
            && lengths_fit(constraints@, area.height as int) ==> forall|i: int|
            0 <= i < parts@.len() ==> (#[trigger] parts@[i]).y == area.y + length_cut(
                constraints@,
                area.height as int,
                i,
            ) && parts@[i].y + parts@[i].height == area.y + length_cut(
                constraints@,
                area.height as int,
                i + 1,
            ),
        direction == Direction::Vertical && spacing == 0 && area.y + area.height <= u16::MAX
            && lengths_give_way(constraints@, area.height as int) ==> forall|i: int|
            0 <= i < parts@.len() ==> (#[trigger] parts@[i]).y == area.y + minimum_cut(
                constraints@,
                area.height as int,
                i,
            ) && parts@[i].y + parts@[i].height == area.y + minimum_cut(
                constraints@,
                area.height as int,
                i + 1,
            ),
        direction == Direction::Horizontal && spacing == 0 && area.x + area.width <= u16::MAX
            && shares_fill(constraints@) ==> forall|i: int|
            0 <= i < parts@.len() ==> (#[trigger] parts@[i]).x == area.x + share_cut(
                constraints@,
                area.width as int,
                i,
            ) && parts@[i].x + parts@[i].width == area.x + share_cut(
                constraints@,
                area.width as int,
                i + 1,
            ),
        direction == Direction::Horizontal && area.x + area.width <= u16::MAX && shares_fill(
            constraints@,
        ) && area.width >= room_between(constraints@, spacing) ==> take_their_shares(
            parts@,
            constraints@,
            spacing,
            area,
        ),
{
    let wanted = constraints.iter().map(|c| match c {
        Constraint::Length(n) => ratatui::layout::Constraint::Length(*n),
        Constraint::Min(n) => ratatui::layout::Constraint::Min(*n),
        Constraint::Percentage(n) => ratatui::layout::Constraint::Percentage(*n),
    });
    let layout = match direction {
        Direction::Horizontal => ratatui::layout::Layout::horizontal(wanted),
        Direction::Vertical => ratatui::layout::Layout::vertical(wanted),
    };
    let whole = ratatui::layout::Rect { x: area.x, y: area.y, width: area.width, height: area.height };
    layout.spacing(spacing).split(whole).iter().map(|r| Rect::new(r.x, r.y, r.width, r.height)).collect()
}

/// A drawn frame of the ratatui crate: a rectangle of cells.
#[verifier::external_type_specification]
#[verifier::external_body]
pub struct ExBuffer(ratatui::buffer::Buffer);

/// What each cell of a frame shows, by column and row.
pub uninterp spec fn symbols(frame: ratatui::buffer::Buffer) -> Map<(u16, u16), Seq<char>>;

/// The cells of a frame that are drawn inverted, by column and row.
pub uninterp spec fn inverted(frame: ratatui::buffer::Buffer) -> Set<(u16, u16)>;

/// How else each cell of a frame is drawn, by column and row: a number for its
/// colours and its other modifiers.
pub uninterp spec fn dressing(frame: ratatui::buffer::Buffer) -> Map<(u16, u16), int>;

/// Calls `Buffer::cell` and `Cell::symbol` of the ratatui crate: what the cell at
/// a column and row shows, where the frame has that cell.
#[verifier::external_body]
pub(crate) fn symbol_at(frame: &Buffer, column: u16, row: u16) -> (symbol: Option<String>)
    ensures
        match symbol {
            Some(shown) => symbols(*frame).contains_key((column, row)) && shown@
                == symbols(*frame)[(column, row)],
            None => !symbols(*frame).contains_key((column, row)),
        },
{
    frame.cell(Position::new(column, row)).map(|cell| cell.symbol().to_string())
}

/// Calls `Buffer::cell_mut`, and on the cell `Cell::style`, `Style::add_modifier`
/// and `Cell::set_style` of the ratatui crate: the cell at a column and row is
/// drawn inverted from now on, where the frame has that cell. Nothing else about
/// any cell changes.
#[verifier::external_body]
pub(crate) fn invert_cell(frame: &mut Buffer, column: u16, row: u16)
    ensures
        symbols(*final(frame)) == symbols(*old(frame)),
        dressing(*final(frame)) == dressing(*old(frame)),
        inverted(*final(frame)) == if symbols(*old(frame)).contains_key((column, row)) {
            inverted(*old(frame)).insert((column, row))
        } else {
            inverted(*old(frame))
        },
{
    if let Some(cell) = frame.cell_mut(Position::new(column, row)) {
        let style = cell.style().add_modifier(Modifier::REVERSED);
        cell.set_style(style);
    }
}

/// Calls `Arc::clone`: another pointer to the same value.
#[verifier::external_body]
pub(crate) fn share<T>(value: &Arc<T>) -> (shared: Arc<T>)
    ensures
        shared == *value,
{
    Arc::clone(value)
}

/// Another pointer to the same value, where there is one.
pub fn share_opt<T>(value: &Option<Arc<T>>) -> (shared: Option<Arc<T>>)
    ensures
        shared == *value,
{
    match value {
        Some(v) => Some(share(v)),
        None => None,
    }
}

} // verus!
