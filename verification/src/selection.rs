//! Mouse text selection for the dashboard's text panes.
//!
//! A selection is anchored to screen cells, not to a pane's source lines. Panes
//! wrap long lines as they draw, so only the drawn frame always matches what a
//! person sees: the highlight is painted over its cells, and the copied text is
//! read back from those same cells.

use crate::outside::{
    columns, display_width, dressing, invert_cell, inverted, symbol_at, symbols,
};
use crate::state::{back, notice, scrolled, Dashboard, Detail, Mouse, Notes, RunList};
use crate::style::{minus, Rect};
use crate::text::{
    cat3, cat5, copy_of, count_text, decimal, join, joined, length_of, lines, run_together, text_lines,
    trim, trim_end, trimmed, trimmed_end,
};
use crate::types::{LogScroll, MouseEvent, MouseEventKind, PaneId, Selection, ToastLevel};
use crate::views::{group_views, views};
use ratatui::buffer::Buffer;
use vstd::prelude::*;

verus! {

broadcast use group_views;

// ── Geometry ─────────────────────────────────────────────────────────────────

/// Whether `at` is the first of the regions that holds a cell.
pub open spec fn is_hit(regions: Seq<Rect>, column: u16, row: u16, at: int) -> bool {
    0 <= at < regions.len() && regions[at].holds(column, row) && forall|j: int|
        0 <= j < at ==> !(#[trigger] regions[j]).holds(column, row)
}

/// The first of the regions that holds a cell, where one does.
pub fn hit_region(regions: &Vec<Rect>, column: u16, row: u16) -> (hit: Option<Rect>)
    ensures
        match hit {
            Some(rect) => exists|i: int|
                #[trigger] is_hit(regions@, column, row, i) && regions@[i] == rect,
            None => forall|i: int|
                0 <= i < regions@.len() ==> !(#[trigger] regions@[i]).holds(column, row),
        },
{
    let mut i: usize = 0;
    while i < regions.len()
        invariant
            i <= regions@.len(),
            forall|j: int| 0 <= j < i ==> !(#[trigger] regions@[j]).holds(column, row),
        decreases regions.len() - i,
    {
        if regions[i].contains(column, row) {
            assert(is_hit(regions@, column, row, i as int));
            return Some(regions[i]);
        }
        i = i + 1;
    }
    None
}

/// A coordinate pulled between two others.
pub open spec fn pulled(value: u16, low: u16, high: u16) -> u16 {
    if value < low {
        low
    } else if value > high {
        high
    } else {
        value
    }
}

/// A cell pulled into a region.
pub open spec fn pulled_in(region: Rect, column: u16, row: u16) -> (u16, u16) {
    (
        pulled(column, region.x, minus(region.right_edge(), 1)),
        pulled(row, region.y, minus(region.bottom_edge(), 1)),
    )
}

/// Whether a region has a cell at all.
pub open spec fn has_cells(region: Rect) -> bool {
    region.x < region.right_edge() && region.y < region.bottom_edge()
}

/// Pull a cell into a region: a drag may wander outside the pane it began in.
pub fn clamp_to_region(region: Rect, column: u16, row: u16) -> (cell: (u16, u16))
    requires
        has_cells(region),
    ensures
        cell == pulled_in(region, column, row),
        region.holds(cell.0, cell.1),
        region.holds(column, row) ==> cell == (column, row),
{
    let right: u16 = region.right() - 1;
    let bottom: u16 = region.bottom() - 1;
    let x: u16 = if column < region.x {
        region.x
    } else if column > right {
        right
    } else {
        column
    };
    let y: u16 = if row < region.y {
        region.y
    } else if row > bottom {
        bottom
    } else {
        row
    };
    (x, y)
}

/// Whether one cell is read before another: top to bottom, then left to right.
pub open spec fn read_before(a: (u16, u16), b: (u16, u16)) -> bool {
    a.1 < b.1 || a.1 == b.1 && a.0 <= b.0
}

/// Two cells in reading order.
pub open spec fn reading_order(a: (u16, u16), b: (u16, u16)) -> ((u16, u16), (u16, u16)) {
    if read_before(a, b) {
        (a, b)
    } else {
        (b, a)
    }
}

/// Two cells in reading order, so that a drag upward or backward selects the same
/// range as its mirror.
pub fn ordered(a: (u16, u16), b: (u16, u16)) -> (ends: ((u16, u16), (u16, u16)))
    ensures
        ends == reading_order(a, b),
{
    if a.1 < b.1 || (a.1 == b.1 && a.0 <= b.0) {
        (a, b)
    } else {
        (b, a)
    }
}

/// The columns a selection covers on one row, both included: part of the first
/// and the last row, the whole region in between.
pub open spec fn spanned(region: Rect, start: (u16, u16), end: (u16, u16), row: u16) -> (u16, u16) {
    (
        if row == start.1 {
            start.0
        } else {
            region.x
        },
        if row == end.1 {
            end.0
        } else {
            minus(region.right_edge(), 1)
        },
    )
}

/// The columns a selection covers on one row, both included.
pub fn row_span(region: Rect, start: (u16, u16), end: (u16, u16), row: u16) -> (span: (u16, u16))
    ensures
        span == spanned(region, start, end, row),
{
    let first: u16 = if row == start.1 {
        start.0
    } else {
        region.x
    };
    let last: u16 = if row == end.1 {
        end.0
    } else {
        region.right().saturating_sub(1)
    };
    (first, last)
}

/// Whether a drag between two cells selects a cell.
pub open spec fn picked(
    region: Rect,
    a: (u16, u16),
    b: (u16, u16),
    cell: (u16, u16),
) -> bool {
    let (start, end) = reading_order(a, b);
    let (first, last) = spanned(region, start, end, cell.1);
    start.1 <= cell.1 <= end.1 && first <= cell.0 <= last
}

/// A drag selects what its mirror selects, and ordering two cells again changes
/// nothing.
pub proof fn a_mirrored_drag_selects_the_same(
    region: Rect,
    a: (u16, u16),
    b: (u16, u16),
    cell: (u16, u16),
)
    ensures
        reading_order(a, b) == reading_order(b, a),
        reading_order(reading_order(a, b).0, reading_order(a, b).1) == reading_order(a, b),
        picked(region, a, b, cell) == picked(region, b, a, cell),
{
}

/// A drag inside a region selects both of its ends, and nothing outside the
/// region.
pub proof fn a_drag_selects_its_ends_and_stays_inside(
    region: Rect,
    a: (u16, u16),
    b: (u16, u16),
    cell: (u16, u16),
)
    requires
        region.holds(a.0, a.1),
        region.holds(b.0, b.1),
    ensures
        picked(region, a, b, a),
        picked(region, a, b, b),
        picked(region, a, b, cell) ==> region.holds(cell.0, cell.1),
{
}

// ── The drawn frame ──────────────────────────────────────────────────────────

/// How many cells a symbol takes: its columns, and at least one.
pub open spec fn cells_taken(symbol: Seq<char>) -> nat {
    if columns(symbol) == 0 {
        1
    } else {
        columns(symbol)
    }
}

/// What stands in a row from one column to another, as far as the frame reaches.
/// A wide symbol also takes the cells after its own, which are passed over.
pub open spec fn walked(
    shown: Map<(u16, u16), Seq<char>>,
    row: u16,
    column: int,
    last: u16,
) -> Seq<Seq<char>>
    decreases
        if column <= last {
            last - column + 1
        } else {
            0
        },
{
    if column < 0 || column > last || !shown.contains_key((column as u16, row)) {
        Seq::empty()
    } else {
        let symbol = shown[(column as u16, row)];
        seq![symbol] + walked(shown, row, column + cells_taken(symbol), last)
    }
}

/// A row as it is copied: without the blanks at its end.
pub open spec fn row_text(row: Seq<Seq<char>>) -> Seq<char> {
    trimmed_end(run_together(row, row.len() as int))
}

/// The first `count` rows of a selection that begins at `start` and ends at
/// `end`, as they are copied.
pub open spec fn rows_read(
    shown: Map<(u16, u16), Seq<char>>,
    region: Rect,
    start: (u16, u16),
    end: (u16, u16),
    count: int,
) -> Seq<Seq<char>>
    decreases count,
{
    if count <= 0 {
        Seq::empty()
    } else {
        let row = (start.1 + count - 1) as u16;
        let (first, last) = spanned(region, start, end, row);
        rows_read(shown, region, start, end, count - 1).push(
            row_text(walked(shown, row, first as int, last)),
        )
    }
}

/// The text of a selection: its rows, joined by newlines.
pub open spec fn extracted(
    shown: Map<(u16, u16), Seq<char>>,
    region: Rect,
    a: (u16, u16),
    b: (u16, u16),
) -> Seq<char> {
    let (start, end) = reading_order(a, b);
    joined(rows_read(shown, region, start, end, end.1 - start.1 + 1), "\n"@)
}

/// What stands in a row of the frame from one column to another.
fn read_row(frame: &Buffer, row: u16, first: u16, last: u16) -> (cells: Vec<String>)
    ensures
        views(cells@) == walked(symbols(*frame), row, first as int, last),
{
    let mut cells: Vec<String> = Vec::new();
    let mut column: u128 = first as u128;
    while column <= last as u128
        invariant_except_break
            views(cells@) + walked(symbols(*frame), row, column as int, last) == walked(
                symbols(*frame),
                row,
                first as int,
                last,
            ),
        ensures
            views(cells@) == walked(symbols(*frame), row, first as int, last),
        decreases
            if column <= last {
                last - column + 1
            } else {
                0
            },
    {
        let symbol = match symbol_at(frame, column as u16, row) {
            Some(symbol) => symbol,
            None => {
                assert(views(cells@) + Seq::<Seq<char>>::empty() =~= views(cells@));
                break;
            },
        };
        let width: usize = display_width(symbol.as_str());
        let step: u128 = if width == 0 {
            1
        } else {
            width as u128
        };
        let ghost so_far = views(cells@);
        cells.push(symbol);
        proof {
            let rest = walked(symbols(*frame), row, column + step, last);
            assert(so_far + (seq![symbol@] + rest) =~= so_far.push(symbol@) + rest);
        }
        column = column + step;
        assert(column > last ==> views(cells@) + Seq::<Seq<char>>::empty() =~= views(cells@));
    }
    cells
}

/// A row as it is copied.
pub fn row_of(cells: &Vec<String>) -> (text: String)
    ensures
        text@ == row_text(views(cells@)),
{
    let mut text = String::new();
    let mut i: usize = 0;
    while i < cells.len()
        invariant
            i <= cells@.len(),
            text@ == run_together(views(cells@), i as int),
        decreases cells.len() - i,
    {
        text.append(cells[i].as_str());
        i = i + 1;
    }
    trim_end(text.as_str())
}

/// Read the selected cells back out of a drawn frame as plain text.
pub fn extract_from_buffer(
    frame: &Buffer,
    region: Rect,
    a: (u16, u16),
    b: (u16, u16),
) -> (text: String)
    ensures
        text@ == extracted(symbols(*frame), region, a, b),
{
    let (start, end) = ordered(a, b);
    let mut rows: Vec<String> = Vec::new();
    let mut row: u32 = start.1 as u32;
    while row <= end.1 as u32
        invariant
            start.1 <= row <= end.1 + 1,
            views(rows@) == rows_read(symbols(*frame), region, start, end, row - start.1),
        decreases end.1 + 1 - row,
    {
        let (first, last) = row_span(region, start, end, row as u16);
        let cells = read_row(frame, row as u16, first, last);
        rows.push(row_of(&cells));
        row = row + 1;
    }
    join(&rows, "\n")
}

/// A drag reads what its mirror reads.
pub proof fn a_mirrored_drag_reads_the_same(
    shown: Map<(u16, u16), Seq<char>>,
    region: Rect,
    a: (u16, u16),
    b: (u16, u16),
)
    ensures
        extracted(shown, region, a, b) == extracted(shown, region, b, a),
{
}

/// Paint a selection over a drawn frame by inverting each selected cell. Whatever
/// else a pane drew there stays.
pub fn highlight_in_buffer(frame: &mut Buffer, region: Rect, a: (u16, u16), b: (u16, u16))
    ensures
        symbols(*final(frame)) == symbols(*old(frame)),
        dressing(*final(frame)) == dressing(*old(frame)),
        forall|cell: (u16, u16)| #[trigger]
            inverted(*final(frame)).contains(cell) <==> (inverted(*old(frame)).contains(cell) || (
            symbols(*old(frame)).contains_key(cell) && picked(region, a, b, cell))),
{
    let (start, end) = ordered(a, b);
    let mut row: u32 = start.1 as u32;
    while row <= end.1 as u32
        invariant
            start.1 <= row <= end.1 + 1,
            (start, end) == reading_order(a, b),
            symbols(*frame) == symbols(*old(frame)),
            dressing(*frame) == dressing(*old(frame)),
            forall|cell: (u16, u16)| #[trigger]
                inverted(*frame).contains(cell) <==> (inverted(*old(frame)).contains(cell) || (
                symbols(*old(frame)).contains_key(cell) && picked(region, a, b, cell) && cell.1
                    < row)),
        decreases end.1 + 1 - row,
    {
        let (first, last) = row_span(region, start, end, row as u16);
        let mut column: u32 = first as u32;
        while column <= last as u32
            invariant
                start.1 <= row <= end.1,
                first <= column,
                (first, last) == spanned(region, start, end, row as u16),
                (start, end) == reading_order(a, b),
                symbols(*frame) == symbols(*old(frame)),
                dressing(*frame) == dressing(*old(frame)),
                forall|cell: (u16, u16)| #[trigger]
                    inverted(*frame).contains(cell) <==> (inverted(*old(frame)).contains(cell) || (
                    symbols(*old(frame)).contains_key(cell) && picked(region, a, b, cell) && (
                    cell.1 < row || cell.1 == row && cell.0 < column))),
            decreases last + 1 - column,
        {
            invert_cell(frame, column as u16, row as u16);
            column = column + 1;
        }
        row = row + 1;
    }
}

// ── The mouse ────────────────────────────────────────────────────────────────

/// Who is offered a mouse event before the panes are: the buttons over a
/// long-form box, the hint that names them, the Agents screen, a graph canvas.
#[derive(Clone, Copy, Debug, PartialEq, Eq, Structural)]
pub enum Claimant {
    Toolbar,
    Hover,
    Agents,
    Graph,
}

/// Who is offered a mouse event before the panes are, in order. Plain motion only
/// ever lights a button.
pub open spec fn offered(kind: MouseEventKind, agents_screen: bool) -> Seq<Claimant> {
    if kind == MouseEventKind::Moved {
        seq![Claimant::Hover]
    } else {
        (if kind == MouseEventKind::LeftDown {
            seq![Claimant::Toolbar]
        } else {
            Seq::empty()
        }) + (if agents_screen {
            seq![Claimant::Agents]
        } else {
            Seq::empty()
        }) + seq![Claimant::Graph]
    }
}

/// Who is offered a mouse event before the panes are, in order.
pub fn claimants(kind: MouseEventKind, agents_screen: bool) -> (order: Vec<Claimant>)
    ensures
        order@ == offered(kind, agents_screen),
{
    let mut order: Vec<Claimant> = Vec::new();
    if kind == MouseEventKind::Moved {
        order.push(Claimant::Hover);
        assert(order@ =~= offered(kind, agents_screen));
        return order;
    }
    if kind == MouseEventKind::LeftDown {
        order.push(Claimant::Toolbar);
    }
    if agents_screen {
        order.push(Claimant::Agents);
    }
    order.push(Claimant::Graph);
    assert(order@ =~= offered(kind, agents_screen));
    order
}

/// Whether a pane's rectangle is under a cell.
pub open spec fn under(rect: Rect, column: u16, row: u16) -> bool {
    rect.x <= column < rect.x + rect.width && rect.y <= row < rect.y + rect.height
}

/// The first pane under a cell, from `from` on.
pub open spec fn pane_at(panes: Seq<(PaneId, Rect)>, column: u16, row: u16, from: int) -> Option<
    PaneId,
>
    decreases panes.len() - from,
{
    if from < 0 || from >= panes.len() {
        None
    } else if under(panes[from].1, column, row) {
        Some(panes[from].0)
    } else {
        pane_at(panes, column, row, from + 1)
    }
}

/// The row that a wheel notch moves the cursor of the run list to: one up with
/// `lines` at least zero, one down below, and no further than either end.
pub open spec fn stepped(selected: usize, lines: i32, rows: nat) -> usize {
    let wanted = if lines >= 0 {
        selected - 1
    } else {
        selected + 1
    };
    if wanted < 0 {
        0
    } else if wanted > rows - 1 {
        (rows - 1) as usize
    } else {
        wanted as usize
    }
}

/// The log's scroll position after a wheel notch.
pub open spec fn log_scrolled(scroll: LogScroll, lines: i32, len: nat, viewport: usize) -> int {
    let rows = if viewport == 0 {
        1
    } else {
        viewport as int
    };
    if lines >= 0 {
        back(scroll.offset_from_tail as int, lines as int, len as int, rows)
    } else if scroll.offset_from_tail + lines < 0 {
        0
    } else {
        scroll.offset_from_tail + lines
    }
}

impl Selection {
    /// Whether both ends are inside the region.
    pub open spec fn inside(self) -> bool {
        self.region.holds(self.anchor.0, self.anchor.1) && self.region.holds(
            self.cursor.0,
            self.cursor.1,
        )
    }
}

/// A selection as a press begins it.
pub open spec fn begun(region: Rect, column: u16, row: u16) -> Selection {
    Selection {
        region,
        anchor: (column, row),
        cursor: (column, row),
        dragging: true,
        moved: false,
        pending_copy: false,
    }
}

/// A selection after a drag.
pub open spec fn dragged(selection: Option<Selection>, column: u16, row: u16) -> Option<Selection> {
    match selection {
        Some(sel) if sel.dragging => Some(
            Selection { cursor: pulled_in(sel.region, column, row), moved: true, ..sel },
        ),
        _ => selection,
    }
}

/// A selection after a release: with motion behind it, it waits to be copied;
/// without, it is gone.
pub open spec fn released(selection: Option<Selection>, column: u16, row: u16) -> Option<
    Selection,
> {
    match selection {
        Some(sel) if sel.dragging => if sel.moved {
            Some(
                Selection {
                    cursor: pulled_in(sel.region, column, row),
                    dragging: false,
                    pending_copy: true,
                    ..sel
                },
            )
        } else {
            None
        },
        _ => selection,
    }
}

/// Whether a release is a plain click.
pub open spec fn is_click(selection: Option<Selection>) -> bool {
    match selection {
        Some(sel) => !(sel.dragging && sel.moved),
        None => true,
    }
}

impl Dashboard {
    /// Whether the selection, where there is one, is inside its region.
    pub open spec fn selection_inside(self) -> bool {
        self.mouse.selection matches Some(sel) ==> sel.inside()
    }

    /// A mouse event that nobody else claimed: the wheel scrolls the pane under
    /// it, and the left button selects. Where it was a plain click, the cell it
    /// landed on.
    pub fn handle_mouse(&mut self, event: MouseEvent) -> (click: Option<(u16, u16)>)
        requires
            old(self).selection_inside(),
        ensures
            final(self).selection_inside(),
            event.kind == MouseEventKind::ScrollUp ==> wheeled(
                *old(self),
                *final(self),
                event.column,
                event.row,
                3,
            ),
            event.kind == MouseEventKind::ScrollDown ==> wheeled(
                *old(self),
                *final(self),
                event.column,
                event.row,
                (-3) as i32,
            ),
            event.kind == MouseEventKind::LeftDown ==> began(
                *old(self),
                *final(self),
                event.column,
                event.row,
            ),
            event.kind == MouseEventKind::LeftDrag ==> *final(self) == (Dashboard {
                mouse: Mouse {
                    selection: dragged(old(self).mouse.selection, event.column, event.row),
                    ..old(self).mouse
                },
                ..*old(self)
            }),
            event.kind == MouseEventKind::LeftUp ==> *final(self) == (Dashboard {
                mouse: Mouse {
                    selection: released(old(self).mouse.selection, event.column, event.row),
                    ..old(self).mouse
                },
                ..*old(self)
            }),
            event.kind == MouseEventKind::Moved || event.kind == MouseEventKind::Other
                ==> *final(self) == *old(self),
            click == if event.kind == MouseEventKind::LeftUp && is_click(
                old(self).mouse.selection,
            ) {
                Some((event.column, event.row))
            } else {
                None
            },
    {
        match event.kind {
            MouseEventKind::ScrollUp => {
                self.wheel_scroll(event.column, event.row, 3);
                None
            },
            MouseEventKind::ScrollDown => {
                self.wheel_scroll(event.column, event.row, -3);
                None
            },
            MouseEventKind::LeftDown => {
                self.selection_begin(event.column, event.row);
                None
            },
            MouseEventKind::LeftDrag => {
                self.selection_drag(event.column, event.row);
                None
            },
            MouseEventKind::LeftUp => {
                if self.selection_release(event.column, event.row) {
                    Some((event.column, event.row))
                } else {
                    None
                }
            },
            MouseEventKind::Moved | MouseEventKind::Other => None,
        }
    }

    /// Scroll the pane under a cell: back through history with `lines` at least
    /// zero. The wheel moves the cursor of the run list; anywhere but over that
    /// list and the log it scrolls what the keys scroll. Any scroll clears the
    /// selection, which is anchored to cells that now show something else.
    pub fn wheel_scroll(&mut self, column: u16, row: u16, lines: i32)
        ensures
            wheeled(*old(self), *final(self), column, row, lines),
    {
        let mut hit: Option<PaneId> = None;
        let mut i: usize = 0;
        while i < self.mouse.pane_rects.len()
            invariant_except_break
                hit is None,
                pane_at(self.mouse.pane_rects@, column, row, 0) == pane_at(
                    self.mouse.pane_rects@,
                    column,
                    row,
                    i as int,
                ),
            invariant
                *self == *old(self),
                i <= self.mouse.pane_rects@.len(),
            ensures
                hit == pane_at(self.mouse.pane_rects@, column, row, 0),
            decreases self.mouse.pane_rects.len() - i,
        {
            let (id, rect) = self.mouse.pane_rects[i];
            if column >= rect.x && (column as u32) < rect.x as u32 + rect.width as u32 && row
                >= rect.y && (row as u32) < rect.y as u32 + rect.height as u32 {
                hit = Some(id);
                break;
            }
            i = i + 1;
        }
        match hit {
            Some(PaneId::LogPanel) => {
                let len: usize = self.notes.log.len();
                let viewport: usize = if self.notes.log_viewport == 0 {
                    1
                } else {
                    self.notes.log_viewport
                };
                if lines >= 0 {
                    self.notes.log_scroll.scroll_up(lines as usize, len, viewport);
                } else {
                    self.notes.log_scroll.scroll_down((-(lines as i64)) as usize);
                }
                self.mouse.selection = None;
            },
            Some(PaneId::RunTable) => {
                if self.runs.display_indices.len() > 0 {
                    let max: usize = self.runs.display_indices.len() - 1;
                    let wanted: usize = if lines >= 0 {
                        self.runs.selected.saturating_sub(1)
                    } else {
                        self.runs.selected.saturating_add(1)
                    };
                    self.runs.selected = if wanted > max {
                        max
                    } else {
                        wanted
                    };
                    self.runs.table_selected = Some(self.runs.selected);
                }
                self.mouse.selection = None;
            },
            _ => self.scroll_by(lines),
        }
    }

    /// A left press inside a selectable pane starts a drag there; anywhere else
    /// it clears whatever selection there was.
    pub fn selection_begin(&mut self, column: u16, row: u16)
        ensures
            began(*old(self), *final(self), column, row),
            final(self).selection_inside(),
    {
        self.mouse.selection = match hit_region(&self.mouse.selection_regions, column, row) {
            Some(region) => Some(
                Selection {
                    region,
                    anchor: (column, row),
                    cursor: (column, row),
                    dragging: true,
                    moved: false,
                    pending_copy: false,
                },
            ),
            None => None,
        };
    }

    /// Extend the drag to a cell.
    pub fn selection_drag(&mut self, column: u16, row: u16)
        requires
            old(self).selection_inside(),
        ensures
            *final(self) == (Dashboard {
                mouse: Mouse {
                    selection: dragged(old(self).mouse.selection, column, row),
                    ..old(self).mouse
                },
                ..*old(self)
            }),
            final(self).selection_inside(),
    {
        match self.mouse.selection {
            Some(sel) => {
                if sel.dragging {
                    let cursor = clamp_to_region(sel.region, column, row);
                    self.mouse.selection = Some(Selection { cursor, moved: true, ..sel });
                }
            },
            None => {},
        }
    }

    /// End the drag: with motion the copy is due at the next draw, without it was
    /// a plain click and clears. Says whether it was a plain click, as is a
    /// release with no drag behind it.
    pub fn selection_release(&mut self, column: u16, row: u16) -> (click: bool)
        requires
            old(self).selection_inside(),
        ensures
            *final(self) == (Dashboard {
                mouse: Mouse {
                    selection: released(old(self).mouse.selection, column, row),
                    ..old(self).mouse
                },
                ..*old(self)
            }),
            final(self).selection_inside(),
            click == is_click(old(self).mouse.selection),
    {
        match self.mouse.selection {
            Some(sel) => {
                if !sel.dragging {
                    return true;
                }
                let cursor = clamp_to_region(sel.region, column, row);
                if sel.moved {
                    self.mouse.selection = Some(
                        Selection { cursor, dragging: false, pending_copy: true, ..sel },
                    );
                    false
                } else {
                    self.mouse.selection = None;
                    true
                }
            },
            None => true,
        }
    }

    /// Drop a selection whose pane was not drawn this frame.
    pub fn validate_selection(&mut self)
        ensures
            *final(self) == (Dashboard {
                mouse: Mouse {
                    selection: still_drawn(*old(self)),
                    ..old(self).mouse
                },
                ..*old(self)
            }),
    {
        let region = match self.mouse.selection {
            Some(sel) => sel.region,
            None => return,
        };
        let mut i: usize = 0;
        while i < self.mouse.selection_regions.len()
            invariant
                *self == *old(self),
                self.mouse.selection matches Some(sel) && sel.region == region,
                i <= self.mouse.selection_regions@.len(),
                forall|j: int| 0 <= j < i ==> self.mouse.selection_regions@[j] != region,
            decreases self.mouse.selection_regions.len() - i,
        {
            if self.mouse.selection_regions[i] == region {
                assert(self.mouse.selection_regions@.contains(region));
                return;
            }
            i = i + 1;
        }
        self.mouse.selection = None;
    }

    /// Paint the highlight over a drawn frame. Once the drag has ended, the
    /// selection goes and its text is handed out to be copied.
    pub fn apply_selection_overlay(&mut self, frame: &mut Buffer) -> (copy: Option<String>)
        ensures
            symbols(*final(frame)) == symbols(*old(frame)),
            dressing(*final(frame)) == dressing(*old(frame)),
            forall|cell: (u16, u16)| #[trigger]
                inverted(*final(frame)).contains(cell) <==> (inverted(*old(frame)).contains(cell)
                    || (symbols(*old(frame)).contains_key(cell) && is_highlighted(
                    still_drawn(*old(self)),
                    cell,
                ))),
            copy is Some <==> is_due(still_drawn(*old(self))),
            copy matches Some(text) ==> still_drawn(*old(self)) matches Some(sel) && text@
                == extracted(symbols(*old(frame)), sel.region, sel.anchor, sel.cursor),
            *final(self) == (Dashboard {
                mouse: Mouse {
                    selection: if is_due(still_drawn(*old(self))) {
                        None
                    } else {
                        still_drawn(*old(self))
                    },
                    ..old(self).mouse
                },
                ..*old(self)
            }),
    {
        self.validate_selection();
        let sel = match self.mouse.selection {
            Some(sel) => sel,
            None => return None,
        };
        highlight_in_buffer(frame, sel.region, sel.anchor, sel.cursor);
        if sel.pending_copy {
            let text = extract_from_buffer(frame, sel.region, sel.anchor, sel.cursor);
            self.mouse.selection = None;
            return Some(text);
        }
        None
    }

    /// Whether a selected text is worth copying: it is not all blank.
    pub fn worth_copying(text: &str) -> (worth: bool)
        ensures
            worth == (trimmed(text@).len() > 0),
    {
        !trim(text).as_str().is_empty()
    }

    /// Say what became of the copy of a selected text: `copied` is whether the
    /// clipboard took it. A text that is all blank is not copied, and nothing is
    /// said.
    pub fn finish_copy(&mut self, text: &str, copied: bool)
        ensures
            *final(self) == (Dashboard {
                notes: Notes { toasts: final(self).notes.toasts, ..old(self).notes },
                ..*old(self)
            }),
            views(final(self).notes.toasts@) == if trimmed(text@).len() == 0 {
                views(old(self).notes.toasts@)
            } else if copied {
                views(old(self).notes.toasts@).push(notice(copy_report(text@), ToastLevel::Info))
            } else {
                views(old(self).notes.toasts@).push(
                    notice("Clipboard unavailable (no pbcopy/xclip/OSC52)"@, ToastLevel::Error),
                )
            },
    {
        if !Self::worth_copying(text) {
            return;
        }
        if copied {
            let chars = count_text(length_of(text));
            let line_list = lines(text);
            let message = if line_list.len() > 1 {
                let count = count_text(line_list.len());
                cat5("Copied ", chars.as_str(), " chars (", count.as_str(), " lines)")
            } else {
                cat3("Copied ", chars.as_str(), " chars")
            };
            self.toast(message, ToastLevel::Info);
        } else {
            self.toast(
                copy_of("Clipboard unavailable (no pbcopy/xclip/OSC52)"),
                ToastLevel::Error,
            );
        }
    }
}

/// What a copy is reported as.
pub open spec fn copy_report(text: Seq<char>) -> Seq<char> {
    let count = text_lines(text).len();
    if count > 1 {
        "Copied "@ + decimal(text.len()) + " chars ("@ + decimal(count) + " lines)"@
    } else {
        "Copied "@ + decimal(text.len()) + " chars"@
    }
}

/// The selection, where its pane was drawn this frame.
pub open spec fn still_drawn(dash: Dashboard) -> Option<Selection> {
    match dash.mouse.selection {
        Some(sel) if dash.mouse.selection_regions@.contains(sel.region) => Some(sel),
        _ => None,
    }
}

/// Whether a selection covers a cell.
pub open spec fn is_highlighted(selection: Option<Selection>, cell: (u16, u16)) -> bool {
    match selection {
        Some(sel) => picked(sel.region, sel.anchor, sel.cursor, cell),
        None => false,
    }
}

/// Whether a selection waits to be copied.
pub open spec fn is_due(selection: Option<Selection>) -> bool {
    match selection {
        Some(sel) => sel.pending_copy,
        None => false,
    }
}

/// What a press does: it begins a selection in the first region under it.
pub open spec fn began(before: Dashboard, after: Dashboard, column: u16, row: u16) -> bool {
    let regions = before.mouse.selection_regions@;
    &&& after == (Dashboard {
        mouse: Mouse { selection: after.mouse.selection, ..before.mouse },
        ..before
    })
    &&& match after.mouse.selection {
        Some(sel) => exists|i: int|
            #[trigger] is_hit(regions, column, row, i) && sel == begun(regions[i], column, row),
        None => forall|i: int|
            0 <= i < regions.len() ==> !(#[trigger] regions[i]).holds(column, row),
    }
}

/// What a wheel notch does, by the pane under it. Whichever it is, the selection is
/// cleared.
pub open spec fn wheeled(
    before: Dashboard,
    after: Dashboard,
    column: u16,
    row: u16,
    lines: i32,
) -> bool {
    match pane_at(before.mouse.pane_rects@, column, row, 0) {
        Some(PaneId::LogPanel) => {
            &&& after == (Dashboard {
                notes: Notes { log_scroll: after.notes.log_scroll, ..before.notes },
                mouse: Mouse { selection: None, ..before.mouse },
                ..before
            })
            &&& after.notes.log_scroll.offset_from_tail == log_scrolled(
                before.notes.log_scroll,
                lines,
                before.notes.log@.len(),
                before.notes.log_viewport,
            )
        },
        Some(PaneId::RunTable) => if before.runs.display_indices@.len() == 0 {
            after == (Dashboard { mouse: Mouse { selection: None, ..before.mouse }, ..before })
        } else {
            let selected = stepped(before.runs.selected, lines, before.runs.display_indices@.len());
            after == (Dashboard {
                runs: RunList { selected, table_selected: Some(selected), ..before.runs },
                mouse: Mouse { selection: None, ..before.mouse },
                ..before
            })
        },
        _ => after == (Dashboard {
            detail: Detail { scroll: scrolled(before.detail.scroll, lines), ..before.detail },
            mouse: Mouse { selection: None, ..before.mouse },
            ..before
        }),
    }
}

/// Any scroll clears the selection, whichever pane is under it.
pub proof fn a_scroll_clears_the_selection(
    before: Dashboard,
    after: Dashboard,
    column: u16,
    row: u16,
    lines: i32,
)
    requires
        wheeled(before, after, column, row, lines),
    ensures
        after.mouse.selection is None,
{
}

} // verus!
