//! What a selection comes to: which cells a drag picks, what is copied of them, and what
//! the mouse does to it.

use crate::outside::{columns, white_space};
use crate::selection::{
    began, begun, copy_report, dragged, extracted, is_click, is_due, is_highlighted, is_hit,
    offered, pane_at, picked, pulled_in, reading_order, released, row_text, rows_read, spanned,
    stepped, still_drawn, walked, wheeled, Claimant,
};
use crate::state::Dashboard;
use crate::style::Rect;
use crate::text::{decimal, joined, only_blanks_are_trimmed, run_together_is_every_text};
use crate::types::{MouseEventKind, PaneId, Selection};
use vstd::prelude::*;

verus! {

// ── Which cells ──────────────────────────────────────────────────────────────

/// Where a cell comes in reading order: rows from the top, and each from its left.
pub open spec fn place(cell: (u16, u16)) -> int {
    cell.1 * 65_536 + cell.0
}

/// Whether a cell is in a region that ends where coordinates do.
pub open spec fn in_region(region: Rect, cell: (u16, u16)) -> bool {
    &&& region.x <= cell.0 < region.x + region.width <= u16::MAX
    &&& region.y <= cell.1 < region.y + region.height <= u16::MAX
}

/// A drag picks the cells of its region that are read from one of its ends to the other,
/// both included, whichever way it went.
pub proof fn a_drag_picks_what_is_read_between_its_ends(
    region: Rect,
    a: (u16, u16),
    b: (u16, u16),
    cell: (u16, u16),
)
    requires
        in_region(region, a),
        in_region(region, b),
        in_region(region, cell),
    ensures
        picked(region, a, b, cell) <==> (place(a) <= place(cell) <= place(b) || place(b) <= place(
            cell,
        ) <= place(a)),
{
}

// ── What is copied ───────────────────────────────────────────────────────────

/// What a row shows from one column to another, one symbol behind the other.
pub open spec fn on_screen(
    shown: Map<(u16, u16), Seq<char>>,
    row: u16,
    first: int,
    last: int,
) -> Seq<char> {
    Seq::new(
        (last - first + 1) as nat,
        |i: int| shown[((first + i) as u16, row)],
    ).flatten()
}

/// Whether a text is copied of another: it begins as that does, what is left off is blank,
/// and it does not end with a blank.
pub open spec fn copied_of(copy: Seq<char>, text: Seq<char>) -> bool {
    &&& copy.len() <= text.len()
    &&& copy == text.take(copy.len() as int)
    &&& forall|i: int| copy.len() <= i < text.len() ==> white_space(#[trigger] text[i])
    &&& copy.len() > 0 ==> !white_space(copy.last())
}

/// Whether every cell of a region is drawn, with a symbol one column wide.
pub open spec fn is_narrow(shown: Map<(u16, u16), Seq<char>>, region: Rect) -> bool {
    forall|cell: (u16, u16)| #[trigger]
        in_region(region, cell) ==> shown.contains_key(cell) && columns(shown[cell]) <= 1
}

/// A copied row is what its cells show, without the blanks at its end and nothing else left
/// off: blanks at its beginning, such as an indentation, stay.
pub proof fn a_copied_row_loses_only_blanks_at_its_end(row: Seq<Seq<char>>)
    ensures
        copied_of(row_text(row), row.flatten()),
        forall|i: int|
            0 <= i < row.flatten().len() && !white_space(#[trigger] row.flatten()[i])
                ==> i < row_text(row).len() && row_text(row)[i] == row.flatten()[i],
{
    run_together_is_every_text(row, row.len() as int);
    assert(row.take(row.len() as int) =~= row);
    only_blanks_are_trimmed(row.flatten());
    let text = row.flatten();
    let copy = row_text(row);
    assert forall|i: int| 0 <= i < text.len() && !white_space(#[trigger] text[i]) implies i
        < copy.len() && copy[i] == text[i] by {
        assert(copy == text.take(copy.len() as int));
    }
}

/// Whether a cell is drawn, with a symbol one column wide.
pub open spec fn is_narrow_at(shown: Map<(u16, u16), Seq<char>>, row: u16, column: int) -> bool {
    shown.contains_key((column as u16, row)) && columns(shown[(column as u16, row)]) <= 1
}

/// The symbols of a row of narrow cells are those of its cells.
proof fn narrow_cells_are_walked_one_by_one(
    shown: Map<(u16, u16), Seq<char>>,
    row: u16,
    first: int,
    last: u16,
)
    requires
        0 <= first <= last + 1,
        forall|c: int| first <= c <= last ==> #[trigger] is_narrow_at(shown, row, c),
    ensures
        walked(shown, row, first, last) == Seq::new(
            (last - first + 1) as nat,
            |i: int| shown[((first + i) as u16, row)],
        ),
    decreases last + 1 - first,
{
    let all = Seq::new((last - first + 1) as nat, |i: int| shown[((first + i) as u16, row)]);
    if first <= last {
        let symbol = shown[(first as u16, row)];
        assert(is_narrow_at(shown, row, first));
        narrow_cells_are_walked_one_by_one(shown, row, first + 1, last);
        let rest = Seq::new(
            (last - (first + 1) + 1) as nat,
            |i: int| shown[((first + 1 + i) as u16, row)],
        );
        assert(walked(shown, row, first, last) == seq![symbol] + rest);
        assert(seq![symbol] + rest =~= all);
    } else {
        assert(all =~= Seq::empty());
    }
}

/// A wide symbol is copied once: the walk goes on behind the cells that it takes, and stops
/// where the frame does.
pub proof fn a_symbol_is_read_once(
    shown: Map<(u16, u16), Seq<char>>,
    row: u16,
    column: int,
    last: u16,
)
    requires
        0 <= column,
    ensures
        column > last ==> walked(shown, row, column, last).len() == 0,
        column <= last && !shown.contains_key((column as u16, row)) ==> walked(
            shown,
            row,
            column,
            last,
        ).len() == 0,
        column <= last && shown.contains_key((column as u16, row)) ==> ({
            let symbol = shown[(column as u16, row)];
            let step: int = if columns(symbol) > 1 {
                columns(symbol) as int
            } else {
                1
            };
            &&& walked(shown, row, column, last).len() > 0
            &&& walked(shown, row, column, last)[0] == symbol
            &&& walked(shown, row, column, last).skip(1) == walked(shown, row, column + step, last)
        }),
{
    if column <= last && shown.contains_key((column as u16, row)) {
        let symbol = shown[(column as u16, row)];
        let step: int = if columns(symbol) > 1 {
            columns(symbol) as int
        } else {
            1
        };
        let rest = walked(shown, row, column + step, last);
        assert(walked(shown, row, column, last) == seq![symbol] + rest);
        assert((seq![symbol] + rest).skip(1) =~= rest);
    }
}

/// The rows that are copied: one for each row of the drag, of the cells that it picks there.
proof fn rows_are_copied_one_by_one(
    shown: Map<(u16, u16), Seq<char>>,
    region: Rect,
    start: (u16, u16),
    end: (u16, u16),
    count: int,
)
    requires
        0 <= count <= end.1 - start.1 + 1,
        is_narrow(shown, region),
        in_region(region, start),
        in_region(region, end),
        start.1 < end.1 || start.1 == end.1 && start.0 <= end.0,
    ensures
        rows_read(shown, region, start, end, count).len() == count,
        forall|k: int|
            #![trigger rows_read(shown, region, start, end, count)[k]]
            0 <= k < count ==> copied_of(
                rows_read(shown, region, start, end, count)[k],
                on_screen(
                    shown,
                    (start.1 + k) as u16,
                    if k == 0 {
                        start.0 as int
                    } else {
                        region.x as int
                    },
                    if k == end.1 - start.1 {
                        end.0 as int
                    } else {
                        region.x + region.width - 1
                    },
                ),
            ),
    decreases count,
{
    if count > 0 {
        rows_are_copied_one_by_one(shown, region, start, end, count - 1);
        let k = count - 1;
        let row = (start.1 + k) as u16;
        let (first, last) = spanned(region, start, end, row);
        assert(first == if k == 0 {
            start.0
        } else {
            region.x
        });
        assert(last == if k == end.1 - start.1 {
            end.0 as int
        } else {
            region.x + region.width - 1
        });
        assert forall|c: int| first <= c <= last implies #[trigger] is_narrow_at(shown, row, c) by {
            assert(in_region(region, (c as u16, row)));
        }
        narrow_cells_are_walked_one_by_one(shown, row, first as int, last);
        a_copied_row_loses_only_blanks_at_its_end(walked(shown, row, first as int, last));
        let fewer = rows_read(shown, region, start, end, count - 1);
        let more = rows_read(shown, region, start, end, count);
        assert forall|j: int|
            #![trigger more[j]]
            0 <= j < count implies copied_of(
            more[j],
            on_screen(
                shown,
                (start.1 + j) as u16,
                if j == 0 {
                    start.0 as int
                } else {
                    region.x as int
                },
                if j == end.1 - start.1 {
                    end.0 as int
                } else {
                    region.x + region.width - 1
                },
            ),
        ) by {
            if j < count - 1 {
                assert(more[j] == fewer[j]);
            }
        }
    }
}

/// What is copied is what is on screen: a line for each row from the drag's upper end to its
/// lower one, each of the cells that the drag picks in that row, without the blanks at its
/// end.
pub proof fn a_copy_is_what_is_on_screen(
    shown: Map<(u16, u16), Seq<char>>,
    region: Rect,
    a: (u16, u16),
    b: (u16, u16),
) -> (rows: Seq<Seq<char>>)
    requires
        is_narrow(shown, region),
        in_region(region, a),
        in_region(region, b),
    ensures
        ({
            let (start, end) = if place(a) <= place(b) {
                (a, b)
            } else {
                (b, a)
            };
            &&& extracted(shown, region, a, b) == joined(rows, "\n"@)
            &&& rows.len() == end.1 - start.1 + 1
            &&& forall|k: int|
                #![trigger rows[k]]
                0 <= k < rows.len() ==> copied_of(
                    rows[k],
                    on_screen(
                        shown,
                        (start.1 + k) as u16,
                        if k == 0 {
                            start.0 as int
                        } else {
                            region.x as int
                        },
                        if k == end.1 - start.1 {
                            end.0 as int
                        } else {
                            region.x + region.width - 1
                        },
                    ),
                )
        }),
{
    let (start, end) = reading_order(a, b);
    rows_are_copied_one_by_one(shown, region, start, end, end.1 - start.1 + 1);
    rows_read(shown, region, start, end, end.1 - start.1 + 1)
}

/// A copy is reported with the number of its characters.
pub proof fn a_copy_is_counted(text: Seq<char>)
    ensures
        ("Copied "@ + decimal(text.len()) + " chars"@).is_prefix_of(copy_report(text)),
{
    let head = "Copied "@ + decimal(text.len()) + " chars"@;
    reveal_strlit(" chars");
    reveal_strlit(" chars (");
    assert(copy_report(text).take(head.len() as int) =~= head);
}

// ── What the mouse does ──────────────────────────────────────────────────────

/// A cell pulled into a region is in it, is the cell itself where that is, and no further
/// from it than any other cell of the region.
pub proof fn a_pulled_cell_is_the_nearest(region: Rect, column: u16, row: u16, other: (u16, u16))
    requires
        region.width > 0,
        region.height > 0,
        region.x + region.width <= u16::MAX,
        region.y + region.height <= u16::MAX,
        in_region(region, other),
    ensures
        in_region(region, pulled_in(region, column, row)),
        in_region(region, (column, row)) ==> pulled_in(region, column, row) == (column, row),
        ({
            let near = pulled_in(region, column, row);
            &&& (column <= near.0 <= other.0 || other.0 <= near.0 <= column)
            &&& (row <= near.1 <= other.1 || other.1 <= near.1 <= row)
        }),
{
}

/// A press, a drag and a release select from the pressed cell to the released one, pulled into
/// the pane the press was in, and what is selected then waits to be copied; a press and a
/// release with no drag between is a click and selects nothing.
pub proof fn a_drag_selects_from_press_to_release(
    region: Rect,
    press: (u16, u16),
    through: (u16, u16),
    release: (u16, u16),
)
    ensures
        ({
            let pressed = Some(begun(region, press.0, press.1));
            let drawn = dragged(pressed, through.0, through.1);
            let done = released(drawn, release.0, release.1);
            &&& drawn is Some && drawn->0.dragging && drawn->0.cursor == pulled_in(
                region,
                through.0,
                through.1,
            ) && drawn->0.anchor == press
            &&& !is_click(drawn)
            &&& done is Some
            &&& done->0.region == region
            &&& done->0.anchor == press
            &&& done->0.cursor == pulled_in(region, release.0, release.1)
            &&& done->0.pending_copy && !done->0.dragging
            &&& dragged(done, through.0, through.1) == done
            &&& is_click(pressed)
            &&& released(pressed, release.0, release.1) is None
        }),
{
}

/// What is dragged or released with nothing selected selects nothing.
pub proof fn nothing_begun_selects_nothing(column: u16, row: u16)
    ensures
        dragged(None::<Selection>, column, row) is None,
        released(None::<Selection>, column, row) is None,
        is_click(None::<Selection>),
{
}

/// The pane under a cell is one whose rectangle holds it, and the first of those.
pub proof fn the_pane_under_a_cell_holds_it(
    panes: Seq<(PaneId, Rect)>,
    column: u16,
    row: u16,
    from: int,
)
    requires
        0 <= from <= panes.len(),
    ensures
        match pane_at(panes, column, row, from) {
            Some(pane) => exists|i: int|
                from <= i < panes.len() && (#[trigger] panes[i]).0 == pane && panes[i].1.x <= column
                    < panes[i].1.x + panes[i].1.width && panes[i].1.y <= row < panes[i].1.y
                    + panes[i].1.height && forall|j: int|
                    from <= j < i ==> !((#[trigger] panes[j]).1.x <= column < panes[j].1.x
                        + panes[j].1.width && panes[j].1.y <= row < panes[j].1.y
                        + panes[j].1.height),
            None => forall|j: int|
                from <= j < panes.len() ==> !((#[trigger] panes[j]).1.x <= column < panes[j].1.x
                    + panes[j].1.width && panes[j].1.y <= row < panes[j].1.y
                    + panes[j].1.height),
        },
    decreases panes.len() - from,
{
    if from < panes.len() {
        let rect = panes[from].1;
        if rect.x <= column < rect.x + rect.width && rect.y <= row < rect.y + rect.height {
            assert(panes[from].0 == pane_at(panes, column, row, from)->0);
        } else {
            the_pane_under_a_cell_holds_it(panes, column, row, from + 1);
            match pane_at(panes, column, row, from + 1) {
                Some(pane) => {
                    let i = choose|i: int|
                        from + 1 <= i < panes.len() && (#[trigger] panes[i]).0 == pane
                            && panes[i].1.x <= column < panes[i].1.x + panes[i].1.width
                            && panes[i].1.y <= row < panes[i].1.y + panes[i].1.height && forall|
                            j: int,
                        |
                            from + 1 <= j < i ==> !((#[trigger] panes[j]).1.x <= column
                                < panes[j].1.x + panes[j].1.width && panes[j].1.y <= row
                                < panes[j].1.y + panes[j].1.height);
                    assert(panes[i].0 == pane);
                },
                None => {},
            }
        }
    }
}

/// A wheel notch over the run list moves the cursor by one row, up or down, and not past
/// either end.
pub proof fn a_notch_moves_the_cursor_one_row(selected: usize, lines: i32, rows: nat)
    requires
        selected < rows <= usize::MAX,
    ensures
        stepped(selected, lines, rows) < rows,
        lines >= 0 && selected > 0 ==> stepped(selected, lines, rows) == selected - 1,
        lines >= 0 && selected == 0 ==> stepped(selected, lines, rows) == 0,
        lines < 0 && selected + 1 < rows ==> stepped(selected, lines, rows) == selected + 1,
        lines < 0 && selected + 1 == rows ==> stepped(selected, lines, rows) == selected,
{
}

/// Motion lights a button and does nothing else; any other event is offered to the graph last,
/// and a press to the toolbar first.
pub proof fn who_is_offered_an_event(kind: MouseEventKind, agents_screen: bool)
    ensures
        kind == MouseEventKind::Moved ==> offered(kind, agents_screen) == seq![Claimant::Hover],
        kind != MouseEventKind::Moved ==> {
            let claimants = offered(kind, agents_screen);
            &&& claimants.last() == Claimant::Graph
            &&& !claimants.contains(Claimant::Hover)
            &&& (claimants[0] == Claimant::Toolbar <==> kind == MouseEventKind::LeftDown)
            &&& (claimants.contains(Claimant::Agents) <==> agents_screen)
            &&& claimants.no_duplicates()
        },
{
    if kind != MouseEventKind::Moved {
        let claimants = offered(kind, agents_screen);
        if agents_screen {
            let i: int = if kind == MouseEventKind::LeftDown {
                1
            } else {
                0
            };
            assert(claimants[i] == Claimant::Agents);
        }
    }
}

/// A press begins a selection where it is, in the first region under it, and nowhere else.
pub proof fn a_press_begins_where_it_is(
    before: Dashboard,
    after: Dashboard,
    column: u16,
    row: u16,
    at: int,
)
    requires
        began(before, after, column, row),
        0 <= at < before.mouse.selection_regions@.len(),
        in_region(before.mouse.selection_regions@[at], (column, row)),
        forall|j: int|
            0 <= j < at ==> !(#[trigger] before.mouse.selection_regions@[j]).holds(column, row),
    ensures
        after.mouse.selection matches Some(sel) && sel.region
            == before.mouse.selection_regions@[at] && sel.anchor == (column, row) && sel.cursor == (
            column,
            row,
        ) && sel.dragging && !sel.moved && !sel.pending_copy,
        after.runs == before.runs && after.detail == before.detail && after.notes == before.notes,
{
    assert(before.mouse.selection_regions@[at].holds(column, row));
    let sel = after.mouse.selection->0;
    let regions = before.mouse.selection_regions@;
    let i = choose|i: int| #[trigger]
        is_hit(regions, column, row, i) && sel == begun(regions[i], column, row);
    if i < at {
        assert(!regions[i].holds(column, row));
    }
}

/// Only a selection whose pane was drawn is shown and copied, and only one that was released is
/// copied; a cell is lit if and only if it is read between the ends.
pub proof fn a_selection_lasts_with_its_pane(dash: Dashboard, cell: (u16, u16))
    ensures
        still_drawn(dash) is Some <==> dash.mouse.selection is Some
            && dash.mouse.selection_regions@.contains(dash.mouse.selection->0.region),
        still_drawn(dash) is Some ==> still_drawn(dash) == dash.mouse.selection,
        is_due(dash.mouse.selection) <==> dash.mouse.selection is Some
            && dash.mouse.selection->0.pending_copy,
        dash.mouse.selection is None ==> !is_highlighted(dash.mouse.selection, cell),
        dash.mouse.selection matches Some(sel) ==> (in_region(sel.region, sel.anchor) && in_region(
            sel.region,
            sel.cursor,
        ) && in_region(sel.region, cell) ==> (is_highlighted(dash.mouse.selection, cell) <==> (
        place(sel.anchor) <= place(cell) <= place(sel.cursor) || place(sel.cursor) <= place(cell)
            <= place(sel.anchor)))),
{
}

/// A wheel notch scrolls what is under the pointer and nothing else: the log, the cursor of the
/// list, or the text on view, further back for a notch up; and it clears the selection.
pub proof fn a_notch_scrolls_what_is_under_it(
    before: Dashboard,
    after: Dashboard,
    column: u16,
    row: u16,
    lines: i32,
)
    requires
        wheeled(before, after, column, row, lines),
    ensures
        ({
            let pane = pane_at(before.mouse.pane_rects@, column, row, 0);
            let over_log = pane == Some(PaneId::LogPanel);
            let over_list = pane == Some(PaneId::RunTable);
            let high: int = if before.notes.log_viewport == 0 {
                1
            } else {
                before.notes.log_viewport as int
            };
            &&& after.mouse.selection is None
            &&& (!over_log ==> after.notes == before.notes)
            &&& (!over_list ==> after.runs == before.runs)
            &&& (over_log || over_list ==> after.detail == before.detail)
            &&& (over_log && lines < 0 && before.notes.log_scroll.offset_from_tail + lines >= 0
                ==> after.notes.log_scroll.offset_from_tail
                == before.notes.log_scroll.offset_from_tail + lines)
            &&& (over_log && lines < 0 && before.notes.log_scroll.offset_from_tail + lines < 0
                ==> after.notes.log_scroll.offset_from_tail == 0)
            &&& (over_log && lines >= 0 && before.notes.log_scroll.offset_from_tail + lines + high
                <= before.notes.log@.len() ==> after.notes.log_scroll.offset_from_tail
                == before.notes.log_scroll.offset_from_tail + lines)
            &&& (over_log && lines >= 0 && before.notes.log_scroll.offset_from_tail + lines + high
                > before.notes.log@.len() >= high ==> after.notes.log_scroll.offset_from_tail
                == before.notes.log@.len() - high)
            &&& (!over_log && !over_list && 0 <= before.detail.scroll + lines <= usize::MAX
                ==> after.detail.scroll == before.detail.scroll + lines)
        }),
{
}

} // verus!
