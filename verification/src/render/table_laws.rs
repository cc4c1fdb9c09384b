//! What the run table shows: which run each row is of, what its cells say of it, and where it
//! can be clicked.

use crate::fit::{fitted_row, total_columns, unnamed_parts_stay};
use crate::numbers::token_figure;
use crate::outside::{near_share, white_space};
use crate::render::table::{
    after_last, are_column_widths, column_share, empty_table, link_chip, log_title, log_window,
    row_arrow, row_clicks, row_color, row_hidden, row_mark, row_stage, row_status, row_title,
    row_tokens, rows_on_screen, short_id, table_clicks, table_header, table_rows, table_title,
    title_cell, title_parts,
};
use crate::state::Dashboard;
use crate::style::{Color, Rect};
use crate::text::{
    a_trimmed_text_loses_only_blanks, among, decimal, only_marks_are_dropped, run_together, trimmed,
    truncated, without_leading,
};
use crate::types::{
    AgentDisplayStatus, AgentView, ClickTarget, DashboardAgent, LogScroll, LogView, TreeShape,
};
use crate::views::{group_views, views};
use vstd::prelude::*;

verus! {

broadcast use group_views;

// ── Rows ─────────────────────────────────────────────────────────────────────

/// Each row of the table is of the run in its place, and says that run's blueprint, tokens and
/// id, and when it started.
pub proof fn each_row_is_of_its_run(
    dash: Dashboard,
    widths: Seq<usize>,
    started: Seq<String>,
    count: int,
    at: int,
)
    requires
        0 <= at < count <= dash.runs.display_indices@.len(),
    ensures
        ({
            let rows = table_rows(dash, widths, started, count);
            let run = dash.runs.agents@[dash.runs.display_indices@[at] as int];
            &&& rows.len() == count
            &&& rows[at].blueprint == truncated(run.blueprint_name@, widths[1] as nat)
            &&& rows[at].stage == row_stage(run@, widths[2] as nat)
            &&& rows[at].tokens == row_tokens(run@)
            &&& rows[at].started.content == started[at]@
            &&& rows[at].title.len() == 6
            &&& rows[at].title[4].content == " #"@ + short_id(run.id@)
            &&& rows[at].status.style.fg == Some(row_color(run@.status, run@.wait_reason))
            &&& (dash.runs.marked@.len() == 0 ==> rows[at].title[0].content.len() == 0)
            &&& (dash.runs.marked@.len() > 0 ==> rows[at].title[0].content.len() == 2)
            &&& (rows[at].title[0].content == "✓ "@ <==> exists|m: int|
                0 <= m < dash.runs.marked@.len() && (#[trigger] dash.runs.marked@[m])@ == run.id@)
        }),
    decreases count,
{
    reveal_strlit("");
    reveal_strlit("✓ ");
    reveal_strlit("  ");
    if at == count - 1 {
        rows_are_counted(dash, widths, started, count - 1);
        let run = dash.runs.agents@[dash.runs.display_indices@[at] as int];
        let shape = crate::render::table::shape_at(dash.runs.tree_rows@, at);
        let marked = among(views(dash.runs.marked@), run.id@);
        let mark = row_mark(dash.runs.marked@.len() > 0, marked);
        a_title_cell_keeps_all_but_the_title(run@, shape, mark, widths[0] as nat);
        if marked {
            let m = choose|m: int|
                0 <= m < views(dash.runs.marked@).len() && views(dash.runs.marked@)[m] == run.id@;
            assert(dash.runs.marked@[m]@ == run.id@);
        }
        if exists|m: int|
            0 <= m < dash.runs.marked@.len() && (#[trigger] dash.runs.marked@[m])@ == run.id@ {
            let m = choose|m: int|
                0 <= m < dash.runs.marked@.len() && (#[trigger] dash.runs.marked@[m])@ == run.id@;
            assert(views(dash.runs.marked@)[m] == run.id@);
            assert(dash.runs.marked@.len() > 0);
        }
        assert("✓ "@[0] != "  "@[0]);
    } else {
        each_row_is_of_its_run(dash, widths, started, count - 1, at);
    }
}

proof fn rows_are_counted(dash: Dashboard, widths: Seq<usize>, started: Seq<String>, count: int)
    requires
        0 <= count,
    ensures
        table_rows(dash, widths, started, count).len() == count,
    decreases count,
{
    if count > 0 {
        rows_are_counted(dash, widths, started, count - 1);
    }
}

/// Of a title cell only the title gives way: the mark, the branches, the arrow, the id and the
/// number of hidden rows are always whole, in this order; and where there is room, so is the
/// title.
pub proof fn a_title_cell_keeps_all_but_the_title(
    agent: AgentView,
    shape: Option<TreeShape>,
    mark: Seq<char>,
    width: nat,
)
    ensures
        ({
            let cell = title_cell(agent, shape, mark, width);
            &&& cell.len() == 6
            &&& cell[0].content == mark
            &&& cell[1].content == match shape {
                Some(tree) => tree.prefix@,
                None => Seq::empty(),
            }
            &&& cell[2].content == row_arrow(shape)
            &&& cell[4].content == " #"@ + short_id(agent.id)
            &&& cell[5].content == row_hidden(shape)
            &&& (total_columns(title_parts(agent, shape, mark)) <= width ==> cell[3].content
                == row_title(agent.title, agent.task))
        }),
{
    let parts = title_parts(agent, shape, mark);
    let order = seq![3usize];
    unnamed_parts_stay(parts, width, order, 1, 0);
    unnamed_parts_stay(parts, width, order, 1, 1);
    unnamed_parts_stay(parts, width, order, 1, 2);
    unnamed_parts_stay(parts, width, order, 1, 4);
    unnamed_parts_stay(parts, width, order, 1, 5);
    if total_columns(parts) <= width {
        crate::fit::a_row_with_room_stays(parts, width, order, 1);
    }
}

/// A title is shown without the heading marks in front of it and the blanks around it, and
/// nothing else is left off; a run without one is called by its task.
pub proof fn a_heading_loses_its_marks(title: Seq<char>, task: Seq<char>) -> (at: int)
    ensures
        row_title(None, task) == trimmed(task),
        ({
            let shown = row_title(Some(title), task);
            &&& 0 <= at <= at + shown.len() <= title.len()
            &&& shown == title.subrange(at, at + shown.len())
            &&& forall|i: int|
                0 <= i < at ==> (#[trigger] title[i]) == '#' || white_space(title[i])
            &&& forall|i: int|
                at + shown.len() <= i < title.len() ==> white_space(#[trigger] title[i])
                    || title[i] == '#'
            &&& (title.len() > 0 && title[0] != '#' ==> shown == trimmed(title))
        }),
{
    only_marks_are_dropped(title, '#');
    let rest = without_leading(title, '#');
    let off = title.len() - rest.len();
    let inner = a_trimmed_text_loses_only_blanks(rest);
    let shown = trimmed(rest);
    assert(shown =~= title.subrange(off + inner, off + inner + shown.len()));
    assert forall|i: int| 0 <= i < off + inner implies (#[trigger] title[i]) == '#' || white_space(
        title[i],
    ) by {
        if i >= off {
            assert(rest[i - off] == title[i]);
        }
    }
    assert forall|i: int| off + inner + shown.len() <= i < title.len() implies white_space(
        #[trigger] title[i],
    ) || title[i] == '#' by {
        assert(rest[i - off] == title[i]);
    }
    if title.len() > 0 && title[0] != '#' {
        assert(off == 0);
        assert(rest =~= title);
    }
    off + inner
}

/// A run's short id is what stands behind the last dash, and the whole id where there is none.
pub proof fn a_short_id_is_behind_the_last_dash(head: Seq<char>, tail: Seq<char>)
    requires
        forall|i: int| 0 <= i < tail.len() ==> (#[trigger] tail[i]) != '-',
    ensures
        short_id(tail) == tail,
        short_id(head + seq!['-'] + tail) == tail,
{
    no_dash_behind(tail, tail.len() as int, 0);
    let id = head + seq!['-'] + tail;
    assert forall|i: int| head.len() < i < id.len() implies (#[trigger] id[i]) != '-' by {
        assert(tail[i - head.len() - 1] == id[i]);
    }
    no_dash_behind(id, id.len() as int, head.len() as int + 1);
    assert(id[head.len() as int] == '-');
    assert(id.skip(head.len() as int + 1) =~= tail);
}

proof fn no_dash_behind(text: Seq<char>, count: int, from: int)
    requires
        0 <= from <= count <= text.len(),
        forall|i: int| from <= i < count ==> (#[trigger] text[i]) != '-',
    ensures
        after_last(text, '-', count) == after_last(text, '-', from),
    decreases count,
{
    if count > from {
        no_dash_behind(text, count - 1, from);
    }
}

/// A row's tokens are those that came in before those that went out, each with its arrow; a run
/// that took none shows a dash.
pub proof fn tokens_in_come_first(run: DashboardAgent)
    ensures
        run.tokens_in == 0 && run.tokens_out == 0 ==> row_tokens(run@) == "-"@,
        run.tokens_in > 0 || run.tokens_out > 0 ==> row_tokens(run@) == token_figure(
            run.tokens_in as nat,
        ) + "↑ "@ + token_figure(run.tokens_out as nat) + "↓"@,
{
}

/// The stage of a run of several is followed by its place among them, counted from one, however
/// narrow the cell.
pub proof fn a_stage_keeps_its_place(run: DashboardAgent, width: nat)
    requires
        run.num_stages > 1,
    ensures
        (" "@ + decimal(run.stage_index as nat + 1) + "/"@ + decimal(
            run.num_stages as nat,
        )).is_suffix_of(row_stage(run@, width)),
{
    let counter = " "@ + decimal(run.stage_index as nat + 1) + "/"@ + decimal(
        run.num_stages as nat,
    );
    let parts = seq![run.stage@, counter];
    let fitted = fitted_row(parts, width, seq![0usize]);
    unnamed_parts_stay(parts, width, seq![0usize], 1, 1);
    assert((run.stage_index + 1) as nat == run.stage_index as nat + 1);
    let text = run_together(fitted, 2);
    assert(text == run_together(fitted, 1) + fitted[1]);
    assert(text.skip(text.len() - counter.len()) =~= counter);
}

/// A parked run says why it waits, and a running one shows that it moves; every other status
/// reads as it is. What waits for nobody is dim, and everything else is in its own tone.
pub proof fn a_parked_run_says_why(
    run: DashboardAgent,
    spin: Seq<char>,
    waiting: Seq<char>,
    pending: Seq<char>,
)
    ensures
        ({
            let text = row_status(run@.status, run@.wait_reason, spin, waiting, pending);
            &&& (run.status is Active ==> text == spin + " ACTIVE"@)
            &&& (run.status is Waiting && run.wait_reason is Some ==> text == waiting
                + run.wait_reason->0.label@)
            &&& (run.status is Paused && run.wait_reason is Some ==> text == pending
                + run.wait_reason->0.label@)
            &&& (run.status is Waiting && run.wait_reason is None ==> text == "WAITING"@)
            &&& (run.status is Paused && run.wait_reason is None ==> text == "PAUSED"@)
            &&& (run.status is Stale ==> text == "STALE"@)
            &&& (run.status is Cancelled ==> text == "CANCELLED"@)
            &&& (run.status is Complete || run.status is CompleteInteractive ==> text
                == "COMPLETE"@)
            &&& (run.status matches AgentDisplayStatus::Error(why) ==> text == "ERROR: "@ + why@)
        }),
        row_color(run@.status, run@.wait_reason) is Dim <==> run.wait_reason is Some
            && !run.wait_reason->0.needs_person,
        run.wait_reason is None || run.wait_reason->0.needs_person ==> row_color(
            run@.status,
            run@.wait_reason,
        ) == Color::Status(run.status@.tone()),
{
}

/// A row that nests others has an arrow, to the right while it is folded and down while it is
/// not, and a folded row says how many it hides.
pub proof fn a_fold_shows_which_way_it_is(tree: TreeShape)
    ensures
        tree.expandable && tree.collapsed ==> row_arrow(Some(tree)) == "▸ "@,
        tree.expandable && !tree.collapsed ==> row_arrow(Some(tree)) == "▾ "@,
        !tree.expandable ==> row_arrow(Some(tree)) == row_arrow(None),
        tree.collapsed ==> row_hidden(Some(tree)) == " +"@ + decimal(tree.hidden as nat),
        !tree.collapsed ==> row_hidden(Some(tree)).len() == 0,
        row_hidden(None).len() == 0,
{
}

// ── Around the rows ──────────────────────────────────────────────────────────

/// A table without rows says whether there are no runs or none that match.
pub proof fn an_empty_table_says_why(runs: nat, shown: nat, query: Seq<char>)
    ensures
        empty_table(runs, shown, query) is Some <==> runs == 0 || shown == 0,
        runs > 0 && shown == 0 ==> empty_table(runs, shown, query) == Some(
            "  No agent runs match \""@ + query + "\"."@,
        ),
{
}

/// A filtered table says by what, and how many of the runs that leaves.
pub proof fn a_filtered_table_says_how_many(query: Seq<char>, typing: bool, shown: nat, runs: nat)
    requires
        query.len() > 0,
    ensures
        table_title(query, typing, shown, runs, 0) == " Agent Runs  /"@ + query + "/  "@ + decimal(
            shown,
        ) + "/"@ + decimal(runs) + " "@,
{
}

/// The number of marked runs stands at the end of the title, and only where some are.
pub proof fn the_title_counts_what_is_marked(
    query: Seq<char>,
    typing: bool,
    shown: nat,
    runs: nat,
    marked: nat,
)
    requires
        marked > 0,
    ensures
        (" "@ + decimal(marked) + " marked "@).is_suffix_of(
            table_title(query, typing, shown, runs, marked),
        ),
{
    let end = " "@ + decimal(marked) + " marked "@;
    let title = table_title(query, typing, shown, runs, marked);
    assert(title.skip(title.len() - end.len()) =~= end);
}

/// As many rows are on screen as fit between the header and the border, and no more than are
/// left below what is scrolled off.
pub proof fn the_rows_on_screen_fit(area: Rect, rows: nat, offset: nat)
    ensures
        ({
            let count = rows_on_screen(area, rows, offset);
            &&& 0 <= count
            &&& (area.height >= 3 ==> count <= area.height - 3)
            &&& (offset <= rows ==> count <= rows - offset)
            &&& (area.height >= 3 && offset <= rows && rows - offset <= area.height - 3 ==> count
                == rows - offset)
            &&& (area.height >= 3 && offset <= rows && rows - offset > area.height - 3 ==> count
                == area.height - 3)
        }),
{
}

/// A click on a row goes to the run that is shown there: the rows stand one below the other
/// from the second row of the table on, with those scrolled off counted.
pub proof fn a_click_goes_to_the_row_shown(
    area: Rect,
    any_marked: bool,
    shapes: Seq<TreeShape>,
    offset: int,
    count: int,
    at: int,
)
    requires
        0 <= at < count,
        0 <= offset,
        offset + count <= usize::MAX,
        area.y + 2 + count <= u16::MAX,
    ensures
        exists|k: int|
            0 <= k < table_clicks(area, any_marked, shapes, offset, count).len() && is_row_target(
                #[trigger] table_clicks(area, any_marked, shapes, offset, count)[k],
                area,
                at,
                offset,
            ),
    decreases count,
{
    let before = table_clicks(area, any_marked, shapes, offset, count - 1);
    let after = table_clicks(area, any_marked, shapes, offset, count);
    if at == count - 1 {
        assert(is_row_target(after[before.len() as int], area, at, offset));
    } else {
        a_click_goes_to_the_row_shown(area, any_marked, shapes, offset, count - 1, at);
        let k = choose|k: int|
            0 <= k < before.len() && is_row_target(#[trigger] before[k], area, at, offset);
        assert(after[k] == before[k]);
    }
}

/// Whether a target is the row of the run in this place on screen.
pub open spec fn is_row_target(
    target: (Rect, ClickTarget),
    area: Rect,
    at: int,
    offset: int,
) -> bool {
    &&& target.1 == ClickTarget::RunRow((offset + at) as usize)
    &&& target.0.x == area.x
    &&& target.0.y == area.y + 2 + at
    &&& target.0.width == area.width
    &&& target.0.height == 1
}

/// A fold arrow can be clicked where it is drawn, behind the mark and the branches, if and only
/// if its row nests others and there is room for it.
pub proof fn an_arrow_can_be_clicked(area: Rect, any_marked: bool, tree: TreeShape, y: u16, at: int)
    requires
        0 <= at <= usize::MAX,
        crate::outside::columns(tree.prefix@) < 65_536,
        area.x + area.width <= u16::MAX,
    ensures
        ({
            let targets = row_clicks(area, any_marked, Some(tree), y, at);
            let column = area.x + 1 + crate::outside::columns(tree.prefix@) + if any_marked {
                2int
            } else {
                0int
            };
            &&& (targets.len() == 2 <==> tree.expandable && column + 2 <= area.x + area.width)
            &&& targets.len() == 1 || targets.len() == 2
            &&& (targets.len() == 2 ==> targets[1].1 == ClickTarget::RunToggle(at as usize)
                && targets[1].0.x == column && targets[1].0.y == y && targets[1].0.width == 2
                && targets[1].0.height == 1)
        }),
{
}

// ── The log ──────────────────────────────────────────────────────────────────

/// A line of the log on screen is an entry's, with its time in front of its message, in the
/// log's order.
pub proof fn the_log_is_shown_in_order(log: Seq<LogView>, from: int, to: int, at: int)
    requires
        0 <= from <= from + at < to <= log.len(),
        0 <= at,
    ensures
        log_window(log, from, to).len() == to - from,
        log_window(log, from, to)[at].len() == 2,
        log_window(log, from, to)[at][0].content == " "@ + log[from + at].timestamp + " "@,
        log_window(log, from, to)[at][1].content == log[from + at].message,
{
}

/// The log's title says how far it is scrolled back, and nothing while it is not.
pub proof fn the_log_says_how_far_back(scroll: LogScroll)
    ensures
        scroll.offset_from_tail == 0 ==> log_title(scroll) == " Log "@,
        scroll.offset_from_tail > 0 ==> log_title(scroll) == " Log  ↑"@ + decimal(
            scroll.offset_from_tail as nat,
        ) + " (End resumes) "@,
{
}

// ── The header ───────────────────────────────────────────────────────────────

/// The header names the columns in the order of the cells, and the chip beside it says of the link
/// to the daemon what there is to say.
pub proof fn the_header_names_the_columns(text: String, color: Color)
    ensures
        table_header().len() == 6,
        table_header()[0].content == "Title / ID"@,
        table_header()[1].content == "Blueprint"@,
        table_header()[2].content == "Stage"@,
        table_header()[3].content == "Status"@,
        table_header()[4].content == "Tokens"@,
        table_header()[5].content == "Started"@,
        link_chip(None) is None,
        link_chip(Some((text, color))) matches Some(chip) && chip.content == text@ && chip.style.fg
            == Some(color),
{
}

/// The columns share the width inside the border: twenty-two hundredths for the title, twelve for
/// the blueprint, fourteen for the stage, eighteen for the status, fourteen for the tokens and
/// twenty for the time, each less no more than the gaps, and with the gaps they fill it.
pub proof fn the_columns_share_the_width(widths: Seq<usize>, area: Rect)
    requires
        are_column_widths(widths, area),
        area.width >= 7,
    ensures
        widths.len() == 6,
        widths[0] + widths[1] + widths[2] + widths[3] + widths[4] + widths[5] + 5 == area.width - 2,
        22 * (area.width - 2) <= 100 * (widths[0] + 7) && 100 * widths[0] <= 22 * (area.width - 2)
            + 200,
        12 * (area.width - 2) <= 100 * (widths[1] + 7) && 100 * widths[1] <= 12 * (area.width - 2)
            + 200,
        14 * (area.width - 2) <= 100 * (widths[2] + 7) && 100 * widths[2] <= 14 * (area.width - 2)
            + 200,
        18 * (area.width - 2) <= 100 * (widths[3] + 7) && 100 * widths[3] <= 18 * (area.width - 2)
            + 200,
        14 * (area.width - 2) <= 100 * (widths[4] + 7) && 100 * widths[4] <= 14 * (area.width - 2)
            + 200,
        20 * (area.width - 2) <= 100 * (widths[5] + 7) && 100 * widths[5] <= 20 * (area.width - 2)
            + 200,
{
    reveal_with_fuel(crate::render::table::widths_sum, 7);
    assert forall|i: int| 0 <= i < 6 implies near_share(
        (#[trigger] widths[i]) as int,
        column_share(i),
        area.width - 2,
        5,
    ) by {
    }
    assert(near_share(widths[0] as int, 22, area.width - 2, 5));
    assert(near_share(widths[1] as int, 12, area.width - 2, 5));
    assert(near_share(widths[2] as int, 14, area.width - 2, 5));
    assert(near_share(widths[3] as int, 18, area.width - 2, 5));
    assert(near_share(widths[4] as int, 14, area.width - 2, 5));
    assert(near_share(widths[5] as int, 20, area.width - 2, 5));
}

/// A table that is not filtered has its bare title, with the cursor of a filter that is about to be
/// typed.
pub proof fn an_unfiltered_table_has_its_bare_title(shown: nat, runs: nat)
    ensures
        table_title(Seq::empty(), false, shown, runs, 0) == " Agent Runs "@,
        table_title(Seq::empty(), true, shown, runs, 0) == " Agent Runs  /"@ + "▌ "@,
{
    assert(" Agent Runs  /"@ + Seq::empty() + "▌ "@ =~= " Agent Runs  /"@ + "▌ "@);
}

} // verus!
