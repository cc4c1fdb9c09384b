//! What the dashboard's operations do, each as a relation between what it is called on and what it
//! leaves behind.

use crate::file_ref::without_tail;
use crate::file_ref_laws::files_are_offered_by_what_was_typed;
use crate::new_run::{row_on_screen, run_spawn, waited_for, SpawnReply};
use crate::new_run_input_laws::{
    a_slot_takes_what_its_region_names, a_start_fits_every_budget, added_up,
    every_asked_region_has_a_slot, is_asked_for, is_first_set, is_text_type, is_too_much, is_unread,
    says_something, seed_tokens, the_first_slot_that_stops_is_named, what_is_set_wins,
    what_says_something_is_left,
};
use crate::new_run_inputs::{
    entry_stage_window, every_slot_takes_something, InputsStep, NewRunInput, RegionDecl,
    ResolvedInputs, SlotReading, StageModel,
};
use crate::new_run_keys::{with_slots_of, NewRunAction};
use crate::new_run_laws::{
    a_filter_picks_by_name_or_description, a_run_is_found_on_screen,
    a_start_sends_what_is_on_screen, every_outcome_is_told, is_found_in,
    only_these_keys_start_a_run, the_last_started_run_is_opened, the_list_offers_every_agent,
    the_screen_opens_attended, what_a_start_needs, what_is_on_top_takes_the_key,
};
use crate::numbers::{
    a_compact_count_is_near, a_share_is_the_nearest_percent, a_token_figure_is_rounded_down,
    compact_count, format_tokens, share_percent, token_figure, SIGNIFICANDS,
};
use crate::outside::{inverted, is_basic, lowercase, symbols, white_space};
use crate::parts::{every_name_in_an_answer_is_warned_of, PartOutcome};
use crate::render::content::{
    clamped_match, matching_lines, pane_lines, searched_lines, ContentPane, ContentSource,
};
use crate::render::content_laws::{
    a_search_finds_every_line_that_holds_it, a_search_marks_what_it_found, holds, whole_text,
};
use crate::render::context::usage_percent;
use crate::render::context_laws::usage_is_rounded_down;
use crate::render::header_laws::the_breadcrumb_says_how_a_run_stands;
use crate::render::input::InputPane;
use crate::render::input_laws::the_pane_is_what_the_answer_needs;
use crate::render::overlay_laws::{a_toast_wears_its_level, toasts_stand_at_the_right};
use crate::render::overlays::ToastStack;
use crate::render::stages::glyphs_of;
use crate::render::stages_laws::a_tab_shows_how_its_stage_stands;
use crate::render::table::{short_id, RunRow};
use crate::render::table_laws::each_row_is_of_its_run;
use crate::run_actions::{
    a_delete_names_rows, a_deleted_run_is_cancelled, a_kill_names_live_rows,
    a_killed_row_is_cancelled, cancelled_runs, delete_log, is_live, the_rows_left_keep_their_order,
    to_be_deleted, to_be_killed, under_cursor, Erasing,
};
use crate::run_loader::{
    asked, collect, only_settled_runs_are_reused, plan_run, GraphShelf, LoaderState, RunFeed,
    RunSource, RunStep,
};
use crate::selection::{extract_from_buffer, highlight_in_buffer, row_of};
use crate::selection_laws::{
    a_copied_row_loses_only_blanks_at_its_end, a_copy_is_counted, a_copy_is_what_is_on_screen,
    a_drag_picks_what_is_read_between_its_ends, a_notch_scrolls_what_is_under_it, copied_of,
    in_region, is_narrow, on_screen, place,
};
use crate::state::{listed, Dashboard};
use crate::state_laws::a_clock_counts_every_second;
use crate::style::{Color, Line, Rect};
use crate::sync::{
    a_row_shows_its_record, deleted_since, has_prompt, rows_have_own_ids, runs_have_own_ids,
    shows_record, was_abandoned,
};
use crate::text::{decimal, joined, opt_text, trimmed, truncated};
use crate::types::{
    ActiveClock, AgentDisplayStatus, AgentView, BundledEntry, ContextSnapshot, DashboardAgent,
    EditOutcome, InboundPart, InlineParts, InteractionKind, InteractionRequest, KeyCode, KeyEvent,
    LogScroll, MouseEvent, MouseEventKind, NewRunAgent, RunEntry, RunSnapshot, SpawnOutcome,
    TextArea, ToastLevel, YoloProfile,
};
use crate::views::{group_views, views};
use ratatui::buffer::Buffer;
use std::sync::Arc;
use vstd::prelude::*;

verus! {

broadcast use group_views;

// ── The run list ─────────────────────────────────────────────────────────────

/// Once a snapshot is applied, every run that it reads and that was not deleted since has a row
/// that shows its record: a cancelled run's row says that it is cancelled.
pub proof fn applying_a_snapshot_shows_its_records(
    dash: &mut Dashboard,
    snapshot: &RunSnapshot,
    j: int,
)
    requires
        call_ensures(Dashboard::apply_run_snapshot, (dash, snapshot), ()),
        rows_have_own_ids(*old(dash)),
        runs_have_own_ids(*snapshot),
        0 <= j < snapshot.runs@.len(),
        !deleted_since(*old(dash), *snapshot, snapshot.runs@[j].meta.run_id@),
    ensures
        exists|i: int|
            0 <= i < final(dash).runs.agents@.len() && shows_record(
                #[trigger] final(dash).runs.agents@[i],
                *snapshot.runs@[j].meta,
                has_prompt(*old(dash), snapshot.runs@[j].meta.run_id@),
                was_abandoned(*old(dash), snapshot.runs@[j].meta.run_id@),
                old(dash).feed.now,
            ),
{
    a_row_shows_its_record(*old(dash), *final(dash), *snapshot, j);
}

/// Asking to kill with nothing marked asks about the run under the cursor, by its id, where that is
/// live; and about nothing where it is not.
pub proof fn asking_to_kill_names_the_run_under_the_cursor(dash: &mut Dashboard, i: int)
    requires
        call_ensures(Dashboard::request_kill, (dash,), ()),
        old(dash).runs.marked@.len() == 0,
        under_cursor(*old(dash), i),
    ensures
        is_live(old(dash).runs.agents@[i].status) ==> to_be_killed(*final(dash)) is Some
            && to_be_killed(*final(dash))->0.len() == 1 && to_be_killed(*final(dash))->0[0]@
                == old(dash).runs.agents@[i].id@,
        !is_live(old(dash).runs.agents@[i].status) ==> *final(dash) == *old(dash),
        final(dash).runs == old(dash).runs && final(dash).lanes == old(dash).lanes,
{
    a_kill_names_live_rows(*old(dash), *final(dash));
}

/// Asking to delete with nothing marked asks about the run under the cursor, by its id.
pub proof fn asking_to_delete_names_the_run_under_the_cursor(dash: &mut Dashboard, i: int)
    requires
        call_ensures(Dashboard::request_delete, (dash,), ()),
        old(dash).runs.marked@.len() == 0,
        under_cursor(*old(dash), i),
    ensures
        to_be_deleted(*final(dash)) is Some,
        to_be_deleted(*final(dash))->0.len() == 1,
        to_be_deleted(*final(dash))->0[0]@ == old(dash).runs.agents@[i].id@,
        final(dash).runs == old(dash).runs && final(dash).lanes == old(dash).lanes,
{
    a_delete_names_rows(*old(dash), *final(dash));
}

/// A kill asks the daemon to cancel the run that it names, once, and leaves its row cancelled and
/// every other row as it was.
pub proof fn a_kill_cancels_the_run_it_names(dash: &mut Dashboard, run_id: &str, i: int)
    requires
        call_ensures(Dashboard::perform_kill, (dash, run_id), ()),
        0 <= i < old(dash).runs.agents@.len(),
        old(dash).runs.agents@[i].id@ == run_id@,
        rows_have_own_ids(*old(dash)),
    ensures
        final(dash).lanes.daemon_commands@.len() == old(dash).lanes.daemon_commands@.len() + 1,
        final(dash).lanes.daemon_commands@.last()@ == run_id@,
        final(dash).runs.agents@.len() == old(dash).runs.agents@.len(),
        final(dash).runs.agents@[i].status is Cancelled,
        final(dash).runs.agents@[i].pending_request is None,
        forall|k: int|
            0 <= k < old(dash).runs.agents@.len() && k != i ==> (
            #[trigger] final(dash).runs.agents@[k])@ == old(dash).runs.agents@[k]@,
        !final(dash).reply.input_mode,
{
    let before = views(old(dash).runs.agents@);
    let after = views(final(dash).runs.agents@);
    a_killed_row_is_cancelled(before, after, run_id@);
    assert(before.len() == old(dash).runs.agents@.len());
    assert(after.len() == final(dash).runs.agents@.len());
    assert(before[i] == old(dash).runs.agents@[i]@);
    assert(before[i].id == run_id@);
    let at = choose|at: int|
        #![trigger after[at]]
        0 <= at < after.len() && before[at].id == run_id@ && after[at].status is Cancelled
            && after[at].waiting_prompt is None && after[at].pending_request is None && forall|
            k: int,
        |
            0 <= k < before.len() && k != at ==> #[trigger] after[k] == before[k];
    assert(before[at] == old(dash).runs.agents@[at]@);
    assert(at == i);
    assert(after[i] == final(dash).runs.agents@[i]@);
    assert forall|k: int| 0 <= k < old(dash).runs.agents@.len() && k != i implies (
    #[trigger] final(dash).runs.agents@[k])@ == old(dash).runs.agents@[k]@ by {
        assert(after[k] == final(dash).runs.agents@[k]@);
        assert(before[k] == old(dash).runs.agents@[k]@);
    }
    let sent = final(dash).lanes.daemon_commands@;
    assert(views(sent).len() == sent.len());
    assert(views(sent).last() == sent.last()@);
}

/// Once its runs are erased a delete leaves the rows of the others, in their order, and no others;
/// each of its runs is kept in mind with the moment, and reported.
pub proof fn a_finished_delete_leaves_the_other_rows(
    dash: &mut Dashboard,
    erased: Erasing,
    failures: &Vec<Option<String>>,
    now: u64,
)
    requires
        call_ensures(Dashboard::finish_delete, (dash, erased, failures, now), ()),
    ensures
        views(final(dash).runs.agents@) == views(old(dash).runs.agents@).filter(
            |row: AgentView| !views(erased.ids@).contains(row.id),
        ),
        final(dash).feed.deleted_runs@.len() == old(dash).feed.deleted_runs@.len()
            + erased.ids@.len(),
        final(dash).notes.log@.len() == old(dash).notes.log@.len() + erased.ids@.len(),
        final(dash).lanes == old(dash).lanes,
{
    let rows = views(old(dash).runs.agents@);
    the_rows_left_keep_their_order(rows, views(erased.ids@), rows.len() as int);
    assert(rows.take(rows.len() as int) =~= rows);
    log_is_as_long(
        old(dash).notes.log_stamp@,
        views(erased.ids@),
        failures@,
        erased.ids@.len() as int,
    );
    assert(views(final(dash).notes.log@).len() == final(dash).notes.log@.len());
    assert(views(final(dash).feed.deleted_runs@).len() == final(dash).feed.deleted_runs@.len());
}

/// A delete logs a line for each run.
proof fn log_is_as_long(
    stamp: Seq<char>,
    ids: Seq<Seq<char>>,
    failures: Seq<Option<String>>,
    count: int,
)
    requires
        0 <= count,
    ensures
        delete_log(stamp, ids, failures, count).len() == count,
    decreases count,
{
    if count > 0 {
        log_is_as_long(stamp, ids, failures, count - 1);
    }
}

// ── Starting a run ───────────────────────────────────────────────────────────

/// Slots that resolve fit their regions: for each slot with a budget, the tokens of all the files
/// chosen for it and of the text that it seeds, added up, are within it. Where one does not fit, or
/// could not be read, the first such slot is named and the start refused.
pub proof fn resolving_the_slots_keeps_to_the_budgets(
    dash: &Dashboard,
    readings: &Vec<SlotReading>,
    outcome: Result<ResolvedInputs, String>,
)
    requires
        call_ensures(Dashboard::new_run_input_values, (dash, readings), outcome),
        readings@.len() == dash.inputs.slots@.len(),
    ensures
        outcome is Ok ==> forall|i: int|
            #![trigger dash.inputs.slots@[i]]
            0 <= i < dash.inputs.slots@.len() && dash.inputs.slots@[i].max_tokens > 0 ==> added_up(
                readings@[i].files@,
            ) + seed_tokens(dash.inputs.slots@[i]@, readings@[i])
                <= dash.inputs.slots@[i].max_tokens,
        outcome is Err <==> exists|i: int|
            #![trigger dash.inputs.slots@[i]]
            0 <= i < dash.inputs.slots@.len() && (is_unread(dash.inputs.slots@[i]@, readings@[i])
                || is_too_much(dash.inputs.slots@[i]@, readings@[i])),
        outcome matches Err(reason) ==> exists|i: int|
            #![trigger dash.inputs.slots@[i]]
            0 <= i < dash.inputs.slots@.len() && (dash.inputs.slots@[i].key@ + ": "@).is_prefix_of(
                reason@,
            ),
{
    let slots = views(dash.inputs.slots@);
    assert(slots.len() == dash.inputs.slots@.len());
    a_start_fits_every_budget(slots, readings@, readings@.len() as int);
    assert forall|i: int|
        #![trigger dash.inputs.slots@[i]]
        0 <= i < dash.inputs.slots@.len() implies slots[i] == dash.inputs.slots@[i]@ by {
    }
    if outcome is Err {
        let at = the_first_slot_that_stops_is_named(slots, readings@, readings@.len() as int);
        assert(slots[at] == dash.inputs.slots@[at]@);
        assert(dash.inputs.slots@[at].key@ == slots[at].key);
    }
    if exists|i: int|
        #![trigger dash.inputs.slots@[i]]
        0 <= i < dash.inputs.slots@.len() && (is_unread(dash.inputs.slots@[i]@, readings@[i])
            || is_too_much(dash.inputs.slots@[i]@, readings@[i])) {
        let i = choose|i: int|
            #![trigger dash.inputs.slots@[i]]
            0 <= i < dash.inputs.slots@.len() && (is_unread(dash.inputs.slots@[i]@, readings@[i])
                || is_too_much(dash.inputs.slots@[i]@, readings@[i]));
        assert(slots[i] == dash.inputs.slots@[i]@);
    }
}

/// Submitting hands over one run of the chosen agent, with the task as it was read and all the files
/// and seeds, if and only if an agent is chosen, the task says something and everything was read;
/// else it says why and hands over nothing.
pub proof fn submitting_starts_one_run(
    dash: &mut Dashboard,
    read: Result<InlineParts, String>,
    inputs: Result<ResolvedInputs, String>,
)
    requires
        call_ensures(Dashboard::submit_new_run, (dash, read, inputs), ()),
    ensures
        ({
            let ready = old(dash).chosen_agent() is Some && says_something(
                old(dash).new_run.task.before@ + old(dash).new_run.task.after@,
            ) && read is Ok && inputs is Ok;
            let sent = final(dash).lanes.spawn_commands@;
            &&& (!ready ==> final(dash).lanes == old(dash).lanes
                && final(dash).new_run == old(dash).new_run && final(dash).notes.toasts@.len()
                == old(dash).notes.toasts@.len() + 1
                && final(dash).notes.toasts@.last().level is Error)
            &&& (ready ==> sent.len() == old(dash).lanes.spawn_commands@.len() + 1
                && sent.last().agent_path@ == old(dash).chosen_agent()->0.path@
                && sent.last().task@ == read->Ok_0.text@ && sent.last().yolo
                    == old(dash).unattended.on && sent.last().parts@.len()
                    == read->Ok_0.parts@.len()
                + inputs->Ok_0.parts@.len() && sent.last().regions@.len()
                == inputs->Ok_0.regions@.len() && !final(dash).new_run.open)
        }),
{
    what_a_start_needs(*old(dash), read, inputs);
    let ready = old(dash).chosen_agent() is Some && says_something(
        old(dash).new_run.task.before@ + old(dash).new_run.task.after@,
    ) && read is Ok && inputs is Ok;
    if ready {
        a_start_sends_what_is_on_screen(
            *old(dash),
            *final(dash),
            old(dash).chosen_agent()->0,
            read->Ok_0,
            inputs->Ok_0,
        );
    } else {
        let said = final(dash).notes.toasts@;
        assert(views(said).len() == said.len());
        assert(views(said).last() == said.last()@);
    }
}

/// What came back is told in its order, and the last run that started is the one to open.
pub proof fn draining_tells_every_outcome(dash: &mut Dashboard, at: int)
    requires
        call_ensures(Dashboard::drain_spawn_outcomes, (dash,), ()),
        0 <= at < old(dash).lanes.spawn_outcomes@.len(),
    ensures
        ({
            let outcomes = old(dash).lanes.spawn_outcomes@;
            let said = final(dash).notes.toasts@;
            let already = old(dash).notes.toasts@.len();
            &&& said.len() == already + outcomes.len()
            &&& said[already + at].message@ == outcomes[at].message@
            &&& (said[already + at].level is Error <==> !outcomes[at].ok)
            &&& final(dash).lanes.spawn_outcomes@.len() == 0
            &&& (outcomes[at].run_id is Some && (forall|k: int|
                at < k < outcomes.len() ==> (#[trigger] outcomes[k]).run_id is None)
                    ==> final(dash).lanes.pending_open_run is Some
                    && (final(dash).lanes.pending_open_run->0).0@
                == outcomes[at].run_id->0@)
        }),
{
    let outcomes = old(dash).lanes.spawn_outcomes@;
    let said = final(dash).notes.toasts@;
    let already = old(dash).notes.toasts@.len();
    every_outcome_is_told(outcomes, old(dash).notes.log_stamp@, at);
    the_last_started_run_is_opened(outcomes, waited_for(old(dash).lanes.pending_open_run), at);
    assert(views(said).len() == said.len());
    assert(views(said)[already + at] == said[already + at]@);
}

/// A run that was waited for is opened on the row that shows it, once, and only from the list of
/// runs.
pub proof fn a_pending_run_is_opened_on_its_row(dash: &mut Dashboard, id: String, ticks: u32)
    requires
        call_ensures(Dashboard::open_pending_run, (dash,), ()),
        old(dash).lanes.pending_open_run == Some((id, ticks)),
    ensures
        ({
            let on_list = !old(dash).screens.detail_view && !old(dash).screens.mcp_screen
                && !old(dash).new_run.open;
            let row = row_on_screen(old(dash).runs, id@, 0);
            &&& (!on_list ==> final(dash).runs == old(dash).runs
                && final(dash).screens == old(dash).screens
                && final(dash).lanes.pending_open_run is None)
            &&& (on_list && row is Some && row->0 <= usize::MAX ==> final(dash).screens.detail_view
                && final(dash).lanes.pending_open_run is None
                    && final(dash).runs.agents@[old(dash).runs.display_indices@[final(dash).runs.selected as int] as int].id@ == id@)
            &&& (on_list && row is None ==> final(dash).runs == old(dash).runs
                && final(dash).screens == old(dash).screens
                && (final(dash).lanes.pending_open_run is Some <==> ticks
                > 0))
        }),
{
    a_run_is_found_on_screen(old(dash).runs, id@, 0);
}

/// What one start came to is good news if and only if the run started, and only then names a run.
pub proof fn a_start_is_good_news_where_it_started(
    path: &str,
    reply: SpawnReply,
    outcome: SpawnOutcome,
)
    requires
        call_ensures(run_spawn, (path, reply), outcome),
    ensures
        outcome.ok <==> reply is Spawned,
        outcome.run_id is Some <==> reply is Spawned,
        reply matches SpawnReply::Spawned(id) ==> outcome.run_id->0@ == id@,
{
}

/// A yes to the warning turns unattended on, says so as a warning, and starts nothing.
pub proof fn a_yes_turns_unattended_on(dash: &mut Dashboard)
    requires
        call_ensures(Dashboard::accept_yolo_warning, (dash,), ()),
    ensures
        final(dash).unattended.on,
        final(dash).unattended.profile == old(dash).unattended.profile,
        final(dash).lanes == old(dash).lanes,
        final(dash).notes.toasts@.len() == old(dash).notes.toasts@.len() + 1,
        final(dash).notes.toasts@.last().level is Warning,
{
    let said = final(dash).notes.toasts@;
    assert(views(said).len() == said.len());
    assert(views(said).last() == said.last()@);
}

/// The switch from off leaves unattended off, and opens a question.
pub proof fn the_switch_asks_first(dash: &mut Dashboard)
    requires
        call_ensures(Dashboard::toggle_new_run_yolo, (dash,), ()),
        !old(dash).unattended.on,
    ensures
        !final(dash).unattended.on,
        final(dash).notes.pending_confirm is Some,
{
}

// ── Selecting ────────────────────────────────────────────────────────────────

/// A copied row is a prefix of the symbols of its cells run together, and what is left off behind it
/// is all blank: the first symbol is the first of the copied row unless the whole row is blank.
pub proof fn a_row_is_copied_from_its_first_cell(cells: &Vec<String>, text: String)
    requires
        call_ensures(row_of, (cells,), text),
    ensures
        copied_of(text@, views(cells@).flatten()),
        cells@.len() > 0 && cells@[0]@.len() > 0 && !white_space(cells@[0]@[0]) ==> text@.len() > 0
            && text@[0] == cells@[0]@[0],
        cells@.len() > 0 && cells@[0]@.len() > 0 && text@.len() > 0 ==> text@[0] == cells@[0]@[0],
{
    let row = views(cells@);
    a_copied_row_loses_only_blanks_at_its_end(row);
    if cells@.len() > 0 && cells@[0]@.len() > 0 {
        assert(row[0] == cells@[0]@);
        assert(row.flatten() == row[0] + row.drop_first().flatten());
        assert(row.flatten()[0] == cells@[0]@[0]);
        if text@.len() > 0 {
            assert(row.flatten().take(text@.len() as int)[0] == row.flatten()[0]);
        }
    }
}

/// A press, drag or release moves nothing but the selection, a wheel notch clears it, and only a
/// release without a drag is a click.
pub proof fn the_mouse_selects(
    dash: &mut Dashboard,
    event: MouseEvent,
    click: Option<(u16, u16)>,
)
    requires
        call_ensures(Dashboard::handle_mouse, (dash, event), click),
    ensures
        event.kind == MouseEventKind::LeftDown || event.kind == MouseEventKind::LeftDrag
            || event.kind == MouseEventKind::LeftUp ==> final(dash).runs == old(dash).runs
                && final(dash).detail == old(dash).detail && final(dash).notes == old(dash).notes,
        event.kind == MouseEventKind::ScrollUp || event.kind == MouseEventKind::ScrollDown
            ==> final(dash).mouse.selection is None,
        click is Some ==> event.kind == MouseEventKind::LeftUp && click == Some(
            (event.column, event.row),
        ) && (old(dash).mouse.selection is None || !old(dash).mouse.selection->0.moved
            || !old(dash).mouse.selection->0.dragging),
        event.kind == MouseEventKind::LeftUp && old(dash).mouse.selection is None ==> click == Some(
            (event.column, event.row),
        ),
{
}

// ── Figures ──────────────────────────────────────────────────────────────────

/// A short count is exact under a thousand, to the nearest tenth of a thousand under ten of them,
/// and to the nearest thousand above.
pub proof fn a_short_count_is_near(n: usize, text: String) -> (figure: nat)
    requires
        call_ensures(compact_count, (n,), text),
        n < SIGNIFICANDS,
    ensures
        n < 1000 ==> text@ == decimal(n as nat),
        1000 <= n < 9950 ==> text@ == decimal(figure / 10) + "."@ + decimal(figure % 10) + "k"@
            && 100 * figure <= n + 50 && n <= 100 * figure + 50,
        n >= 10_000 ==> text@ == decimal(figure) + "k"@ && 1000 * figure <= n + 500 && n <= 1000
            * figure + 500,
{
    a_compact_count_is_near(n as nat)
}

/// A token figure is the most of its unit that the count holds.
pub proof fn a_figure_is_rounded_down(n: usize, text: String) -> (figure: nat)
    requires
        call_ensures(format_tokens, (n,), text),
    ensures
        n < 1000 ==> text@ == decimal(n as nat),
        1000 <= n < 1_000_000 ==> text@ == decimal(figure) + "k"@ && 1000 * figure <= n < 1000 * (
        figure + 1),
        n >= 1_000_000 ==> text@ == decimal(figure) + "M"@ && 1_000_000 * figure <= n < 1_000_000 * (
        figure + 1),
{
    a_token_figure_is_rounded_down(n as nat)
}

/// A percentage is the nearest to the share.
pub proof fn a_percentage_is_the_nearest(part: usize, whole: usize, percent: u64)
    requires
        call_ensures(share_percent, (part, whole), percent),
        0 < part <= whole <= 0x1_0000_0000,
    ensures
        2 * (percent * whole) <= 200 * part + whole,
        200 * part <= 2 * (percent * whole) + whole,
{
    a_share_is_the_nearest_percent(part as nat, whole as nat);
}

/// A status can be killed if and only if its run has not ended.
pub proof fn a_status_tells_whether_it_can_be_killed(status: &AgentDisplayStatus, killable: bool)
    requires
        call_ensures(AgentDisplayStatus::is_killable, (status,), killable),
    ensures
        killable <==> is_live(*status),
{
}

// ── The panes ────────────────────────────────────────────────────────────────

/// A line of the content pane is marked by the search if and only if its whole text holds what was
/// typed, in either case, whichever of its spans that stands in; every other line is as it was.
pub proof fn the_pane_marks_the_lines_that_hold_the_query(
    dash: &mut Dashboard,
    area: Rect,
    agent: &DashboardAgent,
    source: ContentSource,
    pane: ContentPane,
    i: int,
)
    requires
        call_ensures(Dashboard::show_content_pane, (dash, area, agent, source), pane),
        0 <= i < source.lines@.len(),
        source.lines@.len() + 1 <= usize::MAX,
        old(dash).detail.search_query@.len() > 0,
        lowercase(old(dash).detail.search_query@).len() > 0,
        source.lines@[i]@.len() > 0,
    ensures
        pane.lines@.len() >= source.lines@.len(),
        pane.lines@[i]@.len() == source.lines@[i]@.len(),
        holds(whole_text(source.lines@[i]@), old(dash).detail.search_query@)
            ==> pane.lines@[i]@[0].style.bg is Some,
        !holds(whole_text(source.lines@[i]@), old(dash).detail.search_query@) ==> pane.lines@[i]@
            == source.lines@[i]@,
{
    let lines = pane_lines(source@.lines, agent.status@);
    let query = old(dash).detail.search_query@;
    assert(source@.lines.len() == source.lines@.len());
    assert(source@.lines[i] == source.lines@[i]@);
    assert(lines[i] == source.lines@[i]@);
    let found = matching_lines(lines, query);
    a_search_finds_every_line_that_holds_it(lines, query, i);
    let at = clamped_match(old(dash).detail.search_match_idx, found.len());
    a_search_marks_what_it_found(lines, found, at as int, i);
    let shown = searched_lines(lines, found, at as int);
    assert(views(pane.lines@) == shown);
    assert(views(pane.lines@).len() == pane.lines@.len());
    assert(views(pane.lines@)[i] == pane.lines@[i]@);
    if found.contains(i as usize) {
        let style = pane.lines@[i]@[0].style;
        assert(shown[i][0].style == style);
    }
}

/// A row of the table is of the run in its place on screen: it says that run's blueprint and the end
/// of its id, and is coloured by how it stands.
pub proof fn a_row_is_of_the_run_in_its_place(
    dash: &Dashboard,
    widths: &Vec<usize>,
    started: &Vec<String>,
    rows: Vec<RunRow>,
    at: int,
)
    requires
        call_ensures(Dashboard::agent_rows, (dash, widths, started), rows),
        started@.len() == dash.runs.display_indices@.len(),
        0 <= at < started@.len(),
    ensures
        ({
            let run = dash.runs.agents@[dash.runs.display_indices@[at] as int];
            &&& rows@.len() == started@.len()
            &&& rows@[at].blueprint@ == truncated(run.blueprint_name@, widths@[1] as nat)
            &&& rows@[at]@.title[4].content == " #"@ + short_id(run.id@)
            &&& rows@[at]@.started.content == started@[at]@
            &&& (run.wait_reason is None ==> rows@[at]@.status.style.fg == Some(
                Color::Status(run.status@.tone()),
            ))
        }),
{
    each_row_is_of_its_run(*dash, widths@, started@, started@.len() as int, at);
    assert(views(rows@).len() == rows@.len());
    assert(views(rows@)[at] == rows@[at]@);
}

/// Each toast drawn is one of the toasts there are, in their order, one below the other from the
/// second row of the frame on, and says its message.
pub proof fn toasts_are_drawn_in_order(
    dash: &Dashboard,
    frame: Rect,
    stack: Option<ToastStack>,
    at: int,
)
    requires
        call_ensures(Dashboard::draw_toasts, (dash, frame), stack),
        stack is Some,
        0 <= at < stack->0.rows@.len(),
        dash.notes.toasts@.len() < 65_536,
    ensures
        stack->0.rows@[at].0.y == 1 + at,
        stack->0.rows@[at].0.height == 1,
        stack->0.rows@[at].0.width == stack->0.area.width,
        stack->0.rows@[at].1@[1].content == truncated(
            dash.notes.toasts@[at].message@,
            (stack->0.area.width - 4) as nat,
        ),
        stack->0.rows@.len() <= dash.notes.toasts@.len(),
{
    toasts_stand_at_the_right(frame, dash.notes.toasts@.len());
    a_toast_wears_its_level(dash.notes.toasts@[at], stack->0.area.width);
}

/// The breadcrumb has the run's id and its figures, and its status in its own tone.
pub proof fn the_breadcrumb_is_of_its_run(
    dash: &Dashboard,
    area: Rect,
    run: &DashboardAgent,
    elapsed: &str,
    age: &str,
    line: Line,
)
    requires
        call_ensures(Dashboard::render_header_breadcrumb, (dash, area, run, elapsed, age), line),
    ensures
        line@.len() == 13,
        line@[11].content == run.id@,
        line@[5].content == token_figure(run.tokens_in as nat) + "↑"@,
        line@[6].content == " "@ + token_figure(run.tokens_out as nat) + "↓"@,
        line@[3].style.fg == Some(Color::Status(run.status@.tone())),
{
    the_breadcrumb_says_how_a_run_stands(*run, dash.spin(), elapsed@, age@, area.width as nat);
}

// ── The new-run screen ───────────────────────────────────────────────────────

/// Committing a slot's text puts it in that slot alone and goes to the next one, or to the task
/// behind the last; any other outcome stays where it is.
pub proof fn a_committed_slot_leads_on(
    dash: &mut Dashboard,
    index: usize,
    value: String,
    outcome: EditOutcome,
    other: int,
)
    requires
        call_ensures(Dashboard::finish_slot_edit, (dash, index, value, outcome), ()),
        index < old(dash).inputs.slots@.len() <= usize::MAX,
        0 <= other < old(dash).inputs.slots@.len(),
    ensures
        final(dash).inputs.slots@.len() == old(dash).inputs.slots@.len(),
        final(dash).inputs.slots@[index as int]@.value == value@,
        final(dash).inputs.slots@[index as int]@.files
            == old(dash).inputs.slots@[index as int]@.files,
        other != index ==> final(dash).inputs.slots@[other]@ == old(dash).inputs.slots@[other]@,
        outcome == EditOutcome::Commit && index + 1 < old(dash).inputs.slots@.len()
            ==> final(dash).inputs.selected == index + 1 && final(dash).new_run.focus
            == old(dash).new_run.focus,
        outcome == EditOutcome::Commit && index + 1 == old(dash).inputs.slots@.len()
            ==> final(dash).new_run.focus is Task,
        outcome != EditOutcome::Commit ==> final(dash).inputs.selected == index
            && final(dash).new_run.focus == old(dash).new_run.focus,
{
    let before = old(dash).inputs.slots@;
    let after = final(dash).inputs.slots@;
    assert(views(after).len() == after.len());
    assert(views(before).len() == before.len());
    assert(views(after)[index as int] == after[index as int]@);
    assert(views(after)[other] == after[other]@);
    assert(views(before)[other] == before[other]@);
}

/// Filling the slots gives one to each region that the caller seeds, beside the task, under its key,
/// with its budget, and empty.
pub proof fn filling_gives_each_region_its_slot(
    dash: &mut Dashboard,
    path: String,
    regions: Vec<RegionDecl>,
    at: int,
)
    requires
        call_ensures(Dashboard::fill_new_run_inputs, (dash, path, &Some(regions)), ()),
        0 <= at < final(dash).inputs.slots@.len(),
    ensures
        ({
            let asked = regions@.filter(|region: RegionDecl| is_asked_for(region));
            let slot = final(dash).inputs.slots@[at];
            &&& final(dash).inputs.slots@.len() == asked.len()
            &&& slot.key@ == asked[at].caller_key->0@
            &&& slot.region@ == asked[at].name@
            &&& slot.max_tokens == asked[at].max_tokens
            &&& slot.required == asked[at].required
            &&& slot@.value.len() == 0
            &&& slot.files@.len() == 0
        }),
{
    every_asked_region_has_a_slot(regions@, regions@.len() as int);
    assert(regions@.take(regions@.len() as int) =~= regions@);
    let slots = final(dash).inputs.slots@;
    assert(views(slots).len() == slots.len());
    assert(views(slots)[at] == slots[at]@);
}

/// A rebuilt list has every agent that was found, and the cursor on one of those that match where
/// there is any.
pub proof fn a_rebuilt_list_offers_what_was_found(
    dash: &mut Dashboard,
    found: Vec<NewRunAgent>,
    bundled: &Vec<BundledEntry>,
    at: int,
)
    requires
        call_ensures(Dashboard::refresh_new_run_agents, (dash, found, bundled), ()),
        0 <= at < found@.len(),
    ensures
        views(final(dash).new_run.agents@).contains(found@[at]@),
        final(dash).new_run.agents@.len() >= found@.len(),
        final(dash).new_run.filter == old(dash).new_run.filter,
        0 < final(dash).matching_agents().len() <= usize::MAX ==> final(dash).new_run.selected
            < final(dash).matching_agents().len(),
{
    the_list_offers_every_agent(views(found@), bundled@);
    assert(views(found@).len() == found@.len());
    assert(views(found@)[at] == found@[at]@);
    assert(views(final(dash).new_run.agents@).len() == final(dash).new_run.agents@.len());
}

/// Accepting a path puts it in the place of what was typed behind the `@`, and leaves what stands
/// behind the cursor.
pub proof fn accepting_a_path_replaces_the_query(dash: &mut Dashboard, head: Seq<char>)
    requires
        call_ensures(Dashboard::accept_file_ref, (dash,), ()),
        old(dash).new_run.task.before@ == head + old(dash).file_ref.query@,
        old(dash).file_ref.selected < old(dash).offered().len(),
    ensures
        final(dash).new_run.task.before@
            == head + old(dash).offered()[old(dash).file_ref.selected as int],
        final(dash).new_run.task.after == old(dash).new_run.task.after,
        !final(dash).file_ref.open,
{
    assert(without_tail(head + old(dash).file_ref.query@, old(dash).file_ref.query@.len())
        =~= head);
}

// ── Copying ──────────────────────────────────────────────────────────────────

/// What is read back from a frame is what it shows between the two ends: a line for each row, each
/// what its cells show without the blanks at its end.
pub proof fn reading_a_frame_gives_what_it_shows(
    frame: &Buffer,
    region: Rect,
    a: (u16, u16),
    b: (u16, u16),
    text: String,
) -> (rows: Seq<Seq<char>>)
    requires
        call_ensures(extract_from_buffer, (frame, region, a, b), text),
        is_narrow(symbols(*frame), region),
        in_region(region, a),
        in_region(region, b),
    ensures
        ({
            let (start, end) = if place(a) <= place(b) {
                (a, b)
            } else {
                (b, a)
            };
            &&& text@ == joined(rows, "\n"@)
            &&& rows.len() == end.1 - start.1 + 1
            &&& forall|k: int|
                #![trigger rows[k]]
                0 <= k < rows.len() ==> copied_of(
                    rows[k],
                    on_screen(
                        symbols(*frame),
                        (start.1 + k) as u16,
                        if k == 0 {
                            start.0 as int
                        } else {
                            region.x as int
                        },
                        if k == end.1 - start.1 {
                            end.0 as int
                        } else {
                            region.x + region.width - 1
                        },
                    ),
                )
        }),
{
    a_copy_is_what_is_on_screen(symbols(*frame), region, a, b)
}

/// A copy is told of: as done with its length where it was, as an error where it could not be, and
/// not at all where there was nothing but blanks.
pub proof fn a_copy_is_told_of(dash: &mut Dashboard, text: &str, copied: bool)
    requires
        call_ensures(Dashboard::finish_copy, (dash, text, copied), ()),
    ensures
        ({
            let said = final(dash).notes.toasts@;
            let already = old(dash).notes.toasts@.len();
            &&& (!says_something(text@) ==> said.len() == already)
            &&& (says_something(text@) ==> said.len() == already + 1)
            &&& (says_something(text@) && copied ==> said.last().level is Info && (
            "Copied "@ + decimal(text@.len()) + " chars"@).is_prefix_of(said.last().message@))
            &&& (says_something(text@) && !copied ==> said.last().level is Error)
        }),
{
    let said = final(dash).notes.toasts@;
    what_says_something_is_left(text@);
    a_copy_is_counted(text@);
    assert(views(said).len() == said.len());
    assert(views(old(dash).notes.toasts@).len() == old(dash).notes.toasts@.len());
    if says_something(text@) {
        assert(views(said).last() == said.last()@);
    }
}

// ── Reading the runs ─────────────────────────────────────────────────────────

/// A round reads every run in its order, and has the context window of the run on screen and of no
/// other.
pub proof fn a_round_reads_every_run(
    taken_at: u64,
    sources: &Vec<RunSource>,
    shelf: &GraphShelf,
    showing: Option<&str>,
    window: Option<Arc<ContextSnapshot>>,
    with_stages: bool,
    snapshot: RunSnapshot,
    at: int,
)
    requires
        call_ensures(
            collect,
            (taken_at, sources, shelf, showing, window, with_stages),
            snapshot,
        ),
        0 <= at < sources@.len(),
    ensures
        snapshot.taken_at == taken_at,
        snapshot.runs@.len() == sources@.len(),
        !sources@[at].settled ==> snapshot.runs@[at].meta == sources@[at].meta,
        !sources@[at].settled && with_stages ==> snapshot.runs@[at].stages == sources@[at].stages,
        with_stages ==> snapshot.runs@[at].stages_read,
        snapshot.context is Some ==> showing is Some && (snapshot.context->0).0@ == showing->0@,
{
    only_settled_runs_are_reused(snapshot.runs@[at], sources@[at], *shelf, with_stages);
}

// ── More of the list ─────────────────────────────────────────────────────────

/// Beginning to delete a listed run asks the daemon to cancel it, with each other of the runs to be
/// erased that is still live, and erases exactly those; a run that is not listed is left alone.
pub proof fn beginning_to_delete_cancels_the_run(
    dash: &mut Dashboard,
    run_id: &str,
    ids: Vec<String>,
    erasing: Option<Erasing>,
    at: int,
)
    requires
        call_ensures(Dashboard::perform_delete, (dash, run_id, ids), erasing),
        0 <= at < ids@.len(),
        ids@[at]@ == run_id@,
    ensures
        erasing is Some <==> exists|i: int|
            0 <= i < old(dash).runs.agents@.len() && (#[trigger] old(dash).runs.agents@[i]).id@
                == run_id@,
        erasing is None ==> *final(dash) == *old(dash),
        erasing is Some ==> erasing->0.ids == ids && final(dash).runs == old(dash).runs && exists|
            k: int,
        |
            old(dash).lanes.daemon_commands@.len() <= k < final(dash).lanes.daemon_commands@.len()
                && (#[trigger] final(dash).lanes.daemon_commands@[k])@ == run_id@,
{
    let rows = views(old(dash).runs.agents@);
    assert(rows.len() == old(dash).runs.agents@.len());
    if listed(rows, run_id@) {
        let i = choose|i: int| 0 <= i < rows.len() && rows[i].id == run_id@;
        assert(rows[i] == old(dash).runs.agents@[i]@);
        assert(old(dash).runs.agents@[i].id@ == run_id@);
    }
    if exists|i: int|
        0 <= i < old(dash).runs.agents@.len() && (#[trigger] old(dash).runs.agents@[i]).id@
            == run_id@ {
        let i = choose|i: int|
            0 <= i < old(dash).runs.agents@.len() && (#[trigger] old(dash).runs.agents@[i]).id@
                == run_id@;
        assert(rows[i] == old(dash).runs.agents@[i]@);
        assert(rows[i].id == run_id@);
    }
    if erasing is Some {
        let names = views(ids@);
        assert(names.len() == ids@.len());
        assert(names[at] == ids@[at]@);
        a_deleted_run_is_cancelled(rows, run_id@, names, names.len() as int, at);
        let more = cancelled_runs(rows, run_id@, names, names.len() as int);
        let k = choose|k: int| 0 <= k < more.len() && more[k] == run_id@;
        let sent = final(dash).lanes.daemon_commands@;
        let before = old(dash).lanes.daemon_commands@;
        assert(views(sent).len() == sent.len());
        assert(views(before).len() == before.len());
        assert(views(sent)[before.len() + k] == more[k]);
        assert(views(sent)[before.len() + k] == sent[before.len() + k]@);
    }
}

/// A new snapshot is taken over when it arrives, and the rows then show its records.
pub proof fn syncing_takes_over_the_newest_snapshot(
    dash: &mut Dashboard,
    snapshot: Arc<RunSnapshot>,
    j: int,
)
    requires
        call_ensures(Dashboard::sync_from_run_state, (dash,), ()),
        old(dash).feed.link.arrived == Some(snapshot),
        rows_have_own_ids(*old(dash)),
        runs_have_own_ids(*snapshot),
        0 <= j < snapshot.runs@.len(),
        !deleted_since(*old(dash), *snapshot, snapshot.runs@[j].meta.run_id@),
    ensures
        final(dash).feed.snapshot == Some(snapshot),
        final(dash).feed.link.arrived is None,
        !final(dash).feed.loading,
        exists|i: int|
            0 <= i < final(dash).runs.agents@.len() && shows_record(
                #[trigger] final(dash).runs.agents@[i],
                *snapshot.runs@[j].meta,
                has_prompt(*old(dash), snapshot.runs@[j].meta.run_id@),
                was_abandoned(*old(dash), snapshot.runs@[j].meta.run_id@),
                old(dash).feed.now,
            ),
{
    let records = *snapshot;
    a_row_shows_its_record(*old(dash), *final(dash), records, j);
}

/// The loader hears of the run under the cursor when that is another than before, and of nothing
/// while it stays.
pub proof fn showing_tells_the_loader_once(feed: &mut RunFeed, id: &str)
    requires
        call_ensures(RunFeed::show, (feed, Some(id)), ()),
    ensures
        final(feed).last_showing is Some,
        final(feed).last_showing->0@ == id@,
        final(feed).arrived == old(feed).arrived,
        old(feed).last_showing is Some && old(feed).last_showing->0@ == id@
            ==> final(feed).asks@.len() == old(feed).asks@.len(),
        (old(feed).last_showing is None || old(feed).last_showing->0@ != id@)
            ==> final(feed).asks@.len() == old(feed).asks@.len() + 1
            && final(feed).asks@.last() is Some
            && final(feed).asks@.last()->0@ == id@,
{
    let told = asked(final(feed).asks@);
    assert(told.len() == final(feed).asks@.len());
    assert(asked(old(feed).asks@).len() == old(feed).asks@.len());
    if old(feed).last_showing is None || old(feed).last_showing->0@ != id@ {
        assert(told.last() == opt_text(final(feed).asks@.last()));
    }
}

/// The first round leaves the ledgers out and the next follows at once; from then on each reads them
/// and waits.
pub proof fn the_second_round_follows_at_once(
    state: &mut LoaderState,
    wait: bool,
)
    requires
        call_ensures(LoaderState::after_round, (state,), wait),
    ensures
        final(state).with_stages,
        wait <==> old(state).with_stages,
        final(state).on_screen == old(state).on_screen,
{
}

/// A run is read again unless it is settled and what was read of it is enough.
pub proof fn an_unsettled_run_is_read_again(
    known: &Option<RunEntry>,
    settled: bool,
    with_stages: bool,
    step: RunStep,
)
    requires
        call_ensures(plan_run, (known, settled, with_stages), step),
    ensures
        step is Reuse <==> known is Some && settled && (known->0.stages_read || !with_stages),
        step matches RunStep::Read { stages } ==> stages == with_stages,
{
}

// ── Parts and answers ────────────────────────────────────────────────────────

/// An answer goes with the files that it names; where one could not be read the words go alone, as
/// they were typed, and an error says so.
pub proof fn an_answer_goes_with_its_files(
    dash: &mut Dashboard,
    text: &str,
    read: Result<InlineParts, String>,
    answer: (String, Vec<InboundPart>),
)
    requires
        call_ensures(Dashboard::answer_parts, (dash, text, read), answer),
    ensures
        read matches Ok(parts) ==> answer.0@ == parts.text@ && answer.1 == parts.parts
            && final(dash).notes.toasts@.len()
            == old(dash).notes.toasts@.len() + parts.unresolved@.len(),
        read is Err ==> answer.0@ == text@ && answer.1@.len() == 0
            && final(dash).notes.toasts@.len() == old(dash).notes.toasts@.len() + 1
            && final(dash).notes.toasts@.last().level is Error,
        final(dash).lanes == old(dash).lanes && final(dash).runs == old(dash).runs,
{
    let said = final(dash).notes.toasts@;
    assert(views(said).len() == said.len());
    assert(views(old(dash).notes.toasts@).len() == old(dash).notes.toasts@.len());
    match read {
        Ok(parts) => {
            every_name_in_an_answer_is_warned_of(
                views(parts.unresolved@),
                parts.unresolved@.len() as int,
            );
        },
        Err(_) => {
            assert(views(said).last() == said.last()@);
        },
    }
}

/// Opening a part says one thing: that it was opened, or that it could not be.
pub proof fn opening_a_part_is_told(dash: &mut Dashboard, done: PartOutcome)
    requires
        call_ensures(Dashboard::open_context_part, (dash, Some(done)), ()),
    ensures
        final(dash).notes.toasts@.len() == old(dash).notes.toasts@.len() + 1,
        final(dash).notes.toasts@.last().level is Error <==> done.result is Err,
        final(dash).notes.log@.len() == old(dash).notes.log@.len() + if done.result is Ok {
            1int
        } else {
            0
        },
{
    let said = final(dash).notes.toasts@;
    assert(views(said).len() == said.len());
    assert(views(said).last() == said.last()@);
    assert(views(final(dash).notes.log@).len() == final(dash).notes.log@.len());
    assert(views(old(dash).notes.log@).len() == old(dash).notes.log@.len());
}

/// Writing a part says one thing: where it went, or that it could not be written.
pub proof fn writing_a_part_is_told(dash: &mut Dashboard, done: PartOutcome)
    requires
        call_ensures(Dashboard::write_context_part, (dash, Some(done)), ()),
    ensures
        final(dash).notes.toasts@.len() == old(dash).notes.toasts@.len() + 1,
        final(dash).notes.toasts@.last().level is Error <==> done.result is Err,
        done.result matches Ok(path) ==> final(dash).notes.toasts@.last().message@ == "Wrote "@
            + path@,
{
    let said = final(dash).notes.toasts@;
    assert(views(said).len() == said.len());
    assert(views(said).last() == said.last()@);
}

// ── More of the new-run screen ───────────────────────────────────────────────

/// The screen opens with unattended off and nothing typed, on the agents.
pub proof fn opening_the_screen_starts_afresh(
    dash: &mut Dashboard,
    found: Vec<NewRunAgent>,
    bundled: &Vec<BundledEntry>,
    profiles: Vec<YoloProfile>,
    files: Vec<String>,
    step: InputsStep,
)
    requires
        call_ensures(
            Dashboard::open_new_run_screen,
            (dash, found, bundled, profiles, files),
            step,
        ),
    ensures
        final(dash).new_run.open,
        final(dash).new_run.focus is Agents,
        !final(dash).unattended.on,
        final(dash).unattended.profile is None,
        final(dash).new_run.filter@.len() == 0,
        final(dash).new_run.task.whole().len() == 0,
        final(dash).lanes == old(dash).lanes && final(dash).runs == old(dash).runs,
{
    the_screen_opens_attended(*old(dash), *final(dash), profiles, files);
}

/// The task is read, without the blanks around it, where an agent is chosen and the task says
/// something, and only there.
pub proof fn a_task_is_read_where_it_says_something(dash: &Dashboard, task: Option<String>)
    requires
        call_ensures(Dashboard::task_to_read, (dash,), task),
    ensures
        task is Some <==> dash.chosen_agent() is Some && says_something(
            dash.new_run.task.before@ + dash.new_run.task.after@,
        ),
        task matches Some(text) ==> text@ == trimmed(
            dash.new_run.task.before@ + dash.new_run.task.after@,
        ),
{
    what_says_something_is_left(dash.new_run.task.before@ + dash.new_run.task.after@);
}

/// A slot takes text or files as its region names them; one whose region names nothing takes both.
pub proof fn a_slot_takes_what_it_says(slot: &NewRunInput, text: bool, files: bool)
    requires
        call_ensures(NewRunInput::takes_text, (slot,), text),
        call_ensures(NewRunInput::takes_files, (slot,), files),
    ensures
        slot.accepts@.len() == 0 ==> text && files,
        text || files,
        slot.accepts@.len() > 0 && (forall|i: int|
            0 <= i < slot.accepts@.len() ==> is_text_type((#[trigger] slot.accepts@[i])@)) ==> text
            && !files,
        slot.accepts@.len() > 0 && (forall|i: int|
            0 <= i < slot.accepts@.len() ==> !is_text_type((#[trigger] slot.accepts@[i])@)
                && slot.accepts@[i]@ != "*/*"@) ==> !text && files,
{
    a_slot_takes_what_its_region_names(slot@);
    every_slot_takes_something(slot@);
    assert(slot@.accepts.len() == slot.accepts@.len());
    assert forall|i: int| 0 <= i < slot.accepts@.len() implies slot@.accepts[i]
        == #[trigger] slot.accepts@[i]@ by {
    }
    if forall|i: int|
        0 <= i < slot.accepts@.len() ==> is_text_type((#[trigger] slot.accepts@[i])@) {
        assert forall|i: int| 0 <= i < slot@.accepts.len() implies is_text_type(
            #[trigger] slot@.accepts[i],
        ) by {
            assert(slot@.accepts[i] == slot.accepts@[i]@);
        }
    }
    if forall|i: int|
        0 <= i < slot.accepts@.len() ==> !is_text_type((#[trigger] slot.accepts@[i])@)
            && slot.accepts@[i]@ != "*/*"@ {
        assert forall|i: int| 0 <= i < slot@.accepts.len() implies !is_text_type(
            #[trigger] slot@.accepts[i],
        ) && slot@.accepts[i] != "*/*"@ by {
            assert(slot@.accepts[i] == slot.accepts@[i]@);
        }
    }
}

// ── Highlighting and clocks ──────────────────────────────────────────────────

/// Highlighting inverts the cells that are read between the two ends, changes no symbol, and leaves
/// every other cell of the region as it is.
pub proof fn highlighting_inverts_what_is_selected(
    frame: &mut Buffer,
    region: Rect,
    a: (u16, u16),
    b: (u16, u16),
    cell: (u16, u16),
)
    requires
        call_ensures(highlight_in_buffer, (frame, region, a, b), ()),
        in_region(region, a),
        in_region(region, b),
        in_region(region, cell),
        symbols(*old(frame)).contains_key(cell),
        !inverted(*old(frame)).contains(cell),
    ensures
        symbols(*final(frame)) == symbols(*old(frame)),
        inverted(*final(frame)).contains(cell) <==> (place(a) <= place(cell) <= place(b) || place(b)
            <= place(cell) <= place(a)),
{
    a_drag_picks_what_is_read_between_its_ends(region, a, b, cell);
}

/// A clock that runs counts each second once.
pub proof fn a_running_clock_counts(
    clock: &ActiveClock,
    now: i64,
    later: i64,
    first: u64,
    second: u64,
)
    requires
        call_ensures(ActiveClock::active_runtime_secs, (clock, now), first),
        call_ensures(ActiveClock::active_runtime_secs, (clock, later), second),
        clock.since is Some,
        clock.since->0 <= now <= later,
        clock.banked_secs + (later - clock.since->0) <= u64::MAX,
    ensures
        second == first + (later - now),
{
    a_clock_counts_every_second(*clock, now, later);
}

/// Usage is the percentage of the window that is taken, rounded down, and at most all of it.
pub proof fn a_window_is_used_by_its_share(total: usize, max: usize, percent: usize)
    requires
        call_ensures(usage_percent, (total, max), percent),
        0 < max,
    ensures
        total <= max ==> percent * max <= 100 * total < (percent + 1) * max,
        total >= max ==> percent == 100,
{
    usage_is_rounded_down(total as nat, max as nat);
}

// ── Keys and lists of the new-run screen ─────────────────────────────────────

/// A key on the new-run screen starts a run only on the Start button, with Enter or Space, or in
/// the task, with Control and Enter or `s`; and never while the file picker, the completion or a
/// popup of the task box is open.
pub proof fn a_key_starts_a_run_only_where_it_is_meant_to(
    dash: &mut Dashboard,
    key: KeyEvent,
    action: NewRunAction,
)
    requires
        call_ensures(Dashboard::handle_new_run_key, (dash, key), action),
    ensures
        action is Submit ==> {
            &&& old(dash).inputs.picker is None && !old(dash).file_ref.open
            &&& !old(dash).new_run.task_modal
            &&& {
                ||| old(dash).new_run.focus is Start && (key.code == KeyCode::Enter || key.code
                    == KeyCode::Char(' '))
                ||| old(dash).new_run.focus is Task && key.control && (key.code == KeyCode::Enter
                    || key.code == KeyCode::Char('s'))
            }
            &&& final(dash).new_run.task == old(dash).new_run.task
        },
        old(dash).inputs.picker is Some ==> action is PickerKey && *final(dash) == *old(dash),
{
    what_is_on_top_takes_the_key(*old(dash), *final(dash), key, action);
    if action is Submit {
        match old(dash).chosen_agent() {
            None => {
                only_these_keys_start_a_run(
                    with_slots_of(*old(dash), *final(dash)),
                    *final(dash),
                    key,
                    action,
                );
            },
            Some(_) => {
                only_these_keys_start_a_run(*old(dash), *final(dash), key, action);
            },
        }
    }
}

/// An agent is listed if and only if what was typed stands in its name or its description, in either
/// case.
pub proof fn an_agent_is_listed_where_it_holds_the_filter(
    dash: &Dashboard,
    visible: Vec<usize>,
    at: int,
)
    requires
        call_ensures(Dashboard::filtered_new_run_agents, (dash,), visible),
        0 <= at < dash.new_run.agents@.len() <= usize::MAX,
        is_basic(dash.new_run.agents@[at].name@),
        is_basic(dash.new_run.agents@[at].description@),
        is_basic(dash.new_run.filter@),
        dash.new_run.filter@.len() > 0,
    ensures
        visible@.contains(at as usize) <==> is_found_in(
            dash.new_run.agents@[at].name@,
            dash.new_run.filter@,
        ) || is_found_in(dash.new_run.agents@[at].description@, dash.new_run.filter@),
{
    let agents = views(dash.new_run.agents@);
    assert(agents.len() == dash.new_run.agents@.len());
    assert(agents[at] == dash.new_run.agents@[at]@);
    a_filter_picks_by_name_or_description(agents, dash.new_run.filter@, at);
}

/// The completion offers a file that holds what was typed, in either case, unless it shows all it
/// can, and no file that does not.
pub proof fn a_file_is_offered_where_it_holds_the_query(
    dash: &Dashboard,
    matches: Vec<&str>,
    at: int,
)
    requires
        call_ensures(Dashboard::file_ref_matches, (dash,), matches),
        dash.file_ref.open,
        0 <= at < dash.file_ref.files@.len(),
        is_basic(dash.file_ref.files@[at]@),
        is_basic(dash.file_ref.query@),
        dash.file_ref.query@.len() > 0,
    ensures
        matches@.len() <= 8,
        views(matches@).contains(dash.file_ref.files@[at]@) ==> is_found_in(
            dash.file_ref.files@[at]@,
            dash.file_ref.query@,
        ),
        is_found_in(dash.file_ref.files@[at]@, dash.file_ref.query@) && matches@.len() < 8
            ==> views(matches@).contains(dash.file_ref.files@[at]@),
{
    let files = views(dash.file_ref.files@);
    assert(files.len() == dash.file_ref.files@.len());
    assert(files[at] == dash.file_ref.files@[at]@);
    files_are_offered_by_what_was_typed(files, dash.file_ref.query@, 8, at);
    assert(views(matches@).len() == matches@.len());
}

/// A window that is set for the entry stage's model under `provider/model` wins over everything.
pub proof fn a_window_that_is_set_wins(
    stages: &Vec<StageModel>,
    entry: &str,
    settings: &Vec<(String, Option<usize>)>,
    catalog: &Vec<(String, String, usize)>,
    window: usize,
    at: int,
    set: int,
)
    requires
        call_ensures(entry_stage_window, (stages, entry, settings, catalog), window),
        0 <= at < stages@.len(),
        stages@[at].stage@ == entry@,
        forall|i: int| 0 <= i < at ==> (#[trigger] stages@[i]).stage@ != entry@,
        stages@[at].model is Some,
        is_first_set(
            settings@,
            (stages@[at].model->0).0@ + "/"@ + (stages@[at].model->0).1@,
            set,
        ),
    ensures
        Some(window) == settings@[set].1,
{
    what_is_set_wins(stages@, entry@, settings@, catalog@, at, set);
}

// ── Stages and prompts ───────────────────────────────────────────────────────

/// The tab of a recorded stage has its name and the mark of how it stands.
pub proof fn a_tab_is_marked_by_its_stage(
    dash: &Dashboard,
    at: usize,
    run: &DashboardAgent,
    width: usize,
    time: &str,
    line: Line,
)
    requires
        at < run.stages@.len(),
        call_ensures(
            Dashboard::build_stage_tab_title,
            (dash, at, &run.stages@[at as int], run, width, time),
            line,
        ),
    ensures
        ({
            let stage = run.stages@[at as int];
            let theme = dash.screens.theme;
            &&& line@[1].content == truncated(stage.name@, width as nat)
            &&& (stage.status is Error ==> line@[0].content == theme.error@ + " "@)
            &&& (stage.status is WaitingInput ==> line@[0].content == theme.waiting@ + " "@)
            &&& (stage.status is Pending || stage.status is Skipped ==> line@[0].content
                == theme.pending@ + " "@)
            &&& (stage.status is Complete ==> line@[0].content == theme.complete@ + " "@)
            &&& (stage.status is Active && at == run.stage_index && run.status@.killable()
                ==> line@[0].content == dash.spin() + " "@)
        }),
{
    a_tab_shows_how_its_stage_stands(glyphs_of(*dash), *run, at as int, width as nat, time@);
}

/// The prompt pane is an editor if and only if an answer is being typed, and shows every option
/// where one is being chosen.
pub proof fn the_prompt_pane_is_what_the_answer_needs(
    dash: &mut Dashboard,
    area: Rect,
    run: &DashboardAgent,
    request: Option<&InteractionRequest>,
    kind: Option<InteractionKind>,
    options: &Vec<String>,
    pane: InputPane,
)
    requires
        call_ensures(
            Dashboard::render_input_pane,
            (dash, area, run, request, kind, options),
            pane,
        ),
    ensures
        pane is Editor <==> old(dash).reply.input_mode && (old(dash).reply.deny_feedback_open
            || kind
            is None || kind == Some(InteractionKind::FreeText) || kind == Some(
            InteractionKind::EditText,
        )),
        pane matches InputPane::Prompt { title, lines, answering }
            ==> answering == old(dash).reply.input_mode && (answering
            ==> lines@.len() == options@.len() + 2),
{
    the_pane_is_what_the_answer_needs(
        *old(dash),
        *run,
        match request {
            Some(req) => Some(req@),
            None => None,
        },
        kind,
        views(options@),
    );
    match pane {
        InputPane::Prompt { title, lines, answering } => {
            assert(views(lines@).len() == lines@.len());
        },
        _ => {},
    }
}

/// A wheel notch leaves nothing selected, and over anything but the log leaves what was said and
/// logged.
pub proof fn a_notch_clears_the_selection(dash: &mut Dashboard, column: u16, row: u16, lines: i32)
    requires
        call_ensures(Dashboard::wheel_scroll, (dash, column, row, lines), ()),
    ensures
        final(dash).mouse.selection is None,
        final(dash).notes.toasts == old(dash).notes.toasts,
        final(dash).notes.log == old(dash).notes.log,
        final(dash).runs.agents == old(dash).runs.agents,
        final(dash).new_run == old(dash).new_run,
{
    a_notch_scrolls_what_is_under_it(*old(dash), *final(dash), column, row, lines);
}

// ── Small steps ──────────────────────────────────────────────────────────────

/// A new dashboard lists, says, sends and runs nothing, waits for its first snapshot, and is
/// attended.
pub proof fn a_new_dashboard_is_empty(dash: Dashboard)
    requires
        call_ensures(Dashboard::new, (), dash),
    ensures
        dash.runs.agents@.len() == 0 && dash.runs.display_indices@.len() == 0,
        dash.runs.marked@.len() == 0,
        dash.current() is None,
        dash.feed.loading && !dash.feed.initial_sync_done,
        dash.feed.deleted_runs@.len() == 0,
        dash.notes.toasts@.len() == 0 && dash.notes.log@.len() == 0,
        dash.notes.pending_confirm is None,
        dash.lanes.spawn_commands@.len() == 0 && dash.lanes.daemon_commands@.len() == 0,
        dash.lanes.pending_open_run is None,
        !dash.unattended.on && dash.unattended.profile is None,
        !dash.new_run.open && !dash.screens.detail_view && !dash.reply.input_mode,
        dash.mouse.selection is None,
{
}

/// What is typed stands at the cursor, and deleting takes it off again; what is behind the cursor
/// stays.
pub proof fn deleting_undoes_typing(
    typed: &mut TextArea,
    deleted: &mut TextArea,
    c: char,
)
    requires
        call_ensures(TextArea::insert_char, (typed, c), ()),
        call_ensures(TextArea::delete_char, (deleted,), ()),
        *old(deleted) == *final(typed),
    ensures
        final(typed).whole() == old(typed).before@ + seq![c] + old(typed).after@,
        final(deleted).before@ == old(typed).before@,
        final(deleted).after == old(typed).after,
{
    assert(old(typed).before@.push(c) =~= old(typed).before@ + seq![c]);
    assert(old(typed).before@.push(c).drop_last() =~= old(typed).before@);
}

/// A text typed at the cursor stands there, between what was before it and what is behind it.
pub proof fn a_text_goes_in_at_the_cursor(area: &mut TextArea, text: &str)
    requires
        call_ensures(TextArea::insert_str, (area, text), ()),
    ensures
        final(area).whole() == old(area).before@ + text@ + old(area).after@,
        final(area).after == old(area).after,
{
}

/// Scrolling back and as far forward again comes back, where there is as much to scroll; and no
/// scrolling goes past the newest line.
pub proof fn scrolling_forward_undoes_scrolling_back(
    back: &mut LogScroll,
    forth: &mut LogScroll,
    lines: usize,
    len: usize,
    viewport: usize,
)
    requires
        call_ensures(LogScroll::scroll_up, (back, lines, len, viewport), ()),
        call_ensures(LogScroll::scroll_down, (forth, lines), ()),
        *old(forth) == *final(back),
    ensures
        old(back).offset_from_tail + lines + viewport <= len ==> final(forth).offset_from_tail
            == old(back).offset_from_tail,
        old(back).offset_from_tail + viewport <= len ==> final(back).offset_from_tail + viewport
            <= len,
        final(forth).offset_from_tail <= old(forth).offset_from_tail,
        old(forth).offset_from_tail <= lines ==> final(forth).offset_from_tail == 0,
{
}

/// A message is said once, at its level, behind what was said before.
pub proof fn a_toast_is_said_last(dash: &mut Dashboard, message: String, level: ToastLevel)
    requires
        call_ensures(Dashboard::toast, (dash, message, level), ()),
    ensures
        final(dash).notes.toasts@.len() == old(dash).notes.toasts@.len() + 1,
        final(dash).notes.toasts@.last().message@ == message@,
        final(dash).notes.toasts@.last().level == level,
        final(dash).notes.log == old(dash).notes.log,
{
    let said = final(dash).notes.toasts@;
    assert(views(said).len() == said.len());
    assert(views(said).last() == said.last()@);
}

/// A line is logged once, with the time, behind what was logged before.
pub proof fn a_line_is_logged_last(dash: &mut Dashboard, message: String)
    requires
        call_ensures(Dashboard::add_log, (dash, message), ()),
    ensures
        final(dash).notes.log@.len() == old(dash).notes.log@.len() + 1,
        final(dash).notes.log@.last().message@ == message@,
        final(dash).notes.log@.last().timestamp@ == old(dash).notes.log_stamp@,
        final(dash).notes.toasts == old(dash).notes.toasts,
{
    let log = final(dash).notes.log@;
    assert(views(log).len() == log.len());
    assert(views(log).last() == log.last()@);
}

/// A snapshot that is delivered is the one that is taken next, in the place of one that was not
/// taken, and only once.
pub proof fn a_delivered_snapshot_is_taken_once(
    link: &mut RunFeed,
    taking: &mut RunFeed,
    snapshot: Arc<RunSnapshot>,
    taken: Option<Arc<RunSnapshot>>,
)
    requires
        call_ensures(RunFeed::deliver, (link, snapshot), ()),
        call_ensures(RunFeed::take, (taking,), taken),
        *old(taking) == *final(link),
    ensures
        taken == Some(snapshot),
        final(taking).arrived is None,
        final(taking).asks == old(link).asks,
{
}

/// Of what the loader hears between two rounds the last word counts.
pub proof fn the_last_word_counts(state: &mut LoaderState, said: Vec<Option<String>>)
    requires
        call_ensures(LoaderState::hear, (state, said), ()),
    ensures
        said@.len() > 0 ==> final(state).on_screen == said@.last(),
        said@.len() == 0 ==> final(state).on_screen == old(state).on_screen,
        final(state).with_stages == old(state).with_stages,
{
}

/// A click on a slot's row puts the keys and the cursor there, and a click on no slot does nothing.
pub proof fn a_click_goes_to_the_slot(dash: &mut Dashboard, index: usize)
    requires
        call_ensures(Dashboard::click_new_run_input, (dash, index), ()),
    ensures
        index < old(dash).inputs.slots@.len() ==> final(dash).inputs.selected == index
            && final(dash).new_run.focus is Inputs && final(dash).inputs.slots
            == old(dash).inputs.slots,
        index >= old(dash).inputs.slots@.len() ==> *final(dash) == *old(dash),
{
}

/// Closing the response box drops what was typed and leaves the run as it was.
pub proof fn closing_the_box_drops_the_answer(dash: &mut Dashboard)
    requires
        call_ensures(Dashboard::close_input_box, (dash,), ()),
    ensures
        !final(dash).reply.input_mode,
        !final(dash).reply.deny_feedback_open,
        final(dash).reply.text.whole().len() == 0,
        final(dash).runs == old(dash).runs,
        final(dash).lanes == old(dash).lanes,
{
}

} // verus!
