//! What holds of the dashboard's parts whatever pane shows them: statuses, clocks, the cursor,
//! scrolling, rectangles and lines.

use crate::outside::columns;
use crate::state::{back, notice, scrolled, Dashboard};
use crate::style::{
    bold_ink, columns_of, ink, line_columns, line_text, strong, text_of, Color, Rect, SpanView,
};
use crate::types::{ActiveClock, AgentDisplayStatus, LogScroll, ToastLevel};
use vstd::prelude::*;

verus! {

// ── Statuses ─────────────────────────────────────────────────────────────────

/// A status reads as what it is and shows in a tone of its own, and a failed run says why.
pub proof fn a_status_reads_as_it_is(status: AgentDisplayStatus)
    ensures
        status is Active ==> status@.label() == "ACTIVE"@,
        status is Waiting ==> status@.label() == "WAITING"@,
        status is Stale ==> status@.label() == "STALE"@,
        status is Paused ==> status@.label() == "PAUSED"@,
        status is Complete || status is CompleteInteractive ==> status@.label() == "COMPLETE"@,
        status is Cancelled ==> status@.label() == "CANCELLED"@,
        status matches AgentDisplayStatus::Error(why) ==> status@.label() == "ERROR: "@ + why@,
        status is Active <==> status@.tone() is Active,
        status is Waiting <==> status@.tone() is Waiting,
        status is Stale <==> status@.tone() is Stale,
        status is Paused <==> status@.tone() is Paused,
        status is Complete <==> status@.tone() is Complete,
        status is CompleteInteractive <==> status@.tone() is CompleteInteractive,
        status is Cancelled <==> status@.tone() is Cancelled,
        status is Error <==> status@.tone() is Error,
{
}

/// A run has ended if and only if it is complete, cancelled or failed, and exactly the others
/// can be killed.
pub proof fn what_has_ended_cannot_be_killed(status: AgentDisplayStatus)
    ensures
        status@.killable() <==> (status is Active || status is Waiting || status is Stale
            || status is Paused),
        status@.over() <==> !status@.killable(),
{
}

// ── Clocks ───────────────────────────────────────────────────────────────────

/// A running clock counts each second once, a stopped one none, and neither counts less than
/// what was counted before.
pub proof fn a_clock_counts_every_second(clock: ActiveClock, now: i64, later: i64)
    requires
        now <= later,
    ensures
        clock.since is None ==> clock.secs(now) == clock.banked_secs,
        clock.since matches Some(since) ==> (now <= since ==> clock.secs(now)
            == clock.banked_secs),
        clock.since matches Some(since) ==> (since <= now && clock.banked_secs + (later - since)
            <= u64::MAX ==> clock.secs(later) == clock.secs(now) + (later - now)),
        clock.secs(now) <= clock.secs(later),
        clock.banked_secs <= clock.secs(now) <= u64::MAX,
{
}

// ── The cursor and the tick ──────────────────────────────────────────────────

/// The run under the cursor is the one on its row, and there is one wherever the row shows a
/// run.
pub proof fn the_cursor_is_on_its_row(dash: Dashboard, row: int)
    requires
        row == dash.runs.selected,
        row < dash.runs.display_indices@.len(),
        dash.runs.display_indices@[row] < dash.runs.agents@.len(),
    ensures
        dash.current() == Some(dash.runs.agents@[dash.runs.display_indices@[row] as int]),
{
}

/// Below the list the cursor is on no run.
pub proof fn below_the_list_there_is_no_run(dash: Dashboard)
    requires
        dash.runs.selected >= dash.runs.display_indices@.len(),
    ensures
        dash.current() is None,
{
}

/// The spinner goes round: each tick shows the frame behind the last, and after as many ticks as
/// there are frames it is where it was.
pub proof fn the_spinner_goes_round(dash: Dashboard, later: Dashboard)
    requires
        dash.screens.theme.spinner@ == later.screens.theme.spinner@,
        dash.screens.theme.spinner@.len() > 0,
    ensures
        later.screens.tick_count == dash.screens.tick_count + dash.screens.theme.spinner@.len()
            ==> later.spin() == dash.spin(),
        dash.screens.tick_count < dash.screens.theme.spinner@.len() ==> dash.spin()
            == dash.screens.theme.spinner@[dash.screens.tick_count as int]@,
{
    let n = dash.screens.theme.spinner@.len() as int;
    let t = dash.screens.tick_count as int;
    vstd::arithmetic::div_mod::lemma_mod_add_multiples_vanish(t, n);
    assert((n + t) % n == t % n);
    if t < n {
        vstd::arithmetic::div_mod::lemma_small_mod(t as nat, n as nat);
    }
}

/// A toast says what it is given, at the level it is given, and stays for a while.
pub proof fn a_toast_stays_for_a_while(message: Seq<char>, level: ToastLevel)
    ensures
        notice(message, level).message == message,
        notice(message, level).level == level,
        notice(message, level).remaining_ticks == 25,
{
}

// ── Scrolling ────────────────────────────────────────────────────────────────

/// The lines on screen are one window of the log, as high as the pane where there are as many
/// lines, and it ends as far from the newest line as the log is scrolled back.
pub proof fn the_log_shows_one_window(scroll: LogScroll, len: int, viewport: int)
    requires
        0 <= len,
        0 <= viewport,
    ensures
        ({
            let (start, end) = scroll.shown(len, viewport);
            &&& 0 <= start <= end <= len
            &&& end - start <= viewport
            &&& (scroll.offset_from_tail + viewport <= len ==> end - start == viewport)
            &&& (scroll.offset_from_tail <= len ==> end == len - scroll.offset_from_tail)
            &&& (scroll.at_tail() ==> end == len)
            &&& (start > 0 ==> end - start == viewport)
        }),
{
}

/// Scrolling back goes as far as asked, and not past where the oldest line is on screen.
pub proof fn scrolling_back_stops_at_the_oldest(offset: int, lines: int, len: int, viewport: int)
    requires
        0 <= offset,
        0 <= lines,
        0 <= viewport <= len,
        offset <= len - viewport,
    ensures
        offset <= back(offset, lines, len, viewport) <= len - viewport,
        offset + lines <= len - viewport ==> back(offset, lines, len, viewport) == offset + lines,
        offset + lines > len - viewport ==> back(offset, lines, len, viewport) == len - viewport,
{
}

/// Scrolling one way and as far the other comes back, away from the ends.
pub proof fn scrolling_back_and_forth(position: usize, lines: i32)
    requires
        lines > i32::MIN,
        0 <= position + lines <= usize::MAX,
    ensures
        scrolled(scrolled(position, lines), (-lines) as i32) == position,
        scrolled(position, lines) == position + lines,
{
}

/// A pane is never scrolled above its top.
pub proof fn a_pane_stops_at_its_top(position: usize, lines: i32)
    requires
        position + lines < 0,
    ensures
        scrolled(position, lines) == 0,
{
}

// ── Rectangles and lines ─────────────────────────────────────────────────────

/// A border takes one cell on each side: what is inside it is inside the rectangle, and every
/// other cell of the rectangle is on the border.
pub proof fn a_border_takes_a_cell_on_each_side(rect: Rect, column: u16, row: u16)
    requires
        rect.width >= 2,
        rect.height >= 2,
        rect.x + rect.width <= u16::MAX,
        rect.y + rect.height <= u16::MAX,
    ensures
        rect.framed().x == rect.x + 1,
        rect.framed().y == rect.y + 1,
        rect.framed().width == rect.width - 2,
        rect.framed().height == rect.height - 2,
        rect.holds(column, row) <==> rect.x <= column < rect.x + rect.width && rect.y <= row
            < rect.y + rect.height,
        rect.framed().holds(column, row) <==> rect.x < column < rect.x + rect.width - 1 && rect.y
            < row < rect.y + rect.height - 1,
{
}

/// What is written in a colour has that colour and no background, and only what is emphasised is
/// bold.
pub proof fn ink_is_what_it_says(color: Color)
    ensures
        ink(color).fg == Some(color),
        bold_ink(color).fg == Some(color),
        strong().fg is None,
        ink(color).bg is None && bold_ink(color).bg is None && strong().bg is None,
        !ink(color).bold && bold_ink(color).bold && strong().bold,
        !ink(color).reversed && !bold_ink(color).reversed && !strong().reversed,
{
}

/// A line reads as its spans one behind the other, and takes as many columns as they do
/// together.
pub proof fn a_line_is_its_spans(line: Seq<SpanView>, one: SpanView)
    ensures
        line_text(Seq::empty()).len() == 0,
        line_columns(Seq::empty()) == 0,
        line_text(line.push(one)) == line_text(line) + one.content,
        line_columns(line.push(one)) == line_columns(line) + columns(one.content),
{
    same_spans(line, line.push(one), line.len() as int);
}

proof fn same_spans(a: Seq<SpanView>, b: Seq<SpanView>, count: int)
    requires
        0 <= count <= a.len() <= b.len(),
        forall|i: int| 0 <= i < a.len() ==> a[i] == #[trigger] b[i],
    ensures
        text_of(a, count) == text_of(b, count),
        columns_of(a, count) == columns_of(b, count),
    decreases count,
{
    if count > 0 {
        same_spans(a, b, count - 1);
        assert(a[count - 1] == b[count - 1]);
    }
}

/// A document is being edited if and only if an answer is being written and the run under the
/// cursor asks for such an edit.
pub proof fn a_document_is_edited_where_it_is_asked_for(dash: Dashboard)
    ensures
        dash.edits_document() <==> {
            &&& dash.reply.input_mode
            &&& dash.current() is Some
            &&& dash.current()->0.pending_request is Some
            &&& dash.current()->0.pending_request->0.kind is EditText
        },
{
}

} // verus!
