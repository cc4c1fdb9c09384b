//! What the content pane comes to: which lines a search finds and how it marks them,
//! which text is on view, and where the pane stands in it.

use crate::outside::{is_basic, lowercase, rows_of};
use crate::render::content::{
    answer_lines, artifact_line, artifact_lines, banner, clamped_match, content_drawn, content_of,
    empty_note, line_matches, log_line, log_lines, log_view, matches_in, matching_lines, mode_title,
    pane_lines, rendering_wanted, row_start, row_target, row_targets, scroll_note, scroll_percent,
    search_note, searched_lines, settled_mode, settled_scroll, target_line, tool_lines, tools_in,
    tools_note, ContentPane, ContentReading, SourceView,
};
use crate::state::{Dashboard, Detail};
use crate::style::{text_of, Color, Rect, SpanView, Style};
use crate::text::{decimal, occurs, text_lines, what_a_text_holds};
use crate::types::{
    AgentDisplayStatus, Artifact, ClickTarget, DashboardAgent, FinalOutput, StageContentMode,
    StageRecord,
};
use crate::views::{group_views, views};
use vstd::prelude::*;

verus! {

broadcast use group_views;

// ── Searching ────────────────────────────────────────────────────────────────

/// The whole text of a line: the contents of all its spans, one behind the other.
pub open spec fn whole_text(line: Seq<SpanView>) -> Seq<char> {
    line.map_values(|span: SpanView| span.content).flatten()
}

/// Whether a text holds a query, in either case.
pub open spec fn holds(text: Seq<char>, query: Seq<char>) -> bool {
    exists|head: Seq<char>, tail: Seq<char>|
        lowercase(text) == #[trigger] (head + lowercase(query) + tail)
}

/// The text of the first spans is their contents, one behind the other.
proof fn spans_run_together(line: Seq<SpanView>, count: int)
    requires
        0 <= count <= line.len(),
    ensures
        text_of(line, count) == line.take(count).map_values(
            |span: SpanView| span.content,
        ).flatten(),
    decreases count,
{
    let content = |span: SpanView| span.content;
    let some = line.take(count).map_values(content);
    some.lemma_flatten_and_flatten_alt_are_equivalent();
    if count > 0 {
        spans_run_together(line, count - 1);
        let fewer = line.take(count - 1).map_values(content);
        fewer.lemma_flatten_and_flatten_alt_are_equivalent();
        assert(some.drop_last() =~= fewer);
        assert(some.last() == line[count - 1].content);
    } else {
        assert(some =~= Seq::empty());
    }
}

/// A line matches if and only if the lower case of its whole text holds the query.
proof fn a_line_matches_by_its_text(line: Seq<SpanView>, query: Seq<char>)
    ensures
        line_matches(line, lowercase(query)) <==> holds(whole_text(line), query),
{
    spans_run_together(line, line.len() as int);
    assert(line.take(line.len() as int) =~= line);
    what_a_text_holds(lowercase(whole_text(line)), lowercase(query));
}

/// Which of the first lines are found.
proof fn the_first_lines_found(lines: Seq<Seq<SpanView>>, query: Seq<char>, count: int)
    requires
        0 <= count <= lines.len() <= usize::MAX,
    ensures
        forall|i: int|
            0 <= i < count ==> (matches_in(lines, query, count).contains(i as usize)
                <==> line_matches(#[trigger] lines[i], query)),
        forall|k: int|
            0 <= k < matches_in(lines, query, count).len() ==> (
            #[trigger] matches_in(lines, query, count)[k]) < count,
        forall|j: int, k: int|
            0 <= j < k < matches_in(lines, query, count).len() ==> (
            #[trigger] matches_in(lines, query, count)[j]) < (
            #[trigger] matches_in(lines, query, count)[k]),
    decreases count,
{
    if count > 0 {
        the_first_lines_found(lines, query, count - 1);
        let fewer = matches_in(lines, query, count - 1);
        let more = matches_in(lines, query, count);
        assert forall|i: int| 0 <= i < count implies (more.contains(i as usize) <==> line_matches(
            #[trigger] lines[i],
            query,
        )) by {
            if i < count - 1 {
                if fewer.contains(i as usize) {
                    let k = choose|k: int| 0 <= k < fewer.len() && fewer[k] == i as usize;
                    assert(more[k] == i as usize);
                }
                if more.contains(i as usize) {
                    let k = choose|k: int| 0 <= k < more.len() && more[k] == i as usize;
                    assert(k < fewer.len());
                    assert(fewer[k] == i as usize);
                }
            } else {
                if line_matches(lines[i], query) {
                    assert(more[more.len() - 1] == i as usize);
                } else if more.contains(i as usize) {
                    let k = choose|k: int| 0 <= k < more.len() && more[k] == i as usize;
                    assert(fewer[k] < count - 1);
                }
            }
        }
    }
}

/// A search finds a line if and only if the lower case of the line's whole text holds
/// the lower case of what was typed, and something was; it finds the lines in order,
/// each once.
pub proof fn a_search_finds_every_line_that_holds_it(
    lines: Seq<Seq<SpanView>>,
    query: Seq<char>,
    i: int,
)
    requires
        lines.len() <= usize::MAX,
        0 <= i < lines.len(),
    ensures
        matching_lines(lines, query).contains(i as usize) <==> query.len() > 0 && lowercase(
            query,
        ).len() > 0 && holds(whole_text(lines[i]), query),
        forall|k: int|
            0 <= k < matching_lines(lines, query).len() ==> (
            #[trigger] matching_lines(lines, query)[k]) < lines.len(),
        forall|j: int, k: int|
            0 <= j < k < matching_lines(lines, query).len() ==> (
            #[trigger] matching_lines(lines, query)[j]) < (
            #[trigger] matching_lines(lines, query)[k]),
{
    the_first_lines_found(lines, lowercase(query), lines.len() as int);
    a_line_matches_by_its_text(lines[i], query);
    assert(lines[i] == lines[i]);
}

/// How a line is cut into spans, and how they are styled, makes no difference to a
/// search: lines with one text are found alike.
pub proof fn spans_make_no_difference_to_a_search(
    line: Seq<SpanView>,
    other: Seq<SpanView>,
    query: Seq<char>,
)
    requires
        whole_text(line) == whole_text(other),
    ensures
        line_matches(line, lowercase(query)) <==> line_matches(other, lowercase(query)),
{
    a_line_matches_by_its_text(line, query);
    a_line_matches_by_its_text(other, query);
}

/// The match under the cursor is shown black on yellow, any other match white on a dark
/// yellow, and every other line as it is; no line's text changes.
pub proof fn a_search_marks_what_it_found(
    lines: Seq<Seq<SpanView>>,
    found: Seq<usize>,
    current: int,
    i: int,
)
    requires
        0 <= i < lines.len() <= usize::MAX,
    ensures
        ({
            let shown = searched_lines(lines, found, current);
            let here = 0 <= current < found.len() && found[current] == i;
            &&& shown.len() == lines.len()
            &&& shown[i].len() == lines[i].len()
            &&& forall|s: int|
                0 <= s < lines[i].len() ==> (#[trigger] shown[i][s]).content == lines[i][s].content
            &&& !found.contains(i as usize) ==> shown[i] == lines[i]
            &&& here ==> forall|s: int|
                0 <= s < lines[i].len() ==> (#[trigger] shown[i][s]).style == (Style {
                    fg: Some(Color::Black),
                    bg: Some(Color::Yellow),
                    bold: true,
                    reversed: false,
                })
            &&& !here && found.contains(i as usize) ==> forall|s: int|
                0 <= s < lines[i].len() ==> (#[trigger] shown[i][s]).style == (Style {
                    fg: Some(Color::White),
                    bg: Some(Color::Rgb(80, 60, 0)),
                    bold: false,
                    reversed: false,
                })
        }),
{
    if 0 <= current < found.len() && found[current] == i {
        assert(found.contains(i as usize));
    }
}

/// The cursor stays on a match: where it was, or on the last.
pub proof fn the_cursor_is_on_a_match(at: usize, matches: nat)
    requires
        0 < matches <= usize::MAX,
    ensures
        clamped_match(at, matches) < matches,
        at < matches ==> clamped_match(at, matches) == at,
        at >= matches ==> clamped_match(at, matches) == matches - 1,
{
}

// ── What is on view ──────────────────────────────────────────────────────────

/// The text that each view shows, and the file that it names. The Output view shows the
/// document up for review, else what the stage put out, else the answer, if the stage
/// on view submitted it; the Logs view the log; the Final view the answer under its
/// head. A run without an answer has no Final view.
pub proof fn each_view_shows_its_own(
    dash: Dashboard,
    agent: DashboardAgent,
    reading: ContentReading,
)
    ensures
        ({
            let source = content_of(dash, agent, reading);
            let mode = dash.detail.content_mode;
            let at = dash.detail.selected_stage as int;
            let on_output = mode == StageContentMode::Output || mode
                == StageContentMode::FinalOutput && reading.answer is None;
            let of_stage = reading.answer is Some && at < agent.stages@.len()
                && reading.answer->0.stage@ == agent.stages@[at].name@;
            let rendered = views(reading.rendered@);
            &&& source.has_answer == (reading.answer is Some)
            &&& source.home == reading.home@
            &&& source.log == reading.log@
            &&& mode != StageContentMode::Context ==> source.row_lines.len() == 0
            &&& mode == StageContentMode::Logs ==> source.lines == log_lines(reading.log@)
                && source.path == reading.paths.logs@
            &&& mode == StageContentMode::Context ==> source.path == reading.paths.context@
            &&& mode == StageContentMode::FinalOutput && reading.answer is Some ==> source.lines
                == answer_lines(reading.answer->0, rendered) && source.path
                == reading.paths.answer@
            &&& on_output && reading.reviewing is Some && reading.reviewing->0@.len() > 0
                ==> source.lines == rendered && source.path == reading.paths.output@
            &&& on_output && reading.reviewing is None && reading.output@.len() > 0
                ==> source.lines == rendered && source.path == reading.paths.output@
            &&& on_output && reading.reviewing is None && reading.output@.len() == 0 && of_stage
                ==> source.path == reading.paths.answer@ && (reading.answer->0.content@.len() > 0
                ==> source.lines == rendered)
            &&& on_output && reading.reviewing is None && reading.output@.len() == 0 && !of_stage
                ==> source.lines.len() == 0 && source.path == reading.paths.output@
        }),
{
}

/// Every line of a log is shown, in order, a column in and with nothing left out; what it
/// begins with says how it is coloured.
pub proof fn a_log_is_shown_whole(text: Seq<char>, i: int)
    requires
        0 <= i < text_lines(text).len(),
    ensures
        log_lines(text).len() == text_lines(text).len(),
        ({
            let line = text_lines(text)[i];
            let shown = log_lines(text)[i];
            let tool = exists|rest: Seq<char>| line == #[trigger] ("[tool]"@ + rest);
            let error = exists|rest: Seq<char>| line == #[trigger] ("[error]"@ + rest);
            let denied = exists|rest: Seq<char>| line == #[trigger] ("[denied]"@ + rest);
            &&& shown.len() > 0
            &&& whole_text(shown) == seq![' '] + line
            &&& tool ==> shown[0].style.fg == Some(Color::Accent)
            &&& error ==> shown[0].style.fg == Some(Color::Error)
            &&& denied ==> shown[0].style.fg == Some(Color::Warn)
            &&& !tool && !error && !denied ==> shown.len() == 1 && (shown[0].style.fg == Some(
                Color::Dim,
            ) || shown[0].style.fg == Some(Color::Muted))
            &&& shown.len() == 2 ==> (tool || error || denied) && shown[0].style.bold
        }),
{
    let all = text_lines(text);
    let line = all[i];
    log_views_are_line_by_line(all, all.len() as int);
    let shown = log_line(line);
    what_a_text_holds(line, "[tool]"@);
    what_a_text_holds(line, "[error]"@);
    what_a_text_holds(line, "[denied]"@);
    reveal_strlit("[tool]");
    reveal_strlit("[error]");
    reveal_strlit("[denied]");
    reveal_strlit("[All");
    reveal_strlit("---");
    reveal_strlit(" ");
    assert(" "@ =~= seq![' ']);
    let content = |span: SpanView| span.content;
    let parts = shown.map_values(content);
    if shown.len() == 1 {
        assert(parts =~= seq![shown[0].content]);
        parts.lemma_flatten_one_element();
    } else {
        assert(parts =~= seq![shown[0].content, shown[1].content]);
        parts.lemma_flatten_and_flatten_alt_are_equivalent();
        let first = parts.drop_last();
        assert(first =~= seq![shown[0].content]);
        first.lemma_flatten_and_flatten_alt_are_equivalent();
        first.lemma_flatten_one_element();
        assert(parts.last() == shown[1].content);
    }
    if exists|rest: Seq<char>| line == #[trigger] ("[error]"@ + rest) {
        assert(line[1] == 'e');
    }
    if exists|rest: Seq<char>| line == #[trigger] ("[denied]"@ + rest) {
        assert(line[1] == 'd');
    }
    if exists|rest: Seq<char>| line == #[trigger] ("[tool]"@ + rest) {
        assert(line[1] == 't');
    }
    assert(whole_text(shown) =~= seq![' '] + line);
}

/// A log is shown line by line.
proof fn log_views_are_line_by_line(lines: Seq<Seq<char>>, count: int)
    requires
        0 <= count <= lines.len(),
    ensures
        log_view(lines, count).len() == count,
        forall|i: int|
            0 <= i < count ==> #[trigger] log_view(lines, count)[i] == log_line(lines[i]),
    decreases count,
{
    if count > 0 {
        log_views_are_line_by_line(lines, count - 1);
    }
}

/// The tools of a log are its lines that begin with the tool's tag.
pub proof fn every_tool_line_counts(text: Seq<char>)
    ensures
        tool_lines(text) == text_lines(text).filter(
            |line: Seq<char>| exists|rest: Seq<char>| line == #[trigger] ("[tool]"@ + rest),
        ).len(),
{
    let lines = text_lines(text);
    tools_are_counted(lines, lines.len() as int);
    assert(lines.take(lines.len() as int) =~= lines);
}

/// The tools among the first lines.
proof fn tools_are_counted(lines: Seq<Seq<char>>, count: int)
    requires
        0 <= count <= lines.len(),
    ensures
        tools_in(lines, count) == lines.take(count).filter(
            |line: Seq<char>| exists|rest: Seq<char>| line == #[trigger] ("[tool]"@ + rest),
        ).len(),
    decreases count,
{
    let tool = |line: Seq<char>| exists|rest: Seq<char>| line == #[trigger] ("[tool]"@ + rest);
    if count > 0 {
        tools_are_counted(lines, count - 1);
        let line = lines[count - 1];
        assert(lines.take(count) =~= lines.take(count - 1).push(line));
        lines.take(count - 1).lemma_filter_push(line, tool);
        what_a_text_holds(line, "[tool]"@);
    } else {
        reveal(Seq::filter);
        assert(lines.take(0) =~= Seq::empty());
        assert(lines.take(count).filter(tool) =~= Seq::empty());
    }
}

/// Below the text of a run that failed its error is said, and below that of one that was
/// cancelled that it was; a run that did neither has nothing below its text.
pub proof fn a_failed_run_says_why(source: Seq<Seq<SpanView>>, status: AgentDisplayStatus)
    ensures
        ({
            let lines = pane_lines(source, status@);
            let said = lines.skip(source.len() as int);
            &&& lines.len() >= source.len() && lines.take(source.len() as int) == source
            &&& match status {
                AgentDisplayStatus::Error(message) => said.len() == 1 && (message@.len() > 0
                    ==> said[0].len() == 2 && said[0][1].content == " "@ + message@ && said[0][0].content
                    == " ✗ Error  "@) && (message@.len() == 0 ==> said[0].len() == 1),
                AgentDisplayStatus::Cancelled => said.len() == 1 && said[0].len() == 1
                    && said[0][0].content == " ⊘ Run was cancelled."@,
                _ => said.len() == 0,
            }
        }),
{
    let lines = pane_lines(source, status@);
    assert(lines.take(source.len() as int) =~= source);
    assert(lines.skip(source.len() as int) =~= banner(status@));
}

/// The Final view names the stage that submitted the answer and its format, shows the
/// answer whole, and lists every file that came with it by name and path.
pub proof fn an_answer_is_shown_with_its_files(answer: FinalOutput, rendered: Seq<Seq<SpanView>>)
    ensures
        ({
            let lines = answer_lines(answer, rendered);
            let files = answer.artifacts@;
            &&& lines.len() == 2 + rendered.len() + (if files.len() == 0 {
                0
            } else {
                files.len() + 3
            })
            &&& lines.subrange(2, 2 + rendered.len() as int) == rendered
            &&& occurs(lines[0][0].content, answer.stage@)
            &&& answer.format matches Some(format) ==> occurs(lines[0][0].content, format@)
            &&& forall|k: int|
                #![trigger files[k]]
                0 <= k < files.len() ==> {
                    let line = lines[4 + rendered.len() + k];
                    &&& occurs(line[0].content, files[k].name@)
                    &&& occurs(line[1].content, files[k].path@)
                    &&& occurs(line[1].content, files[k].mime_type@)
                    &&& occurs(line[1].content, files[k].size_label@)
                    &&& files[k].sha256@.len() >= 12 ==> occurs(
                        line[1].content,
                        files[k].sha256@.take(12),
                    )
                }
        }),
{
    let lines = answer_lines(answer, rendered);
    let files = answer.artifacts@;
    let head = lines[0][0].content;
    let format = match answer.format {
        Some(format) => format@,
        None => "no format"@,
    };
    let end = if answer.truncated {
        " · truncated"@
    } else {
        ""@
    };
    assert(lines.subrange(2, 2 + rendered.len() as int) =~= rendered);
    assert(head =~= " submitted by stage "@ + answer.stage@ + (" · format: "@ + format + end));
    a_part_is_held(" submitted by stage "@, answer.stage@, " · format: "@ + format + end);
    a_part_is_held(" submitted by stage "@ + answer.stage@ + " · format: "@, format, end);
    artifacts_are_line_by_line(files, files.len() as int);
    assert forall|k: int|
        #![trigger files[k]]
        0 <= k < files.len() implies {
        let line = lines[4 + rendered.len() + k];
        &&& occurs(line[0].content, files[k].name@)
        &&& occurs(line[1].content, files[k].path@)
        &&& occurs(line[1].content, files[k].mime_type@)
        &&& occurs(line[1].content, files[k].size_label@)
        &&& files[k].sha256@.len() >= 12 ==> occurs(line[1].content, files[k].sha256@.take(12))
    } by {
        let line = lines[4 + rendered.len() + k];
        let file = files[k];
        assert(line == artifact_line(file));
        let text = line[1].content;
        let gap = "  "@;
        let sha = if file.sha256@.len() == 0 {
            Seq::empty()
        } else {
            "  sha256:"@ + file.sha256@.take(
                if file.sha256@.len() < 12 {
                    file.sha256@.len() as int
                } else {
                    12
                },
            )
        };
        let none = Seq::<char>::empty();
        assert(line[0].content =~= "   "@ + file.name@ + none);
        a_part_is_held("   "@, file.name@, none);
        assert(text =~= gap + file.path@ + (gap + file.mime_type@ + gap + file.size_label@ + sha));
        a_part_is_held(gap, file.path@, gap + file.mime_type@ + gap + file.size_label@ + sha);
        assert(text =~= gap + file.path@ + gap + file.mime_type@ + (gap + file.size_label@ + sha));
        a_part_is_held(
            gap + file.path@ + gap,
            file.mime_type@,
            gap + file.size_label@ + sha,
        );
        a_part_is_held(
            gap + file.path@ + gap + file.mime_type@ + gap,
            file.size_label@,
            sha,
        );
        if file.sha256@.len() >= 12 {
            let before = gap + file.path@ + gap + file.mime_type@ + gap + file.size_label@
                + "  sha256:"@;
            assert(text =~= before + file.sha256@.take(12) + none);
            a_part_is_held(before, file.sha256@.take(12), none);
        }
    }
}

/// The files of an answer are listed line by line.
proof fn artifacts_are_line_by_line(files: Seq<Artifact>, count: int)
    requires
        0 <= count <= files.len(),
    ensures
        artifact_lines(files, count).len() == count,
        forall|k: int|
            0 <= k < count ==> #[trigger] artifact_lines(files, count)[k] == artifact_line(files[k]),
    decreases count,
{
    if count > 0 {
        artifacts_are_line_by_line(files, count - 1);
    }
}

/// The parts of a text that is put together are in it.
proof fn a_part_is_held(head: Seq<char>, part: Seq<char>, tail: Seq<char>)
    ensures
        occurs(head + part + tail, part),
{
    what_a_text_holds(head + part + tail, part);
}

// ── Where the pane stands ────────────────────────────────────────────────────

/// The pane never leaves its text: a text that fits is not scrolled, and without a row to
/// bring into view the pane stays where it is, as far as the text goes.
pub proof fn the_pane_stays_in_its_text(scroll: nat, rows: nat, height: nat, target: Option<nat>)
    ensures
        settled_scroll(scroll, rows, height, target) + height <= rows || settled_scroll(
            scroll,
            rows,
            height,
            target,
        ) == 0,
        target is None && scroll + height <= rows ==> settled_scroll(scroll, rows, height, target)
            == scroll,
        target is None && rows > height && scroll + height > rows ==> settled_scroll(
            scroll,
            rows,
            height,
            target,
        ) == rows - height,
{
}

/// The share of the text above the pane's end goes from nothing, all the way up, to all of
/// it at the bottom, and never falls on the way down.
pub proof fn the_share_grows_on_the_way_down(scroll: nat, further: nat, limit: nat)
    requires
        scroll <= further <= limit,
    ensures
        scroll_percent(0, limit) == 100,
        limit > 0 ==> scroll_percent(limit, limit) == 0,
        0 <= scroll_percent(further, limit) <= scroll_percent(scroll, limit) <= 100,
{
    if limit > 0 {
        assert(0 * 100 / limit == 0) by (nonlinear_arith)
            requires
                limit > 0,
        ;
        assert(limit * 100 / limit == 100) by (nonlinear_arith)
            requires
                limit > 0,
        ;
        assert(0 <= scroll * 100 / limit <= further * 100 / limit <= 100)
            by (nonlinear_arith)
            requires
                limit > 0,
                scroll <= further <= limit,
        ;
    }
}

/// A row of the context tree has a target if and only if the row it starts on is in view,
/// over that row.
pub proof fn every_tree_row_in_view_is_a_target(
    area: Rect,
    lines: Seq<Seq<SpanView>>,
    row_lines: Seq<usize>,
    scroll_y: nat,
    count: int,
    r: int,
)
    requires
        0 <= r < count <= row_lines.len() <= usize::MAX,
        row_lines[r] <= lines.len(),
        area.width >= 2,
        area.height >= 2,
        area.x + area.width <= u16::MAX,
        area.y + area.height <= u16::MAX,
    ensures
        ({
            let start = row_start(lines, (area.width - 2) as u16, row_lines[r] as int);
            let in_view = scroll_y <= start < scroll_y + (area.height - 2);
            let rect = Rect {
                x: (area.x + 1) as u16,
                y: (area.y + 1 + (start - scroll_y)) as u16,
                width: (area.width - 2) as u16,
                height: 1,
            };
            &&& in_view ==> row_targets(area, lines, row_lines, scroll_y, count).contains(
                (rect, ClickTarget::ContextRow(r as usize)),
            )
            &&& forall|k: int|
                0 <= k < row_targets(area, lines, row_lines, scroll_y, count).len() && (
                #[trigger] row_targets(area, lines, row_lines, scroll_y, count)[k]).1
                    == ClickTarget::ContextRow(r as usize) ==> in_view && row_targets(
                    area,
                    lines,
                    row_lines,
                    scroll_y,
                    count,
                )[k].0 == rect
        }),
    decreases count,
{
    let start = row_start(lines, (area.width - 2) as u16, row_lines[r] as int);
    let in_view = scroll_y <= start < scroll_y + (area.height - 2);
    let rect = Rect {
        x: (area.x + 1) as u16,
        y: (area.y + 1 + (start - scroll_y)) as u16,
        width: (area.width - 2) as u16,
        height: 1,
    };
    let it = (rect, ClickTarget::ContextRow(r as usize));
    let fewer = row_targets(area, lines, row_lines, scroll_y, count - 1);
    let more = row_targets(area, lines, row_lines, scroll_y, count);
    let line = if row_lines[count - 1] > lines.len() {
        lines.len() as int
    } else {
        row_lines[count - 1] as int
    };
    let last = row_target(
        area,
        row_start(lines, (area.width - 2) as u16, line),
        scroll_y,
        count - 1,
    );
    assert(more == fewer + last);
    if r < count - 1 {
        every_tree_row_in_view_is_a_target(area, lines, row_lines, scroll_y, count - 1, r);
        if in_view {
            let k = choose|k: int| 0 <= k < fewer.len() && fewer[k] == it;
            assert(more[k] == it);
        }
        assert forall|k: int|
            0 <= k < more.len() && (#[trigger] more[k]).1 == ClickTarget::ContextRow(
                r as usize,
            ) implies in_view && more[k].0 == rect by {
            if k < fewer.len() {
                assert(fewer[k] == more[k]);
            } else {
                assert(last[k - fewer.len()] == more[k]);
            }
        }
    } else {
        earlier_rows_have_earlier_targets(area, lines, row_lines, scroll_y, count - 1);
        if in_view {
            assert(last[0] == it);
            assert(more[fewer.len() as int] == it);
        }
        assert forall|k: int|
            0 <= k < more.len() && (#[trigger] more[k]).1 == ClickTarget::ContextRow(
                r as usize,
            ) implies in_view && more[k].0 == rect by {
            if k < fewer.len() {
                assert(fewer[k] == more[k]);
            } else {
                assert(last[k - fewer.len()] == more[k]);
            }
        }
    }
}

/// Whether a target is of one of the first rows of the tree.
spec fn is_row_target(target: (Rect, ClickTarget), count: int) -> bool {
    match target.1 {
        ClickTarget::ContextRow(row) => row < count,
        _ => false,
    }
}

/// The targets over the first rows are of those rows.
proof fn earlier_rows_have_earlier_targets(
    area: Rect,
    lines: Seq<Seq<SpanView>>,
    row_lines: Seq<usize>,
    scroll_y: nat,
    count: int,
)
    requires
        0 <= count <= row_lines.len() <= usize::MAX,
    ensures
        forall|k: int|
            0 <= k < row_targets(area, lines, row_lines, scroll_y, count).len()
                ==> is_row_target(
                #[trigger] row_targets(area, lines, row_lines, scroll_y, count)[k],
                count,
            ),
    decreases count,
{
    if count > 0 {
        earlier_rows_have_earlier_targets(area, lines, row_lines, scroll_y, count - 1);
        let fewer = row_targets(area, lines, row_lines, scroll_y, count - 1);
        let more = row_targets(area, lines, row_lines, scroll_y, count);
        assert forall|k: int| 0 <= k < more.len() implies is_row_target(
            #[trigger] more[k],
            count,
        ) by {
            if k < fewer.len() {
                assert(fewer[k] == more[k]);
            }
        }
    }
}

/// A drawn pane shows every line of its view with its text unchanged, and below it what is
/// said of a run that failed or was cancelled; what is scrolled off above it, what it shows
/// and what is below it are all the rows there are; and drawing it moves nothing but the
/// view, the search's place, the scrolling and the follow mark.
pub proof fn a_drawn_pane_shows_its_lines(
    before: Dashboard,
    after: Dashboard,
    area: Rect,
    agent: DashboardAgent,
    source: SourceView,
    pane: ContentPane,
)
    requires
        content_drawn(before, after, area, agent, source, pane),
        source.lines.len() > 0,
    ensures
        pane.lines@.len() >= source.lines.len(),
        forall|i: int|
            #![trigger pane.lines@[i]]
            0 <= i < source.lines.len() ==> whole_text(pane.lines@[i]@) == whole_text(
                source.lines[i],
            ),
        ({
            let lines = pane_lines(source.lines, agent.status@);
            let width: u16 = if area.width < 2 {
                0
            } else {
                (area.width - 2) as u16
            };
            let rows = rows_of(lines, width);
            let height: nat = if area.height < 2 {
                0
            } else {
                (area.height - 2) as nat
            };
            &&& height < rows <= usize::MAX ==> pane.scroll_y + height + after.detail.scroll == rows
                && pane.scrollbar == Some((rows - height) as usize)
            &&& rows <= height ==> pane.scroll_y == 0 && after.detail.scroll == 0
                && pane.scrollbar is None
        }),
        before.detail.search_query@.len() == 0 && !before.detail.tree.follow_cursor
            ==> after.detail.scroll <= before.detail.scroll,
        after.detail.search_query == before.detail.search_query,
        after.detail.selected_stage == before.detail.selected_stage,
        after.detail.tree.cursor == before.detail.tree.cursor,
        after.detail.tree.follow_cursor ==> before.detail.tree.follow_cursor,
        after.detail.content_mode == before.detail.content_mode || before.detail.content_mode
            == StageContentMode::FinalOutput && !source.has_answer && after.detail.content_mode
            == StageContentMode::Output,
{
    let lines = pane_lines(source.lines, agent.status@);
    let found = matching_lines(lines, before.detail.search_query@);
    let at = clamped_match(before.detail.search_match_idx, found.len());
    let shown = searched_lines(lines, found, at as int);
    assert(views(pane.lines@) == shown);
    assert(views(pane.lines@).len() == pane.lines@.len());
    assert forall|i: int|
        #![trigger pane.lines@[i]]
        0 <= i < source.lines.len() implies whole_text(pane.lines@[i]@) == whole_text(
        source.lines[i],
    ) by {
        assert(views(pane.lines@)[i] == pane.lines@[i]@);
        assert(lines[i] == source.lines[i]);
        assert(shown[i].map_values(|span: SpanView| span.content) =~= lines[i].map_values(
            |span: SpanView| span.content,
        ));
    }
}

// ── Around the text ──────────────────────────────────────────────────────────

/// What has to be rendered is what the view shows of it: the answer on its own view, else the
/// document up for review, the stage's output or the answer that the stage submitted, where there
/// is any text; the Logs and Context views need none.
pub proof fn what_is_rendered_is_what_is_shown(
    dash: Dashboard,
    agent: DashboardAgent,
    reading: ContentReading,
)
    ensures
        ({
            let wanted = rendering_wanted(dash, agent, reading);
            let mode = dash.detail.content_mode;
            let at = dash.detail.selected_stage as int;
            let on_output = mode == StageContentMode::Output || (mode
                == StageContentMode::FinalOutput && reading.answer is None);
            let of_stage = reading.answer is Some && at < agent.stages@.len()
                && reading.answer->0.stage@ == agent.stages@[at].name@;
            &&& (mode == StageContentMode::Logs || mode == StageContentMode::Context ==> wanted
                is None)
            &&& (mode == StageContentMode::FinalOutput && reading.answer is Some ==> wanted == Some(
                reading.answer->0.content@,
            ))
            &&& (on_output && reading.reviewing is Some && reading.reviewing->0@.len() > 0
                ==> wanted == Some(reading.reviewing->0@))
            &&& (on_output && reading.reviewing is None && reading.output@.len() > 0 ==> wanted
                == Some(reading.output@))
            &&& (on_output && reading.reviewing is None && reading.output@.len() == 0 && of_stage
                && reading.answer->0.content@.len() > 0 ==> wanted == Some(
                reading.answer->0.content@,
            ))
            &&& (on_output && reading.reviewing is None && reading.output@.len() == 0 && !of_stage
                ==> wanted is None)
        }),
{
}

/// A search says in the title what it is for and which match the cursor is on, counted from one,
/// of how many; one that finds nothing says so, and one being typed shows its cursor.
pub proof fn a_search_says_which_match(query: Seq<char>, typing: bool, matches: nat, at: nat)
    requires
        is_basic(query),
    ensures
        query.len() > 0 && matches > 0 ==> search_note(query, typing, matches, at) == " /"@ + query
            + "/  "@ + decimal(at + 1) + "/"@ + decimal(matches),
        query.len() > 0 && matches == 0 ==> search_note(query, typing, matches, at) == " 🔍/"@
            + query + "/  0 matches"@,
        query.len() == 0 && typing ==> search_note(query, typing, matches, at) == " /"@ + query
            + "▌"@,
        query.len() == 0 && !typing ==> search_note(query, typing, matches, at).len() == 0,
{
    assert(lowercase(query).len() == query.len());
}

/// A pane that does not show all of its text says how far down it is, and which row is its last of
/// how many; at the bottom that is all of them.
pub proof fn a_pane_says_how_far_down_it_is(scroll: nat, rows: nat, height: nat)
    requires
        scroll + height <= rows,
    ensures
        rows == height ==> scroll_note(scroll, rows, height).len() == 0,
        rows > height ==> scroll_note(scroll, rows, height) == " "@ + decimal(
            scroll_percent(scroll, (rows - height) as nat),
        ) + "% ("@ + decimal((rows - scroll) as nat) + "/"@ + decimal(rows) + ") "@,
        rows > height ==> scroll_percent(0, (rows - height) as nat) == 100,
        rows > height ==> scroll_percent((rows - height) as nat, (rows - height) as nat) == 0,
{
    if rows > height {
        let limit = (rows - height) as nat;
        assert(limit - scroll + height == rows - scroll);
        assert(0nat * 100nat / limit == 0) by (nonlinear_arith)
            requires
                limit > 0,
        ;
        assert(limit * 100 / limit == 100) by (nonlinear_arith)
            requires
                limit > 0,
        ;
    }
}

/// A pane with nothing to show says of which view and of which stage.
pub proof fn an_empty_pane_says_of_what(mode: StageContentMode, stages: Seq<StageRecord>, at: int)
    requires
        0 <= at,
    ensures
        ({
            let note = empty_note(mode, stages, at);
            let of = if at < stages.len() {
                stages[at].name@
            } else {
                "this stage"@
            };
            &&& note.len() == 1 && note[0].len() == 1
            &&& (mode == StageContentMode::Output ==> note[0][0].content == " No "@ + "output"@
                + " yet for "@ + of + "."@)
            &&& (mode == StageContentMode::Logs ==> note[0][0].content == " No "@ + "logs"@
                + " yet for "@ + of + "."@)
        }),
{
}

/// The title begins with the view that is open, and says of the Logs view how many tools it shows,
/// where it shows any.
pub proof fn the_title_names_the_view(
    mode: StageContentMode,
    has_answer: bool,
    log: Seq<char>,
    search: Seq<char>,
)
    ensures
        ({
            let title = mode_title(mode, has_answer, tools_note(mode, log), search);
            &&& (mode == StageContentMode::Output ==> " Output"@.is_prefix_of(title))
            &&& (mode == StageContentMode::Logs ==> " Logs"@.is_prefix_of(title))
            &&& (mode == StageContentMode::Context ==> " Context Window"@.is_prefix_of(title))
            &&& (mode == StageContentMode::FinalOutput ==> " Final output"@.is_prefix_of(title))
            &&& (search + " "@).is_suffix_of(title)
            &&& (mode != StageContentMode::Logs ==> tools_note(mode, log).len() == 0)
            &&& (mode == StageContentMode::Logs && tool_lines(log) > 0 ==> tools_note(mode, log)
                == " · "@ + decimal(tool_lines(log)) + " tools"@)
            &&& (tool_lines(log) == 0 ==> tools_note(mode, log).len() == 0)
        }),
{
    let title = mode_title(mode, has_answer, tools_note(mode, log), search);
    let end = search + " "@;
    assert(title.skip(title.len() - end.len()) =~= end);
    reveal_strlit(" Output");
    reveal_strlit(" Logs");
    reveal_strlit(" Context Window");
    reveal_strlit(" Final output");
    reveal_strlit(" Output  [l] logs  [c] ctx");
    reveal_strlit(" Logs  [o] output  [c] ctx");
    reveal_strlit(" Context Window  [o] output  [l] logs");
    reveal_strlit(" Final output  [o] output  [l] logs  [c] ctx");
    match mode {
        StageContentMode::Output => {
            assert(title.take(7) =~= " Output"@);
        },
        StageContentMode::Logs => {
            assert(title.take(5) =~= " Logs"@);
        },
        StageContentMode::Context => {
            assert(title.take(15) =~= " Context Window"@);
        },
        StageContentMode::FinalOutput => {
            assert(title.take(13) =~= " Final output"@);
        },
    }
}

/// The view of an answer that is not there falls back to the output, and no other view does.
pub proof fn only_a_missing_answer_falls_back(mode: StageContentMode, has_answer: bool)
    ensures
        has_answer ==> settled_mode(mode, has_answer) == mode,
        mode != StageContentMode::FinalOutput ==> settled_mode(mode, has_answer) == mode,
        settled_mode(StageContentMode::FinalOutput, false) == StageContentMode::Output,
{
}

/// The row of the tree that the cursor moved to comes into view, unless a search has matches: then
/// the match under the cursor does.
pub proof fn what_comes_into_view(
    detail: Detail,
    found: Seq<usize>,
    row_lines: Seq<usize>,
    lines: nat,
)
    requires
        found.len() <= usize::MAX,
    ensures
        found.len() > 0 && detail.search_match_idx < found.len() ==> target_line(
            detail,
            found,
            row_lines,
            lines,
        ) == Some(found[detail.search_match_idx as int] as int),
        found.len() == 0 && !detail.tree.follow_cursor ==> target_line(
            detail,
            found,
            row_lines,
            lines,
        ) is None,
        found.len() == 0 && detail.tree.follow_cursor && detail.tree.cursor < row_lines.len()
            && row_lines[detail.tree.cursor as int] <= lines ==> target_line(
            detail,
            found,
            row_lines,
            lines,
        ) == Some(row_lines[detail.tree.cursor as int] as int),
{
}

} // verus!
