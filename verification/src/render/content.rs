//! The content pane: a stage's output, its logs, the context window or the run's
//! answer, with the search over it.

use crate::outside::{
    contents, lowercase, rows_of, texts, to_lowercase, wrapped_rows, WIDEST,
};
use crate::render::context::{
    context_lines, context_rows, rows_are_inside, window_of, FlatTree, WindowReading,
};
use crate::render::button::{button_put, EditorRows};
use crate::render::input::{edit_title, save_button};
use crate::state::{Dashboard, Detail, Mouse};
use crate::style::{
    bold_ink, copy_line, ink, line1, line2, line_text, raw, raw_line, sp, span, styled, Color,
    Line, Rect, Span, SpanView, Style,
};
use crate::text::{
    begins, cat2, cat3, cat4, cat5, contains, copy_of, count_text, decimal, find, first_at,
    lines as split_lines, number, occurs, opt_text, same, stands_at, starts_with, strip_prefix,
    text_lines,
};
use crate::types::{
    AgentDisplayStatus, Artifact, ClickTarget, DashboardAgent, FinalOutput, StageContentMode,
    StageRecord, StatusView,
};
use crate::views::{group_views, views};
use vstd::prelude::*;

verus! {

broadcast use group_views;

// ── Paths ────────────────────────────────────────────────────────────────────

/// A path with its leading home directory written `~`.
pub open spec fn shortened(path: Seq<char>, home: Seq<char>) -> Seq<char> {
    if home.len() > 0 && begins(path, home) {
        "~"@ + path.skip(home.len() as int)
    } else {
        path
    }
}

/// Replace a leading `home` in `raw` with `~`. A path outside it, and any path
/// where there is no home, stays as it is.
pub fn shorten_home_path(raw: String, home: &str) -> (short: String)
    ensures
        short@ == shortened(raw@, home@),
{
    if home.is_empty() {
        return raw;
    }
    match strip_prefix(raw.as_str(), home) {
        Some(rest) => cat2("~", rest.as_str()),
        None => raw,
    }
}

/// The path under the home directory can be had back from its short form.
pub proof fn a_short_path_keeps_its_rest(home: Seq<char>, rest: Seq<char>)
    requires
        home.len() > 0,
    ensures
        shortened(home + rest, home) == "~"@ + rest,
{
    assert((home + rest).subrange(0, home.len() as int) =~= home);
    assert((home + rest).skip(home.len() as int) =~= rest);
}

// ── Output and logs ──────────────────────────────────────────────────────────

/// A log line that begins with a tag: the tag in bold and the rest muted, or the
/// whole line in the tag's colour where nothing follows.
pub open spec fn tagged_line(line: Seq<char>, tag: Seq<char>, color: Color) -> Seq<SpanView> {
    let rest = line.skip(tag.len() as int);
    if rest.len() > 0 {
        seq![sp(" "@ + tag, bold_ink(color)), sp(rest, ink(Color::Muted))]
    } else {
        seq![sp(" "@ + line, ink(color))]
    }
}

/// A log line by what it begins with.
pub open spec fn log_line(line: Seq<char>) -> Seq<SpanView> {
    if begins(line, "[tool]"@) {
        tagged_line(line, "[tool]"@, Color::Accent)
    } else if begins(line, "[error]"@) {
        tagged_line(line, "[error]"@, Color::Error)
    } else if begins(line, "[denied]"@) {
        tagged_line(line, "[denied]"@, Color::Warn)
    } else if begins(line, "---"@) || begins(line, "[All"@) {
        seq![sp(" "@ + line, ink(Color::Dim))]
    } else {
        seq![sp(" "@ + line, ink(Color::Muted))]
    }
}

/// A log line that begins with a tag.
fn show_tagged(line: &str, tag: &str, color: Color) -> (shown: Line)
    requires
        begins(line@, tag@),
    ensures
        shown@ == tagged_line(line@, tag@, color),
{
    match strip_prefix(line, tag) {
        Some(rest) => {
            if !rest.as_str().is_empty() {
                let head = cat2(" ", tag);
                return line2(
                    styled(head, Style::bold_ink(color)),
                    styled(rest, Style::ink(Color::Muted)),
                );
            }
        },
        None => {},
    }
    let whole = cat2(" ", line);
    line1(styled(whole, Style::ink(color)))
}

/// A log line by what it begins with.
fn show_log_line(line: &str) -> (shown: Line)
    ensures
        shown@ == log_line(line@),
{
    if starts_with(line, "[tool]") {
        show_tagged(line, "[tool]", Color::Accent)
    } else if starts_with(line, "[error]") {
        show_tagged(line, "[error]", Color::Error)
    } else if starts_with(line, "[denied]") {
        show_tagged(line, "[denied]", Color::Warn)
    } else {
        let color = if starts_with(line, "---") || starts_with(line, "[All") {
            Color::Dim
        } else {
            Color::Muted
        };
        let whole = cat2(" ", line);
        line1(styled(whole, Style::ink(color)))
    }
}

/// The first `count` lines of a log.
pub open spec fn log_view(lines: Seq<Seq<char>>, count: int) -> Seq<Seq<SpanView>>
    decreases count,
{
    if count <= 0 {
        Seq::empty()
    } else {
        log_view(lines, count - 1).push(log_line(lines[count - 1]))
    }
}

/// A log as the pane shows it.
pub open spec fn log_lines(text: Seq<char>) -> Seq<Seq<SpanView>> {
    log_view(text_lines(text), text_lines(text).len() as int)
}

/// A log as the pane shows it.
fn show_log(text: &str) -> (shown: Vec<Line>)
    ensures
        views(shown@) == log_lines(text@),
{
    let all = split_lines(text);
    let mut shown: Vec<Line> = Vec::new();
    let mut i: usize = 0;
    while i < all.len()
        invariant
            i <= all@.len(),
            views(all@) == text_lines(text@),
            views(shown@) == log_view(text_lines(text@), i as int),
        decreases all.len() - i,
    {
        proof {
            assert(views(all@)[i as int] == all@[i as int]@);
        }
        shown.push(show_log_line(all[i].as_str()));
        i = i + 1;
    }
    shown
}

/// How many of the first `count` lines begin with a tool tag.
pub open spec fn tools_in(lines: Seq<Seq<char>>, count: int) -> nat
    decreases count,
{
    if count <= 0 {
        0
    } else {
        tools_in(lines, count - 1) + if begins(lines[count - 1], "[tool]"@) {
            1nat
        } else {
            0nat
        }
    }
}

/// How many lines of a log begin with a tool tag.
pub open spec fn tool_lines(text: Seq<char>) -> nat {
    tools_in(text_lines(text), text_lines(text).len() as int)
}

/// How many lines of a log begin with a tool tag.
fn count_tools(text: &str) -> (tools: usize)
    ensures
        tools == tool_lines(text@),
{
    let all = split_lines(text);
    let mut tools: usize = 0;
    let mut i: usize = 0;
    while i < all.len()
        invariant
            i <= all@.len(),
            views(all@) == text_lines(text@),
            tools <= i,
            tools == tools_in(text_lines(text@), i as int),
        decreases all.len() - i,
    {
        proof {
            assert(views(all@)[i as int] == all@[i as int]@);
        }
        if starts_with(all[i].as_str(), "[tool]") {
            tools = tools + 1;
        }
        i = i + 1;
    }
    tools
}

/// The answer a run submitted, where the stage on view is the one that did.
pub open spec fn stage_answer(
    answer: Option<FinalOutput>,
    stages: Seq<StageRecord>,
    at: int,
) -> Option<Seq<char>> {
    match answer {
        Some(found) => if at < stages.len() && found.stage@ == stages[at].name@ {
            Some(found.content@)
        } else {
            None
        },
        None => None,
    }
}

/// What the Output view shows: the document up for review, else the stage's
/// output, else the answer it submitted, and whether that is it.
pub open spec fn output_source(
    reviewing: Option<Seq<char>>,
    tail: Seq<char>,
    answer: Option<Seq<char>>,
) -> (Seq<char>, bool) {
    match reviewing {
        Some(body) => (body, false),
        None => if tail.len() > 0 {
            (tail, false)
        } else {
            match answer {
                Some(text) => (text, true),
                None => (tail, false),
            }
        },
    }
}

impl Dashboard {
    /// The run's final answer, when the selected stage is the one that
    /// submitted it.
    pub fn final_output_for_selected_stage(
        &self,
        agent: &DashboardAgent,
        answer: Option<&FinalOutput>,
    ) -> (text: Option<String>)
        ensures
            opt_text(text) == stage_answer(
                match answer {
                    Some(found) => Some(*found),
                    None => None,
                },
                agent.stages@,
                self.detail.selected_stage as int,
            ),
    {
        match answer {
            Some(found) => {
                let at: usize = self.detail.selected_stage;
                if at < agent.stages.len() && same(
                    found.stage.as_str(),
                    agent.stages[at].name.as_str(),
                ) {
                    Some(copy_of(found.content.as_str()))
                } else {
                    None
                }
            },
            None => None,
        }
    }

    /// The text of the Output view, and whether it fell back to the run's
    /// answer.
    pub fn output_text(
        &self,
        agent: &DashboardAgent,
        reviewing: Option<&str>,
        tail: &str,
        answer: Option<&FinalOutput>,
    ) -> (view: (String, bool))
        ensures
            (view.0@, view.1) == output_source(
                match reviewing {
                    Some(body) => Some(body@),
                    None => None,
                },
                tail@,
                stage_answer(
                    match answer {
                        Some(found) => Some(*found),
                        None => None,
                    },
                    agent.stages@,
                    self.detail.selected_stage as int,
                ),
            ),
    {
        match reviewing {
            Some(body) => (copy_of(body), false),
            None => {
                if !tail.is_empty() {
                    return (copy_of(tail), false);
                }
                match self.final_output_for_selected_stage(agent, answer) {
                    Some(text) => (text, true),
                    None => (copy_of(tail), false),
                }
            },
        }
    }
}

/// The Output or Logs view's lines: the rendered text of an output that is not
/// empty, or the log.
pub open spec fn output_lines(
    is_output: bool,
    content: Seq<char>,
    rendered: Seq<Seq<SpanView>>,
) -> Seq<Seq<SpanView>> {
    if !is_output {
        log_lines(content)
    } else if content.len() > 0 {
        rendered
    } else {
        Seq::empty()
    }
}

/// The Output or Logs view's lines. `rendered` is the output's text as the pane
/// renders it.
pub fn build_output_lines(is_output: bool, content: &str, rendered: Vec<Line>) -> (lines: Vec<Line>)
    ensures
        views(lines@) == output_lines(is_output, content@, views(rendered@)),
{
    if !is_output {
        show_log(content)
    } else if !content.is_empty() {
        rendered
    } else {
        Vec::new()
    }
}

// ── The answer ───────────────────────────────────────────────────────────────

/// The line of a file that came with the answer.
pub open spec fn artifact_line(artifact: Artifact) -> Seq<SpanView> {
    let sha = if artifact.sha256@.len() == 0 {
        Seq::empty()
    } else {
        "  sha256:"@ + artifact.sha256@.take(
            if artifact.sha256@.len() < 12 {
                artifact.sha256@.len() as int
            } else {
                12
            },
        )
    };
    seq![
        sp("   "@ + artifact.name@, ink(Color::White)),
        sp(
            "  "@ + artifact.path@ + "  "@ + artifact.mime_type@ + "  "@ + artifact.size_label@
                + sha,
            ink(Color::Dim),
        ),
    ]
}

/// The line of a file that came with the answer.
fn show_artifact(artifact: &Artifact) -> (line: Line)
    ensures
        line@ == artifact_line(*artifact),
{
    let name = cat2("   ", artifact.name.as_str());
    let mut facts = cat5(
        "  ",
        artifact.path.as_str(),
        "  ",
        artifact.mime_type.as_str(),
        "  ",
    );
    facts.append(artifact.size_label.as_str());
    let hash = crate::text::chars_of(artifact.sha256.as_str());
    if hash.len() > 0 {
        let shown: usize = if hash.len() < 12 {
            hash.len()
        } else {
            12
        };
        let head = crate::text::text_between(&hash, 0, shown);
        assert(head@ =~= artifact.sha256@.take(shown as int));
        let sha = cat2("  sha256:", head.as_str());
        facts.append(sha.as_str());
    } else {
        facts.append("");
        proof {
            reveal_strlit("");
        }
        assert(""@ =~= Seq::<char>::empty());
    }
    line2(styled(name, Style::ink(Color::White)), styled(facts, Style::ink(Color::Dim)))
}

/// The lines of the first `count` files that came with the answer.
pub open spec fn artifact_lines(artifacts: Seq<Artifact>, count: int) -> Seq<Seq<SpanView>>
    decreases count,
{
    if count <= 0 {
        Seq::empty()
    } else {
        artifact_lines(artifacts, count - 1).push(artifact_line(artifacts[count - 1]))
    }
}

/// What stands above the answer: which stage submitted it and under which
/// format.
pub open spec fn answer_head(answer: FinalOutput) -> Seq<Seq<SpanView>> {
    let format = match answer.format {
        Some(format) => format@,
        None => "no format"@,
    };
    seq![
        seq![
            sp(
                " submitted by stage "@ + answer.stage@ + " · format: "@ + format
                    + if answer.truncated {
                    " · truncated"@
                } else {
                    ""@
                },
                ink(Color::Dim),
            ),
        ],
        raw_line(""@),
    ]
}

/// What stands below the answer: the files it came with.
pub open spec fn answer_files(artifacts: Seq<Artifact>) -> Seq<Seq<SpanView>> {
    if artifacts.len() == 0 {
        Seq::empty()
    } else {
        seq![
            raw_line(""@),
            seq![
                sp(
                    " Files produced ("@ + decimal(artifacts.len()) + "):"@,
                    bold_ink(Color::Dim),
                ),
            ],
        ] + artifact_lines(artifacts, artifacts.len() as int) + seq![
            seq![
                sp(
                    " lev result <run> --artifact <name> fetches one; in the Context view, v opens a final_output part and w writes it into the workdir."@,
                    ink(Color::Muted),
                ),
            ],
        ]
    }
}

/// The Final view's lines: which stage submitted the answer, the answer as it
/// was rendered, and the files it came with.
pub open spec fn answer_lines(answer: FinalOutput, rendered: Seq<Seq<SpanView>>) -> Seq<
    Seq<SpanView>,
> {
    answer_head(answer) + rendered + answer_files(answer.artifacts@)
}

/// The Final view's lines.
pub fn final_output_lines(answer: &FinalOutput, rendered: Vec<Line>) -> (lines: Vec<Line>)
    ensures
        views(lines@) == answer_lines(*answer, views(rendered@)),
{
    let mut lines: Vec<Line> = Vec::new();
    let format: &str = match &answer.format {
        Some(format) => format.as_str(),
        None => "no format",
    };
    let head = cat5(
        " submitted by stage ",
        answer.stage.as_str(),
        " · format: ",
        format,
        if answer.truncated {
            " · truncated"
        } else {
            ""
        },
    );
    lines.push(line1(styled(head, Style::ink(Color::Dim))));
    lines.push(raw(""));
    assert(views(lines@) =~= answer_head(*answer));
    let mut rendered = rendered;
    let ghost text = views(rendered@);
    lines.append(&mut rendered);
    let ghost so_far = views(lines@);
    let files: &Vec<Artifact> = &answer.artifacts;
    if files.len() > 0 {
        let count = count_text(files.len());
        let title = cat3(" Files produced (", count.as_str(), "):");
        lines.push(raw(""));
        lines.push(line1(styled(title, Style::bold_ink(Color::Dim))));
        let ghost titled = views(lines@);
        let mut i: usize = 0;
        while i < files.len()
            invariant
                i <= files@.len(),
                views(lines@) == titled + artifact_lines(files@, i as int),
            decreases files.len() - i,
        {
            lines.push(show_artifact(&files[i]));
            proof {
                let before = artifact_lines(files@, i as int);
                let next = artifact_line(files@[i as int]);
                assert((titled + before).push(next) =~= titled + before.push(next));
            }
            i = i + 1;
        }
        lines.push(
            line1(
                span(
                    " lev result <run> --artifact <name> fetches one; in the Context view, v opens a final_output part and w writes it into the workdir.",
                    Style::ink(Color::Muted),
                ),
            ),
        );
    }
    assert(views(lines@) =~= so_far + answer_files(answer.artifacts@));
    lines
}

// ── Banner, search and highlight ─────────────────────────────────────────────

/// What is said below the text of a run that failed or was cancelled.
pub open spec fn banner(status: StatusView) -> Seq<Seq<SpanView>> {
    match status {
        StatusView::Error(message) => if message.len() > 0 {
            seq![
                seq![
                    sp(
                        " ✗ Error  "@,
                        Style {
                            fg: Some(Color::Black),
                            bg: Some(Color::Error),
                            bold: true,
                            reversed: false,
                        },
                    ),
                    sp(" "@ + message, ink(Color::Error)),
                ],
            ]
        } else {
            seq![seq![sp(" ✗ Agent terminated with an error."@, ink(Color::Error))]]
        },
        StatusView::Cancelled => seq![seq![sp(" ⊘ Run was cancelled."@, ink(Color::Dim))]],
        _ => Seq::empty(),
    }
}

/// Add what is said of a run that failed or was cancelled.
fn add_banner(lines: &mut Vec<Line>, status: &AgentDisplayStatus)
    ensures
        views(final(lines)@) == views(old(lines)@) + banner(status@),
{
    let ghost before = views(lines@);
    match status {
        AgentDisplayStatus::Error(message) => {
            if !message.as_str().is_empty() {
                let text = cat2(" ", message.as_str());
                let mark = Style {
                    fg: Some(Color::Black),
                    bg: Some(Color::Error),
                    bold: true,
                    reversed: false,
                };
                lines.push(line2(span(" ✗ Error  ", mark), styled(text, Style::ink(Color::Error))));
            } else {
                lines.push(
                    line1(span(" ✗ Agent terminated with an error.", Style::ink(Color::Error))),
                );
            }
        },
        AgentDisplayStatus::Cancelled => {
            lines.push(line1(span(" ⊘ Run was cancelled.", Style::ink(Color::Dim))));
        },
        _ => {},
    }
    assert(views(lines@) =~= before + banner(status@));
}

/// Whether a line matches a query that is in lower case already.
pub open spec fn line_matches(line: Seq<SpanView>, query: Seq<char>) -> bool {
    occurs(lowercase(line_text(line)), query)
}

/// Which of the first `count` lines match.
pub open spec fn matches_in(lines: Seq<Seq<SpanView>>, query: Seq<char>, count: int) -> Seq<usize>
    decreases count,
{
    if count <= 0 {
        Seq::empty()
    } else if line_matches(lines[count - 1], query) {
        matches_in(lines, query, count - 1).push((count - 1) as usize)
    } else {
        matches_in(lines, query, count - 1)
    }
}

/// Whether a query searches for anything.
pub open spec fn searches(query: Seq<char>) -> bool {
    query.len() > 0 && lowercase(query).len() > 0
}

/// Which lines match a query, in either case; an empty one matches none.
pub open spec fn matching_lines(lines: Seq<Seq<SpanView>>, query: Seq<char>) -> Seq<usize> {
    if searches(query) {
        matches_in(lines, lowercase(query), lines.len() as int)
    } else {
        Seq::empty()
    }
}

/// Whether `found` are matching lines among the first `count`, each once and in
/// order.
pub open spec fn ordered_matches(
    lines: Seq<Seq<SpanView>>,
    query: Seq<char>,
    found: Seq<usize>,
    count: int,
) -> bool {
    &&& forall|i: int|
        0 <= i < found.len() ==> (#[trigger] found[i]) < count && line_matches(
            lines[found[i] as int],
            query,
        )
    &&& forall|i: int, j: int| 0 <= i < j < found.len() ==> found[i] < found[j]
}

/// Matches are matching lines, each once and in order.
pub proof fn matches_are_lines(lines: Seq<Seq<SpanView>>, query: Seq<char>, count: int)
    requires
        0 <= count <= lines.len(),
        lines.len() <= usize::MAX,
    ensures
        ordered_matches(lines, query, matches_in(lines, query, count), count),
    decreases count,
{
    if count > 0 {
        matches_are_lines(lines, query, count - 1);
    }
}

/// Which lines match a query, given with its lower case.
fn find_matches(lines: &Vec<Line>, typed: &str, query: &str) -> (found: Vec<usize>)
    requires
        query@ == lowercase(typed@),
        typed@.len() == 0 ==> query@.len() == 0,
    ensures
        found@ == matching_lines(views(lines@), typed@),
        forall|i: int| 0 <= i < found@.len() ==> (#[trigger] found@[i]) < lines@.len(),
{
    let mut found: Vec<usize> = Vec::new();
    if query.is_empty() {
        return found;
    }
    let mut i: usize = 0;
    while i < lines.len()
        invariant
            i <= lines@.len(),
            found@ == matches_in(views(lines@), query@, i as int),
            forall|j: int| 0 <= j < found@.len() ==> (#[trigger] found@[j]) < i,
        decreases lines.len() - i,
    {
        let text = lines[i].text();
        let lower = to_lowercase(text.as_str());
        proof {
            assert(views(lines@)[i as int] == lines@[i as int]@);
        }
        if contains(lower.as_str(), query) {
            found.push(i);
        }
        i = i + 1;
    }
    found
}

/// The match the cursor is on: the one it was on, or the last.
pub open spec fn clamped_match(at: usize, matches: nat) -> usize {
    if matches > 0 && at >= matches {
        (matches - 1) as usize
    } else {
        at
    }
}

/// The style of the match the cursor is on.
pub open spec fn current_match_style() -> Style {
    Style { fg: Some(Color::Black), bg: Some(Color::Yellow), bold: true, reversed: false }
}

/// The style of any other match.
pub open spec fn match_style() -> Style {
    Style {
        fg: Some(Color::White),
        bg: Some(Color::Rgb(80, 60, 0)),
        bold: false,
        reversed: false,
    }
}

/// A line with every span in one style.
pub open spec fn restyled(line: Seq<SpanView>, style: Style) -> Seq<SpanView> {
    line.map_values(|s: SpanView| sp(s.content, style))
}

/// A line with every span in one style.
fn restyle(line: &Line, style: Style) -> (shown: Line)
    ensures
        shown@ == restyled(line@, style),
{
    let mut spans: Vec<Span> = Vec::new();
    let mut i: usize = 0;
    while i < line.spans.len()
        invariant
            i <= line.spans@.len(),
            spans@.len() == i,
            forall|j: int|
                0 <= j < i ==> (#[trigger] spans@[j])@ == sp(line.spans@[j]@.content, style),
        decreases line.spans.len() - i,
    {
        spans.push(span(line.spans[i].content.as_str(), style));
        i = i + 1;
    }
    let shown = Line { spans };
    assert(shown@ =~= restyled(line@, style));
    shown
}

/// A line as the search shows it.
pub open spec fn searched_line(line: Seq<SpanView>, at: int, found: Seq<usize>, current: int) -> Seq<
    SpanView,
> {
    if 0 <= current < found.len() && found[current] == at {
        restyled(line, current_match_style())
    } else if found.contains(at as usize) {
        restyled(line, match_style())
    } else {
        line
    }
}

/// All the lines as the search shows them.
pub open spec fn searched_lines(
    lines: Seq<Seq<SpanView>>,
    found: Seq<usize>,
    current: int,
) -> Seq<Seq<SpanView>> {
    Seq::new(lines.len(), |i: int| searched_line(lines[i], i, found, current))
}

/// Marking the matches of a search moves no text: the lines that are shown have the
/// contents of those that were counted, so they take the same rows, and so do the
/// lines above any one of them.
pub proof fn marked_lines_take_the_same_rows(
    lines: Seq<Seq<SpanView>>,
    found: Seq<usize>,
    current: int,
    width: u16,
    line: int,
)
    requires
        0 <= line <= lines.len(),
    ensures
        texts(searched_lines(lines, found, current)) == texts(lines),
        rows_of(searched_lines(lines, found, current), width) == rows_of(lines, width),
        rows_of(searched_lines(lines, found, current).take(line), width) == rows_of(
            lines.take(line),
            width,
        ),
{
    let shown = searched_lines(lines, found, current);
    assert forall|i: int| 0 <= i < lines.len() implies contents(#[trigger] shown[i]) == contents(
        lines[i],
    ) by {
        assert(contents(shown[i]) =~= contents(lines[i]));
    }
    assert(texts(shown) =~= texts(lines));
    assert(texts(shown.take(line)) =~= texts(lines.take(line)));
}

/// Whether a line is among the matches.
fn is_match(found: &Vec<usize>, at: usize) -> (there: bool)
    ensures
        there == found@.contains(at),
{
    let mut i: usize = 0;
    while i < found.len()
        invariant
            i <= found@.len(),
            forall|j: int| 0 <= j < i ==> found@[j] != at,
        decreases found.len() - i,
    {
        if found[i] == at {
            assert(found@[i as int] == at);
            return true;
        }
        i = i + 1;
    }
    false
}

/// All the lines as the search shows them.
fn highlight(lines: &Vec<Line>, found: &Vec<usize>, current: usize) -> (shown: Vec<Line>)
    ensures
        views(shown@) == searched_lines(views(lines@), found@, current as int),
{
    let mut shown: Vec<Line> = Vec::new();
    let mut i: usize = 0;
    while i < lines.len()
        invariant
            i <= lines@.len(),
            shown@.len() == i,
            forall|j: int|
                0 <= j < i ==> (#[trigger] shown@[j])@ == searched_line(
                    lines@[j]@,
                    j,
                    found@,
                    current as int,
                ),
        decreases lines.len() - i,
    {
        let line = if current < found.len() && found[current] == i {
            restyle(
                &lines[i],
                Style { fg: Some(Color::Black), bg: Some(Color::Yellow), bold: true, reversed: false },
            )
        } else if is_match(found, i) {
            restyle(
                &lines[i],
                Style {
                    fg: Some(Color::White),
                    bg: Some(Color::Rgb(80, 60, 0)),
                    bold: false,
                    reversed: false,
                },
            )
        } else {
            copy_line(&lines[i])
        };
        shown.push(line);
        i = i + 1;
    }
    assert(views(shown@) =~= searched_lines(views(lines@), found@, current as int));
    shown
}

// ── Scrolling ────────────────────────────────────────────────────────────────

/// A row count, held at the largest one.
pub open spec fn held(rows: nat) -> nat {
    if rows > usize::MAX {
        usize::MAX as nat
    } else {
        rows
    }
}

/// The furthest the pane can be scrolled back.
pub open spec fn scroll_limit(rows: nat, height: nat) -> nat {
    if rows > height {
        (rows - height) as nat
    } else {
        0
    }
}

/// Where the pane is scrolled to, in rows up from the bottom. With rows to bring
/// into view, `target` rows from the top, it centres on them; either way it
/// stays within the text.
pub open spec fn settled_scroll(scroll: nat, rows: nat, height: nat, target: Option<nat>) -> nat {
    let wanted = match target {
        Some(before) => if rows > before + height / 2 {
            (rows - (before + height / 2)) as nat
        } else {
            0
        },
        None => scroll,
    };
    if wanted > scroll_limit(rows, height) {
        scroll_limit(rows, height)
    } else {
        wanted
    }
}

/// What is sought comes into view: with two rows or more, the row that `above` rows
/// stand above is among those shown.
pub proof fn what_is_sought_comes_into_view(scroll: nat, rows: nat, height: nat, above: nat)
    requires
        height >= 2,
        above < rows,
    ensures
        ({
            let hidden = scroll_limit(rows, height) - settled_scroll(
                scroll,
                rows,
                height,
                Some(above),
            );
            hidden <= above < hidden + height
        }),
{
}

/// Scrolled all the way down, the pane ends with the text's last row, and scrolled
/// all the way up it begins with its first.
pub proof fn both_ends_are_in_reach(rows: nat, height: nat)
    requires
        rows >= height,
    ensures
        scroll_limit(rows, height) - settled_scroll(0, rows, height, None) + height == rows,
        forall|scroll: nat|
            scroll >= rows ==> scroll_limit(rows, height) == #[trigger] settled_scroll(
                scroll,
                rows,
                height,
                None,
            ),
{
}

/// Where the pane is scrolled to, in rows up from the bottom.
pub fn settle_scroll(scroll: usize, rows: usize, height: usize, target: Option<usize>) -> (settled:
    usize)
    ensures
        settled == settled_scroll(
            scroll as nat,
            rows as nat,
            height as nat,
            match target {
                Some(before) => Some(before as nat),
                None => None,
            },
        ),
        settled <= scroll_limit(rows as nat, height as nat),
{
    let wanted: usize = match target {
        Some(before) => rows.saturating_sub(before.saturating_add(height / 2)),
        None => scroll,
    };
    let limit: usize = rows.saturating_sub(height);
    if wanted > limit {
        limit
    } else {
        wanted
    }
}

/// How far through the text the pane is, in percent: all of it at the bottom.
pub open spec fn scroll_percent(scroll: nat, limit: nat) -> nat {
    if limit == 0 {
        100
    } else {
        (100 - scroll * 100 / limit) as nat
    }
}

/// How far through the text the pane is, in percent.
pub fn percent_scrolled(scroll: usize, limit: usize) -> (percent: u64)
    requires
        scroll <= limit,
    ensures
        percent == scroll_percent(scroll as nat, limit as nat),
        percent <= 100,
{
    if limit == 0 {
        return 100;
    }
    let share: u128 = (scroll as u128 * 100) / (limit as u128);
    assert(share <= 100) by (nonlinear_arith)
        requires
            share == (scroll * 100) / (limit as int),
            scroll <= limit,
            limit > 0,
    ;
    100 - share as u64
}

/// How far through the text the pane is, as its border says it; nothing where
/// all of it is in view.
pub open spec fn scroll_note(scroll: nat, rows: nat, height: nat) -> Seq<char> {
    if rows > height {
        let limit = scroll_limit(rows, height);
        " "@ + decimal(scroll_percent(scroll, limit)) + "% ("@ + decimal(
            (limit - scroll + height) as nat,
        ) + "/"@ + decimal(rows) + ") "@
    } else {
        Seq::empty()
    }
}

/// How far through the text the pane is, as its border says it.
pub fn scroll_info(scroll: usize, rows: usize, height: usize) -> (note: String)
    requires
        scroll <= scroll_limit(rows as nat, height as nat),
    ensures
        note@ == scroll_note(scroll as nat, rows as nat, height as nat),
{
    if rows > height {
        let limit: usize = rows - height;
        let percent = number(percent_scrolled(scroll, limit));
        let seen = count_text(limit - scroll + height);
        let total = count_text(rows);
        let mut note = cat5(" ", percent.as_str(), "% (", seen.as_str(), "/");
        note.append(total.as_str());
        note.append(") ");
        note
    } else {
        String::new()
    }
}

// ── Titles and chips ─────────────────────────────────────────────────────────

/// What the title says of the search.
pub open spec fn search_note(
    query: Seq<char>,
    typing: bool,
    matches: nat,
    at: nat,
) -> Seq<char> {
    if searches(query) {
        if matches == 0 {
            " 🔍/"@ + query + "/  0 matches"@
        } else {
            " /"@ + query + "/  "@ + decimal(at + 1) + "/"@ + decimal(matches)
        }
    } else if typing {
        " /"@ + query + "▌"@
    } else {
        Seq::empty()
    }
}

/// What the title says of the search, for a query that searches or not.
fn search_indicator(
    query: &str,
    searching: bool,
    typing: bool,
    matches: usize,
    at: usize,
) -> (note: String)
    requires
        searching == searches(query@),
        matches > 0 ==> at < matches,
    ensures
        note@ == search_note(query@, typing, matches as nat, at as nat),
{
    if searching {
        if matches == 0 {
            cat3(" 🔍/", query, "/  0 matches")
        } else {
            let place = count_text(at + 1);
            let total = count_text(matches);
            let mut note = cat5(" /", query, "/  ", place.as_str(), "/");
            note.append(total.as_str());
            note
        }
    } else if typing {
        cat3(" /", query, "▌")
    } else {
        String::new()
    }
}

/// What the Logs title says of the tools.
pub open spec fn tools_note(mode: StageContentMode, log: Seq<char>) -> Seq<char> {
    if mode == StageContentMode::Logs && tool_lines(log) > 0 {
        " · "@ + decimal(tool_lines(log)) + " tools"@
    } else {
        Seq::empty()
    }
}

/// The chip for the answer: offered while there is one, and not on its own view.
pub open spec fn final_chip(mode: StageContentMode, has_answer: bool) -> Seq<char> {
    if mode == StageContentMode::FinalOutput || !has_answer {
        ""@
    } else {
        "  [f] final"@
    }
}

/// The head of the pane's title: the view, and the chips of the others.
pub open spec fn mode_head(mode: StageContentMode, has_answer: bool) -> Seq<char> {
    let view = match mode {
        StageContentMode::Output => " Output  [l] logs  [c] ctx"@,
        StageContentMode::Logs => " Logs  [o] output  [c] ctx"@,
        StageContentMode::Context => " Context Window  [o] output  [l] logs"@,
        StageContentMode::FinalOutput => " Final output  [o] output  [l] logs  [c] ctx"@,
    };
    view + final_chip(mode, has_answer)
}

/// The pane's title: its head, the tools, and the search.
pub open spec fn mode_title(
    mode: StageContentMode,
    has_answer: bool,
    tools: Seq<char>,
    search: Seq<char>,
) -> Seq<char> {
    mode_head(mode, has_answer) + tools + search + " "@
}

/// The head of the pane's title.
fn head_label(mode: StageContentMode, has_answer: bool) -> (head: String)
    ensures
        head@ == mode_head(mode, has_answer),
{
    let chip: &str = if mode == StageContentMode::FinalOutput || !has_answer {
        ""
    } else {
        "  [f] final"
    };
    let view: &str = match mode {
        StageContentMode::Output => " Output  [l] logs  [c] ctx",
        StageContentMode::Logs => " Logs  [o] output  [c] ctx",
        StageContentMode::Context => " Context Window  [o] output  [l] logs",
        StageContentMode::FinalOutput => " Final output  [o] output  [l] logs  [c] ctx",
    };
    cat2(view, chip)
}

/// The pane's title.
fn mode_label(mode: StageContentMode, has_answer: bool, tools: &str, search: &str) -> (title:
    String)
    ensures
        title@ == mode_title(mode, has_answer, tools@, search@),
{
    let head = head_label(mode, has_answer);
    cat4(head.as_str(), tools, search, " ")
}

/// Whether a view's title offers another view: not its own, and the answer's only
/// while there is one.
pub open spec fn offers(
    mode: StageContentMode,
    has_answer: bool,
    other: StageContentMode,
) -> bool {
    other != mode && (other == StageContentMode::FinalOutput ==> has_answer)
}

/// The chip of a view.
pub open spec fn chip_of(other: StageContentMode) -> Seq<char> {
    match other {
        StageContentMode::Logs => "[l] logs"@,
        StageContentMode::Output => "[o] output"@,
        StageContentMode::Context => "[c] ctx"@,
        StageContentMode::FinalOutput => "[f] final"@,
    }
}

/// The target over the chip of another view, where it is offered and fits on the
/// border. Only the head of the title is looked at: what is typed into the search
/// stands behind it and is no chip.
pub open spec fn chip_target(
    area: Rect,
    mode: StageContentMode,
    has_answer: bool,
    other: StageContentMode,
) -> Seq<(Rect, ClickTarget)> {
    let chip = chip_of(other);
    match first_at(mode_head(mode, has_answer), chip, 0) {
        Some(before) => if offers(mode, has_answer, other) && area.width >= 2 && 1 + before
            + chip.len() <= area.width {
            seq![
                (
                    Rect {
                        x: (area.x + 1 + before) as u16,
                        y: area.y,
                        width: chip.len() as u16,
                        height: 1,
                    },
                    ClickTarget::ContentMode(other),
                ),
            ]
        } else {
            Seq::empty()
        },
        None => Seq::empty(),
    }
}

/// The targets over the chips in the title.
pub open spec fn chip_targets(area: Rect, mode: StageContentMode, has_answer: bool) -> Seq<
    (Rect, ClickTarget),
> {
    chip_target(area, mode, has_answer, StageContentMode::Logs) + chip_target(
        area,
        mode,
        has_answer,
        StageContentMode::Output,
    ) + chip_target(area, mode, has_answer, StageContentMode::Context) + chip_target(
        area,
        mode,
        has_answer,
        StageContentMode::FinalOutput,
    )
}

/// Add the target over one chip.
fn add_chip(
    targets: &mut Vec<(Rect, ClickTarget)>,
    area: Rect,
    mode: StageContentMode,
    has_answer: bool,
    other: StageContentMode,
)
    requires
        area.x + area.width <= u16::MAX,
    ensures
        final(targets)@ == old(targets)@ + chip_target(area, mode, has_answer, other),
{
    let ghost before_targets = targets@;
    let chip: &str = match other {
        StageContentMode::Logs => "[l] logs",
        StageContentMode::Output => "[o] output",
        StageContentMode::Context => "[c] ctx",
        StageContentMode::FinalOutput => "[f] final",
    };
    let head = head_label(mode, has_answer);
    let offered = other != mode && (other != StageContentMode::FinalOutput || has_answer);
    match find(head.as_str(), chip) {
        Some(before) => {
            let width: usize = crate::text::length_of(chip);
            if offered && area.width >= 2 && before < area.width as usize && width
                <= area.width as usize && 1 + before + width <= area.width as usize {
                targets.push(
                    (
                        Rect {
                            x: area.x + 1 + before as u16,
                            y: area.y,
                            width: width as u16,
                            height: 1,
                        },
                        ClickTarget::ContentMode(other),
                    ),
                );
            }
        },
        None => {},
    }
    assert(targets@ =~= before_targets + chip_target(area, mode, has_answer, other));
}

impl Dashboard {
    /// Make the content pane's title chips clickable, over the exact columns
    /// they were drawn on. The title begins one cell in, so the character
    /// offsets in its head are the screen columns. Only the chips that the view
    /// offers become buttons, and none stands over the search.
    pub fn register_mode_chip_clicks(
        &mut self,
        area: Rect,
        mode: StageContentMode,
        has_answer: bool,
    )
        requires
            area.x + area.width <= u16::MAX,
        ensures
            *final(self) == (Dashboard {
                mouse: Mouse { click_targets: final(self).mouse.click_targets, ..old(self).mouse },
                ..*old(self)
            }),
            final(self).mouse.click_targets@ == old(self).mouse.click_targets@ + chip_targets(
                area,
                mode,
                has_answer,
            ),
    {
        let targets = &mut self.mouse.click_targets;
        let ghost before = targets@;
        add_chip(targets, area, mode, has_answer, StageContentMode::Logs);
        add_chip(targets, area, mode, has_answer, StageContentMode::Output);
        add_chip(targets, area, mode, has_answer, StageContentMode::Context);
        add_chip(targets, area, mode, has_answer, StageContentMode::FinalOutput);
        assert(targets@ =~= before + chip_targets(area, mode, has_answer));
    }
}

/// The chips never reach past the pane they are drawn on, nor past the head of the
/// title: none stands over the search.
pub proof fn chips_stay_on_the_border(
    area: Rect,
    mode: StageContentMode,
    has_answer: bool,
    at: int,
)
    requires
        area.x + area.width <= u16::MAX,
        0 <= at < chip_targets(area, mode, has_answer).len(),
    ensures
        ({
            let rect = chip_targets(area, mode, has_answer)[at].0;
            &&& area.x < rect.x && rect.x + rect.width <= area.x + area.width && rect.y == area.y
            &&& rect.x + rect.width <= area.x + 1 + mode_head(mode, has_answer).len()
        }),
{
    let head = mode_head(mode, has_answer);
    first_is_found(head, chip_of(StageContentMode::Logs), 0);
    first_is_found(head, chip_of(StageContentMode::Output), 0);
    first_is_found(head, chip_of(StageContentMode::Context), 0);
    first_is_found(head, chip_of(StageContentMode::FinalOutput), 0);
}

/// What is found stands where it is found.
proof fn first_is_found(text: Seq<char>, needle: Seq<char>, from: int)
    requires
        0 <= from,
    ensures
        first_at(text, needle, from) matches Some(at) ==> from <= at && stands_at(text, needle, at),
    decreases text.len() + 1 - from,
{
    if from <= text.len() && !stands_at(text, needle, from) {
        first_is_found(text, needle, from + 1);
    }
}

/// What stands somewhere is found, there or before.
proof fn what_stands_is_found(text: Seq<char>, needle: Seq<char>, from: int, at: int)
    requires
        0 <= from <= at <= text.len(),
        stands_at(text, needle, at),
    ensures
        first_at(text, needle, from) matches Some(before) && before <= at,
    decreases at - from,
{
    if !stands_at(text, needle, from) {
        what_stands_is_found(text, needle, from + 1, at);
    }
}

/// Where the chip of another view stands in a title that offers it.
pub open spec fn chip_column(mode: StageContentMode, other: StageContentMode) -> int {
    match (mode, other) {
        (StageContentMode::Output, StageContentMode::Logs) => 9,
        (StageContentMode::Output, StageContentMode::Context) => 19,
        (StageContentMode::Output, _) => 28,
        (StageContentMode::Logs, StageContentMode::Output) => 7,
        (StageContentMode::Logs, StageContentMode::Context) => 19,
        (StageContentMode::Logs, _) => 28,
        (StageContentMode::Context, StageContentMode::Output) => 17,
        (StageContentMode::Context, StageContentMode::Logs) => 29,
        (StageContentMode::Context, _) => 39,
        (StageContentMode::FinalOutput, StageContentMode::Output) => 15,
        (StageContentMode::FinalOutput, StageContentMode::Logs) => 27,
        (StageContentMode::FinalOutput, _) => 37,
    }
}

/// An offered chip stands in the title.
proof fn an_offered_chip_stands(mode: StageContentMode, has_answer: bool, other: StageContentMode)
    requires
        offers(mode, has_answer, other),
    ensures
        stands_at(mode_head(mode, has_answer), chip_of(other), chip_column(mode, other)),
        chip_of(other).len() <= 10,
        chip_column(mode, other) <= mode_head(mode, has_answer).len(),
{
    reveal_strlit(" Output  [l] logs  [c] ctx");
    reveal_strlit(" Logs  [o] output  [c] ctx");
    reveal_strlit(" Context Window  [o] output  [l] logs");
    reveal_strlit(" Final output  [o] output  [l] logs  [c] ctx");
    reveal_strlit("  [f] final");
    reveal_strlit("");
    reveal_strlit("[l] logs");
    reveal_strlit("[o] output");
    reveal_strlit("[c] ctx");
    reveal_strlit("[f] final");
    let at = chip_column(mode, other);
    let chip = chip_of(other);
    assert(mode_head(mode, has_answer).subrange(at, at + chip.len()) =~= chip);
}

/// In a pane wide enough for its title, a view is a button exactly where the view that
/// shows offers it: never its own, and the answer's only while there is one.
pub proof fn every_offered_chip_is_a_button(
    area: Rect,
    mode: StageContentMode,
    has_answer: bool,
    other: StageContentMode,
)
    requires
        area.x + area.width <= u16::MAX,
        area.width >= 50,
    ensures
        offers(mode, has_answer, other) <==> exists|i: int|
            0 <= i < chip_targets(area, mode, has_answer).len() && (#[trigger] chip_targets(
                area,
                mode,
                has_answer,
            )[i]).1 == ClickTarget::ContentMode(other),
{
    let head = mode_head(mode, has_answer);
    let all = chip_targets(area, mode, has_answer);
    if offers(mode, has_answer, other) {
        an_offered_chip_stands(mode, has_answer, other);
        what_stands_is_found(head, chip_of(other), 0, chip_column(mode, other));
        let logs = chip_target(area, mode, has_answer, StageContentMode::Logs);
        let output = chip_target(area, mode, has_answer, StageContentMode::Output);
        let context = chip_target(area, mode, has_answer, StageContentMode::Context);
        let at: int = match other {
            StageContentMode::Logs => 0,
            StageContentMode::Output => logs.len() as int,
            StageContentMode::Context => (logs.len() + output.len()) as int,
            StageContentMode::FinalOutput => (logs.len() + output.len() + context.len()) as int,
        };
        assert(chip_target(area, mode, has_answer, other).len() == 1);
        assert(all[at].1 == ClickTarget::ContentMode(other));
    }
}

// ── The pane ─────────────────────────────────────────────────────────────────

/// What the pane is drawn from: the view's lines with the line each row of the
/// context tree starts on, whether the run has an answer, the stage's log, the
/// path of the file on view and the home directory.
#[derive(Debug)]
pub struct ContentSource {
    pub lines: Vec<Line>,
    pub row_lines: Vec<usize>,
    pub has_answer: bool,
    pub log: String,
    pub path: String,
    pub home: String,
}

/// What the pane is drawn from.
#[verifier::ext_equal]
pub struct SourceView {
    pub lines: Seq<Seq<SpanView>>,
    pub row_lines: Seq<usize>,
    pub has_answer: bool,
    pub log: Seq<char>,
    pub path: Seq<char>,
    pub home: Seq<char>,
}

impl View for ContentSource {
    type V = SourceView;

    open spec fn view(&self) -> SourceView {
        SourceView {
            lines: views(self.lines@),
            row_lines: self.row_lines@,
            has_answer: self.has_answer,
            log: self.log@,
            path: self.path@,
            home: self.home@,
        }
    }
}

/// The pane: its lines, its title, what its lower border says, and how far it is
/// scrolled.
#[derive(Debug)]
pub struct ContentPane {
    pub lines: Vec<Line>,
    pub title: String,
    pub path_hint: String,
    pub scroll_info: String,
    /// Rows hidden above the pane.
    pub scroll_y: usize,
    /// The furthest it can be scrolled, where there is more than fits.
    pub scrollbar: Option<usize>,
}

/// The view that is shown: the answer's falls back to the output where there is
/// no answer.
pub open spec fn settled_mode(mode: StageContentMode, has_answer: bool) -> StageContentMode {
    if mode == StageContentMode::FinalOutput && !has_answer {
        StageContentMode::Output
    } else {
        mode
    }
}

/// The rows inside a pane's border.
pub open spec fn inner_rows(area: Rect) -> nat {
    if area.height < 2 {
        0
    } else {
        (area.height - 2) as nat
    }
}

/// The columns inside a pane's border.
pub open spec fn inner_columns(area: Rect) -> u16 {
    if area.width < 2 {
        0
    } else {
        (area.width - 2) as u16
    }
}

/// All the pane's lines: the view's, and what is said of a run that failed or was
/// cancelled.
pub open spec fn pane_lines(source: Seq<Seq<SpanView>>, status: StatusView) -> Seq<Seq<SpanView>> {
    source + banner(status)
}

/// The line to bring into view: the match the cursor is on, else the row of the
/// tree the cursor moved to.
pub open spec fn target_line(
    detail: Detail,
    found: Seq<usize>,
    row_lines: Seq<usize>,
    lines: nat,
) -> Option<int> {
    if found.len() > 0 {
        Some(found[clamped_match(detail.search_match_idx, found.len()) as int] as int)
    } else if detail.tree.follow_cursor && detail.tree.cursor < row_lines.len() {
        let line = row_lines[detail.tree.cursor as int];
        Some(
            if line > lines {
                lines as int
            } else {
                line as int
            },
        )
    } else {
        None
    }
}

/// Where the pane is scrolled to.
pub open spec fn pane_scroll(
    detail: Detail,
    lines: Seq<Seq<SpanView>>,
    row_lines: Seq<usize>,
    area: Rect,
) -> nat {
    let found = matching_lines(lines, detail.search_query@);
    let width = inner_columns(area);
    settled_scroll(
        detail.scroll as nat,
        rows_of(lines, width),
        inner_rows(area),
        match target_line(detail, found, row_lines, lines.len()) {
            Some(line) => Some(rows_of(lines.take(line), width)),
            None => None,
        },
    )
}

/// What the detail view is left with once the pane is drawn.
pub open spec fn drawn_detail(
    detail: Detail,
    lines: Seq<Seq<SpanView>>,
    source: SourceView,
    area: Rect,
) -> Detail {
    let found = matching_lines(lines, detail.search_query@);
    Detail {
        content_mode: settled_mode(detail.content_mode, source.has_answer),
        search_match_idx: clamped_match(detail.search_match_idx, found.len()),
        scroll: pane_scroll(detail, lines, source.row_lines, area) as usize,
        tree: crate::types::ContextTree {
            follow_cursor: detail.tree.follow_cursor && (found.len() > 0 || detail.tree.cursor
                >= source.row_lines.len()),
            ..detail.tree
        },
        ..detail
    }
}

/// With no search typed no line is marked, and a pane that follows no cursor stays
/// where it is scrolled to, as far as its text goes.
pub proof fn without_a_search_nothing_moves(
    detail: Detail,
    lines: Seq<Seq<SpanView>>,
    row_lines: Seq<usize>,
    area: Rect,
)
    requires
        detail.search_query@.len() == 0,
    ensures
        searched_lines(
            lines,
            matching_lines(lines, detail.search_query@),
            detail.search_match_idx as int,
        ) == lines,
        !detail.tree.follow_cursor && detail.scroll <= scroll_limit(
            rows_of(lines, inner_columns(area)),
            inner_rows(area),
        ) ==> pane_scroll(detail, lines, row_lines, area) == detail.scroll,
{
    assert(searched_lines(
        lines,
        matching_lines(lines, detail.search_query@),
        detail.search_match_idx as int,
    ) =~= lines);
}

/// The display row the line at `count` starts on: the rows of the lines before
/// it, one by one, held at the largest count.
pub open spec fn row_start(lines: Seq<Seq<SpanView>>, width: u16, count: int) -> nat
    decreases count,
{
    if count <= 0 {
        0
    } else {
        held(
            row_start(lines, width, count - 1) + rows_of(lines.subrange(count - 1, count), width),
        )
    }
}

/// The target over a row of the tree, where the row is in view.
pub open spec fn row_target(area: Rect, start: nat, scroll_y: nat, row: int) -> Seq<
    (Rect, ClickTarget),
> {
    if scroll_y <= start && start - scroll_y < inner_rows(area) {
        seq![
            (
                Rect {
                    x: (area.x + 1) as u16,
                    y: (area.y + 1 + (start - scroll_y)) as u16,
                    width: inner_columns(area),
                    height: 1,
                },
                ClickTarget::ContextRow(row as usize),
            ),
        ]
    } else {
        Seq::empty()
    }
}

/// The targets over the first `count` rows of the tree.
pub open spec fn row_targets(
    area: Rect,
    lines: Seq<Seq<SpanView>>,
    row_lines: Seq<usize>,
    scroll_y: nat,
    count: int,
) -> Seq<(Rect, ClickTarget)>
    decreases count,
{
    if count <= 0 {
        Seq::empty()
    } else {
        let line = if row_lines[count - 1] > lines.len() {
            lines.len() as int
        } else {
            row_lines[count - 1] as int
        };
        row_targets(area, lines, row_lines, scroll_y, count - 1) + row_target(
            area,
            row_start(lines, inner_columns(area), line),
            scroll_y,
            count - 1,
        )
    }
}

/// The targets over the tree's rows are inside the pane's border.
pub proof fn row_targets_stay_in_the_pane(
    area: Rect,
    lines: Seq<Seq<SpanView>>,
    row_lines: Seq<usize>,
    scroll_y: nat,
    count: int,
    at: int,
)
    requires
        area.x < u16::MAX,
        area.y + area.height <= u16::MAX,
        0 <= at < row_targets(area, lines, row_lines, scroll_y, count).len(),
    ensures
        ({
            let rect = row_targets(area, lines, row_lines, scroll_y, count)[at].0;
            &&& rect.x == area.x + 1 && rect.width == inner_columns(area)
            &&& area.y < rect.y && rect.y + rect.height < area.y + area.height
        }),
    decreases count,
{
    if count > 0 {
        let before = row_targets(area, lines, row_lines, scroll_y, count - 1);
        if at < before.len() {
            row_targets_stay_in_the_pane(area, lines, row_lines, scroll_y, count - 1, at);
        }
    }
}

/// What the pane says where it has no lines.
pub open spec fn empty_note(mode: StageContentMode, stages: Seq<StageRecord>, at: int) -> Seq<
    Seq<SpanView>,
> {
    seq![
        seq![
            sp(
                " No "@ + if mode == StageContentMode::Output {
                    "output"@
                } else {
                    "logs"@
                } + " yet for "@ + if at < stages.len() {
                    stages[at].name@
                } else {
                    "this stage"@
                } + "."@,
                ink(Color::Dim),
            ),
        ],
    ]
}

/// What the pane says where it has no lines.
fn show_empty(mode: StageContentMode, stages: &Vec<StageRecord>, at: usize) -> (lines: Vec<Line>)
    ensures
        views(lines@) == empty_note(mode, stages@, at as int),
{
    let what: &str = if mode == StageContentMode::Output {
        "output"
    } else {
        "logs"
    };
    let stage: &str = if at < stages.len() {
        stages[at].name.as_str()
    } else {
        "this stage"
    };
    let text = cat5(" No ", what, " yet for ", stage, ".");
    let mut lines: Vec<Line> = Vec::new();
    lines.push(line1(styled(text, Style::ink(Color::Dim))));
    assert(views(lines@) =~= empty_note(mode, stages@, at as int));
    lines
}

/// The display row each line starts on, and the one below the last.
fn row_starts(lines: &Vec<Line>, width: u16) -> (starts: Vec<usize>)
    requires
        width <= WIDEST,
    ensures
        starts@.len() == lines@.len() + 1,
        forall|i: int|
            0 <= i <= lines@.len() ==> (#[trigger] starts@[i]) == row_start(
                views(lines@),
                width,
                i,
            ),
{
    let mut starts: Vec<usize> = Vec::new();
    starts.push(0);
    let mut at: usize = 0;
    let mut i: usize = 0;
    while i < lines.len()
        invariant
            i <= lines@.len(),
            width <= WIDEST,
            starts@.len() == i + 1,
            at == row_start(views(lines@), width, i as int),
            forall|j: int|
                0 <= j <= i ==> (#[trigger] starts@[j]) == row_start(views(lines@), width, j),
        decreases lines.len() - i,
    {
        let rows: usize = wrapped_rows(lines, i, i + 1, width);
        at = at.saturating_add(rows);
        starts.push(at);
        i = i + 1;
    }
    starts
}

/// The targets over the rows of the tree that are in view.
fn add_rows(
    targets: &mut Vec<(Rect, ClickTarget)>,
    area: Rect,
    lines: &Vec<Line>,
    row_lines: &Vec<usize>,
    scroll_y: usize,
)
    requires
        area.x < u16::MAX,
        area.y + area.height <= u16::MAX,
        inner_columns(area) <= WIDEST,
    ensures
        final(targets)@ == old(targets)@ + row_targets(
            area,
            views(lines@),
            row_lines@,
            scroll_y as nat,
            row_lines@.len() as int,
        ),
{
    let ghost before = targets@;
    let width: u16 = area.width.saturating_sub(2);
    let height: usize = area.height.saturating_sub(2) as usize;
    if row_lines.len() == 0 {
        assert(targets@ =~= before + Seq::<(Rect, ClickTarget)>::empty());
        return ;
    }
    let starts = row_starts(lines, width);
    let mut i: usize = 0;
    assert(targets@ =~= before + Seq::<(Rect, ClickTarget)>::empty());
    while i < row_lines.len()
        invariant
            i <= row_lines@.len(),
            area.x < u16::MAX,
            area.y + area.height <= u16::MAX,
            width == inner_columns(area),
            height == inner_rows(area),
            starts@.len() == lines@.len() + 1,
            forall|j: int|
                0 <= j <= lines@.len() ==> (#[trigger] starts@[j]) == row_start(
                    views(lines@),
                    width,
                    j,
                ),
            targets@ == before + row_targets(
                area,
                views(lines@),
                row_lines@,
                scroll_y as nat,
                i as int,
            ),
        decreases row_lines.len() - i,
    {
        let line: usize = if row_lines[i] > lines.len() {
            lines.len()
        } else {
            row_lines[i]
        };
        let start: usize = starts[line];
        let ghost so_far = targets@;
        if scroll_y <= start && start - scroll_y < height {
            let y: u16 = (start - scroll_y) as u16;
            targets.push(
                (
                    Rect { x: area.x + 1, y: area.y + 1 + y, width, height: 1 },
                    ClickTarget::ContextRow(i),
                ),
            );
        }
        proof {
            let next = row_target(area, start as nat, scroll_y as nat, i as int);
            assert(targets@ =~= so_far + next);
            let done = row_targets(area, views(lines@), row_lines@, scroll_y as nat, i as int);
            assert((before + done) + next =~= before + (done + next));
        }
        i = i + 1;
    }
}

/// What the pane's lines are made from.
#[derive(Clone, Copy, Debug, PartialEq, Eq, Structural)]
pub enum ContentKind {
    Context,
    Answer,
    Text,
}

/// What the pane's lines are made from: the context tree, the run's answer, or
/// the stage's text.
pub open spec fn kind_on_view(mode: StageContentMode, has_answer: bool) -> ContentKind {
    match mode {
        StageContentMode::Context => ContentKind::Context,
        StageContentMode::FinalOutput if has_answer => ContentKind::Answer,
        _ => ContentKind::Text,
    }
}

/// What the pane's lines are made from.
pub fn content_kind(mode: StageContentMode, has_answer: bool) -> (kind: ContentKind)
    ensures
        kind == kind_on_view(mode, has_answer),
{
    match mode {
        StageContentMode::Context => ContentKind::Context,
        StageContentMode::FinalOutput => if has_answer {
            ContentKind::Answer
        } else {
            ContentKind::Text
        },
        StageContentMode::Output | StageContentMode::Logs => ContentKind::Text,
    }
}

/// The file on view: one of the stage's, or the run's answer.
#[derive(Clone, Copy, Debug, PartialEq, Eq, Structural)]
pub enum ViewedFile {
    StageOutput,
    StageLogs,
    StageContext,
    Answer,
}

/// The file on view. The Output view that falls back to the run's answer reads
/// the answer's file instead of its stage's.
pub open spec fn file_on_view(mode: StageContentMode, showing_answer: bool) -> ViewedFile {
    if showing_answer {
        ViewedFile::Answer
    } else {
        match mode {
            StageContentMode::Output => ViewedFile::StageOutput,
            StageContentMode::Logs => ViewedFile::StageLogs,
            StageContentMode::Context => ViewedFile::StageContext,
            StageContentMode::FinalOutput => ViewedFile::Answer,
        }
    }
}

/// The file on view.
pub fn viewed_file(mode: StageContentMode, showing_answer: bool) -> (file: ViewedFile)
    ensures
        file == file_on_view(mode, showing_answer),
{
    if showing_answer {
        return ViewedFile::Answer;
    }
    match mode {
        StageContentMode::Output => ViewedFile::StageOutput,
        StageContentMode::Logs => ViewedFile::StageLogs,
        StageContentMode::Context => ViewedFile::StageContext,
        StageContentMode::FinalOutput => ViewedFile::Answer,
    }
}

/// The path hint on the lower border.
fn path_hint(path: &str, home: &str) -> (hint: String)
    ensures
        hint@ == " "@ + shortened(path@, home@) + " "@,
{
    let short = shorten_home_path(copy_of(path), home);
    cat3(" ", short.as_str(), " ")
}

/// Whether a pane's cells can be counted and its text wrapped.
pub open spec fn pane_fits(area: Rect) -> bool {
    &&& area.x + area.width <= u16::MAX
    &&& area.x < u16::MAX
    &&& area.y + area.height <= u16::MAX
    &&& inner_columns(area) <= WIDEST
}

/// Whether `pane` is what the content pane shows over `area`, and `after` what the
/// dashboard is left with.
pub open spec fn content_drawn(
    before: Dashboard,
    after: Dashboard,
    area: Rect,
    agent: DashboardAgent,
    source: SourceView,
    pane: ContentPane,
) -> bool {
    let lines = pane_lines(source.lines, agent.status@);
    let detail = before.detail;
    let found = matching_lines(lines, detail.search_query@);
    let mode = settled_mode(detail.content_mode, source.has_answer);
    let at = clamped_match(detail.search_match_idx, found.len());
    let rows = rows_of(lines, inner_columns(area));
    let height = inner_rows(area);
    let scroll = pane_scroll(detail, lines, source.row_lines, area);
    let limit = scroll_limit(rows, height);
    &&& scroll <= limit
    &&& views(pane.lines@) == if lines.len() == 0 {
        empty_note(mode, agent.stages@, detail.selected_stage as int)
    } else {
        searched_lines(lines, found, at as int)
    }
    &&& pane.title@ == mode_title(
        mode,
        source.has_answer,
        tools_note(mode, source.log),
        search_note(detail.search_query@, detail.search_mode, found.len(), at as nat),
    )
    &&& pane.path_hint@ == " "@ + shortened(source.path, source.home) + " "@
    &&& pane.scroll_info@ == scroll_note(scroll, rows, height)
    &&& pane.scroll_y == limit - scroll
    &&& pane.scrollbar == if rows > height {
        Some(limit as usize)
    } else {
        None
    }
    &&& after.detail == drawn_detail(detail, lines, source, area)
    &&& after.mouse.click_targets@ == before.mouse.click_targets@ + chip_targets(area, mode, source.has_answer)
        + row_targets(
        area,
        lines,
        source.row_lines,
        (limit - scroll) as nat,
        source.row_lines.len() as int,
    )
    &&& after == (Dashboard {
        detail: after.detail,
        mouse: Mouse { click_targets: after.mouse.click_targets, ..before.mouse },
        ..before
    })
}

impl Dashboard {
    /// The view the pane shows this frame: the Final view of a run without an
    /// answer falls back to Output.
    pub fn settle_content_mode(&mut self, has_answer: bool) -> (mode: StageContentMode)
        ensures
            mode == settled_mode(old(self).detail.content_mode, has_answer),
            *final(self) == (Dashboard {
                detail: Detail { content_mode: mode, ..old(self).detail },
                ..*old(self)
            }),
    {
        let mode = self.mode_on_view(has_answer);
        self.detail.content_mode = mode;
        mode
    }

    /// The content pane over `area`, drawn from `source`. Scrolling is in display
    /// rows, since long lines wrap: the pane stays within its text, a search brings
    /// its match into view, and a move of the tree's cursor is followed once. The
    /// title's chips and the tree's rows in view become targets of the mouse.
    pub fn show_content_pane(
        &mut self,
        area: Rect,
        agent: &DashboardAgent,
        source: ContentSource,
    ) -> (pane: ContentPane)
        requires
            pane_fits(area),
        ensures
            content_drawn(*old(self), *final(self), area, *agent, source@, pane),
    {
        let ghost before = self.detail;
        let ghost mouse_before = self.mouse.click_targets@;
        let mut lines = source.lines;
        add_banner(&mut lines, &agent.status);
        let ghost all = views(lines@);
        assert(all == pane_lines(views(source.lines@), agent.status@));
        let width: u16 = area.width.saturating_sub(2);
        let height: usize = area.height.saturating_sub(2) as usize;
        let query = to_lowercase(self.detail.search_query.as_str());
        let found = find_matches(&lines, self.detail.search_query.as_str(), query.as_str());
        let rows: usize = wrapped_rows(&lines, 0, lines.len(), width);
        assert(all.subrange(0, all.len() as int) =~= all);
        let mode = self.settle_content_mode(source.has_answer);
        let target = self.place_cursor(&lines, &found, &source.row_lines, width);
        let scroll: usize = settle_scroll(self.detail.scroll, rows, height, target);
        self.detail.scroll = scroll;
        let limit: usize = rows.saturating_sub(height);
        let scroll_y: usize = limit - scroll;
        let shown = if lines.len() == 0 {
            show_empty(mode, &agent.stages, self.detail.selected_stage)
        } else {
            highlight(&lines, &found, self.detail.search_match_idx)
        };
        let tools = if mode == StageContentMode::Logs {
            let count: usize = count_tools(source.log.as_str());
            if count > 0 {
                let text = count_text(count);
                cat3(" · ", text.as_str(), " tools")
            } else {
                String::new()
            }
        } else {
            String::new()
        };
        let search = search_indicator(
            self.detail.search_query.as_str(),
            !query.as_str().is_empty(),
            self.detail.search_mode,
            found.len(),
            self.detail.search_match_idx,
        );
        let title = mode_label(mode, source.has_answer, tools.as_str(), search.as_str());
        self.register_mode_chip_clicks(area, mode, source.has_answer);
        add_rows(&mut self.mouse.click_targets, area, &lines, &source.row_lines, scroll_y);
        ContentPane {
            lines: shown,
            title,
            path_hint: path_hint(source.path.as_str(), source.home.as_str()),
            scroll_info: scroll_info(scroll, rows, height),
            scroll_y,
            scrollbar: if rows > height {
                Some(limit)
            } else {
                None
            },
        }
    }

    /// Settle the match the cursor is on, let go of a tree cursor that was
    /// followed, and say how many rows stand above what is to come into view.
    fn place_cursor(
        &mut self,
        lines: &Vec<Line>,
        found: &Vec<usize>,
        row_lines: &Vec<usize>,
        width: u16,
    ) -> (target: Option<usize>)
        requires
            width <= WIDEST,
            forall|i: int| 0 <= i < found@.len() ==> (#[trigger] found@[i]) < lines@.len(),
        ensures
            match target_line(old(self).detail, found@, row_lines@, lines@.len()) {
                Some(line) => target is Some && target->0 == rows_of(
                    views(lines@).take(line),
                    width,
                ),
                None => target is None,
            },
            *final(self) == (Dashboard {
                detail: Detail {
                    search_match_idx: final(self).detail.search_match_idx,
                    tree: final(self).detail.tree,
                    ..old(self).detail
                },
                ..*old(self)
            }),
            final(self).detail.search_match_idx == clamped_match(
                old(self).detail.search_match_idx,
                found@.len(),
            ),
            final(self).detail.tree.cursor == old(self).detail.tree.cursor,
            final(self).detail.tree.follow_cursor == (old(self).detail.tree.follow_cursor && (
            found@.len() > 0 || old(self).detail.tree.cursor >= row_lines@.len())),
    {
        if found.len() > 0 {
            if self.detail.search_match_idx >= found.len() {
                self.detail.search_match_idx = found.len() - 1;
            }
            let line: usize = found[self.detail.search_match_idx];
            let rows: usize = wrapped_rows(lines, 0, line, width);
            assert(views(lines@).subrange(0, line as int) =~= views(lines@).take(line as int));
            return Some(rows);
        }
        if self.detail.tree.follow_cursor && self.detail.tree.cursor < row_lines.len() {
            self.detail.tree.follow_cursor = false;
            let wanted: usize = row_lines[self.detail.tree.cursor];
            let line: usize = if wanted > lines.len() {
                lines.len()
            } else {
                wanted
            };
            let rows: usize = wrapped_rows(lines, 0, line, width);
            assert(views(lines@).subrange(0, line as int) =~= views(lines@).take(line as int));
            return Some(rows);
        }
        None
    }
}

// ── What the pane is drawn from ──────────────────────────────────────────────

/// Where the files that the pane can show are.
#[derive(Debug)]
pub struct ContentPaths {
    pub output: String,
    pub logs: String,
    pub context: String,
    pub answer: String,
}

/// What was read for the pane: the run's answer, the document up for review, the
/// end of the stage's output and of its log, its windows, the flattened tree of
/// the one on view, the text on view as it was rendered, where the files are, and
/// the home directory.
#[derive(Debug)]
pub struct ContentReading {
    pub answer: Option<FinalOutput>,
    pub reviewing: Option<String>,
    pub output: String,
    pub log: String,
    pub windows: WindowReading,
    pub tree: FlatTree,
    pub rendered: Vec<Line>,
    pub paths: ContentPaths,
    pub home: String,
}

/// The text of the Output or Logs view, and whether it is the run's answer.
pub open spec fn text_on_view(
    mode: StageContentMode,
    stages: Seq<StageRecord>,
    at: int,
    reading: ContentReading,
) -> (Seq<char>, bool) {
    if mode == StageContentMode::Output {
        output_source(
            opt_text(reading.reviewing),
            reading.output@,
            stage_answer(reading.answer, stages, at),
        )
    } else {
        (reading.log@, false)
    }
}

/// The path of the file on view.
pub open spec fn path_on_view(
    mode: StageContentMode,
    showing_answer: bool,
    paths: ContentPaths,
) -> Seq<char> {
    match file_on_view(mode, showing_answer) {
        ViewedFile::StageOutput => paths.output@,
        ViewedFile::StageLogs => paths.logs@,
        ViewedFile::StageContext => paths.context@,
        ViewedFile::Answer => paths.answer@,
    }
}

/// What the pane of a run is drawn from.
pub open spec fn content_of(
    dash: Dashboard,
    agent: DashboardAgent,
    reading: ContentReading,
) -> SourceView {
    let mode = settled_mode(dash.detail.content_mode, reading.answer is Some);
    let at = dash.detail.selected_stage as int;
    let window = window_of(reading.windows, agent);
    let text = text_on_view(mode, agent.stages@, at, reading);
    SourceView {
        lines: match kind_on_view(mode, reading.answer is Some) {
            ContentKind::Context => context_lines(agent, at, window, views(reading.tree.lines@)),
            ContentKind::Answer => answer_lines(reading.answer->0, views(reading.rendered@)),
            ContentKind::Text => output_lines(
                mode == StageContentMode::Output,
                text.0,
                views(reading.rendered@),
            ),
        },
        row_lines: if mode == StageContentMode::Context {
            context_rows(agent, at, window, reading.tree.cursor_lines@)
        } else {
            Seq::empty()
        },
        has_answer: reading.answer is Some,
        log: reading.log@,
        path: path_on_view(mode, text.1, reading.paths),
        home: reading.home@,
    }
}

/// The text that has to be rendered for the pane: the answer, or an output that is
/// not empty.
pub open spec fn rendering_wanted(
    dash: Dashboard,
    agent: DashboardAgent,
    reading: ContentReading,
) -> Option<Seq<char>> {
    let mode = settled_mode(dash.detail.content_mode, reading.answer is Some);
    let text = text_on_view(mode, agent.stages@, dash.detail.selected_stage as int, reading).0;
    match kind_on_view(mode, reading.answer is Some) {
        ContentKind::Context => None,
        ContentKind::Answer => Some(reading.answer->0.content@),
        ContentKind::Text => if mode == StageContentMode::Output && text.len() > 0 {
            Some(text)
        } else {
            None
        },
    }
}

/// The editor that takes the pane over while a document is edited in place: its
/// title and colour, its button's face, whether it has the keys, which its button
/// has where it does not, and where the two stand.
#[derive(Debug)]
pub struct DocumentEditor {
    pub title: &'static str,
    pub color: Color,
    pub button: &'static str,
    pub focused: bool,
    pub rows: EditorRows,
}

/// What the content pane shows.
#[derive(Debug)]
pub enum ContentView {
    Editor(DocumentEditor),
    Pane(ContentPane),
}

impl Dashboard {
    /// The view the pane shows, as it stands once the pane is drawn.
    fn mode_on_view(&self, has_answer: bool) -> (mode: StageContentMode)
        ensures
            mode == settled_mode(self.detail.content_mode, has_answer),
    {
        if self.detail.content_mode == StageContentMode::FinalOutput && !has_answer {
            StageContentMode::Output
        } else {
            self.detail.content_mode
        }
    }

    /// The text of the Output or Logs view, and whether it is the run's answer.
    fn viewed_text(
        &self,
        mode: StageContentMode,
        agent: &DashboardAgent,
        reading: &ContentReading,
    ) -> (view: (String, bool))
        ensures
            (view.0@, view.1) == text_on_view(
                mode,
                agent.stages@,
                self.detail.selected_stage as int,
                *reading,
            ),
    {
        if mode == StageContentMode::Output {
            let reviewing = match &reading.reviewing {
                Some(body) => Some(body.as_str()),
                None => None,
            };
            let answer = match &reading.answer {
                Some(found) => Some(found),
                None => None,
            };
            self.output_text(agent, reviewing, reading.output.as_str(), answer)
        } else {
            (copy_of(reading.log.as_str()), false)
        }
    }

    /// The text that has to be rendered for the pane.
    pub fn text_to_render(&self, agent: &DashboardAgent, reading: &ContentReading) -> (text: Option<
        String,
    >)
        ensures
            opt_text(text) == rendering_wanted(*self, *agent, *reading),
    {
        let mode = self.mode_on_view(reading.answer.is_some());
        if mode == StageContentMode::Context {
            return None;
        }
        match &reading.answer {
            Some(answer) => if mode == StageContentMode::FinalOutput {
                return Some(copy_of(answer.content.as_str()));
            },
            None => {},
        }
        let (text, _) = self.viewed_text(mode, agent, reading);
        if mode == StageContentMode::Output && !text.as_str().is_empty() {
            Some(text)
        } else {
            None
        }
    }

    /// What the pane is drawn from: the lines of the view that is on, and the file
    /// they are read from. The `rendered` lines of the reading are those of the
    /// text to render.
    pub fn content_source(&self, agent: &DashboardAgent, reading: ContentReading) -> (source:
        ContentSource)
        requires
            rows_are_inside(reading.tree),
        ensures
            source@ == content_of(*self, *agent, reading),
    {
        let has_answer = reading.answer.is_some();
        let mode = self.mode_on_view(has_answer);
        let (text, from_answer) = self.viewed_text(mode, agent, &reading);
        let ContentReading { answer, log, windows, tree, rendered, paths, home, .. } = reading;
        let (lines, row_lines) = match content_kind(mode, has_answer) {
            ContentKind::Context => self.build_context_lines(agent, &windows, tree),
            ContentKind::Answer => match &answer {
                Some(found) => (final_output_lines(found, rendered), Vec::new()),
                None => (Vec::new(), Vec::new()),
            },
            ContentKind::Text => (
                build_output_lines(mode == StageContentMode::Output, text.as_str(), rendered),
                Vec::new(),
            ),
        };
        let path = match viewed_file(mode, from_answer) {
            ViewedFile::StageOutput => paths.output,
            ViewedFile::StageLogs => paths.logs,
            ViewedFile::StageContext => paths.context,
            ViewedFile::Answer => paths.answer,
        };
        ContentSource { lines, row_lines, has_answer, log, path, home }
    }

    /// The content pane over `area`, as `reading` gives it: a document that is
    /// edited in place takes it over, with its Save button under it, and else it
    /// shows the view that is on.
    pub fn render_content_pane(
        &mut self,
        area: Rect,
        agent: &DashboardAgent,
        reading: ContentReading,
    ) -> (view: ContentView)
        requires
            !old(self).edits_document() ==> pane_fits(area) && rows_are_inside(reading.tree),
        ensures
            match view {
                ContentView::Editor(editor) => {
                    &&& old(self).edits_document()
                    &&& editor.title@
                        == " ✎ Editing this document - your changes replace it  ·  [^S] save  [Enter] newline  [Tab] Save button  [Esc] cancel "@
                    &&& editor.color == Color::Success
                    &&& editor.button@ == "[ Save document ]"@
                    &&& editor.focused == !old(self).reply.focus_send
                    &&& button_put(
                        *old(self),
                        *final(self),
                        area,
                        editor.button@,
                        ClickTarget::ResponseSend,
                        editor.rows,
                    )
                },
                ContentView::Pane(pane) => !old(self).edits_document() && content_drawn(
                    *old(self),
                    *final(self),
                    area,
                    *agent,
                    content_of(*old(self), *agent, reading),
                    pane,
                ),
            },
    {
        if self.editing_document() {
            let focused = !self.reply.focus_send;
            let button = save_button();
            let rows = self.draw_action_button(area, button, ClickTarget::ResponseSend);
            return ContentView::Editor(
                DocumentEditor { title: edit_title(), color: Color::Success, button, focused, rows },
            );
        }
        let source = self.content_source(agent, reading);
        ContentView::Pane(self.show_content_pane(area, agent, source))
    }
}

} // verus!
