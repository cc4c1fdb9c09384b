//! The run table and the log panel.

use crate::fit::{fit_parts, fitted_row};
use crate::numbers::{format_tokens, token_figure};
use crate::outside::{
    columns, display_width, is_plain, near_share, shares, shares_fill, split_area, widths_of,
};
use crate::state::{Dashboard, Mouse, Notes};
use crate::style::{
    bold_ink, ink, line2, minus, sp, span, strong, styled, Color, Constraint, Direction, Line, Rect,
    Span, SpanView, Style,
};
use crate::text::{
    among, cat2, cat3, cat4, cat5, chars_of, copy_of, count_text, decimal, drop_leading, has_text,
    run_together, text_between, trim, trim_end, trimmed, trimmed_end, truncate, truncated, without_leading,
};
use crate::types::{
    AgentDisplayStatus, AgentView, ClickTarget, DashboardAgent, LogEntry, LogScroll, LogView,
    MainPane, PaneId, StatusView, TreeShape, WaitView,
};
use crate::views::{group_views, views};
use vstd::prelude::*;

verus! {

broadcast use group_views;

/// The run table's columns, as shares of the width inside its border.
fn table_columns() -> (shares: Vec<Constraint>)
    ensures
        shares@ == seq![
            Constraint::Percentage(22),
            Constraint::Percentage(12),
            Constraint::Percentage(14),
            Constraint::Percentage(18),
            Constraint::Percentage(14),
            Constraint::Percentage(20),
        ],
{
    vec![
        Constraint::Percentage(22),
        Constraint::Percentage(12),
        Constraint::Percentage(14),
        Constraint::Percentage(18),
        Constraint::Percentage(14),
        Constraint::Percentage(20),
    ]
}

/// The share of each column of the run table, in hundredths.
pub open spec fn column_share(at: int) -> int {
    seq![22int, 12, 14, 18, 14, 20][at]
}

/// How wide the first `count` columns are together.
pub open spec fn widths_sum(widths: Seq<usize>, count: int) -> int
    decreases count,
{
    if count <= 0 {
        0
    } else {
        widths_sum(widths, count - 1) + widths[count - 1]
    }
}

/// Whether these are widths that the table draws with over `area`: inside a border,
/// the columns take all but the five gaps between them, and each is near its share.
/// Which columns give way to the gaps is the layout's own choice.
pub open spec fn are_column_widths(widths: Seq<usize>, area: Rect) -> bool {
    &&& widths.len() == 6
    &&& forall|i: int| 0 <= i < 6 ==> (#[trigger] widths[i]) <= minus(area.width, 2)
    &&& area.width >= 7 ==> {
        &&& widths_sum(widths, 6) == area.width - 7
        &&& forall|i: int|
            0 <= i < 6 ==> near_share(
                (#[trigger] widths[i]) as int,
                column_share(i),
                area.width - 2,
                5,
            )
    }
}

/// How wide each part of a row is.
pub fn part_widths(parts: &Vec<Rect>) -> (widths: Vec<usize>)
    ensures
        widths@ == parts@.map_values(|part: Rect| part.width as usize),
{
    let mut widths: Vec<usize> = Vec::new();
    let mut i: usize = 0;
    while i < parts.len()
        invariant
            i <= parts@.len(),
            widths@.len() == i,
            forall|j: int| 0 <= j < i ==> (#[trigger] widths@[j]) == parts@[j].width,
        decreases parts.len() - i,
    {
        widths.push(parts[i].width as usize);
        i = i + 1;
    }
    assert(widths@ =~= parts@.map_values(|part: Rect| part.width as usize));
    widths
}

/// The column widths the table draws with over `area`: the same layout the
/// widget runs, over the width inside its border, with one column between.
pub fn table_column_widths(area: Rect) -> (widths: Vec<usize>)
    ensures
        are_column_widths(widths@, area),
{
    let inner = Rect::new(0, 0, area.width.saturating_sub(2), 1);
    let columns = table_columns();
    proof {
        reveal_with_fuel(shares, 7);
        assert(shares_fill(columns@));
    }
    let parts = split_area(Direction::Horizontal, &columns, 1, inner);
    let widths = part_widths(&parts);
    proof {
        sum_of_the_widths(parts@, widths@, 6);
    }
    widths
}

/// The widths of the parts add up to what the parts take together.
proof fn sum_of_the_widths(parts: Seq<Rect>, widths: Seq<usize>, count: int)
    requires
        count <= parts.len(),
        widths == parts.map_values(|part: Rect| part.width as usize),
    ensures
        widths_sum(widths, count) == widths_of(parts, count),
    decreases count,
{
    if count > 0 {
        sum_of_the_widths(parts, widths, count - 1);
    }
}

/// A plain text that is no longer than its column's share, less the gaps, is shown
/// whole.
pub proof fn a_cell_with_room_is_whole(widths: Seq<usize>, area: Rect, at: int, text: Seq<char>)
    requires
        are_column_widths(widths, area),
        area.width >= 7,
        0 <= at < 6,
        is_plain(text),
        100 * (text.len() + 7) <= column_share(at) * (area.width - 2),
    ensures
        truncated(text, widths[at] as nat) == text,
{
    assert(near_share(widths[at] as int, column_share(at), area.width - 2, 5));
}

// ── One row ──────────────────────────────────────────────────────────────────

/// A row of the run table.
#[derive(Debug)]
pub struct RunRow {
    pub title: Line,
    pub blueprint: String,
    pub stage: String,
    pub status: Span,
    pub tokens: String,
    pub started: Span,
}

/// A row of the run table.
#[verifier::ext_equal]
pub struct RowView {
    pub title: Seq<SpanView>,
    pub blueprint: Seq<char>,
    pub stage: Seq<char>,
    pub status: SpanView,
    pub tokens: Seq<char>,
    pub started: SpanView,
}

impl View for RunRow {
    type V = RowView;

    open spec fn view(&self) -> RowView {
        RowView {
            title: self.title@,
            blueprint: self.blueprint@,
            stage: self.stage@,
            status: self.status@,
            tokens: self.tokens@,
            started: self.started@,
        }
    }
}

/// What the row calls a run: its title without heading marks, else its task.
pub open spec fn row_title(title: Option<Seq<char>>, task: Seq<char>) -> Seq<char> {
    match title {
        Some(t) => trimmed(without_leading(t, '#')),
        None => trimmed(task),
    }
}

/// What the row calls a run.
fn title_of(agent: &DashboardAgent) -> (title: String)
    ensures
        title@ == row_title(agent@.title, agent@.task),
{
    match &agent.title {
        Some(t) => {
            let bare = drop_leading(t.as_str(), '#');
            trim(bare.as_str())
        },
        None => trim(agent.task.as_str()),
    }
}

/// The tokens a run has taken, or a dash for none.
pub open spec fn row_tokens(agent: AgentView) -> Seq<char> {
    if agent.tokens_in == 0 && agent.tokens_out == 0 {
        "-"@
    } else {
        token_figure(agent.tokens_in as nat) + "↑ "@ + token_figure(agent.tokens_out as nat)
            + "↓"@
    }
}

/// The stage a run is in, with its place among several: the name gives way to
/// the counter.
pub open spec fn row_stage(agent: AgentView, width: nat) -> Seq<char> {
    if agent.num_stages > 1 {
        let counter = " "@ + decimal((agent.stage_index + 1) as nat) + "/"@ + decimal(
            agent.num_stages as nat,
        );
        run_together(fitted_row(seq![agent.stage, counter], width, seq![0usize]), 2)
    } else {
        truncated(agent.stage, width)
    }
}

/// How a run stands, in words: a parked run says why.
pub open spec fn row_status(
    status: StatusView,
    wait: Option<WaitView>,
    spin: Seq<char>,
    waiting: Seq<char>,
    pending: Seq<char>,
) -> Seq<char> {
    match (status, wait) {
        (StatusView::Active, _) => spin + " ACTIVE"@,
        (StatusView::Waiting, Some(reason)) => waiting + reason.label,
        (StatusView::Paused, Some(reason)) => pending + reason.label,
        (other, _) => other.label(),
    }
}

/// The colour of how a run stands: a parked run that needs nobody is dim.
pub open spec fn row_color(status: StatusView, wait: Option<WaitView>) -> Color {
    match wait {
        Some(reason) => if reason.needs_person {
            Color::Status(status.tone())
        } else {
            Color::Dim
        },
        None => Color::Status(status.tone()),
    }
}

/// The end of a text after the last `mark` in its first `count` characters.
pub open spec fn after_last(text: Seq<char>, mark: char, count: int) -> Seq<char>
    decreases count,
{
    if count <= 0 {
        text
    } else if text[count - 1] == mark {
        text.skip(count)
    } else {
        after_last(text, mark, count - 1)
    }
}

/// The last part of a run's id.
pub open spec fn short_id(id: Seq<char>) -> Seq<char> {
    after_last(id, '-', id.len() as int)
}

/// The last part of a run's id.
fn short_id_of(id: &str) -> (short: String)
    ensures
        short@ == short_id(id@),
{
    let chars = chars_of(id);
    let mut from: usize = chars.len();
    while from > 0 && chars[from - 1] != '-'
        invariant
            from <= chars@.len(),
            chars@ == id@,
            short_id(id@) == after_last(id@, '-', from as int),
        decreases from,
    {
        from = from - 1;
    }
    let short = text_between(&chars, from, chars.len());
    proof {
        assert(short@ =~= id@.skip(from as int));
        assert(id@.skip(0) =~= id@);
    }
    short
}

/// The mark before a title: nothing while nothing is marked, and the same room
/// on every row otherwise.
pub open spec fn row_mark(any_marked: bool, marked: bool) -> Seq<char> {
    if !any_marked {
        ""@
    } else if marked {
        "✓ "@
    } else {
        "  "@
    }
}

/// The fold arrow, on rows that nest others.
pub open spec fn row_arrow(shape: Option<TreeShape>) -> Seq<char> {
    match shape {
        Some(tree) => if !tree.expandable {
            "  "@
        } else if tree.collapsed {
            "▸ "@
        } else {
            "▾ "@
        },
        None => "  "@,
    }
}

/// How many rows a fold hides.
pub open spec fn row_hidden(shape: Option<TreeShape>) -> Seq<char> {
    match shape {
        Some(tree) => if tree.collapsed {
            " +"@ + decimal(tree.hidden as nat)
        } else {
            Seq::empty()
        },
        None => Seq::empty(),
    }
}

/// The parts of a title cell; only the title itself gives way.
pub open spec fn title_parts(
    agent: AgentView,
    shape: Option<TreeShape>,
    mark: Seq<char>,
) -> Seq<Seq<char>> {
    seq![
        mark,
        match shape {
            Some(tree) => tree.prefix@,
            None => Seq::empty(),
        },
        row_arrow(shape),
        row_title(agent.title, agent.task),
        " #"@ + short_id(agent.id),
        row_hidden(shape),
    ]
}

/// The colours of a title cell's parts.
pub open spec fn title_colors() -> Seq<Color> {
    seq![Color::Accent, Color::Dim, Color::Accent, Color::White, Color::Dim, Color::Accent]
}

/// A title cell.
pub open spec fn title_cell(
    agent: AgentView,
    shape: Option<TreeShape>,
    mark: Seq<char>,
    width: nat,
) -> Seq<SpanView> {
    let fitted = fitted_row(title_parts(agent, shape, mark), width, seq![3usize]);
    Seq::new(6, |i: int| sp(fitted[i], ink(title_colors()[i])))
}

/// A row of the run table.
pub open spec fn run_row(
    dash: Dashboard,
    agent: AgentView,
    shape: Option<TreeShape>,
    widths: Seq<usize>,
    started: Seq<char>,
) -> RowView {
    let mark = row_mark(
        dash.runs.marked@.len() > 0,
        among(views(dash.runs.marked@), agent.id),
    );
    RowView {
        title: title_cell(agent, shape, mark, widths[0] as nat),
        blueprint: truncated(agent.blueprint_name, widths[1] as nat),
        stage: row_stage(agent, widths[2] as nat),
        status: sp(
            truncated(
                row_status(
                    agent.status,
                    agent.wait_reason,
                    dash.spin(),
                    dash.screens.theme.waiting@,
                    dash.screens.theme.pending@,
                ),
                widths[3] as nat,
            ),
            ink(row_color(agent.status, agent.wait_reason)),
        ),
        tokens: row_tokens(agent),
        started: sp(started, ink(Color::Dim)),
    }
}

/// The stage a run is in.
fn show_stage(agent: &DashboardAgent, width: usize) -> (text: String)
    requires
        agent.stage_index < usize::MAX,
    ensures
        text@ == row_stage(agent@, width as nat),
{
    if agent.num_stages > 1 {
        let place = count_text(agent.stage_index + 1);
        let total = count_text(agent.num_stages);
        let counter = cat4(" ", place.as_str(), "/", total.as_str());
        let mut parts: Vec<String> = Vec::new();
        parts.push(copy_of(agent.stage.as_str()));
        parts.push(counter);
        let mut order: Vec<usize> = Vec::new();
        order.push(0);
        let fitted = fit_parts(&parts, width, &order);
        assert(views(parts@) =~= seq![agent.stage@, counter@]);
        assert(order@ =~= seq![0usize]);
        let text = cat2(fitted[0].as_str(), fitted[1].as_str());
        proof {
            let both = views(fitted@);
            reveal_with_fuel(run_together, 3);
            assert(both[0] == fitted@[0]@ && both[1] == fitted@[1]@);
            assert(Seq::<char>::empty() + both[0] =~= both[0]);
        }
        text
    } else {
        truncate(agent.stage.as_str(), width)
    }
}

/// How a run stands, in words.
fn show_status(agent: &DashboardAgent, spin: &str, waiting: &str, pending: &str) -> (text: String)
    ensures
        text@ == row_status(agent@.status, agent@.wait_reason, spin@, waiting@, pending@),
{
    match (&agent.status, &agent.wait_reason) {
        (AgentDisplayStatus::Active, _) => cat2(spin, " ACTIVE"),
        (AgentDisplayStatus::Waiting, Some(reason)) => cat2(waiting, reason.label.as_str()),
        (AgentDisplayStatus::Paused, Some(reason)) => cat2(pending, reason.label.as_str()),
        (other, _) => other.label(),
    }
}

/// A title cell.
fn show_title(
    agent: &DashboardAgent,
    shape: Option<&TreeShape>,
    mark: &str,
    width: usize,
) -> (line: Line)
    ensures
        line@ == title_cell(
            agent@,
            match shape {
                Some(tree) => Some(*tree),
                None => None,
            },
            mark@,
            width as nat,
        ),
{
    let title = title_of(agent);
    let short = short_id_of(agent.id.as_str());
    let id = cat2(" #", short.as_str());
    let arrow: &str = match shape {
        Some(tree) => if !tree.expandable {
            "  "
        } else if tree.collapsed {
            "▸ "
        } else {
            "▾ "
        },
        None => "  ",
    };
    let prefix = match shape {
        Some(tree) => copy_of(tree.prefix.as_str()),
        None => String::new(),
    };
    let hidden = match shape {
        Some(tree) => if tree.collapsed {
            let count = count_text(tree.hidden);
            cat2(" +", count.as_str())
        } else {
            String::new()
        },
        None => String::new(),
    };
    let mut parts: Vec<String> = Vec::new();
    parts.push(copy_of(mark));
    parts.push(prefix);
    parts.push(copy_of(arrow));
    parts.push(title);
    parts.push(id);
    parts.push(hidden);
    let ghost view = match shape {
        Some(tree) => Some(*tree),
        None => None,
    };
    assert(views(parts@) =~= title_parts(agent@, view, mark@));
    let mut order: Vec<usize> = Vec::new();
    order.push(3);
    assert(order@ =~= seq![3usize]);
    let fitted = fit_parts(&parts, width, &order);
    let colors: Vec<Color> = vec![
        Color::Accent,
        Color::Dim,
        Color::Accent,
        Color::White,
        Color::Dim,
        Color::Accent,
    ];
    let mut spans: Vec<Span> = Vec::new();
    let mut i: usize = 0;
    while i < 6
        invariant
            i <= 6,
            fitted@.len() == 6,
            colors@ == title_colors(),
            spans@.len() == i,
            forall|j: int|
                0 <= j < i ==> (#[trigger] spans@[j])@ == sp(
                    fitted@[j]@,
                    ink(title_colors()[j]),
                ),
        decreases 6 - i,
    {
        spans.push(span(fitted[i].as_str(), Style::ink(colors[i])));
        i = i + 1;
    }
    let line = Line { spans };
    proof {
        let wanted = title_cell(agent@, view, mark@, width as nat);
        assert forall|j: int| 0 <= j < 6 implies line@[j] == wanted[j] by {
            assert(views(fitted@)[j] == fitted@[j]@);
        }
        assert(line@ =~= wanted);
    }
    line
}

impl Dashboard {
    /// A row of the run table.
    fn show_row(
        &self,
        agent: &DashboardAgent,
        shape: Option<&TreeShape>,
        widths: &Vec<usize>,
        started: &str,
    ) -> (row: RunRow)
        requires
            widths@.len() == 6,
            agent.stage_index < usize::MAX,
        ensures
            row@ == run_row(
                *self,
                agent@,
                match shape {
                    Some(tree) => Some(*tree),
                    None => None,
                },
                widths@,
                started@,
            ),
    {
        let mark: &str = if self.runs.marked.len() == 0 {
            ""
        } else if has_text(&self.runs.marked, agent.id.as_str()) {
            "✓ "
        } else {
            "  "
        };
        let title = show_title(agent, shape, mark, widths[0]);
        let spin = self.spinner_frame();
        let status = show_status(
            agent,
            spin.as_str(),
            self.screens.theme.waiting.as_str(),
            self.screens.theme.pending.as_str(),
        );
        let color = match &agent.wait_reason {
            Some(reason) => if reason.needs_person {
                Color::Status(agent.status.tone())
            } else {
                Color::Dim
            },
            None => Color::Status(agent.status.tone()),
        };
        let tokens = if agent.tokens_in == 0 && agent.tokens_out == 0 {
            copy_of("-")
        } else {
            let up = format_tokens(agent.tokens_in);
            let down = format_tokens(agent.tokens_out);
            cat4(up.as_str(), "↑ ", down.as_str(), "↓")
        };
        let status_cut = truncate(status.as_str(), widths[3]);
        RunRow {
            title,
            blueprint: truncate(agent.blueprint_name.as_str(), widths[1]),
            stage: show_stage(agent, widths[2]),
            status: styled(status_cut, Style::ink(color)),
            tokens,
            started: span(started, Style::ink(Color::Dim)),
        }
    }
}

// ── The table ────────────────────────────────────────────────────────────────

/// The run table: its title, the chips for the order and for the link to the
/// daemon, what it says where it has no rows, and its header and rows with the
/// widths they were cut to.
#[derive(Debug)]
pub struct AgentTable {
    pub title: String,
    pub sort_chip: String,
    pub daemon_chip: Option<Span>,
    pub header: Vec<Span>,
    pub focused: bool,
    pub empty: Option<String>,
    pub widths: Vec<usize>,
    pub rows: Vec<RunRow>,
}

/// The chip for the link to the daemon, while there is something to say of it.
pub open spec fn link_chip(chip: Option<(String, Color)>) -> Option<SpanView> {
    match chip {
        Some((text, color)) => Some(sp(text@, bold_ink(color))),
        None => None,
    }
}

/// The table's header.
pub open spec fn table_header() -> Seq<SpanView> {
    seq![
        sp("Title / ID"@, strong()),
        sp("Blueprint"@, strong()),
        sp("Stage"@, strong()),
        sp("Status"@, strong()),
        sp("Tokens"@, strong()),
        sp("Started"@, strong()),
    ]
}

/// The table's header.
fn show_table_header() -> (header: Vec<Span>)
    ensures
        views(header@) == table_header(),
{
    let mut header: Vec<Span> = Vec::new();
    header.push(span("Title / ID", Style::strong()));
    header.push(span("Blueprint", Style::strong()));
    header.push(span("Stage", Style::strong()));
    header.push(span("Status", Style::strong()));
    header.push(span("Tokens", Style::strong()));
    header.push(span("Started", Style::strong()));
    assert(views(header@) =~= table_header());
    header
}

/// What the table says where it has no rows.
pub open spec fn empty_table(runs: nat, shown: nat, query: Seq<char>) -> Option<Seq<char>> {
    if runs == 0 {
        Some("  No agent runs yet. Press `n` to start one, or `a` to build an agent."@)
    } else if shown == 0 {
        Some("  No agent runs match \""@ + query + "\"."@)
    } else {
        None
    }
}

/// The table's title: the filter with how many rows it leaves, and how many are
/// marked.
pub open spec fn table_title(
    query: Seq<char>,
    typing: bool,
    shown: nat,
    runs: nat,
    marked: nat,
) -> Seq<char> {
    let title = if query.len() > 0 {
        " Agent Runs  /"@ + query + "/  "@ + decimal(shown) + "/"@ + decimal(runs) + " "@
    } else if typing {
        " Agent Runs  /"@ + query + "▌ "@
    } else {
        " Agent Runs "@
    };
    if marked > 0 {
        trimmed_end(title) + " "@ + decimal(marked) + " marked "@
    } else {
        title
    }
}

/// The table's title.
fn show_table_title(query: &str, typing: bool, shown: usize, runs: usize, marked: usize) -> (title:
    String)
    ensures
        title@ == table_title(query@, typing, shown as nat, runs as nat, marked as nat),
{
    let title = if !query.is_empty() {
        let some = count_text(shown);
        let all = count_text(runs);
        let mut title = cat5(" Agent Runs  /", query, "/  ", some.as_str(), "/");
        title.append(all.as_str());
        title.append(" ");
        title
    } else if typing {
        cat3(" Agent Runs  /", query, "▌ ")
    } else {
        copy_of(" Agent Runs ")
    };
    if marked > 0 {
        let head = trim_end(title.as_str());
        let count = count_text(marked);
        cat4(head.as_str(), " ", count.as_str(), " marked ")
    } else {
        title
    }
}

/// The shape of a row, where there is one.
pub open spec fn shape_at(rows: Seq<TreeShape>, at: int) -> Option<TreeShape> {
    if at < rows.len() {
        Some(rows[at])
    } else {
        None
    }
}

/// The first `count` rows of the table.
pub open spec fn table_rows(
    dash: Dashboard,
    widths: Seq<usize>,
    started: Seq<String>,
    count: int,
) -> Seq<RowView>
    decreases count,
{
    if count <= 0 {
        Seq::empty()
    } else {
        table_rows(dash, widths, started, count - 1).push(
            run_row(
                dash,
                dash.runs.agents@[dash.runs.display_indices@[count - 1] as int]@,
                shape_at(dash.runs.tree_rows@, count - 1),
                widths,
                started[count - 1]@,
            ),
        )
    }
}

/// Whether every row on screen is a run of the list, with a stage that can be
/// counted.
pub open spec fn rows_are_runs(dash: Dashboard) -> bool {
    &&& forall|i: int|
        0 <= i < dash.runs.display_indices@.len() ==> (#[trigger] dash.runs.display_indices@[i])
            < dash.runs.agents@.len()
    &&& forall|i: int|
        0 <= i < dash.runs.agents@.len() ==> (#[trigger] dash.runs.agents@[i]).stage_index
            < usize::MAX
}

impl Dashboard {
    /// The rows of the run table, cut to `widths`. `started` says of each row
    /// how long ago its run started.
    pub fn agent_rows(&self, widths: &Vec<usize>, started: &Vec<String>) -> (rows: Vec<RunRow>)
        requires
            rows_are_runs(*self),
            widths@.len() == 6,
            started@.len() == self.runs.display_indices@.len(),
        ensures
            views(rows@) == table_rows(*self, widths@, started@, started@.len() as int),
    {
        let mut rows: Vec<RunRow> = Vec::new();
        let mut i: usize = 0;
        while i < started.len()
            invariant
                i <= started@.len(),
                rows_are_runs(*self),
                widths@.len() == 6,
                started@.len() == self.runs.display_indices@.len(),
                views(rows@) == table_rows(*self, widths@, started@, i as int),
            decreases started.len() - i,
        {
            let at: usize = self.runs.display_indices[i];
            let shape = if i < self.runs.tree_rows.len() {
                Some(&self.runs.tree_rows[i])
            } else {
                None
            };
            let row = self.show_row(&self.runs.agents[at], shape, widths, started[i].as_str());
            rows.push(row);
            i = i + 1;
        }
        rows
    }

    /// The run table over `area`, whose pane becomes one the wheel can be over.
    /// Its cells are cut to the columns that the layout gave.
    pub fn draw_agent_table(&mut self, area: Rect, started: &Vec<String>) -> (table: AgentTable)
        requires
            rows_are_runs(*old(self)),
            started@.len() == old(self).runs.display_indices@.len(),
        ensures
            *final(self) == (Dashboard {
                mouse: Mouse { pane_rects: final(self).mouse.pane_rects, ..old(self).mouse },
                ..*old(self)
            }),
            final(self).mouse.pane_rects@ == old(self).mouse.pane_rects@.push(
                (PaneId::RunTable, area),
            ),
            are_column_widths(table.widths@, area),
            views(table.rows@) == table_rows(
                *old(self),
                table.widths@,
                started@,
                started@.len() as int,
            ),
            table.title@ == table_title(
                old(self).runs.search_query@,
                old(self).runs.search_mode,
                old(self).runs.display_indices@.len(),
                old(self).runs.agents@.len(),
                old(self).runs.marked@.len(),
            ),
            table.sort_chip@ == " sort: "@ + old(self).runs.sort_label@ + " ▾ "@,
            match table.daemon_chip {
                Some(chip) => Some(chip@),
                None => None,
            } == link_chip(old(self).runs.daemon_chip),
            views(table.header@) == table_header(),
            table.focused == (old(self).screens.main_focus == MainPane::RunList),
            crate::text::opt_text(table.empty) == empty_table(
                old(self).runs.agents@.len(),
                old(self).runs.display_indices@.len(),
                old(self).runs.search_query@,
            ),
    {
        let widths = table_column_widths(area);
        let rows = self.agent_rows(&widths, started);
        let empty = if self.runs.agents.len() == 0 {
            Some(copy_of("  No agent runs yet. Press `n` to start one, or `a` to build an agent."))
        } else if self.runs.display_indices.len() == 0 {
            Some(cat3("  No agent runs match \"", self.runs.search_query.as_str(), "\"."))
        } else {
            None
        };
        let title = show_table_title(
            self.runs.search_query.as_str(),
            self.runs.search_mode,
            self.runs.display_indices.len(),
            self.runs.agents.len(),
            self.runs.marked.len(),
        );
        let sort_chip = cat3(" sort: ", self.runs.sort_label.as_str(), " ▾ ");
        let daemon_chip = match &self.runs.daemon_chip {
            Some((text, color)) => Some(span(text.as_str(), Style::bold_ink(*color))),
            None => None,
        };
        let header = show_table_header();
        let focused = self.screens.main_focus == MainPane::RunList;
        self.mouse.pane_rects.push((PaneId::RunTable, area));
        AgentTable { title, sort_chip, daemon_chip, header, focused, empty, widths, rows }
    }
}

// ── Targets ──────────────────────────────────────────────────────────────────

/// Where the fold arrow of a row begins.
pub open spec fn arrow_column(area: Rect, any_marked: bool, prefix: Seq<char>) -> int {
    area.x + 1 + (if any_marked {
        2int
    } else {
        0int
    }) + columns(prefix) % 65_536
}

/// The targets of a row on screen: the row, and its fold arrow where it has one
/// that fits.
pub open spec fn row_clicks(
    area: Rect,
    any_marked: bool,
    shape: Option<TreeShape>,
    y: u16,
    at: int,
) -> Seq<(Rect, ClickTarget)> {
    let row = seq![
        (Rect { x: area.x, y, width: area.width, height: 1 }, ClickTarget::RunRow(at as usize)),
    ];
    match shape {
        Some(tree) => {
            let column = arrow_column(area, any_marked, tree.prefix@);
            if tree.expandable && column + 2 <= area.x + area.width {
                row.push(
                    (
                        Rect { x: column as u16, y, width: 2, height: 1 },
                        ClickTarget::RunToggle(at as usize),
                    ),
                )
            } else {
                row
            }
        },
        None => row,
    }
}

/// The targets of the first `count` rows on screen, with `offset` scrolled off
/// above.
pub open spec fn table_clicks(
    area: Rect,
    any_marked: bool,
    shapes: Seq<TreeShape>,
    offset: int,
    count: int,
) -> Seq<(Rect, ClickTarget)>
    decreases count,
{
    if count <= 0 {
        Seq::empty()
    } else {
        table_clicks(area, any_marked, shapes, offset, count - 1) + row_clicks(
            area,
            any_marked,
            shape_at(shapes, offset + count - 1),
            (area.y + 2 + (count - 1)) as u16,
            offset + count - 1,
        )
    }
}

/// How many rows are on screen: those that fit under the header, of those that
/// are left below the offset.
pub open spec fn rows_on_screen(area: Rect, rows: nat, offset: nat) -> int {
    let room = if area.height < 3 {
        0
    } else {
        area.height - 3
    };
    let left = if rows > offset {
        rows - offset
    } else {
        0
    };
    if room < left {
        room
    } else {
        left
    }
}

/// Add the targets of a row on screen.
fn add_row_clicks(
    targets: &mut Vec<(Rect, ClickTarget)>,
    area: Rect,
    any_marked: bool,
    shape: Option<&TreeShape>,
    y: u16,
    at: usize,
)
    requires
        area.x + area.width <= u16::MAX,
    ensures
        final(targets)@ == old(targets)@ + row_clicks(
            area,
            any_marked,
            match shape {
                Some(tree) => Some(*tree),
                None => None,
            },
            y,
            at as int,
        ),
{
    let ghost before = targets@;
    targets.push((Rect::new(area.x, y, area.width, 1), ClickTarget::RunRow(at)));
    match shape {
        Some(tree) => {
            let prefix: usize = display_width(tree.prefix.as_str()) % 65_536;
            let lead: u128 = area.x as u128 + 1 + if any_marked {
                2
            } else {
                0
            };
            let column: u128 = lead + prefix as u128;
            if tree.expandable && column + 2 <= area.x as u128 + area.width as u128 {
                targets.push((Rect::new(column as u16, y, 2, 1), ClickTarget::RunToggle(at)));
            }
        },
        None => {},
    }
    proof {
        let shape_view = match shape {
            Some(tree) => Some(*tree),
            None => None,
        };
        assert(targets@ =~= before + row_clicks(area, any_marked, shape_view, y, at as int));
    }
}

impl Dashboard {
    /// Register a click target per row on screen, and a second one over its
    /// fold arrow. `offset` is how far the table has scrolled.
    pub fn register_run_row_clicks(&mut self, area: Rect, any_marked: bool, offset: usize)
        requires
            area.x + area.width <= u16::MAX,
            area.y + area.height <= u16::MAX,
        ensures
            *final(self) == (Dashboard {
                mouse: Mouse { click_targets: final(self).mouse.click_targets, ..old(self).mouse },
                ..*old(self)
            }),
            final(self).mouse.click_targets@ == old(self).mouse.click_targets@ + table_clicks(
                area,
                any_marked,
                old(self).runs.tree_rows@,
                offset as int,
                rows_on_screen(area, old(self).runs.display_indices@.len(), offset as nat),
            ),
    {
        let left: usize = self.runs.display_indices.len().saturating_sub(offset);
        let room: usize = area.height.saturating_sub(3) as usize;
        let count: usize = if room < left {
            room
        } else {
            left
        };
        let ghost before = self.mouse.click_targets@;
        let ghost whole = *self;
        let targets = &mut self.mouse.click_targets;
        let shapes: &Vec<TreeShape> = &self.runs.tree_rows;
        let mut screen: usize = 0;
        assert(targets@ =~= before + Seq::<(Rect, ClickTarget)>::empty());
        while screen < count
            invariant
                screen <= count,
                count <= room,
                room <= u16::MAX,
                count > 0 ==> count <= area.height - 3,
                area.x + area.width <= u16::MAX,
                area.y + area.height <= u16::MAX,
                offset + count <= usize::MAX,
                targets@ == before + table_clicks(
                    area,
                    any_marked,
                    shapes@,
                    offset as int,
                    screen as int,
                ),
            decreases count - screen,
        {
            let at: usize = offset + screen;
            let shape = if at < shapes.len() {
                Some(&shapes[at])
            } else {
                None
            };
            let y: u16 = area.y + 2 + screen as u16;
            let ghost done = table_clicks(area, any_marked, shapes@, offset as int, screen as int);
            add_row_clicks(targets, area, any_marked, shape, y, at);
            proof {
                let next = row_clicks(
                    area,
                    any_marked,
                    shape_at(shapes@, at as int),
                    y,
                    at as int,
                );
                assert((before + done) + next =~= before + (done + next));
            }
            screen = screen + 1;
        }
    }
}

// ── The log panel ────────────────────────────────────────────────────────────

/// The log panel: its title, whether it is scrolled back, whether it has the
/// keys, its lines, and the scroll bar's range and place where there is more
/// than fits.
#[derive(Debug)]
pub struct LogPanel {
    pub title: String,
    pub scrolled_back: bool,
    pub focused: bool,
    pub lines: Vec<Line>,
    pub scrollbar: Option<(usize, usize)>,
}

/// A line of the log.
pub open spec fn log_entry_line(entry: LogView) -> Seq<SpanView> {
    seq![sp(" "@ + entry.timestamp + " "@, ink(Color::Dim)), sp(entry.message, ink(Color::Muted))]
}

/// The lines of the log from `from` up to `to`.
pub open spec fn log_window(log: Seq<LogView>, from: int, to: int) -> Seq<Seq<SpanView>> {
    Seq::new((to - from) as nat, |i: int| log_entry_line(log[from + i]))
}

/// The log panel's title.
pub open spec fn log_title(scroll: LogScroll) -> Seq<char> {
    if scroll.at_tail() {
        " Log "@
    } else {
        " Log  ↑"@ + decimal(scroll.offset_from_tail as nat) + " (End resumes) "@
    }
}

/// The lines of the log from `from` up to `to`.
fn show_log_window(log: &Vec<LogEntry>, from: usize, to: usize) -> (lines: Vec<Line>)
    requires
        from <= to <= log@.len(),
    ensures
        views(lines@) == log_window(views(log@), from as int, to as int),
{
    let mut lines: Vec<Line> = Vec::new();
    let mut i: usize = from;
    while i < to
        invariant
            from <= i <= to <= log@.len(),
            lines@.len() == i - from,
            forall|j: int|
                0 <= j < i - from ==> (#[trigger] lines@[j])@ == log_entry_line(
                    log@[from + j]@,
                ),
        decreases to - i,
    {
        let entry = &log[i];
        let time = cat3(" ", entry.timestamp.as_str(), " ");
        lines.push(
            line2(
                styled(time, Style::ink(Color::Dim)),
                span(entry.message.as_str(), Style::ink(Color::Muted)),
            ),
        );
        i = i + 1;
    }
    assert(views(lines@) =~= log_window(views(log@), from as int, to as int));
    lines
}

impl Dashboard {
    /// The log panel over `area`, which becomes one the wheel can be over and a
    /// target of the mouse.
    pub fn draw_log_panel(&mut self, area: Rect) -> (panel: LogPanel)
        ensures
            ({
                let viewport = crate::render::content::inner_rows(area);
                let scroll = old(self).notes.log_scroll;
                let len = old(self).notes.log@.len();
                let shown = scroll.shown(len as int, viewport as int);
                &&& *final(self) == (Dashboard {
                    notes: Notes { log_viewport: viewport as usize, ..old(self).notes },
                    mouse: Mouse {
                        pane_rects: final(self).mouse.pane_rects,
                        click_targets: final(self).mouse.click_targets,
                        ..old(self).mouse
                    },
                    ..*old(self)
                })
                &&& final(self).mouse.pane_rects@ == old(self).mouse.pane_rects@.push(
                    (PaneId::LogPanel, area),
                )
                &&& final(self).mouse.click_targets@ == old(self).mouse.click_targets@.push(
                    (area, ClickTarget::LogPanel),
                )
                &&& views(panel.lines@) == log_window(
                    views(old(self).notes.log@),
                    shown.0,
                    shown.1,
                )
                &&& panel.title@ == log_title(scroll)
                &&& panel.scrolled_back == !scroll.at_tail()
                &&& panel.focused == (old(self).screens.main_focus == MainPane::LogPane)
                &&& panel.scrollbar == if len > viewport && viewport > 0 {
                    Some(((len - viewport) as usize, shown.0 as usize))
                } else {
                    None
                }
            }),
    {
        self.mouse.pane_rects.push((PaneId::LogPanel, area));
        self.register_click(area, ClickTarget::LogPanel);
        let viewport: usize = area.height.saturating_sub(2) as usize;
        self.notes.log_viewport = viewport;
        let len: usize = self.notes.log.len();
        let (from, to) = self.notes.log_scroll.window(len, viewport);
        let lines = show_log_window(&self.notes.log, from, to);
        let scrolled_back = !self.notes.log_scroll.is_tailing();
        let title = if scrolled_back {
            let back = count_text(self.notes.log_scroll.offset_from_tail);
            cat3(" Log  ↑", back.as_str(), " (End resumes) ")
        } else {
            copy_of(" Log ")
        };
        LogPanel {
            title,
            scrolled_back,
            focused: self.screens.main_focus == MainPane::LogPane,
            lines,
            scrollbar: if len > viewport && viewport > 0 {
                Some((len - viewport, from))
            } else {
                None
            },
        }
    }
}

} // verus!
