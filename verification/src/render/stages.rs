//! The stage strip: one tab per stage, and what a click on each opens.

use crate::state::{Dashboard, Mouse};
use crate::style::{
    bold_ink, ink, line3, line4, line_columns, plain, plus, sp, span, styled, Color, Line, Rect,
    Span, SpanView, Style,
};
use crate::text::{cat2, cat4, copy_of, count_text, decimal, truncate, truncated};
use crate::types::{
    AgentDisplayStatus, AgentView, ClickTarget, DashboardAgent, StageRecord, StageRunStatus,
    StatusView,
};
use crate::views::{group_views, views};
use vstd::prelude::*;

verus! {

broadcast use group_views;

/// The most a stage name may take on the strip.
pub const STAGE_LABEL_MAX_W: usize = 32;

/// The least a stage name gets.
pub const STAGE_LABEL_MIN_W: usize = 10;

/// What a tab costs besides its name: the status glyph and its space, the live
/// marker, a duration, the padding and the divider to the next tab.
pub const STAGE_TAB_OVERHEAD: usize = 16;

/// The columns a stage name may take on a strip `inner_width` wide with `tabs`
/// tabs: its share less what a tab costs besides, between the least and the most.
pub open spec fn label_width(inner_width: int, tabs: int) -> int {
    let share = inner_width / (if tabs == 0 {
        1
    } else {
        tabs
    }) - STAGE_TAB_OVERHEAD;
    if share < STAGE_LABEL_MIN_W {
        STAGE_LABEL_MIN_W as int
    } else if share > STAGE_LABEL_MAX_W {
        STAGE_LABEL_MAX_W as int
    } else {
        share
    }
}

/// How many columns each stage name may take on the strip.
pub fn stage_label_width(inner_width: u16, tabs: usize) -> (width: usize)
    ensures
        width == label_width(inner_width as int, tabs as int),
        STAGE_LABEL_MIN_W <= width <= STAGE_LABEL_MAX_W,
{
    let per_tab: usize = inner_width as usize / (if tabs == 0 {
        1
    } else {
        tabs
    });
    let share: usize = per_tab.saturating_sub(STAGE_TAB_OVERHEAD);
    if share < STAGE_LABEL_MIN_W {
        STAGE_LABEL_MIN_W
    } else if share > STAGE_LABEL_MAX_W {
        STAGE_LABEL_MAX_W
    } else {
        share
    }
}

/// More tabs never leave a name more room.
pub proof fn more_tabs_leave_less_room(inner_width: int, few: int, many: int)
    requires
        0 <= inner_width,
        0 < few <= many,
    ensures
        label_width(inner_width, many) <= label_width(inner_width, few),
{
    assert(inner_width / many <= inner_width / few) by (nonlinear_arith)
        requires
            0 <= inner_width,
            0 < few <= many,
    ;
}

// ── Titles ───────────────────────────────────────────────────────────────────

/// The marks of the theme, as texts.
pub struct Glyphs {
    pub spin: Seq<char>,
    pub complete: Seq<char>,
    pub waiting: Seq<char>,
    pub error: Seq<char>,
    pub pending: Seq<char>,
}

/// The marks a tab is drawn with at this tick.
pub open spec fn glyphs_of(dash: Dashboard) -> Glyphs {
    Glyphs {
        spin: dash.spin(),
        complete: dash.screens.theme.complete@,
        waiting: dash.screens.theme.waiting@,
        error: dash.screens.theme.error@,
        pending: dash.screens.theme.pending@,
    }
}

/// A mark before a name.
pub open spec fn mark(glyph: Seq<char>, color: Color) -> SpanView {
    sp(glyph + " "@, ink(color))
}

/// The mark of a stage that is known by its number only.
pub open spec fn plain_mark(glyphs: Glyphs, agent: AgentView, i: int) -> SpanView {
    if i < agent.stage_index {
        mark(glyphs.complete, Color::Success)
    } else if i == agent.stage_index {
        match agent.status {
            StatusView::Active => mark(glyphs.spin, Color::Active),
            StatusView::Waiting => mark(glyphs.waiting, Color::Warn),
            StatusView::Error(_) => mark(glyphs.error, Color::Error),
            _ => mark(glyphs.complete, Color::Success),
        }
    } else {
        mark(glyphs.pending, Color::Dim)
    }
}

/// The tab of a stage that is known by its number only: the current one has the
/// run's name for it.
pub open spec fn plain_tab(glyphs: Glyphs, agent: AgentView, i: int, width: nat) -> Seq<SpanView> {
    let current = i == agent.stage_index;
    seq![
        plain_mark(glyphs, agent, i),
        if current {
            sp(truncated(agent.stage, width), bold_ink(Color::White))
        } else {
            sp("stage "@ + decimal((i + 1) as nat), ink(Color::Muted))
        },
        if current && !agent.status.over() {
            sp("*"@, ink(Color::Warn))
        } else {
            sp(""@, plain())
        },
    ]
}

/// Whether a stage's time is shown: it has ended, or it is the one that runs.
pub open spec fn shows_time(stage: StageRecord, current: bool) -> bool {
    stage.started_at is Some && (stage.ended_at is Some || (stage.status == StageRunStatus::Active
        && current))
}

/// A stage's time on its tab.
pub open spec fn tab_time(stage: StageRecord, current: bool, time: Seq<char>) -> Seq<char> {
    if shows_time(stage, current) {
        " "@ + time
    } else {
        Seq::empty()
    }
}

/// The mark of a recorded stage. One that is left active while the run is over,
/// or has moved on, is drawn as complete.
pub open spec fn stage_mark(glyphs: Glyphs, status: StageRunStatus) -> SpanView {
    match status {
        StageRunStatus::Pending | StageRunStatus::Skipped => mark(glyphs.pending, Color::Dim),
        StageRunStatus::Active | StageRunStatus::Complete => mark(
            glyphs.complete,
            Color::Success,
        ),
        StageRunStatus::WaitingInput => mark(glyphs.waiting, Color::Warn),
        StageRunStatus::Error => mark(glyphs.error, Color::Error),
    }
}

/// The tab of a recorded stage.
pub open spec fn stage_tab(
    glyphs: Glyphs,
    agent: AgentView,
    stage: StageRecord,
    i: int,
    width: nat,
    time: Seq<char>,
) -> Seq<SpanView> {
    let current = i == agent.stage_index;
    let live = current && !agent.status.over();
    let shown_time = sp(tab_time(stage, current, time), ink(Color::Dim));
    let name = truncated(stage.name@, width);
    if live && stage.status == StageRunStatus::Active {
        seq![
            mark(glyphs.spin, Color::Active),
            sp(name, bold_ink(Color::White)),
            sp("*"@, ink(Color::Warn)),
            shown_time,
        ]
    } else {
        seq![
            stage_mark(glyphs, stage.status),
            if live {
                sp(name, bold_ink(Color::White))
            } else {
                sp(name, ink(Color::Muted))
            },
            shown_time,
        ]
    }
}

/// A mark before a name.
fn show_mark(glyph: &str, color: Color) -> (shown: Span)
    ensures
        shown@ == mark(glyph@, color),
{
    let text = cat2(glyph, " ");
    styled(text, Style::ink(color))
}

impl Dashboard {
    /// The tab of a stage that is known by its number only.
    fn show_plain_tab(&self, agent: &DashboardAgent, i: usize, width: usize) -> (line: Line)
        requires
            i < usize::MAX,
        ensures
            line@ == plain_tab(glyphs_of(*self), agent@, i as int, width as nat),
    {
        let current = i == agent.stage_index;
        let glyph = if i < agent.stage_index {
            show_mark(self.screens.theme.complete.as_str(), Color::Success)
        } else if current {
            match &agent.status {
                AgentDisplayStatus::Active => {
                    let spin = self.spinner_frame();
                    show_mark(spin.as_str(), Color::Active)
                },
                AgentDisplayStatus::Waiting => show_mark(
                    self.screens.theme.waiting.as_str(),
                    Color::Warn,
                ),
                AgentDisplayStatus::Error(_) => show_mark(
                    self.screens.theme.error.as_str(),
                    Color::Error,
                ),
                _ => show_mark(self.screens.theme.complete.as_str(), Color::Success),
            }
        } else {
            show_mark(self.screens.theme.pending.as_str(), Color::Dim)
        };
        let label = if current {
            styled(truncate(agent.stage.as_str(), width), Style::bold_ink(Color::White))
        } else {
            let place = count_text(i + 1);
            styled(cat2("stage ", place.as_str()), Style::ink(Color::Muted))
        };
        let live = if current && !agent.status.is_over() {
            span("*", Style::ink(Color::Warn))
        } else {
            span("", Style::plain())
        };
        line3(glyph, label, live)
    }

    /// The tab of a recorded stage. `time` is how long the stage has been
    /// working, spelled out.
    pub fn build_stage_tab_title(
        &self,
        i: usize,
        stage: &StageRecord,
        agent: &DashboardAgent,
        width: usize,
        time: &str,
    ) -> (line: Line)
        ensures
            line@ == stage_tab(
                glyphs_of(*self),
                agent@,
                *stage,
                i as int,
                width as nat,
                time@,
            ),
    {
        let current = i == agent.stage_index;
        let live = current && !agent.status.is_over();
        let timed = stage.started_at.is_some() && (stage.ended_at.is_some() || (stage.status
            == StageRunStatus::Active && current));
        let shown_time = if timed {
            cat2(" ", time)
        } else {
            String::new()
        };
        let dur = styled(shown_time, Style::ink(Color::Dim));
        let name = truncate(stage.name.as_str(), width);
        if live && stage.status == StageRunStatus::Active {
            let spin = self.spinner_frame();
            return line4(
                show_mark(spin.as_str(), Color::Active),
                styled(name, Style::bold_ink(Color::White)),
                span("*", Style::ink(Color::Warn)),
                dur,
            );
        }
        let glyph = match stage.status {
            StageRunStatus::Pending | StageRunStatus::Skipped => show_mark(
                self.screens.theme.pending.as_str(),
                Color::Dim,
            ),
            StageRunStatus::Active | StageRunStatus::Complete => show_mark(
                self.screens.theme.complete.as_str(),
                Color::Success,
            ),
            StageRunStatus::WaitingInput => show_mark(
                self.screens.theme.waiting.as_str(),
                Color::Warn,
            ),
            StageRunStatus::Error => show_mark(self.screens.theme.error.as_str(), Color::Error),
        };
        let label = if live {
            styled(name, Style::bold_ink(Color::White))
        } else {
            styled(name, Style::ink(Color::Muted))
        };
        line3(glyph, label, dur)
    }
}

// ── The strip ────────────────────────────────────────────────────────────────

/// How many tabs a run has: one per recorded stage, else one per stage it says
/// it has, and at least one.
pub open spec fn tab_count(agent: AgentView) -> nat {
    if agent.stages@.len() > 0 {
        agent.stages@.len()
    } else if agent.num_stages > 0 {
        agent.num_stages as nat
    } else {
        1
    }
}

/// The first `count` tabs. `times` says of each recorded stage how long it has
/// been working.
pub open spec fn tab_lines(
    glyphs: Glyphs,
    agent: AgentView,
    times: Seq<String>,
    width: nat,
    count: int,
) -> Seq<Seq<SpanView>>
    decreases count,
{
    if count <= 0 {
        Seq::empty()
    } else {
        tab_lines(glyphs, agent, times, width, count - 1).push(
            if agent.stages@.len() > 0 {
                stage_tab(
                    glyphs,
                    agent,
                    agent.stages@[count - 1],
                    count - 1,
                    width,
                    times[count - 1]@,
                )
            } else {
                plain_tab(glyphs, agent, count - 1, width)
            },
        )
    }
}

/// The strip's title: where the selection is, and the way to the graph.
pub open spec fn strip_title(tabs: nat, selected: nat, has_graph: bool) -> Seq<char> {
    let place = if tabs > 1 {
        " ←/→ to switch  stage "@ + decimal(selected + 1) + "/"@ + decimal(tabs)
    } else {
        " stage 1/1"@
    };
    " Stages"@ + if has_graph {
        place + "  ·  [g] graph"@
    } else {
        place
    }
}

/// How many columns a tab takes with its padding, held at the widest.
pub open spec fn tab_width(line: Seq<SpanView>) -> u16 {
    if line_columns(line) + 2 > u16::MAX {
        u16::MAX
    } else {
        (line_columns(line) + 2) as u16
    }
}

/// The targets of the tabs from `from` on, the first of them at `column`: each
/// is as wide as its title and padding, as far as the strip goes.
pub open spec fn tab_targets(
    lines: Seq<Seq<SpanView>>,
    area: Rect,
    from: int,
    column: u16,
) -> Seq<(Rect, ClickTarget)>
    decreases lines.len() - from,
{
    let right = plus(area.x, area.width);
    if from < 0 || from >= lines.len() || column >= right {
        Seq::empty()
    } else {
        let width = tab_width(lines[from]);
        let room = (right - column) as u16;
        seq![
            (
                Rect {
                    x: column,
                    y: plus(area.y, 1),
                    width: if width < room {
                        width
                    } else {
                        room
                    },
                    height: 1,
                },
                ClickTarget::StageTab(from as usize),
            ),
        ] + tab_targets(lines, area, from + 1, plus(plus(column, width), 3))
    }
}

/// The stage strip: its tabs, its title, and the tab that is selected.
#[derive(Debug)]
pub struct StageStrip {
    pub tabs: Vec<Line>,
    pub title: String,
    pub selected: usize,
}

/// The tab that is selected: the one the view is on, or the last.
pub open spec fn selected_tab(at: usize, tabs: nat) -> int {
    if at < tabs {
        at as int
    } else {
        tabs - 1
    }
}

/// Whether `strip` is the strip of a run over `area`, and drawing it made each
/// tab a target and changed nothing else.
pub open spec fn strip_drawn(
    before: Dashboard,
    after: Dashboard,
    strip: StageStrip,
    area: Rect,
    agent: AgentView,
    times: Seq<String>,
) -> bool {
    let tabs = tab_count(agent);
    let width = label_width(
        if area.width < 2 {
            0
        } else {
            area.width - 2
        },
        tabs as int,
    );
    let lines = tab_lines(glyphs_of(before), agent, times, width as nat, tabs as int);
    &&& views(strip.tabs@) == lines
    &&& strip.selected == selected_tab(before.detail.selected_stage, tabs)
    &&& strip.title@ == strip_title(tabs, strip.selected as nat, agent.graph is Some)
    &&& after == (Dashboard {
        mouse: Mouse { click_targets: after.mouse.click_targets, ..before.mouse },
        ..before
    })
    &&& after.mouse.click_targets@ == before.mouse.click_targets@ + tab_targets(
        lines,
        area,
        0,
        plus(area.x, 1),
    )
}

/// Add the targets of the tabs.
fn add_tabs(targets: &mut Vec<(Rect, ClickTarget)>, lines: &Vec<Line>, area: Rect)
    ensures
        final(targets)@ == old(targets)@ + tab_targets(views(lines@), area, 0, plus(area.x, 1)),
{
    let ghost before = targets@;
    let right: u16 = area.x.saturating_add(area.width);
    let mut column: u16 = area.x.saturating_add(1);
    let mut i: usize = 0;
    while i < lines.len() && column < right
        invariant
            i <= lines@.len(),
            right == plus(area.x, area.width),
            targets@ + tab_targets(views(lines@), area, i as int, column) == before + tab_targets(
                views(lines@),
                area,
                0,
                plus(area.x, 1),
            ),
        decreases lines.len() - i,
    {
        let natural: usize = lines[i].width();
        let width: u16 = if natural > 65_533 {
            u16::MAX
        } else {
            natural as u16 + 2
        };
        let room: u16 = right - column;
        let ghost so_far = targets@;
        let target = (
            Rect {
                x: column,
                y: area.y.saturating_add(1),
                width: if width < room {
                    width
                } else {
                    room
                },
                height: 1,
            },
            ClickTarget::StageTab(i),
        );
        targets.push(target);
        let next: u16 = column.saturating_add(width).saturating_add(3);
        proof {
            assert(views(lines@)[i as int] == lines@[i as int]@);
            let rest = tab_targets(views(lines@), area, i as int + 1, next);
            assert(tab_targets(views(lines@), area, i as int, column) == seq![target] + rest);
            assert(so_far + (seq![target] + rest) =~= so_far.push(target) + rest);
        }
        column = next;
        i = i + 1;
    }
    proof {
        assert(tab_targets(views(lines@), area, i as int, column)
            =~= Seq::<(Rect, ClickTarget)>::empty());
        assert(targets@ + Seq::<(Rect, ClickTarget)>::empty() =~= targets@);
    }
}

impl Dashboard {
    /// The tabs of a run.
    fn stage_tabs(&self, agent: &DashboardAgent, times: &Vec<String>, width: usize) -> (tabs: Vec<
        Line,
    >)
        requires
            times@.len() == agent.stages@.len(),
        ensures
            views(tabs@) == tab_lines(
                glyphs_of(*self),
                agent@,
                times@,
                width as nat,
                tab_count(agent@) as int,
            ),
    {
        let recorded = agent.stages.len() > 0;
        let count: usize = if recorded {
            agent.stages.len()
        } else if agent.num_stages > 0 {
            agent.num_stages
        } else {
            1
        };
        let mut tabs: Vec<Line> = Vec::new();
        let mut i: usize = 0;
        while i < count
            invariant
                i <= count,
                count == tab_count(agent@),
                recorded == (agent.stages@.len() > 0),
                times@.len() == agent.stages@.len(),
                views(tabs@) == tab_lines(
                    glyphs_of(*self),
                    agent@,
                    times@,
                    width as nat,
                    i as int,
                ),
            decreases count - i,
        {
            let tab = if recorded {
                self.build_stage_tab_title(i, &agent.stages[i], agent, width, times[i].as_str())
            } else {
                self.show_plain_tab(agent, i, width)
            };
            tabs.push(tab);
            i = i + 1;
        }
        tabs
    }

    /// The stage strip over `area`, with each tab a target of the mouse. `times`
    /// says of each recorded stage how long it has been working.
    pub fn draw_linear_tabs(&mut self, area: Rect, agent: &DashboardAgent, times: &Vec<String>) -> (
    strip: StageStrip)
        requires
            times@.len() == agent.stages@.len(),
        ensures
            strip_drawn(*old(self), *final(self), strip, area, agent@, times@),
    {
        let count: usize = if agent.stages.len() > 0 {
            agent.stages.len()
        } else if agent.num_stages > 0 {
            agent.num_stages
        } else {
            1
        };
        let width: usize = stage_label_width(area.width.saturating_sub(2), count);
        let tabs = self.stage_tabs(agent, times, width);
        proof {
            tab_lines_len(
                glyphs_of(*self),
                agent@,
                times@,
                width as nat,
                tab_count(agent@) as int,
            );
        }
        let selected: usize = if self.detail.selected_stage < count {
            self.detail.selected_stage
        } else {
            count - 1
        };
        let mut title = if count > 1 {
            let place = count_text(selected + 1);
            let total = count_text(count);
            cat4(" ←/→ to switch  stage ", place.as_str(), "/", total.as_str())
        } else {
            copy_of(" stage 1/1")
        };
        if agent.graph.is_some() {
            title.append("  ·  [g] graph");
        }
        let whole = cat2(" Stages", title.as_str());
        add_tabs(&mut self.mouse.click_targets, &tabs, area);
        StageStrip { tabs, title: whole, selected }
    }

    /// The stage row: the graph band where it has the rows for one and one could
    /// be drawn, else the strip.
    pub fn render_stage_tabs(
        &mut self,
        area: Rect,
        agent: &DashboardAgent,
        times: &Vec<String>,
        band_height: u16,
        band_drawn: bool,
    ) -> (strip: Option<StageStrip>)
        requires
            times@.len() == agent.stages@.len(),
        ensures
            strip is None <==> (area.height >= band_height && band_drawn),
            strip is None ==> *final(self) == *old(self),
            strip matches Some(s) ==> strip_drawn(
                *old(self),
                *final(self),
                s,
                area,
                agent@,
                times@,
            ),
    {
        if area.height >= band_height && band_drawn {
            return None;
        }
        Some(self.draw_linear_tabs(area, agent, times))
    }
}

/// There are as many tabs as were asked for.
proof fn tab_lines_len(
    glyphs: Glyphs,
    agent: AgentView,
    times: Seq<String>,
    width: nat,
    count: int,
)
    requires
        0 <= count,
    ensures
        tab_lines(glyphs, agent, times, width, count).len() == count,
    decreases count,
{
    if count > 0 {
        tab_lines_len(glyphs, agent, times, width, count - 1);
    }
}

/// A click on the strip never opens past its edge: every target lies within the
/// strip's columns.
pub proof fn tabs_stay_on_the_strip(
    lines: Seq<Seq<SpanView>>,
    area: Rect,
    from: int,
    column: u16,
    at: int,
)
    requires
        0 <= from,
        0 <= at < tab_targets(lines, area, from, column).len(),
    ensures
        ({
            let rect = tab_targets(lines, area, from, column)[at].0;
            column <= rect.x && rect.x + rect.width <= plus(area.x, area.width)
        }),
        tab_targets(lines, area, from, column)[at].1 == ClickTarget::StageTab(
            (from + at) as usize,
        ),
    decreases lines.len() - from,
{
    if at > 0 {
        tabs_stay_on_the_strip(
            lines,
            area,
            from + 1,
            plus(plus(column, tab_width(lines[from])), 3),
            at - 1,
        );
    }
}

} // verus!
