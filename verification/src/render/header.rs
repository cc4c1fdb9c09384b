//! The detail view's header: the breadcrumb, and the strip with the task and the
//! run's figures.

use crate::fit::{count_columns, fit_parts, fitted_row, total_columns};
use crate::numbers::{format_tokens, share, share_percent, token_figure};
use crate::render::content::{shorten_home_path, shortened};
use crate::state::Dashboard;
use crate::style::{
    bold_ink, ink, line2, sp, span, styled, Color, Line, Rect, Span, SpanView, Style,
};
use crate::text::{
    cat2, cat3, cat4, copy_of, count_text, decimal, drop_leading, number, trim, trimmed, truncate,
    truncated, without_leading,
};
use crate::types::{AgentDisplayStatus, AgentView, DashboardAgent, StageRecord, StatusView};
use crate::views::{group_views, views};
use vstd::prelude::*;

verus! {

broadcast use group_views;

// ── Breadcrumb ───────────────────────────────────────────────────────────────

/// How a run stands, with the spinner while it is going.
pub open spec fn status_text(status: StatusView, spin: Seq<char>) -> Seq<char> {
    if status is Active {
        spin + " "@ + status.label()
    } else {
        status.label()
    }
}

/// What the header calls a run: its title, else its blueprint, without heading
/// marks.
pub open spec fn header_title(agent: AgentView) -> Seq<char> {
    trimmed(
        without_leading(
            match agent.title {
                Some(title) => title,
                None => agent.blueprint_name,
            },
            '#',
        ),
    )
}

/// What is said of scripts that could not be used.
pub open spec fn broken_note(broken: nat) -> Seq<char> {
    if broken == 0 {
        Seq::empty()
    } else {
        " · ⚠ "@ + decimal(broken) + " broken script"@ + if broken == 1 {
            ""@
        } else {
            "s"@
        }
    }
}

/// The parts of the breadcrumb, in order.
pub open spec fn breadcrumb_parts(
    agent: AgentView,
    spin: Seq<char>,
    elapsed: Seq<char>,
    age: Seq<char>,
) -> Seq<Seq<char>> {
    seq![
        " "@,
        header_title(agent),
        " · "@,
        status_text(agent.status, spin),
        " · "@,
        token_figure(agent.tokens_in as nat) + "↑"@,
        " "@ + token_figure(agent.tokens_out as nat) + "↓"@,
        " · "@ + elapsed + " work"@,
        " · "@ + age + " old "@,
        if agent.accepts_messages {
            "💬 "@
        } else {
            "🔇 "@
        },
        "· "@,
        agent.id,
        broken_note(agent.broken_scripts.len()),
    ]
}

/// The styles of the breadcrumb's parts.
pub open spec fn breadcrumb_styles(agent: AgentView) -> Seq<Style> {
    seq![
        ink(Color::Dim),
        bold_ink(Color::White),
        ink(Color::Dim),
        bold_ink(Color::Status(agent.status.tone())),
        ink(Color::Dim),
        ink(Color::Dim),
        ink(Color::Dim),
        ink(Color::Dim),
        ink(Color::Dim),
        if agent.accepts_messages {
            ink(Color::Success)
        } else {
            ink(Color::Dim)
        },
        ink(Color::Dim),
        ink(Color::Dim),
        bold_ink(Color::Warn),
    ]
}

/// The breadcrumb on a row `width` columns wide: the title gives way first, then
/// the status, and nothing else.
pub open spec fn breadcrumb(
    agent: AgentView,
    spin: Seq<char>,
    elapsed: Seq<char>,
    age: Seq<char>,
    width: nat,
) -> Seq<SpanView> {
    let fitted = fitted_row(
        breadcrumb_parts(agent, spin, elapsed, age),
        width,
        seq![1usize, 3usize],
    );
    Seq::new(13, |i: int| sp(fitted[i], breadcrumb_styles(agent)[i]))
}

/// The first three parts of the breadcrumb, and the status.
fn lead_parts(agent: &DashboardAgent, spin: &str) -> (parts: Vec<String>)
    ensures
        views(parts@) == seq![
            " "@,
            header_title(agent@),
            " · "@,
            status_text(agent@.status, spin@),
            " · "@,
        ],
{
    let raw: &str = match &agent.title {
        Some(title) => title.as_str(),
        None => agent.blueprint_name.as_str(),
    };
    let bare = drop_leading(raw, '#');
    let title = trim(bare.as_str());
    let label = agent.status.label();
    let going = match agent.status {
        AgentDisplayStatus::Active => true,
        _ => false,
    };
    let status = if going {
        cat3(spin, " ", label.as_str())
    } else {
        label
    };
    let mut parts: Vec<String> = Vec::new();
    parts.push(copy_of(" "));
    parts.push(title);
    parts.push(copy_of(" · "));
    parts.push(status);
    parts.push(copy_of(" · "));
    assert(views(parts@) =~= seq![
        " "@,
        header_title(agent@),
        " · "@,
        status_text(agent@.status, spin@),
        " · "@,
    ]);
    parts
}

/// The styles of the breadcrumb's parts.
fn breadcrumb_style_list(agent: &DashboardAgent) -> (styles: Vec<Style>)
    ensures
        styles@ == breadcrumb_styles(agent@),
{
    let dim = Style::ink(Color::Dim);
    let message = if agent.accepts_messages {
        Style::ink(Color::Success)
    } else {
        dim
    };
    vec![
        dim,
        Style::bold_ink(Color::White),
        dim,
        Style::bold_ink(Color::Status(agent.status.tone())),
        dim,
        dim,
        dim,
        dim,
        dim,
        message,
        dim,
        dim,
        Style::bold_ink(Color::Warn),
    ]
}

/// Spans of the texts, each in its style.
fn zip_spans(texts: &Vec<String>, styles: &Vec<Style>) -> (line: Line)
    requires
        texts@.len() == styles@.len(),
    ensures
        line@ == Seq::new(texts@.len(), |i: int| sp(views(texts@)[i], styles@[i])),
{
    let mut spans: Vec<Span> = Vec::new();
    let mut i: usize = 0;
    while i < texts.len()
        invariant
            i <= texts@.len(),
            texts@.len() == styles@.len(),
            spans@.len() == i,
            forall|j: int|
                0 <= j < i ==> (#[trigger] spans@[j])@ == sp(texts@[j]@, styles@[j]),
        decreases texts.len() - i,
    {
        spans.push(span(texts[i].as_str(), styles[i]));
        i = i + 1;
    }
    let line = Line { spans };
    assert(line@ =~= Seq::new(texts@.len(), |i: int| sp(views(texts@)[i], styles@[i])));
    line
}

impl Dashboard {
    /// The breadcrumb over `area`. How long the run has been working, and how
    /// long it has existed, come spelled out.
    pub fn render_header_breadcrumb(
        &self,
        area: Rect,
        agent: &DashboardAgent,
        elapsed: &str,
        age: &str,
    ) -> (line: Line)
        ensures
            line@ == breadcrumb(agent@, self.spin(), elapsed@, age@, area.width as nat),
    {
        let spin = self.spinner_frame();
        let mut parts = lead_parts(agent, spin.as_str());
        let up = format_tokens(agent.tokens_in);
        let down = format_tokens(agent.tokens_out);
        parts.push(cat2(up.as_str(), "↑"));
        parts.push(cat3(" ", down.as_str(), "↓"));
        parts.push(cat3(" · ", elapsed, " work"));
        parts.push(cat3(" · ", age, " old "));
        parts.push(
            copy_of(
                if agent.accepts_messages {
                    "💬 "
                } else {
                    "🔇 "
                },
            ),
        );
        parts.push(copy_of("· "));
        parts.push(copy_of(agent.id.as_str()));
        let broken: usize = agent.broken_scripts.len();
        let note = if broken == 0 {
            String::new()
        } else {
            let count = count_text(broken);
            cat4(
                " · ⚠ ",
                count.as_str(),
                " broken script",
                if broken == 1 {
                    ""
                } else {
                    "s"
                },
            )
        };
        parts.push(note);
        assert(views(parts@) =~= breadcrumb_parts(agent@, self.spin(), elapsed@, age@));
        let order: Vec<usize> = vec![1, 3];
        let fitted = fit_parts(&parts, area.width as usize, &order);
        assert(order@ =~= seq![1usize, 3usize]);
        let styles = breadcrumb_style_list(agent);
        let line = zip_spans(&fitted, &styles);
        assert(line@ =~= breadcrumb(agent@, self.spin(), elapsed@, age@, area.width as nat));
        line
    }
}

/// The run's id and its figures are never cut from the breadcrumb.
pub proof fn the_breadcrumb_keeps_the_id(
    agent: AgentView,
    spin: Seq<char>,
    elapsed: Seq<char>,
    age: Seq<char>,
    width: nat,
)
    ensures
        breadcrumb(agent, spin, elapsed, age, width)[11].content == agent.id,
        breadcrumb(agent, spin, elapsed, age, width)[5].content == token_figure(
            agent.tokens_in as nat,
        ) + "↑"@,
{
    let parts = breadcrumb_parts(agent, spin, elapsed, age);
    let order = seq![1usize, 3usize];
    crate::fit::unnamed_parts_stay(parts, width, order, 2, 11);
    crate::fit::unnamed_parts_stay(parts, width, order, 2, 5);
}

// ── Info strip ───────────────────────────────────────────────────────────────

/// The tokens of the stage on view, where it has taken any.
pub open spec fn stage_tokens(stages: Seq<StageRecord>, at: int) -> Seq<char> {
    if at < stages.len() && (stages[at].prompt_tokens > 0 || stages[at].completion_tokens > 0) {
        "  ·  stage "@ + token_figure(stages[at].prompt_tokens as nat) + "↑ "@ + token_figure(
            stages[at].completion_tokens as nat,
        ) + "↓"@
    } else {
        Seq::empty()
    }
}

/// The whole prompt: what was sent fresh and what came from the cache, held at
/// the largest count.
pub open spec fn whole_prompt(fresh: usize, cached: usize) -> nat {
    if fresh + cached > usize::MAX {
        usize::MAX as nat
    } else {
        (fresh + cached) as nat
    }
}

/// The tokens of the run, with the share of its prompt that came from the cache.
pub open spec fn total_tokens(agent: AgentView) -> Seq<char> {
    if agent.tokens_in > 0 || agent.tokens_out > 0 {
        "  ·  total "@ + token_figure(agent.tokens_in as nat) + "↑ "@ + token_figure(
            agent.tokens_out as nat,
        ) + "↓"@ + if agent.cached_tokens > 0 {
            "  cache "@ + decimal(
                share(
                    agent.cached_tokens as nat,
                    whole_prompt(agent.tokens_in, agent.cached_tokens),
                ),
            ) + "%"@
        } else {
            Seq::empty()
        }
    } else {
        Seq::empty()
    }
}

/// The parts of the figures' line, the model with them or not.
pub open spec fn info_parts(
    agent: AgentView,
    home: Seq<char>,
    at: int,
    with_model: bool,
) -> Seq<Seq<char>> {
    seq![
        " dir   "@,
        shortened(agent.workdir, home),
        stage_tokens(agent.stages@, at),
        total_tokens(agent),
        if with_model && agent.model is Some {
            "  ·  "@
        } else {
            Seq::empty()
        },
        if with_model && agent.model is Some {
            agent.model->0
        } else {
            Seq::empty()
        },
    ]
}

/// The figures' line in `width` columns: the model gives way first and the
/// working directory second, and where even that is too long the model goes.
pub open spec fn info_texts(agent: AgentView, home: Seq<char>, at: int, width: nat) -> Seq<
    Seq<char>,
> {
    let both = fitted_row(info_parts(agent, home, at, true), width, seq![5usize, 1usize]);
    if total_columns(both) > width {
        fitted_row(info_parts(agent, home, at, false), width, seq![1usize])
    } else {
        both
    }
}

/// The colours of the figures' line.
pub open spec fn info_colors() -> Seq<Style> {
    seq![
        ink(Color::Dim),
        ink(Color::Muted),
        ink(Color::Dim),
        ink(Color::Dim),
        ink(Color::Muted),
        ink(Color::Muted),
    ]
}

/// The room inside the strip's border and its padding.
pub open spec fn info_width(area: Rect) -> nat {
    if area.width < 4 {
        0
    } else {
        (area.width - 4) as nat
    }
}

/// The strip's two lines.
pub open spec fn info_lines(agent: AgentView, home: Seq<char>, at: int, area: Rect) -> Seq<
    Seq<SpanView>,
> {
    let width = info_width(area);
    let texts = info_texts(agent, home, at, width);
    seq![
        seq![
            sp(" task  "@, ink(Color::Dim)),
            sp(
                truncated(
                    agent.task,
                    if width < 7 {
                        0
                    } else {
                        (width - 7) as nat
                    },
                ),
                ink(Color::Muted),
            ),
        ],
        Seq::new(6, |i: int| sp(texts[i], info_colors()[i])),
    ]
}

/// The tokens of the stage on view.
fn show_stage_tokens(stages: &Vec<StageRecord>, at: usize) -> (text: String)
    ensures
        text@ == stage_tokens(stages@, at as int),
{
    if at < stages.len() && (stages[at].prompt_tokens > 0 || stages[at].completion_tokens > 0) {
        let up = format_tokens(stages[at].prompt_tokens);
        let down = format_tokens(stages[at].completion_tokens);
        let mut text = cat4("  ·  stage ", up.as_str(), "↑ ", down.as_str());
        text.append("↓");
        text
    } else {
        String::new()
    }
}

/// The tokens of the run.
fn show_total_tokens(agent: &DashboardAgent) -> (text: String)
    ensures
        text@ == total_tokens(agent@),
{
    if agent.tokens_in > 0 || agent.tokens_out > 0 {
        let up = format_tokens(agent.tokens_in);
        let down = format_tokens(agent.tokens_out);
        let mut text = cat4("  ·  total ", up.as_str(), "↑ ", down.as_str());
        text.append("↓");
        let cache = if agent.cached_tokens > 0 {
            let prompt: usize = agent.tokens_in.saturating_add(agent.cached_tokens);
            let percent = number(share_percent(agent.cached_tokens, prompt));
            cat3("  cache ", percent.as_str(), "%")
        } else {
            String::new()
        };
        text.append(cache.as_str());
        text
    } else {
        String::new()
    }
}

/// The figures' line in `width` columns.
fn show_info(agent: &DashboardAgent, home: &str, at: usize, width: usize) -> (texts: Vec<String>)
    ensures
        views(texts@) == info_texts(agent@, home@, at as int, width as nat),
        texts@.len() == 6,
{
    let dir = shorten_home_path(copy_of(agent.workdir.as_str()), home);
    let stage = show_stage_tokens(&agent.stages, at);
    let total = show_total_tokens(agent);
    let mut parts: Vec<String> = Vec::new();
    parts.push(copy_of(" dir   "));
    parts.push(dir);
    parts.push(stage);
    parts.push(total);
    match &agent.model {
        Some(model) => {
            parts.push(copy_of("  ·  "));
            parts.push(copy_of(model.as_str()));
        },
        None => {
            parts.push(String::new());
            parts.push(String::new());
        },
    }
    assert(views(parts@) =~= info_parts(agent@, home@, at as int, true));
    let order: Vec<usize> = vec![5, 1];
    assert(order@ =~= seq![5usize, 1usize]);
    let fitted = fit_parts(&parts, width, &order);
    if count_columns(&fitted) > width as u128 {
        parts.set(4, String::new());
        parts.set(5, String::new());
        assert(views(parts@) =~= info_parts(agent@, home@, at as int, false));
        let rest: Vec<usize> = vec![1];
        assert(rest@ =~= seq![1usize]);
        return fit_parts(&parts, width, &rest);
    }
    fitted
}

impl Dashboard {
    /// The info strip over `area`: the task, and the run's figures in as many
    /// columns as it has.
    pub fn render_info_strip(&self, area: Rect, agent: &DashboardAgent, home: &str) -> (lines: Vec<
        Line,
    >)
        ensures
            views(lines@) == info_lines(
                agent@,
                home@,
                self.detail.selected_stage as int,
                area,
            ),
    {
        let width: usize = area.width.saturating_sub(4) as usize;
        let task = truncate(agent.task.as_str(), width.saturating_sub(7));
        let texts = show_info(agent, home, self.detail.selected_stage, width);
        let styles: Vec<Style> = vec![
            Style::ink(Color::Dim),
            Style::ink(Color::Muted),
            Style::ink(Color::Dim),
            Style::ink(Color::Dim),
            Style::ink(Color::Muted),
            Style::ink(Color::Muted),
        ];
        let stats = zip_spans(&texts, &styles);
        let mut lines: Vec<Line> = Vec::new();
        lines.push(
            line2(span(" task  ", Style::ink(Color::Dim)), styled(task, Style::ink(Color::Muted))),
        );
        lines.push(stats);
        proof {
            assert(styles@ =~= info_colors());
            let wanted = info_lines(agent@, home@, self.detail.selected_stage as int, area);
            assert(stats@ =~= wanted[1]);
            assert(views(lines@) =~= wanted);
        }
        lines
    }
}

} // verus!
