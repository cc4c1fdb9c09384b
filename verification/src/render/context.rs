//! The context window: its card above the content pane, and the Context view's
//! lines.

use crate::numbers::{format_tokens, token_figure};
use crate::outside::{local_time, time_of_day, FIRST_MOMENT, LAST_MOMENT};
use crate::state::Dashboard;
use crate::style::{
    bold_ink, ink, line1, line2, line3, raw, raw_line, sp, span, styled, Color, Line, Rect,
    SpanView, Style,
};
use crate::text::{
    cat2, cat3, cat4, cat5, copy_of, count_text, decimal, join, joined, repeat, repeated, same,
};
use crate::types::{
    ContextRegion, ContextSnapshot, DashboardAgent, StageEdge, StageGraph, StageNode, StageRecord,
};
use crate::views::{group_views, views};
use vstd::prelude::*;

verus! {

broadcast use group_views;

/// The widest the context card gets.
pub const CARD_WIDTH: u16 = 64;

/// How much of its room a context window uses, in whole percent and at most a
/// hundred; a window without room uses none.
pub open spec fn usage(total: nat, max: nat) -> nat {
    if max == 0 {
        0
    } else if total * 100 / max > 100 {
        100
    } else {
        total * 100 / max
    }
}

/// How much of its room a context window uses, in percent.
pub fn usage_percent(total: usize, max: usize) -> (percent: usize)
    ensures
        percent == usage(total as nat, max as nat),
        percent <= 100,
{
    if max == 0 {
        return 0;
    }
    let share: u128 = (total as u128 * 100) / (max as u128);
    if share > 100 {
        100
    } else {
        share as usize
    }
}

/// The colour of a usage bar.
pub open spec fn usage_color(percent: nat) -> Color {
    if percent >= 90 {
        Color::Error
    } else if percent >= 70 {
        Color::Warn
    } else {
        Color::Success
    }
}

/// The letter of a region's kind, in either of its two spellings.
pub open spec fn kind_letter(kind: Seq<char>) -> Seq<char> {
    if kind == "pinned"@ {
        "P"@
    } else if kind == "sliding_window"@ || kind == "sliding"@ {
        "S"@
    } else if kind == "compacting"@ || kind == "compact_history"@ || kind == "history"@ {
        "H"@
    } else {
        "·"@
    }
}

/// The letter of a region's kind.
fn letter_of(kind: &str) -> (letter: String)
    ensures
        letter@ == kind_letter(kind@),
{
    if same(kind, "pinned") {
        copy_of("P")
    } else if same(kind, "sliding_window") || same(kind, "sliding") {
        copy_of("S")
    } else if same(kind, "compacting") || same(kind, "compact_history") || same(kind, "history") {
        copy_of("H")
    } else {
        copy_of("·")
    }
}

/// How many regions the card names.
pub const CARD_REGIONS: usize = 6;

/// The letters of the first `count` regions.
pub open spec fn region_letters(regions: Seq<ContextRegion>, count: int) -> Seq<Seq<char>>
    decreases count,
{
    if count <= 0 {
        Seq::empty()
    } else {
        region_letters(regions, count - 1).push(kind_letter(regions[count - 1].kind@))
    }
}

/// The letters the card shows.
pub open spec fn card_letters(regions: Seq<ContextRegion>) -> Seq<char> {
    let shown = if regions.len() < CARD_REGIONS {
        regions.len() as int
    } else {
        CARD_REGIONS as int
    };
    joined(region_letters(regions, shown), " "@)
}

/// The letters the card shows.
fn letters_of(regions: &Vec<ContextRegion>) -> (text: String)
    ensures
        text@ == card_letters(regions@),
{
    let shown: usize = if regions.len() < CARD_REGIONS {
        regions.len()
    } else {
        CARD_REGIONS
    };
    let mut letters: Vec<String> = Vec::new();
    let mut i: usize = 0;
    while i < shown
        invariant
            i <= shown <= regions@.len(),
            views(letters@) == region_letters(regions@, i as int),
        decreases shown - i,
    {
        letters.push(letter_of(regions[i].kind.as_str()));
        i = i + 1;
    }
    join(&letters, " ")
}

/// The time of day at a moment; nothing where the moment has no date.
pub open spec fn clock_label(at: i64, offset: i32) -> Seq<char> {
    if FIRST_MOMENT <= at <= LAST_MOMENT {
        time_of_day(at, offset)
    } else {
        Seq::empty()
    }
}

/// The time of day at a moment in Unix seconds, so many seconds east of
/// Greenwich.
pub fn clock(at: i64, offset: i32) -> (label: String)
    requires
        -86_400 < offset < 86_400,
    ensures
        label@ == clock_label(at, offset),
{
    match local_time(at, offset) {
        Some(label) => label,
        None => String::new(),
    }
}

/// A point of a run's archived context history: its stage, the moment it was
/// recorded at in Unix seconds, and how many seconds east of Greenwich the clock
/// stood then.
#[derive(Clone, Debug, PartialEq, Eq)]
pub struct HistoryPoint {
    pub stage: String,
    pub at: i64,
    pub offset: i32,
}

/// Whether every point's clock stood less than a day from Greenwich.
pub open spec fn offsets_hold(points: Option<&Vec<HistoryPoint>>) -> bool {
    points matches Some(all) ==> forall|i: int|
        0 <= i < all@.len() ==> -86_400 < (#[trigger] all@[i]).offset < 86_400
}

/// The card's title: which point of the history is browsed, of how many, in
/// which stage and recorded when, or that this is the context.
pub open spec fn card_title(at: Option<usize>, points: Option<Seq<HistoryPoint>>) -> Seq<char> {
    match (at, points) {
        (Some(i), Some(all)) => {
            let place = " ⏪ point "@ + decimal((i + 1) as nat) + "/"@ + decimal(all.len());
            if i < all.len() {
                place + " · "@ + all[i as int].stage@ + " · "@ + clock_label(
                    all[i as int].at,
                    all[i as int].offset,
                ) + " "@
            } else {
                place + " "@
            }
        },
        _ => " ctx "@,
    }
}

/// The card's title.
pub fn context_title(at: Option<usize>, points: Option<&Vec<HistoryPoint>>) -> (title: String)
    requires
        at is Some && points is Some ==> at->0 < usize::MAX,
        offsets_hold(points),
    ensures
        title@ == card_title(
            at,
            match points {
                Some(all) => Some(all@),
                None => None,
            },
        ),
{
    match (at, points) {
        (Some(i), Some(all)) => {
            let place = count_text(i + 1);
            let total = count_text(all.len());
            let mut title = cat4(" ⏪ point ", place.as_str(), "/", total.as_str());
            if i < all.len() {
                let when = clock(all[i].at, all[i].offset);
                title.append(" · ");
                title.append(all[i].stage.as_str());
                title.append(" · ");
                title.append(when.as_str());
                title.append(" ");
            } else {
                title.append(" ");
            }
            title
        },
        _ => copy_of(" ctx "),
    }
}

/// The context card: where it stands, its title, and its lines.
#[derive(Debug)]
pub struct ContextCard {
    pub area: Rect,
    pub title: String,
    pub lines: Vec<Line>,
}

/// How wide the card is.
pub open spec fn card_width(width: u16) -> u16 {
    if width < CARD_WIDTH {
        width
    } else {
        CARD_WIDTH
    }
}

/// How wide the card's usage bar is: the room inside, but at least eight and at
/// most thirty-two columns.
pub open spec fn bar_width(card: u16) -> nat {
    let inner = if card < 12 {
        8
    } else {
        card - 4
    };
    if inner > 32 {
        32
    } else {
        inner as nat
    }
}

/// The card's lines.
pub open spec fn card_lines(snapshot: Option<ContextSnapshot>, card: u16) -> Seq<Seq<SpanView>> {
    match snapshot {
        Some(snap) => {
            let percent = usage(snap.total_tokens as nat, snap.max_tokens as nat);
            let bar = bar_width(card);
            let filled = bar * percent / 100;
            let letters = card_letters(snap.regions@);
            seq![
                seq![
                    sp(
                        repeated("█"@, filled) + repeated("░"@, (bar - filled) as nat),
                        ink(usage_color(percent)),
                    ),
                    sp("  "@ + decimal(percent) + "%"@, bold_ink(Color::Dim)),
                ],
                seq![
                    sp(
                        token_figure(snap.total_tokens as nat) + " / "@ + token_figure(
                            snap.max_tokens as nat,
                        ) + " tokens"@,
                        ink(Color::Muted),
                    ),
                    sp(
                        if letters.len() == 0 {
                            Seq::empty()
                        } else {
                            "   ["@ + letters + "]"@
                        },
                        ink(Color::Dim),
                    ),
                ],
            ]
        },
        None => seq![seq![sp("no context snapshot yet"@, ink(Color::Dim))]],
    }
}

/// The lines of a card that has a snapshot.
fn snapshot_card(snap: &ContextSnapshot, card: u16) -> (lines: Vec<Line>)
    ensures
        views(lines@) == card_lines(Some(*snap), card),
{
    let percent: usize = usage_percent(snap.total_tokens, snap.max_tokens);
    let inner: usize = if card < 12 {
        8
    } else {
        card as usize - 4
    };
    let bar: usize = if inner > 32 {
        32
    } else {
        inner
    };
    assert(bar * percent <= 32 * 100) by (nonlinear_arith)
        requires
            bar <= 32,
            percent <= 100,
    ;
    let filled: usize = bar * percent / 100;
    assert(filled <= bar) by (nonlinear_arith)
        requires
            filled == bar * percent / 100,
            percent <= 100,
    ;
    let color = if percent >= 90 {
        Color::Error
    } else if percent >= 70 {
        Color::Warn
    } else {
        Color::Success
    };
    let full = repeat("█", filled);
    let rest = repeat("░", bar - filled);
    let figure = count_text(percent);
    let bar_text = cat2(full.as_str(), rest.as_str());
    let percent_text = cat3("  ", figure.as_str(), "%");
    let total = format_tokens(snap.total_tokens);
    let max = format_tokens(snap.max_tokens);
    let tokens = cat4(total.as_str(), " / ", max.as_str(), " tokens");
    let letters = letters_of(&snap.regions);
    let kinds = if letters.as_str().is_empty() {
        String::new()
    } else {
        cat3("   [", letters.as_str(), "]")
    };
    let mut lines: Vec<Line> = Vec::new();
    lines.push(line2(styled(bar_text, Style::ink(color)), styled(percent_text, Style::bold_ink(Color::Dim))));
    lines.push(line2(styled(tokens, Style::ink(Color::Muted)), styled(kinds, Style::ink(Color::Dim))));
    proof {
        assert(views(lines@) =~= card_lines(Some(*snap), card));
    }
    lines
}

/// The windows read for the stage on view: that of the browsed point of the
/// history, and the one the stage recorded.
#[derive(Debug)]
pub struct WindowReading {
    pub browsed: Option<ContextSnapshot>,
    pub stage: Option<ContextSnapshot>,
}

/// The window on view: the browsed point's, else the stage's, else the run's live
/// one.
pub open spec fn window_of(reading: WindowReading, agent: DashboardAgent) -> Option<
    ContextSnapshot,
> {
    match (reading.browsed, reading.stage, agent.context_snapshot) {
        (Some(point), _, _) => Some(point),
        (None, Some(recorded), _) => Some(recorded),
        (None, None, Some(live)) => Some(*live),
        (None, None, None) => None,
    }
}

/// The window on view.
pub fn window_on_view<'a>(reading: &'a WindowReading, agent: &'a DashboardAgent) -> (window: Option<
    &'a ContextSnapshot,
>)
    ensures
        match window {
            Some(found) => window_of(*reading, *agent) == Some(*found),
            None => window_of(*reading, *agent) is None,
        },
{
    match &reading.browsed {
        Some(point) => Some(point),
        None => match &reading.stage {
            Some(recorded) => Some(recorded),
            None => match &agent.context_snapshot {
                Some(live) => Some(&**live),
                None => None,
            },
        },
    }
}

impl Dashboard {
    /// The context card over `area`, of the window on view.
    pub fn render_context_bar(
        &self,
        area: Rect,
        agent: &DashboardAgent,
        windows: &WindowReading,
        points: Option<&Vec<HistoryPoint>>,
    ) -> (card: ContextCard)
        requires
            self.detail.history_idx is Some && points is Some ==> self.detail.history_idx->0
                < usize::MAX,
            offsets_hold(points),
        ensures
            card.area == (Rect { width: card_width(area.width), ..area }),
            card.title@ == card_title(
                self.detail.history_idx,
                match points {
                    Some(all) => Some(all@),
                    None => None,
                },
            ),
            views(card.lines@) == card_lines(window_of(*windows, *agent), card_width(area.width)),
    {
        let title = context_title(self.detail.history_idx, points);
        let width: u16 = if area.width < CARD_WIDTH {
            area.width
        } else {
            CARD_WIDTH
        };
        let lines = match window_on_view(windows, agent) {
            Some(snap) => snapshot_card(snap, width),
            None => {
                let mut lines: Vec<Line> = Vec::new();
                lines.push(line1(span("no context snapshot yet", Style::ink(Color::Dim))));
                proof {
                    assert(views(lines@) =~= card_lines(None, width));
                }
                lines
            },
        };
        ContextCard { area: Rect { x: area.x, y: area.y, width, height: area.height }, title, lines }
    }
}

/// A bar never has more filled cells than cells.
pub proof fn a_bar_fills_within_itself(total: nat, max: nat, card: u16)
    ensures
        usage(total, max) <= 100,
        bar_width(card) * usage(total, max) / 100 <= bar_width(card),
{
    let (bar, percent) = (bar_width(card), usage(total, max));
    assert(bar * percent / 100 <= bar) by (nonlinear_arith)
        requires
            percent <= 100,
    ;
}

// ── The Context view ─────────────────────────────────────────────────────────

/// The stage the view is on: the run's record of it, else the blueprint's, else
/// the run's current one.
pub open spec fn viewed_stage(
    stages: Seq<StageRecord>,
    nodes: Seq<StageNode>,
    current: Seq<char>,
    at: int,
) -> Seq<char> {
    if at < stages.len() {
        stages[at].name@
    } else if at < nodes.len() {
        nodes[at].id@
    } else {
        current
    }
}

/// How many of the first `count` stages have this name.
pub open spec fn visits_to(stages: Seq<StageRecord>, name: Seq<char>, count: int) -> nat
    decreases count,
{
    if count <= 0 {
        0
    } else {
        visits_to(stages, name, count - 1) + if stages[count - 1].name@ == name {
            1nat
        } else {
            0nat
        }
    }
}

/// How many stages have this name.
fn count_visits(stages: &Vec<StageRecord>, name: &str) -> (visits: usize)
    ensures
        visits == visits_to(stages@, name@, stages@.len() as int),
{
    let mut visits: usize = 0;
    let mut i: usize = 0;
    while i < stages.len()
        invariant
            i <= stages@.len(),
            visits <= i,
            visits == visits_to(stages@, name@, i as int),
        decreases stages.len() - i,
    {
        if same(stages[i].name.as_str(), name) {
            visits = visits + 1;
        }
        i = i + 1;
    }
    visits
}

/// The line of a transition out of a stage.
pub open spec fn outgoing_line(edge: StageEdge) -> Seq<SpanView> {
    seq![
        sp("    → "@ + edge.to@, ink(Color::Accent)),
        sp(
            if edge.condition_label@.len() == 0 {
                Seq::empty()
            } else {
                " ["@ + edge.condition_label@ + "]"@
            },
            ink(Color::Warn),
        ),
        sp(
            match edge.hint {
                Some(hint) => " - "@ + hint@,
                None => Seq::empty(),
            },
            ink(Color::Dim),
        ),
    ]
}

/// The line of a transition into a stage.
pub open spec fn incoming_line(edge: StageEdge) -> Seq<SpanView> {
    seq![
        sp("    ← "@ + edge.from@, ink(Color::Success)),
        sp(" [transform: "@ + edge.transform@ + "]"@, ink(Color::Dim)),
    ]
}

/// The lines of the transitions out of a stage, among the first `count`.
pub open spec fn outgoing_lines(edges: Seq<StageEdge>, name: Seq<char>, count: int) -> Seq<
    Seq<SpanView>,
>
    decreases count,
{
    if count <= 0 {
        Seq::empty()
    } else if edges[count - 1].from@ == name {
        outgoing_lines(edges, name, count - 1).push(outgoing_line(edges[count - 1]))
    } else {
        outgoing_lines(edges, name, count - 1)
    }
}

/// The lines of the transitions into a stage, among the first `count`.
pub open spec fn incoming_lines(edges: Seq<StageEdge>, name: Seq<char>, count: int) -> Seq<
    Seq<SpanView>,
>
    decreases count,
{
    if count <= 0 {
        Seq::empty()
    } else if edges[count - 1].to@ == name {
        incoming_lines(edges, name, count - 1).push(incoming_line(edges[count - 1]))
    } else {
        incoming_lines(edges, name, count - 1)
    }
}

/// The lines of the transitions out of a stage.
fn show_outgoing(edges: &Vec<StageEdge>, name: &str) -> (lines: Vec<Line>)
    ensures
        views(lines@) == outgoing_lines(edges@, name@, edges@.len() as int),
{
    let mut lines: Vec<Line> = Vec::new();
    let mut i: usize = 0;
    while i < edges.len()
        invariant
            i <= edges@.len(),
            views(lines@) == outgoing_lines(edges@, name@, i as int),
        decreases edges.len() - i,
    {
        let edge = &edges[i];
        if same(edge.from.as_str(), name) {
            let target = cat2("    → ", edge.to.as_str());
            let condition = if edge.condition_label.as_str().is_empty() {
                String::new()
            } else {
                cat3(" [", edge.condition_label.as_str(), "]")
            };
            let hint = match &edge.hint {
                Some(hint) => cat2(" - ", hint.as_str()),
                None => String::new(),
            };
            let line = line3(
                styled(target, Style::ink(Color::Accent)),
                styled(condition, Style::ink(Color::Warn)),
                styled(hint, Style::ink(Color::Dim)),
            );
            assert(line@ =~= outgoing_line(*edge));
            lines.push(line);
        }
        i = i + 1;
    }
    lines
}

/// The lines of the transitions into a stage.
fn show_incoming(edges: &Vec<StageEdge>, name: &str) -> (lines: Vec<Line>)
    ensures
        views(lines@) == incoming_lines(edges@, name@, edges@.len() as int),
{
    let mut lines: Vec<Line> = Vec::new();
    let mut i: usize = 0;
    while i < edges.len()
        invariant
            i <= edges@.len(),
            views(lines@) == incoming_lines(edges@, name@, i as int),
        decreases edges.len() - i,
    {
        let edge = &edges[i];
        if same(edge.to.as_str(), name) {
            let source = cat2("    ← ", edge.from.as_str());
            let transform = cat3(" [transform: ", edge.transform.as_str(), "]");
            lines.push(
                line2(
                    styled(source, Style::ink(Color::Success)),
                    styled(transform, Style::ink(Color::Dim)),
                ),
            );
        }
        i = i + 1;
    }
    lines
}

/// The head of the transitions block: the stage, and how often the run has been
/// to it.
pub open spec fn stage_head(name: Seq<char>, visits: nat) -> Seq<Seq<SpanView>> {
    let head = seq![
        seq![
            sp("▌ "@, bold_ink(Color::Accent)),
            sp("Stage: "@ + name, bold_ink(Color::White)),
        ],
    ];
    if visits > 0 {
        head.push(
            seq![
                sp(
                    "  Visited "@ + decimal(visits) + " time"@ + if visits != 1 {
                        "s"@
                    } else {
                        ""@
                    },
                    ink(Color::Muted),
                ),
            ],
        )
    } else {
        head
    }
}

/// The transitions out of the stage.
pub open spec fn transitions_out(edges: Seq<StageEdge>, name: Seq<char>) -> Seq<Seq<SpanView>> {
    let out = outgoing_lines(edges, name, edges.len() as int);
    if out.len() == 0 {
        seq![seq![sp("  Transitions: (terminal - no outgoing edges)"@, ink(Color::Dim))]]
    } else {
        seq![seq![sp("  Transitions:"@, ink(Color::Muted))]] + out
    }
}

/// The transitions into the stage.
pub open spec fn transitions_in(edges: Seq<StageEdge>, name: Seq<char>) -> Seq<Seq<SpanView>> {
    let into = incoming_lines(edges, name, edges.len() as int);
    if into.len() == 0 {
        Seq::empty()
    } else {
        seq![seq![sp("  Incoming from:"@, ink(Color::Muted))]] + into
    }
}

/// The rule between the transitions and the window.
pub open spec fn rule_lines() -> Seq<Seq<SpanView>> {
    seq![raw_line(""@), seq![sp(repeated("─"@, 32), ink(Color::Dim))], raw_line(""@)]
}

/// How a branching blueprint's stage connects.
pub open spec fn graph_lines(graph: StageGraph, name: Seq<char>, visits: nat) -> Seq<
    Seq<SpanView>,
> {
    stage_head(name, visits) + transitions_out(graph.edges@, name) + transitions_in(
        graph.edges@,
        name,
    ) + rule_lines()
}

/// How a branching blueprint's stage connects.
fn show_graph(graph: &StageGraph, name: &str, visits: usize) -> (lines: Vec<Line>)
    ensures
        views(lines@) == graph_lines(*graph, name@, visits as nat),
{
    let mut lines: Vec<Line> = Vec::new();
    let title = cat2("Stage: ", name);
    lines.push(
        line2(
            span("▌ ", Style::bold_ink(Color::Accent)),
            styled(title, Style::bold_ink(Color::White)),
        ),
    );
    if visits > 0 {
        let count = count_text(visits);
        let times = cat4(
            "  Visited ",
            count.as_str(),
            " time",
            if visits != 1 {
                "s"
            } else {
                ""
            },
        );
        lines.push(line1(styled(times, Style::ink(Color::Muted))));
    }
    let ghost head = views(lines@);
    assert(head =~= stage_head(name@, visits as nat));
    let mut out = show_outgoing(&graph.edges, name);
    if out.len() == 0 {
        lines.push(
            line1(span("  Transitions: (terminal - no outgoing edges)", Style::ink(Color::Dim))),
        );
    } else {
        lines.push(line1(span("  Transitions:", Style::ink(Color::Muted))));
        lines.append(&mut out);
    }
    let ghost with_out = views(lines@);
    assert(with_out =~= head + transitions_out(graph.edges@, name@));
    let mut into = show_incoming(&graph.edges, name);
    if into.len() > 0 {
        lines.push(line1(span("  Incoming from:", Style::ink(Color::Muted))));
        lines.append(&mut into);
    }
    let ghost with_in = views(lines@);
    assert(with_in =~= with_out + transitions_in(graph.edges@, name@));
    let rule = repeat("─", 32);
    lines.push(raw(""));
    lines.push(line1(styled(rule, Style::ink(Color::Dim))));
    lines.push(raw(""));
    assert(views(lines@) =~= with_in + rule_lines());
    lines
}

/// The window's overall usage.
pub open spec fn usage_line(snap: ContextSnapshot) -> Seq<SpanView> {
    seq![
        sp(" "@ + decimal(snap.regions@.len()) + " regions  "@, ink(Color::Dim)),
        sp(
            token_figure(snap.total_tokens as nat) + "/"@ + token_figure(snap.max_tokens as nat)
                + " tokens total  "@ + decimal(
                usage(snap.total_tokens as nat, snap.max_tokens as nat),
            ) + "%"@,
            ink(Color::Muted),
        ),
    ]
}

/// Whether the window counts tokens and holds no entry: its run is from before
/// entries were kept.
pub open spec fn predates_entries(regions: Seq<ContextRegion>) -> bool {
    (exists|i: int| 0 <= i < regions.len() && (#[trigger] regions[i]).current_tokens > 0) && forall|
        i: int,
    |
        0 <= i < regions.len() ==> (#[trigger] regions[i]).entries@.len() == 0
}

/// Whether the window counts tokens and holds no entry.
fn is_old_window(regions: &Vec<ContextRegion>) -> (old: bool)
    ensures
        old == predates_entries(regions@),
{
    let mut counted = false;
    let mut i: usize = 0;
    while i < regions.len()
        invariant
            i <= regions@.len(),
            counted == exists|j: int| 0 <= j < i && (#[trigger] regions@[j]).current_tokens > 0,
            forall|j: int| 0 <= j < i ==> (#[trigger] regions@[j]).entries@.len() == 0,
        decreases regions.len() - i,
    {
        if regions[i].entries.len() > 0 {
            return false;
        }
        if regions[i].current_tokens > 0 {
            counted = true;
        }
        i = i + 1;
    }
    counted
}

/// What is said of a window without entries.
pub open spec fn old_window_lines() -> Seq<Seq<SpanView>> {
    seq![
        raw_line(""@),
        seq![sp(" ℹ  This run predates context content capture."@, ink(Color::Warn))],
        seq![
            sp("    Token counts are shown but entry content is unavailable."@, ink(Color::Dim)),
        ],
        seq![sp("    Re-run the agent to see full context details."@, ink(Color::Dim))],
        raw_line(""@),
    ]
}

/// What stands above the context tree.
pub open spec fn context_head(agent: DashboardAgent, at: int, snap: ContextSnapshot) -> Seq<
    Seq<SpanView>,
> {
    let graph = match agent.graph {
        Some(graph) => if graph.is_branching {
            let name = viewed_stage(agent.stages@, graph.nodes@, agent.stage@, at);
            graph_lines(*graph, name, visits_to(agent.stages@, name, agent.stages@.len() as int))
        } else {
            Seq::empty()
        },
        None => Seq::empty(),
    };
    let old = if predates_entries(snap.regions@) {
        old_window_lines()
    } else {
        Seq::empty()
    };
    (graph.push(usage_line(snap)) + old).push(raw_line(""@))
}

/// What stands above the context tree.
fn show_context_head(agent: &DashboardAgent, at: usize, snap: &ContextSnapshot) -> (lines: Vec<
    Line,
>)
    ensures
        views(lines@) == context_head(*agent, at as int, *snap),
{
    let mut lines: Vec<Line> = match &agent.graph {
        Some(graph) => if graph.is_branching {
            let name: &str = if at < agent.stages.len() {
                agent.stages[at].name.as_str()
            } else if at < graph.nodes.len() {
                graph.nodes[at].id.as_str()
            } else {
                agent.stage.as_str()
            };
            let visits: usize = count_visits(&agent.stages, name);
            show_graph(&**graph, name, visits)
        } else {
            Vec::new()
        },
        None => Vec::new(),
    };
    let percent: usize = usage_percent(snap.total_tokens, snap.max_tokens);
    let regions = count_text(snap.regions.len());
    let regions_text = cat3(" ", regions.as_str(), " regions  ");
    let total = format_tokens(snap.total_tokens);
    let max = format_tokens(snap.max_tokens);
    let figure = count_text(percent);
    let mut tokens = cat5(
        total.as_str(),
        "/",
        max.as_str(),
        " tokens total  ",
        figure.as_str(),
    );
    tokens.append("%");
    lines.push(
        line2(
            styled(regions_text, Style::ink(Color::Dim)),
            styled(tokens, Style::ink(Color::Muted)),
        ),
    );
    let ghost so_far = views(lines@);
    if is_old_window(&snap.regions) {
        lines.push(raw(""));
        lines.push(
            line1(
                span(" ℹ  This run predates context content capture.", Style::ink(Color::Warn)),
            ),
        );
        lines.push(
            line1(
                span(
                    "    Token counts are shown but entry content is unavailable.",
                    Style::ink(Color::Dim),
                ),
            ),
        );
        lines.push(
            line1(
                span("    Re-run the agent to see full context details.", Style::ink(Color::Dim)),
            ),
        );
        lines.push(raw(""));
        assert(views(lines@) =~= so_far + old_window_lines());
    } else {
        assert(views(lines@) =~= so_far + Seq::<Seq<SpanView>>::empty());
    }
    lines.push(raw(""));
    lines
}

/// The context tree, flattened: its lines, and the line each of its rows starts
/// on.
#[derive(Debug)]
pub struct FlatTree {
    pub lines: Vec<Line>,
    pub cursor_lines: Vec<usize>,
}

/// The Context view's lines.
pub open spec fn context_lines(
    agent: DashboardAgent,
    at: int,
    snapshot: Option<ContextSnapshot>,
    tree: Seq<Seq<SpanView>>,
) -> Seq<Seq<SpanView>> {
    match snapshot {
        Some(snap) => context_head(agent, at, snap) + tree,
        None => seq![
            seq![sp(" no context snapshot available for this stage"@, ink(Color::Dim))],
        ],
    }
}

/// The line each row of the tree starts on in the Context view.
pub open spec fn context_rows(
    agent: DashboardAgent,
    at: int,
    snapshot: Option<ContextSnapshot>,
    cursor_lines: Seq<usize>,
) -> Seq<usize> {
    match snapshot {
        Some(snap) => {
            let above = context_head(agent, at, snap).len();
            Seq::new(cursor_lines.len(), |i: int| (above + cursor_lines[i]) as usize)
        },
        None => Seq::empty(),
    }
}

/// Whether every row of the tree starts inside of it.
pub open spec fn rows_are_inside(tree: FlatTree) -> bool {
    forall|i: int|
        0 <= i < tree.cursor_lines@.len() ==> (#[trigger] tree.cursor_lines@[i])
            <= tree.lines@.len()
}

impl Dashboard {
    /// Whether the context tree shows every row: a search opens what is folded, so
    /// that a match inside it can be reached.
    pub fn shows_whole_tree(&self) -> (whole: bool)
        ensures
            whole == (self.detail.search_mode || self.detail.search_query@.len() > 0),
    {
        self.detail.search_mode || !self.detail.search_query.as_str().is_empty()
    }

    /// The Context view's lines, and the line each row of the tree starts on.
    /// `tree` is the flattened tree of the window on view.
    pub fn build_context_lines(
        &self,
        agent: &DashboardAgent,
        windows: &WindowReading,
        tree: FlatTree,
    ) -> (view: (Vec<Line>, Vec<usize>))
        requires
            rows_are_inside(tree),
        ensures
            views(view.0@) == context_lines(
                *agent,
                self.detail.selected_stage as int,
                window_of(*windows, *agent),
                views(tree.lines@),
            ),
            view.1@ == context_rows(
                *agent,
                self.detail.selected_stage as int,
                window_of(*windows, *agent),
                tree.cursor_lines@,
            ),
    {
        match window_on_view(windows, agent) {
            Some(snap) => {
                let mut lines = show_context_head(agent, self.detail.selected_stage, snap);
                let base: usize = lines.len();
                let mut tree_lines = tree.lines;
                lines.append(&mut tree_lines);
                let total: usize = lines.len();
                let mut rows: Vec<usize> = Vec::new();
                let mut i: usize = 0;
                while i < tree.cursor_lines.len()
                    invariant
                        i <= tree.cursor_lines@.len(),
                        total == base + tree.lines@.len(),
                        rows_are_inside(tree),
                        rows@.len() == i,
                        forall|j: int|
                            0 <= j < i ==> #[trigger] rows@[j] == base + tree.cursor_lines@[j],
                    decreases tree.cursor_lines.len() - i,
                {
                    rows.push(base + tree.cursor_lines[i]);
                    i = i + 1;
                }
                assert(rows@ =~= context_rows(
                    *agent,
                    self.detail.selected_stage as int,
                    Some(*snap),
                    tree.cursor_lines@,
                ));
                (lines, rows)
            },
            None => {
                let mut lines: Vec<Line> = Vec::new();
                lines.push(
                    line1(
                        span(
                            " no context snapshot available for this stage",
                            Style::ink(Color::Dim),
                        ),
                    ),
                );
                (lines, Vec::new())
            },
        }
    }
}

} // verus!
