//! The full-screen stage explorer: the stage graph with what is selected on it,
//! and the timeline of visits.

use crate::outside::{asked, least, lengths, split_area, takers};
use crate::render::content::inner_rows;
use crate::state::{Dashboard, Mouse};
use crate::style::{
    bold_ink, ink, line1, line3, line4, row_after, sp, span, styled, within, Color, Constraint,
    Direction, Line, Rect, Span, SpanView, Style,
};
use crate::text::{
    cat2, cat3, cat4, cat5, copy_of, count_text, decimal, join, joined, number, pad_left, pad_right,
    padded_left, padded_right, same,
};
use crate::types::{PaneId, StageEdge, StageGraph, StageNode, StageVisit};
use crate::views::{group_views, views};
use vstd::prelude::*;

verus! {

broadcast use group_views;

/// Which way the graph runs.
#[derive(Clone, Copy, Debug, PartialEq, Eq, Structural)]
pub enum FlowDirection {
    LeftToRight,
    TopToBottom,
}

/// The explorer's two tabs.
#[derive(Clone, Copy, Debug, PartialEq, Eq, Structural)]
pub enum ExplorerTab {
    Graph,
    Timeline,
}

/// What is selected on the graph.
#[derive(Clone, Debug, PartialEq, Eq)]
pub enum GraphSelection {
    Node(String),
    Edge(StageEdge),
    Nothing,
}

// ── The graph ────────────────────────────────────────────────────────────────

/// Whether something is on.
pub open spec fn on_off(on: bool) -> Seq<char> {
    if on {
        "on"@
    } else {
        "off"@
    }
}

/// The graph pane's title: what is shown and how, in as many words as the width
/// allows.
pub open spec fn graph_heading(
    width: u16,
    direction: FlowDirection,
    show_all: bool,
    show_escape: bool,
    zoom: Seq<char>,
) -> Seq<char> {
    if width < 90 {
        " Graph · "@ + (if direction == FlowDirection::LeftToRight {
            "→"@
        } else {
            "↓"@
        }) + " · "@ + (if show_all {
            "all"@
        } else {
            "path"@
        }) + " (t) · e:"@ + on_off(show_escape) + " · "@ + zoom + "% "@
    } else {
        " Graph · "@ + (if direction == FlowDirection::LeftToRight {
            "left to right"@
        } else {
            "top to bottom"@
        }) + " (r) · "@ + (if show_all {
            "whole graph"@
        } else {
            "path + options"@
        }) + " (t) · escapes "@ + on_off(show_escape) + " (e) · zoom "@ + zoom + "% "@
    }
}

/// The graph pane's title. `zoom` is the zoom in percent, spelled out.
pub fn graph_title(
    width: u16,
    direction: FlowDirection,
    show_all: bool,
    show_escape: bool,
    zoom: &str,
) -> (title: String)
    ensures
        title@ == graph_heading(width, direction, show_all, show_escape, zoom@),
{
    let escapes: &str = if show_escape {
        "on"
    } else {
        "off"
    };
    if width < 90 {
        let arrow: &str = match direction {
            FlowDirection::LeftToRight => "→",
            FlowDirection::TopToBottom => "↓",
        };
        let what: &str = if show_all {
            "all"
        } else {
            "path"
        };
        let mut title = cat5(" Graph · ", arrow, " · ", what, " (t) · e:");
        title.append(escapes);
        title.append(" · ");
        title.append(zoom);
        title.append("% ");
        return title;
    }
    let way: &str = match direction {
        FlowDirection::LeftToRight => "left to right",
        FlowDirection::TopToBottom => "top to bottom",
    };
    let what: &str = if show_all {
        "whole graph"
    } else {
        "path + options"
    };
    let mut title = cat5(" Graph · ", way, " (r) · ", what, " (t) · escapes ");
    title.append(escapes);
    title.append(" (e) · zoom ");
    title.append(zoom);
    title.append("% ");
    title
}

/// The node with this id: the first from `from` on.
pub open spec fn node_from(nodes: Seq<StageNode>, id: Seq<char>, from: int) -> Option<StageNode>
    decreases nodes.len() - from,
{
    if from < 0 || from >= nodes.len() {
        None
    } else if nodes[from].id@ == id {
        Some(nodes[from])
    } else {
        node_from(nodes, id, from + 1)
    }
}

/// What is said of a stage: its kind, its limits, whether it may repeat itself,
/// what it takes and hands back, and its description.
pub open spec fn node_facts(node: StageNode) -> Seq<Seq<char>> {
    let kind = seq![node.kind_label@];
    let iterations = match node.max_iterations {
        Some(max) => kind.push("max "@ + decimal(max as nat) + " iterations"@),
        None => kind,
    };
    let revisits = match node.max_revisits {
        Some(max) => iterations.push("max "@ + decimal(max as nat) + " revisits"@),
        None => iterations,
    };
    let repeats = if node.self_loop {
        revisits.push("may repeat itself"@)
    } else {
        revisits
    };
    let takes = if node.inputs@.len() > 0 {
        repeats.push("takes "@ + joined(views(node.inputs@), " "@))
    } else {
        repeats
    };
    let gives = if node.outputs@.len() > 0 {
        takes.push("hands back "@ + joined(views(node.outputs@), " "@))
    } else {
        takes
    };
    match node.description {
        Some(text) => gives.push(text@),
        None => gives,
    }
}

/// What is said of a stage.
fn facts_of(node: &StageNode) -> (facts: Vec<String>)
    ensures
        views(facts@) == node_facts(*node),
{
    let mut facts: Vec<String> = Vec::new();
    facts.push(copy_of(node.kind_label.as_str()));
    assert(views(facts@) =~= seq![node.kind_label@]);
    match node.max_iterations {
        Some(max) => {
            let count = number(max);
            facts.push(cat3("max ", count.as_str(), " iterations"));
        },
        None => {},
    }
    match node.max_revisits {
        Some(max) => {
            let count = number(max);
            facts.push(cat3("max ", count.as_str(), " revisits"));
        },
        None => {},
    }
    if node.self_loop {
        facts.push(copy_of("may repeat itself"));
    }
    if node.inputs.len() > 0 {
        let all = join(&node.inputs, " ");
        facts.push(cat2("takes ", all.as_str()));
    }
    if node.outputs.len() > 0 {
        let all = join(&node.outputs, " ");
        facts.push(cat2("hands back ", all.as_str()));
    }
    match &node.description {
        Some(text) => {
            facts.push(copy_of(text.as_str()));
        },
        None => {},
    }
    facts
}

/// A transition out of the selected stage.
pub open spec fn target_text(edge: StageEdge) -> Seq<char> {
    if edge.condition_label@.len() == 0 {
        "→ "@ + edge.to@
    } else {
        "→ "@ + edge.to@ + " ["@ + edge.condition_label@ + "]"@
    }
}

/// The transitions out of a stage, among the first `count`.
pub open spec fn targets_of(edges: Seq<StageEdge>, id: Seq<char>, count: int) -> Seq<Seq<char>>
    decreases count,
{
    if count <= 0 {
        Seq::empty()
    } else if edges[count - 1].from@ == id {
        targets_of(edges, id, count - 1).push(target_text(edges[count - 1]))
    } else {
        targets_of(edges, id, count - 1)
    }
}

/// The transitions out of a stage.
fn list_targets(edges: &Vec<StageEdge>, id: &str) -> (targets: Vec<String>)
    ensures
        views(targets@) == targets_of(edges@, id@, edges@.len() as int),
{
    let mut targets: Vec<String> = Vec::new();
    let mut i: usize = 0;
    while i < edges.len()
        invariant
            i <= edges@.len(),
            views(targets@) == targets_of(edges@, id@, i as int),
        decreases edges.len() - i,
    {
        let edge = &edges[i];
        if same(edge.from.as_str(), id) {
            let text = if edge.condition_label.as_str().is_empty() {
                cat2("→ ", edge.to.as_str())
            } else {
                cat5("→ ", edge.to.as_str(), " [", edge.condition_label.as_str(), "]")
            };
            targets.push(text);
        }
        i = i + 1;
    }
    targets
}

/// The line under the graph for a selected stage.
pub open spec fn node_line(graph: StageGraph, id: Seq<char>) -> Seq<SpanView> {
    let facts = match node_from(graph.nodes@, id, 0) {
        Some(node) => node_facts(node),
        None => Seq::empty(),
    };
    let targets = targets_of(graph.edges@, id, graph.edges@.len() as int);
    let head = seq![
        sp(" "@ + id + " "@, bold_ink(Color::White)),
        sp(joined(facts, " · "@), ink(Color::Muted)),
    ];
    if targets.len() == 0 {
        head
    } else {
        head.push(sp("  "@ + joined(targets, "  "@), ink(Color::Accent)))
    }
}

/// The line under the graph for a selected transition.
pub open spec fn edge_text(edge: StageEdge) -> Seq<char> {
    let ends = " "@ + edge.from@ + " → "@ + edge.to@;
    let condition = if edge.condition_label@.len() == 0 {
        ends
    } else {
        ends + " ["@ + edge.condition_label@ + "]"@
    };
    let transform = condition + " · transform "@ + edge.transform@;
    let hint = match edge.hint {
        Some(text) => transform + " · "@ + text@,
        None => transform,
    };
    if edge.unseen@.len() == 0 {
        hint
    } else {
        hint + " · ! "@ + joined(views(edge.unseen@), " "@) + " not taken by "@ + edge.to@
            + ": crosses as a stand-in"@
    }
}

/// The line under the graph.
pub open spec fn selection_line(graph: StageGraph, selection: GraphSelection) -> Seq<SpanView> {
    match selection {
        GraphSelection::Node(id) => node_line(graph, id@),
        GraphSelection::Edge(edge) => seq![sp(edge_text(edge), ink(Color::Muted))],
        GraphSelection::Nothing => seq![
            sp(
                " Select a stage with the arrows or a click; enter opens its tab."@,
                ink(Color::Dim),
            ),
        ],
    }
}

/// The node with this id.
fn find_node<'a>(nodes: &'a Vec<StageNode>, id: &str) -> (node: Option<&'a StageNode>)
    ensures
        match node {
            Some(found) => node_from(nodes@, id@, 0) == Some(*found),
            None => node_from(nodes@, id@, 0) is None,
        },
{
    let mut i: usize = 0;
    while i < nodes.len()
        invariant
            i <= nodes@.len(),
            node_from(nodes@, id@, 0) == node_from(nodes@, id@, i as int),
        decreases nodes.len() - i,
    {
        if same(nodes[i].id.as_str(), id) {
            return Some(&nodes[i]);
        }
        i = i + 1;
    }
    None
}

/// The line under the graph for a selected stage.
fn show_node(graph: &StageGraph, id: &str) -> (line: Line)
    ensures
        line@ == node_line(*graph, id@),
{
    let facts: Vec<String> = match find_node(&graph.nodes, id) {
        Some(node) => facts_of(node),
        None => Vec::new(),
    };
    let facts_text = join(&facts, " · ");
    let name = cat3(" ", id, " ");
    let mut spans: Vec<Span> = Vec::new();
    spans.push(styled(name, Style::bold_ink(Color::White)));
    spans.push(styled(facts_text, Style::ink(Color::Muted)));
    let targets = list_targets(&graph.edges, id);
    if targets.len() > 0 {
        let all = join(&targets, "  ");
        let text = cat2("  ", all.as_str());
        spans.push(styled(text, Style::ink(Color::Accent)));
    }
    let line = Line { spans };
    assert(line@ =~= node_line(*graph, id@));
    line
}

/// The line under the graph for a selected transition.
fn show_edge(edge: &StageEdge) -> (text: String)
    ensures
        text@ == edge_text(*edge),
{
    let mut text = cat4(" ", edge.from.as_str(), " → ", edge.to.as_str());
    if !edge.condition_label.as_str().is_empty() {
        text.append(" [");
        text.append(edge.condition_label.as_str());
        text.append("]");
    }
    text.append(" · transform ");
    text.append(edge.transform.as_str());
    match &edge.hint {
        Some(hint) => {
            text.append(" · ");
            text.append(hint.as_str());
        },
        None => {},
    }
    if edge.unseen.len() > 0 {
        let all = join(&edge.unseen, " ");
        text.append(" · ! ");
        text.append(all.as_str());
        text.append(" not taken by ");
        text.append(edge.to.as_str());
        text.append(": crosses as a stand-in");
    }
    text
}

/// The graph tab: where the canvas and the line under it stand, the canvas's
/// title, and the line.
#[derive(Debug)]
pub struct ExplorerGraph {
    pub canvas: Rect,
    pub footer: Rect,
    pub title: String,
    pub line: Line,
}

/// The graph tab over `area`: the canvas, and a line that says what is selected
/// on it. Up to three rows are all the canvas's.
pub fn draw_explorer_graph(
    area: Rect,
    graph: &StageGraph,
    selection: &GraphSelection,
    direction: FlowDirection,
    show_all: bool,
    show_escape: bool,
    zoom: &str,
) -> (tab: ExplorerGraph)
    ensures
        within(tab.canvas, area),
        within(tab.footer, area),
        area.y + area.height <= u16::MAX ==> ({
            let foot = row_after(area.height, 3);
            &&& tab.canvas == (Rect { height: (area.height - foot) as u16, ..area })
            &&& tab.footer == (Rect {
                y: (area.y + area.height - foot) as u16,
                height: foot,
                ..area
            })
        }),
        tab.title@ == graph_heading(area.width, direction, show_all, show_escape, zoom@),
        tab.line@ == selection_line(*graph, *selection),
{
    let mut constraints: Vec<Constraint> = Vec::new();
    constraints.push(Constraint::Min(3));
    constraints.push(Constraint::Length(1));
    proof {
        reveal_with_fuel(asked, 3);
        reveal_with_fuel(takers, 3);
        reveal_with_fuel(least, 3);
        reveal_with_fuel(lengths, 3);
    }
    let rows = split_area(Direction::Vertical, &constraints, 0, area);
    let title = graph_title(area.width, direction, show_all, show_escape, zoom);
    let line = match selection {
        GraphSelection::Node(id) => show_node(graph, id.as_str()),
        GraphSelection::Edge(edge) => {
            let text = show_edge(edge);
            line1(styled(text, Style::ink(Color::Muted)))
        },
        GraphSelection::Nothing => line1(
            span(
                " Select a stage with the arrows or a click; enter opens its tab.",
                Style::ink(Color::Dim),
            ),
        ),
    };
    ExplorerGraph { canvas: rows[0], footer: rows[1], title, line }
}

impl Dashboard {
    /// Make the canvas a pane the wheel can be over.
    pub fn note_explorer_canvas(&mut self, canvas: Rect)
        ensures
            *final(self) == (Dashboard {
                mouse: Mouse { pane_rects: final(self).mouse.pane_rects, ..old(self).mouse },
                ..*old(self)
            }),
            final(self).mouse.pane_rects@ == old(self).mouse.pane_rects@.push(
                (PaneId::ExplorerGraph, canvas),
            ),
    {
        self.mouse.pane_rects.push((PaneId::ExplorerGraph, canvas));
    }
}

// ── The timeline ─────────────────────────────────────────────────────────────

/// How long a visit took; an ellipsis while it lasts. One that ended before it
/// began took no time.
pub open spec fn visit_length(visit: StageVisit) -> Seq<char> {
    match visit.left_at {
        Some(left) => {
            let secs = if left > visit.entered_at {
                left - visit.entered_at
            } else {
                0
            };
            if secs < 60 {
                decimal(secs as nat) + "s"@
            } else {
                decimal((secs / 60) as nat) + "m"@ + decimal((secs % 60) as nat) + "s"@
            }
        },
        None => "…"@,
    }
}

/// How long a visit took.
pub fn duration_label(visit: &StageVisit) -> (label: String)
    ensures
        label@ == visit_length(*visit),
{
    match visit.left_at {
        Some(left) => {
            let secs: u64 = if left > visit.entered_at {
                (left as i128 - visit.entered_at as i128) as u64
            } else {
                0
            };
            if secs < 60 {
                let text = number(secs);
                cat2(text.as_str(), "s")
            } else {
                let minutes = number(secs / 60);
                let rest = number(secs % 60);
                cat4(minutes.as_str(), "m", rest.as_str(), "s")
            }
        },
        None => copy_of("…"),
    }
}

/// A visit on the timeline. `entered` is the time it began at, spelled out.
pub open spec fn visit_line(
    visit: StageVisit,
    i: int,
    selected: int,
    browsed: Option<usize>,
    entered: Seq<char>,
) -> Seq<SpanView> {
    seq![
        sp(
            if browsed == Some(visit.first_point) {
                "⏪ "@
            } else {
                "   "@
            },
            ink(Color::Accent),
        ),
        sp(padded_left(decimal((i + 1) as nat), 3) + "  "@, ink(Color::Dim)),
        sp(
            padded_right(visit.stage@, 18),
            Style { fg: Some(Color::White), bg: None, bold: false, reversed: i == selected },
        ),
        sp(
            "entered "@ + entered + "  ·  "@ + visit_length(visit) + "  ·  iter "@ + decimal(
                visit.iterations as nat,
            ),
            ink(Color::Muted),
        ),
    ]
}

/// The first `count` visits on the timeline.
pub open spec fn visit_lines(
    visits: Seq<StageVisit>,
    entered: Seq<String>,
    selected: int,
    browsed: Option<usize>,
    count: int,
) -> Seq<Seq<SpanView>>
    decreases count,
{
    if count <= 0 {
        Seq::empty()
    } else {
        visit_lines(visits, entered, selected, browsed, count - 1).push(
            visit_line(
                visits[count - 1],
                count - 1,
                selected,
                browsed,
                entered[count - 1]@,
            ),
        )
    }
}

/// The timeline's lines.
pub open spec fn timeline_lines(
    visits: Seq<StageVisit>,
    entered: Seq<String>,
    selected: int,
    browsed: Option<usize>,
) -> Seq<Seq<SpanView>> {
    if visits.len() == 0 {
        seq![
            seq![
                sp(
                    " No archived visits yet. The timeline fills in as the run records progress."@,
                    ink(Color::Dim),
                ),
            ],
        ]
    } else {
        visit_lines(visits, entered, selected, browsed, visits.len() as int)
    }
}

/// How far the timeline is scrolled to keep the selection in view.
pub open spec fn timeline_scroll(selected: nat, height: nat) -> nat {
    let above = if height == 0 {
        0
    } else {
        (height - 1) as nat
    };
    if selected > above {
        (selected - above) as nat
    } else {
        0
    }
}

/// The timeline: its title, its lines, and how far it is scrolled.
#[derive(Debug)]
pub struct Timeline {
    pub title: String,
    pub lines: Vec<Line>,
    pub scroll: usize,
}

/// A visit on the timeline.
fn show_visit(
    visit: &StageVisit,
    i: usize,
    selected: usize,
    browsed: Option<usize>,
    entered: &str,
) -> (line: Line)
    requires
        i < usize::MAX,
    ensures
        line@ == visit_line(*visit, i as int, selected as int, browsed, entered@),
{
    let here = match browsed {
        Some(point) => point == visit.first_point,
        None => false,
    };
    let marker: &str = if here {
        "⏪ "
    } else {
        "   "
    };
    let place = count_text(i + 1);
    let padded = pad_left(place.as_str(), 3);
    let number_text = cat2(padded.as_str(), "  ");
    let stage = pad_right(visit.stage.as_str(), 18);
    let length = duration_label(visit);
    let iterations = count_text(visit.iterations);
    let mut facts = cat5("entered ", entered, "  ·  ", length.as_str(), "  ·  iter ");
    facts.append(iterations.as_str());
    line4(
        span(marker, Style::ink(Color::Accent)),
        styled(number_text, Style::ink(Color::Dim)),
        styled(
            stage,
            Style { fg: Some(Color::White), bg: None, bold: false, reversed: i == selected },
        ),
        styled(facts, Style::ink(Color::Muted)),
    )
}

impl Dashboard {
    /// The timeline over `area`, scrolled so that the selection is in view.
    /// `entered` says of each visit when it began.
    pub fn draw_explorer_timeline(
        &self,
        area: Rect,
        visits: &Vec<StageVisit>,
        entered: &Vec<String>,
        selected: usize,
    ) -> (timeline: Timeline)
        requires
            entered@.len() == visits@.len(),
        ensures
            views(timeline.lines@) == timeline_lines(
                visits@,
                entered@,
                selected as int,
                self.detail.history_idx,
            ),
            timeline.title@ == " Timeline · "@ + decimal(visits@.len()) + " visits "@,
            timeline.scroll == timeline_scroll(selected as nat, inner_rows(area)),
    {
        let mut lines: Vec<Line> = Vec::new();
        if visits.len() == 0 {
            lines.push(
                line1(
                    span(
                        " No archived visits yet. The timeline fills in as the run records progress.",
                        Style::ink(Color::Dim),
                    ),
                ),
            );
            assert(views(lines@) =~= timeline_lines(
                visits@,
                entered@,
                selected as int,
                self.detail.history_idx,
            ));
        } else {
            let mut i: usize = 0;
            while i < visits.len()
                invariant
                    i <= visits@.len(),
                    entered@.len() == visits@.len(),
                    views(lines@) == visit_lines(
                        visits@,
                        entered@,
                        selected as int,
                        self.detail.history_idx,
                        i as int,
                    ),
                decreases visits.len() - i,
            {
                lines.push(
                    show_visit(
                        &visits[i],
                        i,
                        selected,
                        self.detail.history_idx,
                        entered[i].as_str(),
                    ),
                );
                i = i + 1;
            }
        }
        let count = count_text(visits.len());
        let title = cat3(" Timeline · ", count.as_str(), " visits ");
        let height: usize = area.height.saturating_sub(2) as usize;
        let scroll: usize = selected.saturating_sub(height.saturating_sub(1));
        Timeline { title, lines, scroll }
    }
}

/// The selected visit is in view wherever the pane has rows.
pub proof fn the_selected_visit_is_in_view(selected: nat, height: nat)
    requires
        height > 0,
    ensures
        timeline_scroll(selected, height) <= selected < timeline_scroll(selected, height) + height,
{
}

// ── The explorer ─────────────────────────────────────────────────────────────

/// The explorer: where its parts stand, its tab strip, and the keys that work.
#[derive(Debug)]
pub struct ExplorerFrame {
    pub strip: Rect,
    pub body: Rect,
    pub hints_row: Rect,
    pub tabs: Line,
    pub hints: Vec<(&'static str, &'static str)>,
}

/// A tab of the strip.
pub open spec fn tab_span(label: Seq<char>, active: bool) -> SpanView {
    sp(
        " "@ + label + " "@,
        if active {
            Style { fg: Some(Color::Accent), bg: None, bold: true, reversed: true }
        } else {
            ink(Color::Muted)
        },
    )
}

/// The tab strip.
pub open spec fn explorer_tabs(blueprint: Seq<char>, tab: ExplorerTab) -> Seq<SpanView> {
    seq![
        sp(" Stage explorer · "@ + blueprint + " "@, bold_ink(Color::White)),
        tab_span("Graph"@, tab == ExplorerTab::Graph),
        tab_span("Timeline"@, tab == ExplorerTab::Timeline),
    ]
}

/// The keys that work, the most important first: on a narrow terminal the tail
/// falls off.
pub open spec fn explorer_hints(tab: ExplorerTab) -> Seq<(&'static str, &'static str)> {
    match tab {
        ExplorerTab::Graph => seq![
            ("esc/g", "close"),
            ("←→↑↓", "select"),
            ("enter", "open tab"),
            ("tab", "timeline"),
            ("?", "help"),
            ("t", "whole graph"),
            ("e", "escapes"),
            ("r", "rotate"),
            ("f", "fit"),
            ("+ -", "zoom"),
            ("drag", "move / pan"),
        ],
        ExplorerTab::Timeline => seq![
            ("esc/g", "close"),
            ("↑↓", "select a visit"),
            ("enter", "open its context"),
            ("tab", "graph"),
            ("?", "help"),
        ],
    }
}

/// A tab of the strip.
fn show_tab(label: &str, active: bool) -> (tab: Span)
    ensures
        tab@ == tab_span(label@, active),
{
    let text = cat3(" ", label, " ");
    let style = if active {
        Style { fg: Some(Color::Accent), bg: None, bold: true, reversed: true }
    } else {
        Style::ink(Color::Muted)
    };
    styled(text, style)
}

/// The explorer over `area`: its tab strip, its body, and the keys that work. Up to
/// three rows are all the body's; which of the strip and the keys has the fourth is
/// the layout's own choice.
pub fn draw_stage_explorer(area: Rect, blueprint: &str, tab: ExplorerTab) -> (frame: ExplorerFrame)
    ensures
        within(frame.strip, area),
        within(frame.body, area),
        within(frame.hints_row, area),
        area.height != 4 && area.y + area.height <= u16::MAX ==> ({
            let edge = row_after(area.height, 3);
            &&& frame.strip == (Rect { height: edge, ..area })
            &&& frame.body == (Rect {
                y: (area.y + edge) as u16,
                height: (area.height - 2 * edge) as u16,
                ..area
            })
            &&& frame.hints_row == (Rect {
                y: (area.y + area.height - edge) as u16,
                height: edge,
                ..area
            })
        }),
        frame.tabs@ == explorer_tabs(blueprint@, tab),
        frame.hints@ == explorer_hints(tab),
{
    let mut constraints: Vec<Constraint> = Vec::new();
    constraints.push(Constraint::Length(1));
    constraints.push(Constraint::Min(3));
    constraints.push(Constraint::Length(1));
    proof {
        reveal_with_fuel(asked, 4);
        reveal_with_fuel(takers, 4);
        reveal_with_fuel(least, 4);
        reveal_with_fuel(lengths, 4);
    }
    let rows = split_area(Direction::Vertical, &constraints, 0, area);
    let name = cat3(" Stage explorer · ", blueprint, " ");
    let tabs = line3(
        styled(name, Style::bold_ink(Color::White)),
        show_tab("Graph", tab == ExplorerTab::Graph),
        show_tab("Timeline", tab == ExplorerTab::Timeline),
    );
    let hints: Vec<(&'static str, &'static str)> = match tab {
        ExplorerTab::Graph => vec![
            ("esc/g", "close"),
            ("←→↑↓", "select"),
            ("enter", "open tab"),
            ("tab", "timeline"),
            ("?", "help"),
            ("t", "whole graph"),
            ("e", "escapes"),
            ("r", "rotate"),
            ("f", "fit"),
            ("+ -", "zoom"),
            ("drag", "move / pan"),
        ],
        ExplorerTab::Timeline => vec![
            ("esc/g", "close"),
            ("↑↓", "select a visit"),
            ("enter", "open its context"),
            ("tab", "graph"),
            ("?", "help"),
        ],
    };
    ExplorerFrame { strip: rows[0], body: rows[1], hints_row: rows[2], tabs, hints }
}

} // verus!
