//! What the stage explorer says of a blueprint's stages and of a run's visits to them.

use crate::render::graph_view::{
    edge_text, explorer_tabs, graph_heading, node_facts, node_from, selection_line, targets_of,
    timeline_lines, timeline_scroll, visit_length, visit_lines, ExplorerTab, FlowDirection,
    GraphSelection,
};
use crate::text::{decimal, joined, padded_right};
use crate::types::{StageEdge, StageGraph, StageNode, StageVisit};
use crate::views::{group_views, views};
use vstd::prelude::*;

verus! {

broadcast use group_views;

// ── The graph ────────────────────────────────────────────────────────────────

/// The heading says which way the graph goes, how much of it is shown, whether escapes are, and
/// the zoom; in a narrow pane in fewer words.
pub proof fn the_heading_says_what_is_shown(
    width: u16,
    direction: FlowDirection,
    show_all: bool,
    show_escape: bool,
    zoom: Seq<char>,
)
    ensures
        ({
            let heading = graph_heading(width, direction, show_all, show_escape, zoom);
            let way = if direction == FlowDirection::LeftToRight {
                if width < 90 {
                    "→"@
                } else {
                    "left to right"@
                }
            } else {
                if width < 90 {
                    "↓"@
                } else {
                    "top to bottom"@
                }
            };
            &&& (" Graph · "@ + way).is_prefix_of(heading)
            &&& (zoom + "% "@).is_suffix_of(heading)
            &&& (width < 90 ==> heading == " Graph · "@ + way + " · "@ + (if show_all {
                "all"@
            } else {
                "path"@
            }) + " (t) · e:"@ + (if show_escape {
                "on"@
            } else {
                "off"@
            }) + " · "@ + zoom + "% "@)
            &&& (width >= 90 ==> heading == " Graph · "@ + way + " (r) · "@ + (if show_all {
                "whole graph"@
            } else {
                "path + options"@
            }) + " (t) · escapes "@ + (if show_escape {
                "on"@
            } else {
                "off"@
            }) + " (e) · zoom "@ + zoom + "% "@)
        }),
{
    let heading = graph_heading(width, direction, show_all, show_escape, zoom);
    let end = zoom + "% "@;
    assert(heading.skip(heading.len() - end.len()) =~= end);
    let way = if direction == FlowDirection::LeftToRight {
        if width < 90 {
            "→"@
        } else {
            "left to right"@
        }
    } else {
        if width < 90 {
            "↓"@
        } else {
            "top to bottom"@
        }
    };
    let head = " Graph · "@ + way;
    assert(heading.take(head.len() as int) =~= head);
}

/// A stage is found by its id: the first that has it.
pub proof fn a_stage_is_found_by_its_id(nodes: Seq<StageNode>, id: Seq<char>, from: int, at: int)
    requires
        0 <= from <= at < nodes.len(),
        nodes[at].id@ == id,
        forall|j: int| from <= j < at ==> (#[trigger] nodes[j]).id@ != id,
    ensures
        node_from(nodes, id, from) == Some(nodes[at]),
    decreases at - from,
{
    if from < at {
        a_stage_is_found_by_its_id(nodes, id, from + 1, at);
    }
}

/// What is said of a stage begins with its kind and ends with its description, and says of its
/// limits, its repeating, what it takes and what it hands back exactly those that it has.
pub proof fn a_stage_says_what_it_has(node: StageNode)
    ensures
        ({
            let facts = node_facts(node);
            let limits = (if node.max_iterations is Some {
                1int
            } else {
                0
            }) + (if node.max_revisits is Some {
                1int
            } else {
                0
            });
            &&& facts[0] == node.kind_label@
            &&& facts.len() == 1 + limits + (if node.self_loop {
                1int
            } else {
                0
            }) + (if node.inputs@.len() > 0 {
                1int
            } else {
                0
            }) + (if node.outputs@.len() > 0 {
                1int
            } else {
                0
            }) + (if node.description is Some {
                1int
            } else {
                0
            })
            &&& (node.description is Some ==> facts.last() == node.description->0@)
            &&& (node.max_iterations is Some ==> facts[1] == "max "@ + decimal(
                node.max_iterations->0 as nat,
            ) + " iterations"@)
            &&& (node.max_revisits is Some ==> facts[limits] == "max "@ + decimal(
                node.max_revisits->0 as nat,
            ) + " revisits"@)
            &&& (node.self_loop ==> facts[limits + 1] == "may repeat itself"@)
            &&& (node.outputs@.len() > 0 && node.description is None ==> facts.last()
                == "hands back "@ + joined(views(node.outputs@), " "@))
            &&& (node.inputs@.len() > 0 && node.outputs@.len() == 0 && node.description is None
                ==> facts.last() == "takes "@ + joined(views(node.inputs@), " "@))
        }),
{
}

/// Where a selected stage leads is every transition that begins there, in order, with its
/// condition where it has one.
pub proof fn a_stage_leads_where_its_edges_go(edges: Seq<StageEdge>, id: Seq<char>, count: int)
    requires
        0 <= count <= edges.len(),
    ensures
        ({
            let targets = targets_of(edges, id, count);
            let out = edges.take(count).filter(|edge: StageEdge| edge.from@ == id);
            &&& targets.len() == out.len()
            &&& forall|i: int|
                #![trigger targets[i]]
                0 <= i < targets.len() ==> targets[i] == if out[i].condition_label@.len() == 0 {
                    "→ "@ + out[i].to@
                } else {
                    "→ "@ + out[i].to@ + " ["@ + out[i].condition_label@ + "]"@
                }
        }),
    decreases count,
{
    let begins_there = |edge: StageEdge| edge.from@ == id;
    if count > 0 {
        a_stage_leads_where_its_edges_go(edges, id, count - 1);
        assert(edges.take(count) =~= edges.take(count - 1).push(edges[count - 1]));
        edges.take(count - 1).lemma_filter_push(edges[count - 1], begins_there);
    } else {
        assert(edges.take(0) =~= Seq::empty());
        reveal_with_fuel(Seq::filter, 1);
    }
}

/// The line of a selected transition begins with where it comes from and where it goes; with no
/// condition, hint or warning it says what it does to the context and nothing else.
pub proof fn a_transition_says_both_ends(edge: StageEdge)
    ensures
        (" "@ + edge.from@ + " → "@ + edge.to@).is_prefix_of(edge_text(edge)),
        edge.condition_label@.len() == 0 && edge.hint is None && edge.unseen@.len() == 0
            ==> edge_text(edge) == " "@ + edge.from@ + " → "@ + edge.to@ + " · transform "@
            + edge.transform@,
        edge.condition_label@.len() > 0 ==> (" "@ + edge.from@ + " → "@ + edge.to@ + " ["@
            + edge.condition_label@ + "]"@).is_prefix_of(edge_text(edge)),
        edge.hint is Some && edge.unseen@.len() == 0 ==> (" · "@ + edge.hint->0@).is_suffix_of(
            edge_text(edge),
        ),
        edge.unseen@.len() > 0 ==> (" · ! "@ + joined(views(edge.unseen@), " "@) + " not taken by "@
            + edge.to@ + ": crosses as a stand-in"@).is_suffix_of(edge_text(edge)),
{
    let text = edge_text(edge);
    let ends = " "@ + edge.from@ + " → "@ + edge.to@;
    assert(text.take(ends.len() as int) =~= ends);
    if edge.condition_label@.len() > 0 {
        let head = ends + " ["@ + edge.condition_label@ + "]"@;
        assert(text.take(head.len() as int) =~= head);
    }
    if edge.hint is Some && edge.unseen@.len() == 0 {
        let end = " · "@ + edge.hint->0@;
        assert(text.skip(text.len() - end.len()) =~= end);
    }
    if edge.unseen@.len() > 0 {
        let end = " · ! "@ + joined(views(edge.unseen@), " "@) + " not taken by "@ + edge.to@
            + ": crosses as a stand-in"@;
        assert(text.skip(text.len() - end.len()) =~= end);
    }
}

/// The line under the graph is of what is selected: a stage by its id, a transition by its ends.
pub proof fn the_line_is_of_what_is_selected(graph: StageGraph, selection: GraphSelection)
    ensures
        selection matches GraphSelection::Node(id) ==> selection_line(graph, selection)[0].content
            == " "@ + id@ + " "@,
        selection matches GraphSelection::Edge(edge) ==> selection_line(
            graph,
            selection,
        )[0].content == edge_text(edge),
        selection matches GraphSelection::Node(id) ==> (selection_line(graph, selection).len() == 3
            <==> targets_of(graph.edges@, id@, graph.edges@.len() as int).len() > 0),
{
}

// ── The timeline ─────────────────────────────────────────────────────────────

/// A visit that ended took the seconds from its beginning to its end: under a minute in seconds,
/// else in minutes and what is left over. One that lasts has no length yet.
pub proof fn a_visit_takes_its_seconds(visit: StageVisit) -> (parts: (nat, nat))
    ensures
        visit.left_at is None ==> visit_length(visit) == "…"@,
        visit.left_at matches Some(left) ==> {
            let secs = left - visit.entered_at;
            &&& secs < 0 ==> visit_length(visit) == decimal(0) + "s"@
            &&& 0 <= secs < 60 ==> visit_length(visit) == decimal(secs as nat) + "s"@
            &&& secs >= 60 ==> visit_length(visit) == decimal(parts.0) + "m"@ + decimal(parts.1)
                + "s"@ && 60 * parts.0 + parts.1 == secs && parts.1 < 60
        },
{
    match visit.left_at {
        Some(left) => {
            let secs = left - visit.entered_at;
            if secs >= 60 {
                ((secs / 60) as nat, (secs % 60) as nat)
            } else {
                (0, 0)
            }
        },
        None => (0, 0),
    }
}

/// Each visit has its line, in order: counted from one, with its stage, when it began and how
/// often it went round; the selected one stands out, and the browsed one is marked.
pub proof fn each_visit_has_its_line(
    visits: Seq<StageVisit>,
    entered: Seq<String>,
    selected: int,
    browsed: Option<usize>,
    count: int,
    at: int,
)
    requires
        0 <= at < count <= visits.len(),
    ensures
        ({
            let lines = visit_lines(visits, entered, selected, browsed, count);
            let line = lines[at];
            &&& lines.len() == count
            &&& line.len() == 4
            &&& (line[0].content == "⏪ "@ <==> browsed == Some(visits[at].first_point))
            &&& line[2].content == padded_right(visits[at].stage@, 18)
            &&& (line[2].style.reversed <==> at == selected)
            &&& line[3].content == "entered "@ + entered[at]@ + "  ·  "@ + visit_length(visits[at])
                + "  ·  iter "@ + decimal(visits[at].iterations as nat)
        }),
    decreases count,
{
    reveal_strlit("⏪ ");
    reveal_strlit("   ");
    assert("⏪ "@[0] != "   "@[0]);
    visits_are_counted(visits, entered, selected, browsed, count);
    if at < count - 1 {
        each_visit_has_its_line(visits, entered, selected, browsed, count - 1, at);
    } else {
        visits_are_counted(visits, entered, selected, browsed, count - 1);
    }
}

proof fn visits_are_counted(
    visits: Seq<StageVisit>,
    entered: Seq<String>,
    selected: int,
    browsed: Option<usize>,
    count: int,
)
    requires
        0 <= count,
    ensures
        visit_lines(visits, entered, selected, browsed, count).len() == count,
    decreases count,
{
    if count > 0 {
        visits_are_counted(visits, entered, selected, browsed, count - 1);
    }
}

/// The strip names the blueprint and lights the tab that is open, and no other.
pub proof fn the_open_tab_is_lit(blueprint: Seq<char>, tab: ExplorerTab)
    ensures
        ({
            let tabs = explorer_tabs(blueprint, tab);
            &&& tabs[0].content == " Stage explorer · "@ + blueprint + " "@
            &&& tabs[1].content == " "@ + "Graph"@ + " "@
            &&& tabs[2].content == " "@ + "Timeline"@ + " "@
            &&& (tabs[1].style.reversed <==> tab is Graph)
            &&& (tabs[2].style.reversed <==> tab is Timeline)
        }),
{
}

/// The timeline is scrolled no further than it has to be: not at all while the selected visit fits,
/// and else so that it stands on the last row.
pub proof fn the_timeline_is_scrolled_no_further_than_needed(selected: nat, height: nat)
    requires
        height > 0,
    ensures
        selected < height ==> timeline_scroll(selected, height) == 0,
        selected >= height ==> selected - timeline_scroll(selected, height) == height - 1,
{
}

/// A timeline without visits says so, and one with visits has a line for each.
pub proof fn a_timeline_has_a_line_for_each_visit(
    visits: Seq<StageVisit>,
    entered: Seq<String>,
    selected: int,
    browsed: Option<usize>,
)
    ensures
        visits.len() == 0 ==> timeline_lines(visits, entered, selected, browsed).len() == 1,
        visits.len() > 0 ==> timeline_lines(visits, entered, selected, browsed).len()
            == visits.len(),
{
    visits_are_counted(visits, entered, selected, browsed, visits.len() as int);
}

} // verus!
