//! What the context card and the Context view say of a context window.

use crate::numbers::token_figure;
use crate::render::context::{
    bar_width, card_letters, card_lines, card_title, card_width, clock_label, context_head,
    context_lines, context_rows, incoming_line, incoming_lines, kind_letter, outgoing_line,
    outgoing_lines, predates_entries, region_letters, stage_head, transitions_in, transitions_out,
    usage, usage_color, usage_line, viewed_stage, visits_to, window_of, HistoryPoint, WindowReading,
};
use crate::style::SpanView;
use crate::text::{decimal, joined, repeated_is_the_unit_everywhere};
use crate::types::{
    ContextRegion, ContextSnapshot, DashboardAgent, StageEdge, StageNode, StageRecord,
};
use vstd::prelude::*;

verus! {

// ── The card ─────────────────────────────────────────────────────────────────

/// Usage is the percentage of the window that is taken, rounded down and at most all of it; a
/// window without room uses none.
pub proof fn usage_is_rounded_down(total: nat, max: nat)
    ensures
        max == 0 ==> usage(total, max) == 0,
        0 < max && total <= max ==> usage(total, max) * max <= 100 * total < (usage(total, max)
            + 1) * max,
        0 < max && total >= max ==> usage(total, max) == 100,
{
    if max > 0 {
        let share = total * 100 / max;
        assert(share * max <= total * 100 < (share + 1) * max) by (nonlinear_arith)
            requires
                max > 0,
                share == total * 100 / max,
        ;
        if total <= max {
            assert(share <= 100) by (nonlinear_arith)
                requires
                    share * max <= total * 100,
                    total <= max,
                    max > 0,
            ;
        }
        if total >= max {
            assert(share >= 100) by (nonlinear_arith)
                requires
                    total * 100 < (share + 1) * max,
                    total >= max,
                    max > 0,
            ;
        }
    }
}

/// A bar warns from seventy percent on and alarms from ninety on.
pub proof fn a_full_window_is_marked(percent: nat)
    ensures
        usage_color(percent) is Error <==> percent >= 90,
        usage_color(percent) is Warn <==> 70 <= percent < 90,
        usage_color(percent) is Success <==> percent < 70,
{
}

/// A region's kind has its letter in either spelling, and an unknown one a dot.
pub proof fn kinds_have_their_letters(kind: Seq<char>)
    ensures
        kind_letter("pinned"@) == "P"@,
        kind_letter("sliding_window"@) == "S"@ && kind_letter("sliding"@) == "S"@,
        kind_letter("compacting"@) == "H"@ && kind_letter("compact_history"@) == "H"@
            && kind_letter("history"@) == "H"@,
        kind_letter(kind) == "P"@ || kind_letter(kind) == "S"@ || kind_letter(kind) == "H"@
            || kind_letter(kind) == "·"@,
        kind_letter(kind) == "P"@ ==> kind == "pinned"@,
        kind_letter(kind) == "S"@ ==> kind == "sliding_window"@ || kind == "sliding"@,
{
    reveal_strlit("pinned");
    reveal_strlit("sliding_window");
    reveal_strlit("sliding");
    reveal_strlit("compacting");
    reveal_strlit("compact_history");
    reveal_strlit("history");
    reveal_strlit("P");
    reveal_strlit("S");
    reveal_strlit("H");
    reveal_strlit("·");
    assert("pinned"@[0] == 'p' && "sliding_window"@[0] == 's' && "sliding"@[0] == 's');
    assert("compacting"@[0] == 'c' && "compact_history"@[0] == 'c' && "history"@[0] == 'h');
    assert("P"@[0] == 'P' && "S"@[0] == 'S' && "H"@[0] == 'H' && "·"@[0] == '·');
}

/// The card has a letter for each of its first six regions, in their order.
pub proof fn the_card_shows_the_first_regions(regions: Seq<ContextRegion>)
    ensures
        ({
            let shown = if regions.len() < 6 {
                regions.len()
            } else {
                6
            };
            card_letters(regions) == joined(
                Seq::new(shown, |i: int| kind_letter(regions[i].kind@)),
                " "@,
            )
        }),
{
    let shown: int = if regions.len() < 6 {
        regions.len() as int
    } else {
        6
    };
    letters_in_order(regions, shown);
    assert(region_letters(regions, shown) =~= Seq::new(
        shown as nat,
        |i: int| kind_letter(regions[i].kind@),
    ));
}

proof fn letters_in_order(regions: Seq<ContextRegion>, count: int)
    requires
        0 <= count <= regions.len(),
    ensures
        region_letters(regions, count).len() == count,
        forall|i: int|
            0 <= i < count ==> (#[trigger] region_letters(regions, count)[i]) == kind_letter(
                regions[i].kind@,
            ),
    decreases count,
{
    if count > 0 {
        letters_in_order(regions, count - 1);
    }
}

/// While a point of the history is browsed the card says which, counted from one, of how many,
/// of which stage and from when; else that this is the context.
pub proof fn the_card_says_which_point_is_browsed(at: usize, points: Seq<HistoryPoint>)
    requires
        at < points.len(),
    ensures
        card_title(Some(at), Some(points)) == " ⏪ point "@ + decimal(at as nat + 1) + "/"@
            + decimal(points.len()) + " · "@ + points[at as int].stage@ + " · "@ + clock_label(
            points[at as int].at,
            points[at as int].offset,
        ) + " "@,
        card_title(None, Some(points)) == " ctx "@,
        card_title(Some(at), None) == " ctx "@,
{
    assert((at + 1) as nat == at as nat + 1);
}

/// The card is no wider than its pane and than sixty-four columns, and its bar leaves room for
/// the border and the padding, between eight and thirty-two columns.
pub proof fn the_card_fits(width: u16, card: u16)
    ensures
        card_width(width) <= width,
        card_width(width) <= 64,
        width <= 64 ==> card_width(width) == width,
        8 <= bar_width(card) <= 32,
        12 <= card <= 36 ==> bar_width(card) == card - 4,
{
}

/// The bar is filled by as many cells as the usage takes of it, rounded down, the rest is empty,
/// and the percentage and both counts stand beside it.
pub proof fn the_bar_shows_the_usage(snap: ContextSnapshot, card: u16)
    ensures
        ({
            let lines = card_lines(Some(snap), card);
            let percent = usage(snap.total_tokens as nat, snap.max_tokens as nat);
            let bar = bar_width(card);
            let cells = lines[0][0].content;
            let filled = bar * percent / 100;
            &&& lines.len() == 2
            &&& cells.len() == bar
            &&& forall|i: int| 0 <= i < filled ==> (#[trigger] cells[i]) == '█'
            &&& forall|i: int| filled <= i < bar ==> (#[trigger] cells[i]) == '░'
            &&& 100 * filled <= bar * percent < 100 * (filled + 1)
            &&& lines[0][1].content == "  "@ + decimal(percent) + "%"@
            &&& lines[1][0].content == token_figure(snap.total_tokens as nat) + " / "@
                + token_figure(snap.max_tokens as nat) + " tokens"@
        }),
{
    let percent = usage(snap.total_tokens as nat, snap.max_tokens as nat);
    let bar = bar_width(card);
    let filled = bar * percent / 100;
    crate::render::context::a_bar_fills_within_itself(
        snap.total_tokens as nat,
        snap.max_tokens as nat,
        card,
    );
    reveal_strlit("█");
    reveal_strlit("░");
    assert("█"@ =~= seq!['█']);
    assert("░"@ =~= seq!['░']);
    repeated_is_the_unit_everywhere('█', filled);
    repeated_is_the_unit_everywhere('░', (bar - filled) as nat);
}

/// The window on view is the browsed point's where one is browsed, else the stage's, else the
/// live one of the run.
pub proof fn a_browsed_window_comes_first(reading: WindowReading, run: DashboardAgent)
    ensures
        reading.browsed is Some ==> window_of(reading, run) == reading.browsed,
        reading.browsed is None && reading.stage is Some ==> window_of(reading, run)
            == reading.stage,
        reading.browsed is None && reading.stage is None && run.context_snapshot is Some
            ==> window_of(reading, run) is Some,
        reading.browsed is None && reading.stage is None && run.context_snapshot is None
            ==> window_of(reading, run) is None,
{
}

// ── The stage and its transitions ────────────────────────────────────────────

/// The stage on view is the run's record of it, where there is one, else the blueprint's, else
/// the one that the run is in.
pub proof fn the_record_names_the_stage(
    stages: Seq<StageRecord>,
    nodes: Seq<StageNode>,
    current: Seq<char>,
    at: int,
)
    requires
        0 <= at,
    ensures
        at < stages.len() ==> viewed_stage(stages, nodes, current, at) == stages[at].name@,
        stages.len() <= at < nodes.len() ==> viewed_stage(stages, nodes, current, at)
            == nodes[at].id@,
        at >= stages.len() && at >= nodes.len() ==> viewed_stage(stages, nodes, current, at)
            == current,
{
}

/// A stage was visited as often as the run has a record of its name.
pub proof fn every_visit_counts(stages: Seq<StageRecord>, name: Seq<char>, count: int)
    requires
        0 <= count <= stages.len(),
    ensures
        visits_to(stages, name, count) == stages.take(count).filter(
            |stage: StageRecord| stage.name@ == name,
        ).len(),
    decreases count,
{
    let named = |stage: StageRecord| stage.name@ == name;
    if count > 0 {
        every_visit_counts(stages, name, count - 1);
        assert(stages.take(count) =~= stages.take(count - 1).push(stages[count - 1]));
        stages.take(count - 1).lemma_filter_len_push(named, stages[count - 1]);
    } else {
        assert(stages.take(0) =~= Seq::empty());
        reveal_with_fuel(Seq::filter, 1);
    }
}

/// The transitions out of a stage are those that begin there, each with where it leads, its
/// condition and its hint, in the blueprint's order.
pub proof fn transitions_out_begin_there(edges: Seq<StageEdge>, name: Seq<char>, count: int)
    requires
        0 <= count <= edges.len(),
    ensures
        ({
            let lines = outgoing_lines(edges, name, count);
            let out = edges.take(count).filter(|edge: StageEdge| edge.from@ == name);
            &&& lines.len() == out.len()
            &&& forall|i: int|
                #![trigger lines[i]]
                0 <= i < lines.len() ==> leads_out(lines[i], out[i])
        }),
    decreases count,
{
    let begins_there = |edge: StageEdge| edge.from@ == name;
    if count > 0 {
        transitions_out_begin_there(edges, name, count - 1);
        assert(edges.take(count) =~= edges.take(count - 1).push(edges[count - 1]));
        edges.take(count - 1).lemma_filter_push(edges[count - 1], begins_there);
        assert(leads_out(outgoing_line(edges[count - 1]), edges[count - 1]));
    } else {
        assert(edges.take(0) =~= Seq::empty());
        reveal_with_fuel(Seq::filter, 1);
    }
}

/// Whether a line says where a transition leads, under which condition, and its hint.
pub open spec fn leads_out(line: Seq<SpanView>, edge: StageEdge) -> bool {
    &&& line.len() == 3
    &&& line[0].content == "    → "@ + edge.to@
    &&& edge.condition_label@.len() > 0 ==> line[1].content == " ["@ + edge.condition_label@ + "]"@
    &&& edge.condition_label@.len() == 0 ==> line[1].content.len() == 0
    &&& edge.hint is Some ==> line[2].content == " - "@ + edge.hint->0@
    &&& edge.hint is None ==> line[2].content.len() == 0
}

/// The transitions into a stage are those that end there, each with where it comes from and what
/// it does to the context, in the blueprint's order.
pub proof fn transitions_in_end_there(edges: Seq<StageEdge>, name: Seq<char>, count: int)
    requires
        0 <= count <= edges.len(),
    ensures
        ({
            let lines = incoming_lines(edges, name, count);
            let into = edges.take(count).filter(|edge: StageEdge| edge.to@ == name);
            &&& lines.len() == into.len()
            &&& forall|i: int|
                #![trigger lines[i]]
                0 <= i < lines.len() ==> comes_in(lines[i], into[i])
        }),
    decreases count,
{
    let ends_there = |edge: StageEdge| edge.to@ == name;
    if count > 0 {
        transitions_in_end_there(edges, name, count - 1);
        assert(edges.take(count) =~= edges.take(count - 1).push(edges[count - 1]));
        edges.take(count - 1).lemma_filter_push(edges[count - 1], ends_there);
        assert(comes_in(incoming_line(edges[count - 1]), edges[count - 1]));
    } else {
        assert(edges.take(0) =~= Seq::empty());
        reveal_with_fuel(Seq::filter, 1);
    }
}

/// Whether a line says where a transition comes from and what it does.
pub open spec fn comes_in(line: Seq<SpanView>, edge: StageEdge) -> bool {
    &&& line.len() == 2
    &&& line[0].content == "    ← "@ + edge.from@
    &&& line[1].content == " [transform: "@ + edge.transform@ + "]"@
}

/// A stage that leads nowhere is said to end, and one that nothing leads to has no list of where
/// it is reached from.
pub proof fn a_last_stage_is_said_to_end(edges: Seq<StageEdge>, name: Seq<char>)
    ensures
        ({
            let out = outgoing_lines(edges, name, edges.len() as int);
            let into = incoming_lines(edges, name, edges.len() as int);
            &&& (out.len() > 0 ==> transitions_out(edges, name).skip(1) == out)
            &&& (out.len() == 0 ==> transitions_out(edges, name).len() == 1 && transitions_out(
                edges,
                name,
            )[0][0].content == "  Transitions: (terminal - no outgoing edges)"@)
            &&& (into.len() > 0 ==> transitions_in(edges, name).skip(1) == into)
            &&& (into.len() == 0 ==> transitions_in(edges, name).len() == 0)
        }),
{
    let out = outgoing_lines(edges, name, edges.len() as int);
    let into = incoming_lines(edges, name, edges.len() as int);
    if out.len() > 0 {
        assert(transitions_out(edges, name).skip(1) =~= out);
    }
    if into.len() > 0 {
        assert(transitions_in(edges, name).skip(1) =~= into);
    }
}

/// The head names the stage, and says how often it was visited where it was.
pub proof fn the_head_names_the_stage(name: Seq<char>, visits: nat)
    ensures
        stage_head(name, visits)[0][1].content == "Stage: "@ + name,
        visits == 0 <==> stage_head(name, visits).len() == 1,
        visits == 1 ==> stage_head(name, visits)[1][0].content == "  Visited "@ + decimal(1)
            + " time"@,
        visits > 1 ==> stage_head(name, visits)[1][0].content == "  Visited "@ + decimal(visits)
            + " time"@ + "s"@,
{
    reveal_strlit("");
    if visits == 1 {
        assert("  Visited "@ + decimal(1) + " time"@ + ""@ =~= "  Visited "@ + decimal(1)
            + " time"@);
    }
}

// ── The Context view ─────────────────────────────────────────────────────────

/// The usage line counts the regions and says what is taken of what there is.
pub proof fn the_usage_line_counts_the_regions(snap: ContextSnapshot)
    ensures
        usage_line(snap)[0].content == " "@ + decimal(snap.regions@.len()) + " regions  "@,
        usage_line(snap)[1].content == token_figure(snap.total_tokens as nat) + "/"@ + token_figure(
            snap.max_tokens as nat,
        ) + " tokens total  "@ + decimal(
            usage(snap.total_tokens as nat, snap.max_tokens as nat),
        ) + "%"@,
{
}

/// The Context view ends with the tree, whole, under its head, and each row of the tree is found
/// as far down as the head is long.
pub proof fn the_tree_stands_under_its_head(
    run: DashboardAgent,
    at: int,
    snap: ContextSnapshot,
    tree: Seq<Seq<SpanView>>,
    cursor_lines: Seq<usize>,
    row: int,
)
    requires
        0 <= row < cursor_lines.len(),
        cursor_lines[row] < tree.len(),
        context_head(run, at, snap).len() + tree.len() <= usize::MAX,
    ensures
        tree.is_suffix_of(context_lines(run, at, Some(snap), tree)),
        context_rows(run, at, Some(snap), cursor_lines).len() == cursor_lines.len(),
        context_lines(run, at, Some(snap), tree)[context_rows(
            run,
            at,
            Some(snap),
            cursor_lines,
        )[row] as int] == tree[cursor_lines[row] as int],
{
    let head = context_head(run, at, snap);
    let lines = context_lines(run, at, Some(snap), tree);
    assert(lines.skip(lines.len() - tree.len()) =~= tree);
}

/// How the stage connects is shown if and only if the blueprint branches, in front of the usage.
pub proof fn only_branching_blueprints_show_transitions(
    run: DashboardAgent,
    at: int,
    snap: ContextSnapshot,
)
    ensures
        (run.graph is None || !run.graph->0.is_branching) ==> context_head(run, at, snap)[0]
            == usage_line(snap),
        run.graph is Some && run.graph->0.is_branching ==> context_head(run, at, snap)[0][1].content
            == "Stage: "@ + viewed_stage(run.stages@, run.graph->0.nodes@, run.stage@, at),
        predates_entries(snap.regions@) ==> context_head(run, at, snap).len() >= 7,
{
}

} // verus!
