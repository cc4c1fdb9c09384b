//! Killing and deleting runs: the questions asked first, and what happens when
//! they are answered.

use crate::state::{
    is_run, listed, logged, run_position, Dashboard, Feed, Lanes, Notes, Reply, RunList,
};
use crate::style::{raw, raw_line, Line, SpanView};
use crate::sync::distinct_rows;
use crate::text::{
    among, cat2, cat3, cat5, copy_of, count_text, decimal, has_text, opt_text, same,
};
use crate::types::{
    ActionView, AgentDisplayStatus, AgentView, Confirm, ConfirmAction, ConfirmView, DaemonCommand,
    DashboardAgent, LogView, StatusView,
};
use crate::views::{group_views, views};
use vstd::prelude::*;

verus! {

broadcast use group_views;

// ── Families ─────────────────────────────────────────────────────────────────

/// Whether a run is one of `ids`, or sits at most `steps` below one of them.
pub open spec fn within(agents: Seq<AgentView>, ids: Seq<Seq<char>>, id: Seq<char>, steps: nat) -> bool
    decreases steps,
{
    among(ids, id) || steps > 0 && exists|i: int|
        0 <= i < agents.len() && (#[trigger] agents[i]).id == id && agents[i].parent_id is Some
            && within(agents, ids, agents[i].parent_id->0, (steps - 1) as nat)
}

/// Whether a run is one of `ids` or sits anywhere below one of them.
pub open spec fn in_family(agents: Seq<AgentView>, ids: Seq<Seq<char>>, id: Seq<char>) -> bool {
    exists|steps: nat| within(agents, ids, id, steps)
}

/// The runs named, and every run below one of them.
pub open spec fn family(agents: Seq<AgentView>, ids: Seq<Seq<char>>) -> Set<Seq<char>> {
    Set::new(|id: Seq<char>| in_family(agents, ids, id))
}

/// A run whose parent is in the family is in it too.
proof fn children_belong(agents: Seq<AgentView>, ids: Seq<Seq<char>>, at: int)
    requires
        0 <= at < agents.len(),
        agents[at].parent_id is Some,
        in_family(agents, ids, agents[at].parent_id->0),
    ensures
        in_family(agents, ids, agents[at].id),
{
    let steps = choose|steps: nat| within(agents, ids, agents[at].parent_id->0, steps);
    assert(within(agents, ids, agents[at].id, steps + 1));
}

/// Whether every child of the first `count` of `ids` is among `seen`.
spec fn closed_under(agents: Seq<AgentView>, seen: Seq<Seq<char>>, open: Seq<Seq<char>>) -> bool {
    forall|i: int|
        0 <= i < agents.len() && (#[trigger] agents[i]).parent_id is Some && among(
            seen,
            agents[i].parent_id->0,
        ) && !among(open, agents[i].parent_id->0) ==> among(seen, agents[i].id)
}

/// Runs that hold the named ones and all of their children hold the family.
proof fn closed_holds_family(
    agents: Seq<AgentView>,
    ids: Seq<Seq<char>>,
    seen: Seq<Seq<char>>,
    id: Seq<char>,
    steps: nat,
)
    requires
        closed_under(agents, seen, Seq::empty()),
        forall|j: int| 0 <= j < ids.len() ==> among(seen, #[trigger] ids[j]),
        within(agents, ids, id, steps),
    ensures
        among(seen, id),
    decreases steps,
{
    if !among(ids, id) {
        let i = choose|i: int|
            0 <= i < agents.len() && (#[trigger] agents[i]).id == id && agents[i].parent_id is Some
                && within(agents, ids, agents[i].parent_id->0, (steps - 1) as nat);
        closed_holds_family(agents, ids, seen, agents[i].parent_id->0, (steps - 1) as nat);
        assert(among(seen, agents[i].parent_id->0));
    }
}

/// How many of the first `count` rows are not among `seen`.
spec fn unseen(agents: Seq<AgentView>, seen: Seq<Seq<char>>, count: int) -> nat
    decreases count,
{
    if count <= 0 {
        0
    } else {
        unseen(agents, seen, count - 1) + if among(seen, agents[count - 1].id) {
            0nat
        } else {
            1nat
        }
    }
}

/// Seeing one more run leaves fewer rows unseen, where that run is a row and was
/// not seen before.
proof fn seeing_leaves_fewer(
    agents: Seq<AgentView>,
    seen: Seq<Seq<char>>,
    id: Seq<char>,
    count: int,
    at: int,
)
    requires
        0 <= count <= agents.len(),
        0 <= at < agents.len(),
        agents[at].id == id,
        !among(seen, id),
    ensures
        unseen(agents, seen.push(id), count) <= unseen(agents, seen, count),
        at < count ==> unseen(agents, seen.push(id), count) < unseen(agents, seen, count),
    decreases count,
{
    assert(forall|x: Seq<char>| among(seen, x) ==> among(seen.push(id), x)) by {
        assert forall|x: Seq<char>| among(seen, x) implies among(seen.push(id), x) by {
            let j = choose|j: int| 0 <= j < seen.len() && seen[j] == x;
            assert(seen.push(id)[j] == x);
        }
    }
    assert(among(seen.push(id), id)) by {
        assert(seen.push(id)[seen.len() as int] == id);
    }
    if count > 0 {
        seeing_leaves_fewer(agents, seen, id, count - 1, at);
    }
}

/// One more text is among texts that grew by it.
proof fn among_grown(texts: Seq<Seq<char>>, text: Seq<char>)
    ensures
        forall|x: Seq<char>| #[trigger] among(texts.push(text), x) <==> (among(texts, x) || x == text),
{
    assert forall|x: Seq<char>| #[trigger] among(texts.push(text), x) <==> (among(texts, x) || x
        == text) by {
        let longer = texts.push(text);
        if among(texts, x) {
            let j = choose|j: int| 0 <= j < texts.len() && texts[j] == x;
            assert(longer[j] == x);
        }
        if x == text {
            assert(longer[texts.len() as int] == x);
        }
        if among(longer, x) {
            let j = choose|j: int| 0 <= j < longer.len() && longer[j] == x;
            if j < texts.len() {
                assert(texts[j] == x);
            }
        }
    }
}

/// The runs of the family, each once.
fn list_family(agents: &Vec<DashboardAgent>, run_ids: &Vec<String>) -> (seen: Vec<String>)
    ensures
        views(seen@).no_duplicates(),
        views(seen@).to_set() == family(views(agents@), views(run_ids@)),
        seen@.len() == family(views(agents@), views(run_ids@)).len(),
{
    let ghost rows = views(agents@);
    let ghost ids = views(run_ids@);
    let mut seen: Vec<String> = Vec::new();
    let mut frontier: Vec<String> = Vec::new();
    let mut i: usize = 0;
    while i < run_ids.len()
        invariant
            i <= run_ids@.len(),
            ids == views(run_ids@),
            views(seen@).no_duplicates(),
            forall|j: int| 0 <= j < i ==> among(views(seen@), #[trigger] ids[j]),
            forall|j: int| 0 <= j < i ==> among(views(frontier@), #[trigger] ids[j]),
            forall|x: Seq<char>| among(views(seen@), x) ==> among(ids, x),
            forall|x: Seq<char>| among(views(frontier@), x) ==> among(ids, x),
        decreases run_ids.len() - i,
    {
        let id = run_ids[i].as_str();
        proof {
            among_grown(views(seen@), id@);
            among_grown(views(frontier@), id@);
            assert(among(ids, id@)) by {
                assert(ids[i as int] == id@);
            }
        }
        if !has_text(&seen, id) {
            seen.push(copy_of(id));
        }
        frontier.push(copy_of(id));
        i = i + 1;
    }
    proof {
        assert forall|x: Seq<char>| among(views(seen@), x) implies in_family(rows, ids, x) by {
            assert(within(rows, ids, x, 0));
        }
        assert forall|x: Seq<char>| among(views(seen@), x) implies among(views(frontier@), x) by {
            assert(among(ids, x));
            let j = choose|j: int| 0 <= j < ids.len() && ids[j] == x;
            assert(among(views(frontier@), ids[j]));
        }
        assert forall|x: Seq<char>| among(views(frontier@), x) implies among(views(seen@), x) by {
            assert(among(ids, x));
            let j = choose|j: int| 0 <= j < ids.len() && ids[j] == x;
            assert(among(views(seen@), ids[j]));
        }
    }
    while frontier.len() > 0
        invariant
            rows == views(agents@),
            ids == views(run_ids@),
            views(seen@).no_duplicates(),
            forall|j: int| 0 <= j < ids.len() ==> among(views(seen@), #[trigger] ids[j]),
            forall|x: Seq<char>| among(views(seen@), x) ==> in_family(rows, ids, x),
            forall|x: Seq<char>| among(views(frontier@), x) ==> among(views(seen@), x),
            closed_under(rows, views(seen@), views(frontier@)),
        decreases unseen(rows, views(seen@), rows.len() as int), frontier.len(),
    {
        let ghost before = views(frontier@);
        let ghost unseen_before = unseen(rows, views(seen@), rows.len() as int);
        let ghost length_before = frontier@.len();
        let last: usize = frontier.len() - 1;
        let id = frontier.remove(last);
        proof {
            assert(views(frontier@) =~= before.drop_last());
            assert(before =~= before.drop_last().push(id@));
            among_grown(before.drop_last(), id@);
            assert(among(views(seen@), id@));
        }
        let mut k: usize = 0;
        while k < agents.len()
            invariant
                k <= agents@.len(),
                rows == views(agents@),
                ids == views(run_ids@),
                views(seen@).no_duplicates(),
                among(views(seen@), id@),
                forall|j: int| 0 <= j < ids.len() ==> among(views(seen@), #[trigger] ids[j]),
                forall|x: Seq<char>| among(views(seen@), x) ==> in_family(rows, ids, x),
                forall|x: Seq<char>| among(views(frontier@), x) ==> among(views(seen@), x),
                forall|j: int|
                    0 <= j < rows.len() && (#[trigger] rows[j]).parent_id is Some && among(
                        views(seen@),
                        rows[j].parent_id->0,
                    ) && !among(views(frontier@), rows[j].parent_id->0) && !(rows[j].parent_id->0
                        == id@ && j >= k) ==> among(views(seen@), rows[j].id),
                unseen(rows, views(seen@), rows.len() as int) < unseen_before || unseen(
                    rows,
                    views(seen@),
                    rows.len() as int,
                ) == unseen_before && frontier@.len() < length_before,
            decreases agents.len() - k,
        {
            let child = &agents[k];
            let below = match &child.parent_id {
                Some(parent) => same(parent.as_str(), id.as_str()),
                None => false,
            };
            assert(rows[k as int] == child@);
            if below && !has_text(&seen, child.id.as_str()) {
                proof {
                    children_belong(rows, ids, k as int);
                    seeing_leaves_fewer(
                        rows,
                        views(seen@),
                        child.id@,
                        rows.len() as int,
                        k as int,
                    );
                    among_grown(views(seen@), child.id@);
                    among_grown(views(frontier@), child.id@);
                }
                seen.push(copy_of(child.id.as_str()));
                frontier.push(copy_of(child.id.as_str()));
            }
            k = k + 1;
        }
    }
    proof {
        assert(views(frontier@) =~= Seq::<Seq<char>>::empty());
        assert forall|x: Seq<char>| #[trigger] views(seen@).to_set().contains(x) <==> family(
            rows,
            ids,
        ).contains(x) by {
            if in_family(rows, ids, x) {
                let steps = choose|steps: nat| within(rows, ids, x, steps);
                closed_holds_family(rows, ids, views(seen@), x, steps);
            }
            assert(views(seen@).to_set().contains(x) <==> views(seen@).contains(x));
            assert(views(seen@).contains(x) <==> among(views(seen@), x));
        }
        assert(views(seen@).to_set() =~= family(rows, ids));
        views(seen@).unique_seq_to_set();
    }
    seen
}

impl Dashboard {
    /// How many rows a delete of these runs takes beyond the runs named: every
    /// run below one of them, each counted once. What is named more often than
    /// the family has members cannot be counted.
    pub fn extra_sub_agent_rows(&self, run_ids: &Vec<String>) -> (extra: usize)
        requires
            run_ids@.len() <= family(views(self.runs.agents@), views(run_ids@)).len(),
        ensures
            extra == family(views(self.runs.agents@), views(run_ids@)).len() - run_ids@.len(),
    {
        let all = list_family(&self.runs.agents, run_ids);
        all.len() - run_ids.len()
    }
}

/// Runs that are each named once are all in their family, which is finite: their
/// sub-agents can be counted.
pub proof fn distinct_runs_can_be_counted(agents: Seq<AgentView>, ids: Seq<Seq<char>>)
    requires
        ids.no_duplicates(),
    ensures
        family(agents, ids).finite(),
        ids.len() <= family(agents, ids).len(),
{
    family_is_finite(agents, ids);
    ids.unique_seq_to_set();
    assert forall|x: Seq<char>| ids.to_set().contains(x) implies family(agents, ids).contains(x) by {
        let j = choose|j: int| 0 <= j < ids.len() && ids[j] == x;
        assert(among(ids, x));
        assert(within(agents, ids, x, 0));
    }
    vstd::set_lib::lemma_len_subset(ids.to_set(), family(agents, ids));
}

/// A family has finitely many members: the runs named and rows of the list.
proof fn family_is_finite(agents: Seq<AgentView>, ids: Seq<Seq<char>>)
    ensures
        family(agents, ids).finite(),
{
    let rows = Seq::new(agents.len(), |i: int| agents[i].id);
    let all = ids + rows;
    assert forall|x: Seq<char>| family(agents, ids).contains(x) implies all.to_set().contains(x) by {
        let steps = choose|steps: nat| within(agents, ids, x, steps);
        if among(ids, x) {
            let j = choose|j: int| 0 <= j < ids.len() && ids[j] == x;
            assert(all[j] == x);
        } else {
            let i = choose|i: int|
                0 <= i < agents.len() && (#[trigger] agents[i]).id == x && agents[i].parent_id is Some
                    && within(agents, ids, agents[i].parent_id->0, (steps - 1) as nat);
            assert(all[ids.len() + i] == x);
        }
    }
    vstd::seq_lib::seq_to_set_is_finite(all);
    vstd::set_lib::lemma_set_subset_finite(all.to_set(), family(agents, ids));
}

// ── The questions ────────────────────────────────────────────────────────────

/// The marked runs among the first `count` rows, those that have ended left out
/// where only live ones count.
pub open spec fn marked_runs(
    agents: Seq<AgentView>,
    marked: Seq<Seq<char>>,
    live_only: bool,
    count: int,
) -> Seq<Seq<char>>
    decreases count,
{
    if count <= 0 {
        Seq::empty()
    } else {
        let before = marked_runs(agents, marked, live_only, count - 1);
        let agent = agents[count - 1];
        if among(marked, agent.id) && (!live_only || agent.status.killable()) {
            before.push(agent.id)
        } else {
            before
        }
    }
}

/// The marked runs, in the order of the rows.
fn list_marked(agents: &Vec<DashboardAgent>, marked: &Vec<String>, live_only: bool) -> (ids: Vec<
    String,
>)
    ensures
        views(ids@) == marked_runs(
            views(agents@),
            views(marked@),
            live_only,
            agents@.len() as int,
        ),
{
    let mut ids: Vec<String> = Vec::new();
    let mut i: usize = 0;
    while i < agents.len()
        invariant
            i <= agents@.len(),
            views(ids@) == marked_runs(views(agents@), views(marked@), live_only, i as int),
        decreases agents.len() - i,
    {
        let agent = &agents[i];
        assert(views(agents@)[i as int] == agent@);
        if has_text(marked, agent.id.as_str()) && (!live_only || agent.status.is_killable()) {
            ids.push(copy_of(agent.id.as_str()));
        }
        i = i + 1;
    }
    ids
}

/// A question with a dangerous yes.
pub open spec fn danger_question(
    title: Seq<char>,
    body: Seq<Seq<SpanView>>,
    accept: Seq<char>,
) -> ConfirmView {
    ConfirmView { title, body, accept, decline: "Cancel"@, danger: true }
}

/// A question with a dangerous yes.
fn ask(title: &str, body: Vec<Line>, accept: &str) -> (question: Confirm)
    ensures
        question@ == danger_question(title@, views(body@), accept@),
{
    Confirm {
        title: copy_of(title),
        body,
        accept: copy_of(accept),
        decline: copy_of("Cancel"),
        danger: true,
    }
}

/// What is asked before runs are killed, if anything is: about every marked run
/// that is still live where any is marked, else about the run under the cursor
/// where that is.
pub open spec fn kill_question(dash: Dashboard) -> Option<(ActionView, ConfirmView)> {
    if dash.runs.marked@.len() > 0 {
        let run_ids = marked_runs(
            views(dash.runs.agents@),
            views(dash.runs.marked@),
            true,
            dash.runs.agents@.len() as int,
        );
        if run_ids.len() == 0 {
            None
        } else {
            let body = if run_ids.len() == 1 {
                "Cancel 1 run? Its state stays on disk."@
            } else {
                "Cancel "@ + decimal(run_ids.len()) + " runs? Their state stays on disk."@
            };
            Some(
                (
                    ActionView::Kill { run_ids },
                    danger_question("Kill runs?"@, seq![raw_line(body)], "Kill"@),
                ),
            )
        }
    } else {
        match dash.current() {
            Some(agent) if agent.status@.killable() => {
                let name = match agent.title {
                    Some(title) => title@,
                    None => agent.blueprint_name@,
                };
                let body = "Cancel '"@ + name + "' ("@ + agent.id@
                    + ")? Its state stays on disk."@;
                Some(
                    (
                        ActionView::Kill { run_ids: seq![agent.id@] },
                        danger_question("Kill run?"@, seq![raw_line(body)], "Kill"@),
                    ),
                )
            },
            _ => None,
        }
    }
}

/// The body of the question before a delete: a second line names the sub-agent
/// runs that go too, where there are any.
pub open spec fn delete_body(
    agents: Seq<AgentView>,
    body: Seq<char>,
    run_ids: Seq<Seq<char>>,
) -> Seq<Seq<SpanView>> {
    let subs = family(agents, run_ids).len() - run_ids.len();
    if subs > 0 {
        seq![
            raw_line(body),
            raw_line(
                "Also deletes "@ + decimal(subs as nat) + " sub-agent run"@ + (if subs == 1 {
                    ""@
                } else {
                    "s"@
                }) + " below "@ + (if run_ids.len() == 1 {
                    "it"@
                } else {
                    "them"@
                }) + "."@,
            ),
        ]
    } else {
        seq![raw_line(body)]
    }
}

/// The runs a delete would be about where any is marked.
pub open spec fn marked_for_delete(dash: Dashboard) -> Seq<Seq<char>> {
    marked_runs(
        views(dash.runs.agents@),
        views(dash.runs.marked@),
        false,
        dash.runs.agents@.len() as int,
    )
}

/// What is asked before runs are deleted, if anything is: about every marked run
/// where any is marked, else about the run under the cursor.
pub open spec fn delete_question(dash: Dashboard) -> Option<(ActionView, ConfirmView)> {
    let agents = views(dash.runs.agents@);
    if dash.runs.marked@.len() > 0 {
        let run_ids = marked_for_delete(dash);
        let body = if run_ids.len() == 1 {
            "Delete 1 run and its on-disk state? This is permanent."@
        } else {
            "Delete "@ + decimal(run_ids.len())
                + " runs and their on-disk state? This is permanent."@
        };
        Some(
            (
                ActionView::Delete { run_ids },
                danger_question("Delete runs?"@, delete_body(agents, body, run_ids), "Delete"@),
            ),
        )
    } else {
        match dash.current() {
            Some(agent) => {
                let run_ids = seq![agent.id@];
                let body = "Delete '"@ + agent.id@
                    + "' and all of its on-disk state? This is permanent."@;
                Some(
                    (
                        ActionView::Delete { run_ids },
                        danger_question("Delete run?"@, delete_body(agents, body, run_ids), "Delete"@),
                    ),
                )
            },
            None => None,
        }
    }
}

/// Whether the marked rows, where there are any, are no more than the runs that go
/// with them.
pub open spec fn marks_can_be_counted(dash: Dashboard) -> bool {
    dash.runs.marked@.len() > 0 ==> marked_for_delete(dash).len() <= family(
        views(dash.runs.agents@),
        marked_for_delete(dash),
    ).len()
}

/// The open question.
pub open spec fn open_question(dash: Dashboard) -> Option<(ActionView, ConfirmView)> {
    match dash.notes.pending_confirm {
        Some((action, question)) => Some((action@, question@)),
        None => None,
    }
}

impl Dashboard {
    /// Ask before runs are killed.
    pub fn request_kill(&mut self)
        ensures
            *final(self) == (Dashboard {
                notes: Notes { pending_confirm: final(self).notes.pending_confirm, ..old(self).notes },
                ..*old(self)
            }),
            match kill_question(*old(self)) {
                Some(question) => open_question(*final(self)) == Some(question),
                None => *final(self) == *old(self),
            },
    {
        if self.runs.marked.len() > 0 {
            let run_ids = list_marked(&self.runs.agents, &self.runs.marked, true);
            if run_ids.len() == 0 {
                return;
            }
            let body = if run_ids.len() == 1 {
                copy_of("Cancel 1 run? Its state stays on disk.")
            } else {
                let count = count_text(run_ids.len());
                cat3("Cancel ", count.as_str(), " runs? Their state stays on disk.")
            };
            let mut lines: Vec<Line> = Vec::new();
            lines.push(raw(body.as_str()));
            assert(views(lines@) =~= seq![raw_line(body@)]);
            let question = ask("Kill runs?", lines, "Kill");
            self.notes.pending_confirm = Some((ConfirmAction::Kill { run_ids }, question));
            return;
        }
        let (run_id, body) = match self.selected_agent() {
            Some(agent) => {
                if !agent.status.is_killable() {
                    return;
                }
                let name = match &agent.title {
                    Some(title) => title.as_str(),
                    None => agent.blueprint_name.as_str(),
                };
                (
                    copy_of(agent.id.as_str()),
                    cat5("Cancel '", name, "' (", agent.id.as_str(), ")? Its state stays on disk."),
                )
            },
            None => return,
        };
        let mut lines: Vec<Line> = Vec::new();
        lines.push(raw(body.as_str()));
        assert(views(lines@) =~= seq![raw_line(body@)]);
        let question = ask("Kill run?", lines, "Kill");
        let mut run_ids: Vec<String> = Vec::new();
        run_ids.push(run_id);
        assert(views(run_ids@) =~= seq![run_id@]);
        self.notes.pending_confirm = Some((ConfirmAction::Kill { run_ids }, question));
    }

    /// Whether the rows that a delete would name can be counted.
    pub fn delete_can_be_asked(&self) -> (countable: bool)
        ensures
            countable == marks_can_be_counted(*self),
    {
        if self.runs.marked.len() == 0 {
            return true;
        }
        let run_ids = list_marked(&self.runs.agents, &self.runs.marked, false);
        let all = list_family(&self.runs.agents, &run_ids);
        run_ids.len() <= all.len()
    }

    /// Ask before runs are deleted. The rows named must be countable, as they are
    /// where no two rows have the same id.
    pub fn request_delete(&mut self)
        requires
            marks_can_be_counted(*old(self)),
        ensures
            *final(self) == (Dashboard {
                notes: Notes { pending_confirm: final(self).notes.pending_confirm, ..old(self).notes },
                ..*old(self)
            }),
            match delete_question(*old(self)) {
                Some(question) => open_question(*final(self)) == Some(question),
                None => *final(self) == *old(self),
            },
    {
        if self.runs.marked.len() > 0 {
            let run_ids = list_marked(&self.runs.agents, &self.runs.marked, false);
            let body = if run_ids.len() == 1 {
                copy_of("Delete 1 run and its on-disk state? This is permanent.")
            } else {
                let count = count_text(run_ids.len());
                cat3(
                    "Delete ",
                    count.as_str(),
                    " runs and their on-disk state? This is permanent.",
                )
            };
            let lines = self.delete_lines(body.as_str(), &run_ids);
            let question = ask("Delete runs?", lines, "Delete");
            self.notes.pending_confirm = Some((ConfirmAction::Delete { run_ids }, question));
            return;
        }
        let run_id = match self.selected_agent() {
            Some(agent) => copy_of(agent.id.as_str()),
            None => return,
        };
        let body = cat3(
            "Delete '",
            run_id.as_str(),
            "' and all of its on-disk state? This is permanent.",
        );
        let mut run_ids: Vec<String> = Vec::new();
        run_ids.push(run_id);
        proof {
            assert(views(run_ids@) =~= seq![run_id@]);
            distinct_runs_can_be_counted(views(self.runs.agents@), views(run_ids@));
        }
        let lines = self.delete_lines(body.as_str(), &run_ids);
        let question = ask("Delete run?", lines, "Delete");
        self.notes.pending_confirm = Some((ConfirmAction::Delete { run_ids }, question));
    }

    /// The body of the question before a delete. The rows that go too are ones
    /// the user did not select, so they are said out loud.
    pub fn delete_lines(&self, body: &str, run_ids: &Vec<String>) -> (lines: Vec<Line>)
        requires
            run_ids@.len() <= family(views(self.runs.agents@), views(run_ids@)).len(),
        ensures
            views(lines@) == delete_body(views(self.runs.agents@), body@, views(run_ids@)),
    {
        let subs: usize = self.extra_sub_agent_rows(run_ids);
        let mut lines: Vec<Line> = Vec::new();
        lines.push(raw(body));
        if subs > 0 {
            let count = count_text(subs);
            let plural: &str = if subs == 1 {
                ""
            } else {
                "s"
            };
            let below: &str = if run_ids.len() == 1 {
                "it"
            } else {
                "them"
            };
            let mut text = cat5("Also deletes ", count.as_str(), " sub-agent run", plural, " below ");
            text.append(below);
            text.append(".");
            lines.push(raw(text.as_str()));
        }
        assert(views(lines@) =~= delete_body(views(self.runs.agents@), body@, views(run_ids@)));
        lines
    }
}

/// Rows that all have ids of their own can be asked about: a delete question
/// needs nothing more.
pub proof fn distinct_rows_can_be_asked_about(
    agents: Seq<AgentView>,
    marked: Seq<Seq<char>>,
    live_only: bool,
)
    requires
        distinct_rows(agents),
    ensures
        ({
            let run_ids = marked_runs(agents, marked, live_only, agents.len() as int);
            run_ids.len() <= family(agents, run_ids).len()
        }),
{
    marked_runs_are_distinct(agents, marked, live_only, agents.len() as int);
    distinct_runs_can_be_counted(
        agents,
        marked_runs(agents, marked, live_only, agents.len() as int),
    );
}

/// Whether one of the first `count` rows has this id.
pub open spec fn has_row(agents: Seq<AgentView>, count: int, id: Seq<char>) -> bool {
    exists|i: int| 0 <= i < count && (#[trigger] agents[i]).id == id
}

/// Rows with ids of their own give each marked run once.
proof fn marked_runs_are_distinct(
    agents: Seq<AgentView>,
    marked: Seq<Seq<char>>,
    live_only: bool,
    count: int,
)
    requires
        0 <= count <= agents.len(),
        forall|i: int, j: int|
            0 <= i < j < agents.len() ==> (#[trigger] agents[i]).id != (#[trigger] agents[j]).id,
    ensures
        marked_runs(agents, marked, live_only, count).no_duplicates(),
        forall|k: int|
            0 <= k < marked_runs(agents, marked, live_only, count).len() ==> has_row(
                agents,
                count,
                #[trigger] marked_runs(agents, marked, live_only, count)[k],
            ),
    decreases count,
{
    if count > 0 {
        marked_runs_are_distinct(agents, marked, live_only, count - 1);
        let before = marked_runs(agents, marked, live_only, count - 1);
        let after = marked_runs(agents, marked, live_only, count);
        let row = agents[count - 1];
        assert forall|k: int| 0 <= k < before.len() implies has_row(agents, count, #[trigger] before[k])
            && before[k] != row.id by {
            let i = choose|i: int| 0 <= i < count - 1 && (#[trigger] agents[i]).id == before[k];
            assert(agents[i].id == before[k]);
        }
        assert(has_row(agents, count, row.id));
    }
}

// ── What happens ─────────────────────────────────────────────────────────────

/// A row whose run was killed.
pub open spec fn killed(agent: AgentView) -> AgentView {
    AgentView {
        status: StatusView::Cancelled,
        waiting_prompt: None,
        pending_request: None,
        ..agent
    }
}

/// The rows after a run was killed: the first with its id is cancelled.
pub open spec fn rows_after_kill(
    before: Seq<AgentView>,
    after: Seq<AgentView>,
    run_id: Seq<char>,
) -> bool {
    if listed(before, run_id) {
        exists|i: int| #[trigger] is_run(before, run_id, i) && after == before.update(i, killed(before[i]))
    } else {
        after == before
    }
}

impl Dashboard {
    /// Ask the daemon to cancel a run and mark its row cancelled. A half-typed
    /// response is dropped.
    pub fn perform_kill(&mut self, run_id: &str)
        ensures
            *final(self) == (Dashboard {
                runs: RunList { agents: final(self).runs.agents, ..old(self).runs },
                lanes: Lanes { daemon_commands: final(self).lanes.daemon_commands, ..old(self).lanes },
                reply: Reply {
                    input_mode: false,
                    deny_feedback_open: false,
                    focus_send: false,
                    text: final(self).reply.text,
                    ..old(self).reply
                },
                notes: Notes { log: final(self).notes.log, ..old(self).notes },
                ..*old(self)
            }),
            views(final(self).lanes.daemon_commands@) == views(
                old(self).lanes.daemon_commands@,
            ).push(run_id@),
            rows_after_kill(
                views(old(self).runs.agents@),
                views(final(self).runs.agents@),
                run_id@,
            ),
            final(self).reply.text.whole() == Seq::<char>::empty(),
            views(final(self).notes.log@) == views(old(self).notes.log@).push(
                logged(old(self).notes.log_stamp@, run_id@ + ": kill requested"@),
            ),
    {
        self.lanes.daemon_commands.push(DaemonCommand::Cancel { run_id: copy_of(run_id) });
        cancel_row(&mut self.runs.agents, run_id);
        self.close_input_box();
        self.add_log(cat2(run_id, ": kill requested"));
    }
}

/// Mark the first row with this id cancelled.
fn cancel_row(agents: &mut Vec<DashboardAgent>, run_id: &str)
    ensures
        rows_after_kill(views(old(agents)@), views(final(agents)@), run_id@),
{
    match run_position(agents, run_id) {
        Some(i) => {
            let agent = &mut agents[i];
            agent.status = AgentDisplayStatus::Cancelled;
            agent.waiting_prompt = None;
            agent.pending_request = None;
            proof {
                let before = views(old(agents)@);
                assert(is_run(before, run_id@, i as int));
                assert(views(agents@) =~= before.update(i as int, killed(before[i as int])));
            }
        },
        None => {},
    }
}

/// A kill changes no other run's row.
pub proof fn a_kill_leaves_other_runs_alone(
    before: Seq<AgentView>,
    after: Seq<AgentView>,
    run_id: Seq<char>,
    at: int,
)
    requires
        rows_after_kill(before, after, run_id),
        0 <= at < before.len(),
    ensures
        after.len() == before.len(),
        after[at].id == before[at].id,
        before[at].id != run_id ==> after[at] == before[at],
{
}

/// Whether a delete asks the daemon to cancel this run: always for the run that
/// was named, and for another while the list says that it is live.
pub open spec fn cancels(agents: Seq<AgentView>, run_id: Seq<char>, id: Seq<char>) -> bool {
    id == run_id || exists|i: int|
        0 <= i < agents.len() && (#[trigger] agents[i]).id == id && agents[i].status.killable()
}

/// The runs that the daemon is asked to cancel, among the first `count`.
pub open spec fn cancelled_runs(
    agents: Seq<AgentView>,
    run_id: Seq<char>,
    ids: Seq<Seq<char>>,
    count: int,
) -> Seq<Seq<char>>
    decreases count,
{
    if count <= 0 {
        Seq::empty()
    } else if cancels(agents, run_id, ids[count - 1]) {
        cancelled_runs(agents, run_id, ids, count - 1).push(ids[count - 1])
    } else {
        cancelled_runs(agents, run_id, ids, count - 1)
    }
}

/// What the log says of one run's delete.
pub open spec fn delete_report(id: Seq<char>, failure: Option<Seq<char>>) -> Seq<char> {
    match failure {
        Some(reason) => "Delete failed: "@ + reason,
        None => "Deleted run "@ + id,
    }
}

/// The log lines of the first `count` deletes.
pub open spec fn delete_log(
    stamp: Seq<char>,
    ids: Seq<Seq<char>>,
    failures: Seq<Option<String>>,
    count: int,
) -> Seq<LogView>
    decreases count,
{
    if count <= 0 {
        Seq::empty()
    } else {
        delete_log(stamp, ids, failures, count - 1).push(
            logged(stamp, delete_report(ids[count - 1], opt_text(failures[count - 1]))),
        )
    }
}

/// The first `count` rows, without those of the deleted runs.
pub open spec fn rows_left(agents: Seq<AgentView>, ids: Seq<Seq<char>>, count: int) -> Seq<AgentView>
    decreases count,
{
    if count <= 0 {
        Seq::empty()
    } else if among(ids, agents[count - 1].id) {
        rows_left(agents, ids, count - 1)
    } else {
        rows_left(agents, ids, count - 1).push(agents[count - 1])
    }
}

/// The first `count` deletes, with their moment.
pub open spec fn deletes_made(ids: Seq<Seq<char>>, now: u64, count: int) -> Seq<(Seq<char>, u64)> {
    Seq::new(count as nat, |i: int| (ids[i], now))
}

/// Take the rows of these runs off the list.
fn drop_rows(agents: &mut Vec<DashboardAgent>, ids: &Vec<String>)
    ensures
        views(final(agents)@) == rows_left(
            views(old(agents)@),
            views(ids@),
            old(agents)@.len() as int,
        ),
{
    let ghost before = views(agents@);
    let mut kept: usize = 0;
    let ghost mut done: int = 0;
    while kept < agents.len()
        invariant
            before == views(old(agents)@),
            0 <= done <= before.len(),
            kept <= agents@.len(),
            agents@.len() - kept == before.len() - done,
            views(agents@) == rows_left(before, views(ids@), done) + before.skip(done),
            rows_left(before, views(ids@), done).len() == kept,
        decreases agents.len() - kept,
    {
        let ghost rows = views(agents@);
        let ghost left = rows_left(before, views(ids@), done);
        assert(rows[kept as int] == before[done]);
        assert(rows[kept as int] == agents@[kept as int]@);
        if has_text(ids, agents[kept].id.as_str()) {
            let _ = agents.remove(kept);
            proof {
                assert(views(agents@) =~= rows.remove(kept as int));
                assert(views(agents@) =~= left + before.skip(done + 1));
            }
        } else {
            proof {
                assert(rows =~= left.push(before[done]) + before.skip(done + 1));
            }
            kept = kept + 1;
        }
        proof {
            done = done + 1;
        }
    }
    proof {
        assert(views(agents@) =~= rows_left(before, views(ids@), done));
    }
}

/// A delete under way: the runs whose state is to be erased, deepest first.
#[derive(Debug)]
pub struct Erasing {
    pub ids: Vec<String>,
}

impl Dashboard {
    /// Whether a run is listed.
    pub fn lists(&self, run_id: &str) -> (there: bool)
        ensures
            there == listed(views(self.runs.agents@), run_id@),
    {
        match run_position(&self.runs.agents, run_id) {
            Some(_) => true,
            None => false,
        }
    }

    /// Begin to delete a run and every run below it, `ids`, deepest first: the
    /// daemon is asked to cancel those still going, before anything is erased, so
    /// that it stops writing to them. What comes back names the runs whose state is
    /// to be erased. A run that is not listed is left alone.
    pub fn perform_delete(&mut self, run_id: &str, ids: Vec<String>) -> (erasing: Option<Erasing>)
        ensures
            *final(self) == (Dashboard {
                lanes: Lanes { daemon_commands: final(self).lanes.daemon_commands, ..old(self).lanes },
                ..*old(self)
            }),
            match erasing {
                Some(it) => {
                    &&& listed(views(old(self).runs.agents@), run_id@)
                    &&& it.ids == ids
                    &&& views(final(self).lanes.daemon_commands@) == views(
                        old(self).lanes.daemon_commands@,
                    ) + cancelled_runs(
                        views(old(self).runs.agents@),
                        run_id@,
                        views(ids@),
                        ids@.len() as int,
                    )
                },
                None => !listed(views(old(self).runs.agents@), run_id@) && *final(self)
                    == *old(self),
            },
    {
        if !self.lists(run_id) {
            return None;
        }
        let ghost agents = views(self.runs.agents@);
        let mut i: usize = 0;
        while i < ids.len()
            invariant
                i <= ids@.len(),
                agents == views(self.runs.agents@),
                *self == (Dashboard {
                    lanes: Lanes { daemon_commands: self.lanes.daemon_commands, ..old(self).lanes },
                    ..*old(self)
                }),
                views(self.lanes.daemon_commands@) == views(old(self).lanes.daemon_commands@)
                    + cancelled_runs(agents, run_id@, views(ids@), i as int),
            decreases ids.len() - i,
        {
            let id = ids[i].as_str();
            assert(views(ids@)[i as int] == id@);
            if same(id, run_id) || still_going(&self.runs.agents, id) {
                self.lanes.daemon_commands.push(DaemonCommand::Cancel { run_id: copy_of(id) });
            }
            i = i + 1;
        }
        Some(Erasing { ids })
    }

    /// The runs of a delete were erased: `failures` says for each why its removal
    /// failed, where it did. Their rows go, and each is kept in mind as deleted at
    /// the moment `now`.
    pub fn finish_delete(&mut self, erased: Erasing, failures: &Vec<Option<String>>, now: u64)
        requires
            failures@.len() == erased.ids@.len(),
        ensures
            *final(self) == (Dashboard {
                runs: RunList {
                    agents: final(self).runs.agents,
                    order_stale: true,
                    ..old(self).runs
                },
                notes: Notes { log: final(self).notes.log, ..old(self).notes },
                feed: Feed { deleted_runs: final(self).feed.deleted_runs, ..old(self).feed },
                ..*old(self)
            }),
            views(final(self).runs.agents@) == rows_left(
                views(old(self).runs.agents@),
                views(erased.ids@),
                old(self).runs.agents@.len() as int,
            ),
            views(final(self).notes.log@) == views(old(self).notes.log@) + delete_log(
                old(self).notes.log_stamp@,
                views(erased.ids@),
                failures@,
                erased.ids@.len() as int,
            ),
            views(final(self).feed.deleted_runs@) == views(old(self).feed.deleted_runs@)
                + deletes_made(views(erased.ids@), now, erased.ids@.len() as int),
    {
        let ids = &erased.ids;
        let mut i: usize = 0;
        while i < ids.len()
            invariant
                i <= ids@.len(),
                failures@.len() == ids@.len(),
                *self == (Dashboard {
                    notes: Notes { log: self.notes.log, ..old(self).notes },
                    feed: Feed { deleted_runs: self.feed.deleted_runs, ..old(self).feed },
                    ..*old(self)
                }),
                views(self.notes.log@) == views(old(self).notes.log@) + delete_log(
                    old(self).notes.log_stamp@,
                    views(ids@),
                    failures@,
                    i as int,
                ),
                views(self.feed.deleted_runs@) == views(old(self).feed.deleted_runs@)
                    + deletes_made(views(ids@), now, i as int),
            decreases ids.len() - i,
        {
            let id = ids[i].as_str();
            assert(views(ids@)[i as int] == id@);
            self.delete_one(id, &failures[i]);
            self.feed.deleted_runs.push((copy_of(id), now));
            proof {
                assert(deletes_made(views(ids@), now, i + 1) =~= deletes_made(
                    views(ids@),
                    now,
                    i as int,
                ).push((id@, now)));
            }
            i = i + 1;
        }
        drop_rows(&mut self.runs.agents, ids);
        self.runs.order_stale = true;
    }

    /// One run's state was erased, or could not be: the log says which.
    pub fn delete_one(&mut self, id: &str, failure: &Option<String>)
        ensures
            *final(self) == (Dashboard {
                notes: Notes { log: final(self).notes.log, ..old(self).notes },
                ..*old(self)
            }),
            views(final(self).notes.log@) == views(old(self).notes.log@).push(
                logged(old(self).notes.log_stamp@, delete_report(id@, opt_text(*failure))),
            ),
    {
        match failure {
            Some(reason) => self.add_log(cat2("Delete failed: ", reason.as_str())),
            None => self.add_log(cat2("Deleted run ", id)),
        }
    }
}

/// The run that a delete names is cancelled with it.
pub proof fn a_deleted_run_is_cancelled(
    agents: Seq<AgentView>,
    run_id: Seq<char>,
    ids: Seq<Seq<char>>,
    count: int,
    at: int,
)
    requires
        0 <= at < count <= ids.len(),
        ids[at] == run_id,
    ensures
        among(cancelled_runs(agents, run_id, ids, count), run_id),
    decreases count,
{
    let before = cancelled_runs(agents, run_id, ids, count - 1);
    if at == count - 1 {
        assert(before.push(run_id)[before.len() as int] == run_id);
    } else {
        a_deleted_run_is_cancelled(agents, run_id, ids, count - 1, at);
        let k = choose|k: int| 0 <= k < before.len() && before[k] == run_id;
        assert(before.push(ids[count - 1])[k] == run_id);
    }
}

/// Whether the list says that a run is live.
fn still_going(agents: &Vec<DashboardAgent>, id: &str) -> (live: bool)
    ensures
        live == exists|i: int|
            0 <= i < agents@.len() && (#[trigger] views(agents@)[i]).id == id@ && views(
                agents@,
            )[i].status.killable(),
{
    let mut i: usize = 0;
    while i < agents.len()
        invariant
            i <= agents@.len(),
            forall|j: int|
                0 <= j < i ==> !((#[trigger] views(agents@)[j]).id == id@ && views(
                    agents@,
                )[j].status.killable()),
        decreases agents.len() - i,
    {
        assert(views(agents@)[i as int] == agents@[i as int]@);
        if same(agents[i].id.as_str(), id) && agents[i].status.is_killable() {
            return true;
        }
        i = i + 1;
    }
    false
}

/// A delete takes the rows of the deleted runs and no others: a row stays if and
/// only if its run was not deleted, so a delete on a child leaves its parent and
/// its siblings alone.
pub proof fn a_delete_takes_only_its_runs(
    agents: Seq<AgentView>,
    ids: Seq<Seq<char>>,
    count: int,
    agent: AgentView,
)
    requires
        0 <= count <= agents.len(),
    ensures
        rows_left(agents, ids, count).contains(agent) <==> (agents.take(count).contains(agent)
            && !among(ids, agent.id)),
    decreases count,
{
    if count > 0 {
        a_delete_takes_only_its_runs(agents, ids, count - 1, agent);
        let before = rows_left(agents, ids, count - 1);
        let after = rows_left(agents, ids, count);
        let row = agents[count - 1];
        assert(agents.take(count) =~= agents.take(count - 1).push(row));
        assert(agents.take(count).contains(agent) <==> (agents.take(count - 1).contains(agent)
            || agent == row)) by {
            if agents.take(count - 1).contains(agent) {
                let j = agents.take(count - 1).index_of(agent);
                assert(agents.take(count)[j] == agent);
            }
            if agent == row {
                assert(agents.take(count)[count - 1] == agent);
            }
        }
        if !among(ids, row.id) {
            assert(after == before.push(row));
            if before.contains(agent) {
                let j = before.index_of(agent);
                assert(after[j] == agent);
            }
            if agent == row {
                assert(after[before.len() as int] == agent);
            }
        }
    }
}

/// Rows with ids of their own keep them when runs are deleted.
pub proof fn a_delete_keeps_rows_distinct(agents: Seq<AgentView>, ids: Seq<Seq<char>>, count: int)
    requires
        0 <= count <= agents.len(),
        distinct_rows(agents),
    ensures
        distinct_rows(rows_left(agents, ids, count)),
        forall|k: int|
            0 <= k < rows_left(agents, ids, count).len() ==> has_row(
                agents,
                count,
                (#[trigger] rows_left(agents, ids, count)[k]).id,
            ),
    decreases count,
{
    if count > 0 {
        a_delete_keeps_rows_distinct(agents, ids, count - 1);
        let before = rows_left(agents, ids, count - 1);
        let row = agents[count - 1];
        assert forall|k: int| 0 <= k < before.len() implies has_row(
            agents,
            count,
            (#[trigger] before[k]).id,
        ) && before[k].id != row.id by {
            let i = choose|i: int| 0 <= i < count - 1 && (#[trigger] agents[i]).id == before[k].id;
            assert(agents[i].id == before[k].id);
        }
        assert(has_row(agents, count, row.id));
    }
}

// ── What is named ────────────────────────────────────────────────────────────

/// Whether a run that stands like this has not ended.
pub open spec fn is_live(status: AgentDisplayStatus) -> bool {
    match status {
        AgentDisplayStatus::Active => true,
        AgentDisplayStatus::Waiting => true,
        AgentDisplayStatus::Stale => true,
        AgentDisplayStatus::Paused => true,
        AgentDisplayStatus::Complete => false,
        AgentDisplayStatus::CompleteInteractive => false,
        AgentDisplayStatus::Cancelled => false,
        AgentDisplayStatus::Error(_) => false,
    }
}

/// A run can be killed if and only if it has not ended.
pub proof fn only_live_runs_can_be_killed(status: AgentDisplayStatus)
    ensures
        status@.killable() <==> is_live(status),
        status@.over() <==> !is_live(status),
{
}

/// Whether a row is the one under the cursor.
pub open spec fn under_cursor(dash: Dashboard, i: int) -> bool {
    &&& 0 <= i < dash.runs.agents@.len()
    &&& dash.runs.selected < dash.runs.display_indices@.len()
    &&& dash.runs.display_indices@[dash.runs.selected as int] == i
}

/// Whether a row is marked.
pub open spec fn is_marked(dash: Dashboard, i: int) -> bool {
    exists|k: int|
        0 <= k < dash.runs.marked@.len() && (#[trigger] dash.runs.marked@[k])@
            == dash.runs.agents@[i].id@
}

/// The marked runs of the first rows are the ids of those rows that are marked, and
/// live where only live ones count, in the order of the rows.
pub proof fn marked_runs_are_filtered(
    agents: Seq<AgentView>,
    marked: Seq<Seq<char>>,
    live_only: bool,
    count: int,
)
    requires
        0 <= count <= agents.len(),
    ensures
        marked_runs(agents, marked, live_only, count) == agents.take(count).filter(
            |row: AgentView| marked.contains(row.id) && (!live_only || row.status.killable()),
        ).map_values(|row: AgentView| row.id),
    decreases count,
{
    let picked = |row: AgentView| marked.contains(row.id) && (!live_only || row.status.killable());
    let id_of = |row: AgentView| row.id;
    if count > 0 {
        marked_runs_are_filtered(agents, marked, live_only, count - 1);
        let fewer = agents.take(count - 1);
        let row = agents[count - 1];
        assert(agents.take(count) =~= fewer.push(row));
        fewer.lemma_filter_push(row, picked);
        assert(among(marked, row.id) <==> marked.contains(row.id));
        assert(fewer.filter(picked).push(row).map_values(id_of) =~= fewer.filter(
            picked,
        ).map_values(id_of).push(row.id));
    } else {
        reveal(Seq::filter);
        assert(agents.take(0) =~= Seq::empty());
        assert(agents.take(0).filter(picked) =~= Seq::empty());
        assert(marked_runs(agents, marked, live_only, count) =~= agents.take(count).filter(
            picked,
        ).map_values(id_of));
    }
}

/// Every run that is named is a marked row's, and every marked row's run is named.
proof fn marked_runs_are_marked_rows(
    agents: Seq<AgentView>,
    marked: Seq<Seq<char>>,
    live_only: bool,
    count: int,
)
    requires
        0 <= count <= agents.len(),
    ensures
        forall|k: int|
            0 <= k < marked_runs(agents, marked, live_only, count).len() ==> exists|i: int|
                0 <= i < count && (#[trigger] agents[i]).id == #[trigger] marked_runs(
                    agents,
                    marked,
                    live_only,
                    count,
                )[k] && among(marked, agents[i].id) && (!live_only || agents[i].status.killable()),
        forall|i: int|
            0 <= i < count && among(marked, (#[trigger] agents[i]).id) && (!live_only
                || agents[i].status.killable()) ==> marked_runs(
                agents,
                marked,
                live_only,
                count,
            ).contains(agents[i].id),
    decreases count,
{
    if count > 0 {
        marked_runs_are_marked_rows(agents, marked, live_only, count - 1);
        let fewer = marked_runs(agents, marked, live_only, count - 1);
        let more = marked_runs(agents, marked, live_only, count);
        assert forall|k: int| 0 <= k < more.len() implies exists|i: int|
            0 <= i < count && (#[trigger] agents[i]).id == #[trigger] more[k] && among(
                marked,
                agents[i].id,
            ) && (!live_only || agents[i].status.killable()) by {
            if k < fewer.len() {
                assert(more[k] == fewer[k]);
                let i = choose|i: int|
                    0 <= i < count - 1 && (#[trigger] agents[i]).id == fewer[k] && among(
                        marked,
                        agents[i].id,
                    ) && (!live_only || agents[i].status.killable());
                assert(agents[i].id == more[k]);
            } else {
                assert(agents[count - 1].id == more[k]);
            }
        }
        assert forall|i: int|
            0 <= i < count && among(marked, (#[trigger] agents[i]).id) && (!live_only
                || agents[i].status.killable()) implies more.contains(agents[i].id) by {
            if i < count - 1 {
                let k = choose|k: int| 0 <= k < fewer.len() && fewer[k] == agents[i].id;
                assert(more[k] == agents[i].id);
            } else {
                assert(more[more.len() - 1] == agents[i].id);
            }
        }
    }
}

/// A row is marked by its id.
proof fn marked_by_id(dash: Dashboard, i: int)
    requires
        0 <= i < dash.runs.agents@.len(),
    ensures
        among(views(dash.runs.marked@), views(dash.runs.agents@)[i].id) <==> is_marked(dash, i),
{
    let marked = dash.runs.marked@;
    let id = dash.runs.agents@[i].id@;
    assert(views(dash.runs.agents@)[i].id == id);
    if among(views(marked), id) {
        let k = choose|k: int| 0 <= k < views(marked).len() && views(marked)[k] == id;
        assert(marked[k]@ == id);
    }
    if is_marked(dash, i) {
        let k = choose|k: int| 0 <= k < marked.len() && (#[trigger] marked[k])@ == id;
        assert(views(marked)[k] == id);
    }
}

/// The runs that a yes to the open question kills.
pub open spec fn to_be_killed(dash: Dashboard) -> Option<Seq<String>> {
    match dash.notes.pending_confirm {
        Some((ConfirmAction::Kill { run_ids }, _)) => Some(run_ids@),
        _ => None,
    }
}

/// The runs that a yes to the open question deletes.
pub open spec fn to_be_deleted(dash: Dashboard) -> Option<Seq<String>> {
    match dash.notes.pending_confirm {
        Some((ConfirmAction::Delete { run_ids }, _)) => Some(run_ids@),
        _ => None,
    }
}

/// Whether these are the ids of rows of the list, each of a live run.
pub open spec fn are_live_rows(dash: Dashboard, run_ids: Seq<String>) -> bool {
    forall|k: int|
        0 <= k < run_ids.len() ==> exists|i: int|
            0 <= i < dash.runs.agents@.len() && (#[trigger] dash.runs.agents@[i]).id@ == (
            #[trigger] run_ids[k])@ && is_live(dash.runs.agents@[i].status)
}

/// A kill names live rows of the list by their ids. With nothing marked it names the
/// row under the cursor, once, and only where its run is live; with marks it names
/// every marked row whose run is live and no other, however many, and asks nothing
/// where there is none.
pub proof fn a_kill_names_live_rows(before: Dashboard, after: Dashboard)
    requires
        match kill_question(before) {
            Some(question) => open_question(after) == Some(question),
            None => after == before,
        },
    ensures
        before.runs.marked@.len() == 0 ==> {
            &&& forall|i: int| #[trigger]
                under_cursor(before, i) && is_live(before.runs.agents@[i].status) ==> {
                    &&& to_be_killed(after) is Some
                    &&& to_be_killed(after)->0.len() == 1
                    &&& to_be_killed(after)->0[0]@ == before.runs.agents@[i].id@
                }
            &&& !(exists|i: int| #[trigger]
                under_cursor(before, i) && is_live(before.runs.agents@[i].status)) ==> after
                == before
        },
        before.runs.marked@.len() > 0 ==> {
            let any = exists|i: int|
                0 <= i < before.runs.agents@.len() && #[trigger] is_marked(before, i) && is_live(
                    before.runs.agents@[i].status,
                );
            &&& !any ==> after == before
            &&& any ==> {
                &&& to_be_killed(after) is Some
                &&& are_live_rows(before, to_be_killed(after)->0)
                &&& forall|i: int|
                    0 <= i < before.runs.agents@.len() && #[trigger] is_marked(before, i)
                        && is_live(before.runs.agents@[i].status) ==> views(
                        to_be_killed(after)->0,
                    ).contains(before.runs.agents@[i].id@)
                &&& forall|k: int|
                    0 <= k < to_be_killed(after)->0.len() ==> exists|
                        i: int,
                    |
                        0 <= i < before.runs.agents@.len() && #[trigger] is_marked(before, i)
                            && before.runs.agents@[i].id@ == (
                        #[trigger] to_be_killed(after)->0[k])@
            }
        },
{
    let agents = views(before.runs.agents@);
    let marked = views(before.runs.marked@);
    let count = agents.len() as int;
    if before.runs.marked@.len() == 0 {
        assert forall|i: int| #[trigger]
            under_cursor(before, i) && is_live(before.runs.agents@[i].status) implies {
            &&& to_be_killed(after) is Some
            &&& to_be_killed(after)->0.len() == 1
            &&& to_be_killed(after)->0[0]@ == before.runs.agents@[i].id@
        } by {
            assert(before.current() == Some(before.runs.agents@[i]));
            let (action, _) = after.notes.pending_confirm->0;
            assert(action@ == (ActionView::Kill { run_ids: seq![before.runs.agents@[i].id@] }));
            let run_ids = action->Kill_run_ids@;
            assert(views(run_ids) == seq![before.runs.agents@[i].id@]);
            assert(views(run_ids).len() == run_ids.len());
            assert(views(run_ids)[0] == run_ids[0]@);
            assert(to_be_killed(after) == Some(run_ids));
        }
        if before.current() is Some {
            let i = before.runs.display_indices@[before.runs.selected as int] as int;
            assert(under_cursor(before, i));
        }
    } else {
        let ids = marked_runs(agents, marked, true, count);
        marked_runs_are_marked_rows(agents, marked, true, count);
        assert forall|i: int| 0 <= i < count implies (among(marked, (#[trigger] agents[i]).id)
            <==> is_marked(before, i)) by {
            marked_by_id(before, i);
        }
        let any = exists|i: int|
            0 <= i < before.runs.agents@.len() && #[trigger] is_marked(before, i) && is_live(
                before.runs.agents@[i].status,
            );
        if any {
            let i = choose|i: int|
                0 <= i < before.runs.agents@.len() && #[trigger] is_marked(before, i) && is_live(
                    before.runs.agents@[i].status,
                );
            assert(among(marked, agents[i].id));
            assert(ids.contains(agents[i].id));
            let (action, _) = after.notes.pending_confirm->0;
            assert(action@ == (ActionView::Kill { run_ids: ids }));
            let run_ids = action->Kill_run_ids@;
            assert(views(run_ids) == ids);
            assert forall|k: int| 0 <= k < run_ids.len() implies exists|i: int|
                0 <= i < before.runs.agents@.len() && (#[trigger] before.runs.agents@[i]).id@ == (
                #[trigger] run_ids[k])@ && is_live(before.runs.agents@[i].status) && is_marked(
                    before,
                    i,
                ) by {
                assert(views(run_ids)[k] == run_ids[k]@);
                assert(ids[k] == run_ids[k]@);
                let i = choose|i: int|
                    0 <= i < count && (#[trigger] agents[i]).id == ids[k] && among(
                        marked,
                        agents[i].id,
                    ) && agents[i].status.killable();
                assert(before.runs.agents@[i].id@ == run_ids[k]@);
                assert(is_marked(before, i));
            }
            assert(are_live_rows(before, run_ids)) by {
                assert forall|k: int| 0 <= k < run_ids.len() implies exists|i: int|
                    0 <= i < before.runs.agents@.len() && (#[trigger] before.runs.agents@[i]).id@
                        == (#[trigger] run_ids[k])@ && is_live(before.runs.agents@[i].status) by {
                    let i = choose|i: int|
                        0 <= i < before.runs.agents@.len() && (
                        #[trigger] before.runs.agents@[i]).id@ == (#[trigger] run_ids[k])@
                            && is_live(before.runs.agents@[i].status) && is_marked(before, i);
                    assert(before.runs.agents@[i].id@ == run_ids[k]@);
                }
            }
            assert forall|k: int| 0 <= k < run_ids.len() implies exists|i: int|
                0 <= i < before.runs.agents@.len() && #[trigger] is_marked(before, i)
                    && before.runs.agents@[i].id@ == (#[trigger] run_ids[k])@ by {
                let i = choose|i: int|
                    0 <= i < before.runs.agents@.len() && (#[trigger] before.runs.agents@[i]).id@
                        == (#[trigger] run_ids[k])@ && is_live(before.runs.agents@[i].status)
                        && is_marked(before, i);
                assert(is_marked(before, i));
            }
            assert forall|i: int|
                0 <= i < before.runs.agents@.len() && #[trigger] is_marked(before, i) && is_live(
                    before.runs.agents@[i].status,
                ) implies views(run_ids).contains(before.runs.agents@[i].id@) by {
                assert(among(marked, agents[i].id));
            }
        } else {
            assert(ids.len() == 0) by {
                if ids.len() > 0 {
                    let k: int = 0;
                    assert(ids[k] == ids[0]);
                    let i = choose|i: int|
                        0 <= i < count && (#[trigger] agents[i]).id == ids[k] && among(
                            marked,
                            agents[i].id,
                        ) && agents[i].status.killable();
                    assert(is_marked(before, i));
                }
            }
        }
    }
}

/// A delete names rows of the list by their ids: with nothing marked the row under the
/// cursor, once, live or not; with marks every marked row and no other.
pub proof fn a_delete_names_rows(before: Dashboard, after: Dashboard)
    requires
        match delete_question(before) {
            Some(question) => open_question(after) == Some(question),
            None => after == before,
        },
    ensures
        before.runs.marked@.len() == 0 ==> {
            &&& forall|i: int| #[trigger]
                under_cursor(before, i) ==> {
                    &&& to_be_deleted(after) is Some
                    &&& to_be_deleted(after)->0.len() == 1
                    &&& to_be_deleted(after)->0[0]@ == before.runs.agents@[i].id@
                }
            &&& !(exists|i: int| #[trigger] under_cursor(before, i)) ==> after == before
        },
        before.runs.marked@.len() > 0 ==> {
            &&& to_be_deleted(after) is Some
            &&& forall|i: int|
                0 <= i < before.runs.agents@.len() && #[trigger] is_marked(before, i) ==> views(
                    to_be_deleted(after)->0,
                ).contains(before.runs.agents@[i].id@)
            &&& forall|k: int|
                0 <= k < to_be_deleted(after)->0.len() ==> exists|i: int|
                    0 <= i < before.runs.agents@.len() && #[trigger] is_marked(before, i)
                        && before.runs.agents@[i].id@ == (#[trigger] to_be_deleted(after)->0[k])@
        },
{
    let agents = views(before.runs.agents@);
    let marked = views(before.runs.marked@);
    let count = agents.len() as int;
    if before.runs.marked@.len() == 0 {
        assert forall|i: int| #[trigger] under_cursor(before, i) implies {
            &&& to_be_deleted(after) is Some
            &&& to_be_deleted(after)->0.len() == 1
            &&& to_be_deleted(after)->0[0]@ == before.runs.agents@[i].id@
        } by {
            assert(before.current() == Some(before.runs.agents@[i]));
            let (action, _) = after.notes.pending_confirm->0;
            assert(action@ == (ActionView::Delete { run_ids: seq![before.runs.agents@[i].id@] }));
            let run_ids = action->Delete_run_ids@;
            assert(views(run_ids) == seq![before.runs.agents@[i].id@]);
            assert(views(run_ids).len() == run_ids.len());
            assert(views(run_ids)[0] == run_ids[0]@);
            assert(to_be_deleted(after) == Some(run_ids));
        }
        if before.current() is Some {
            let i = before.runs.display_indices@[before.runs.selected as int] as int;
            assert(under_cursor(before, i));
        }
    } else {
        let ids = marked_runs(agents, marked, false, count);
        marked_runs_are_marked_rows(agents, marked, false, count);
        assert forall|i: int| 0 <= i < count implies (among(marked, (#[trigger] agents[i]).id)
            <==> is_marked(before, i)) by {
            marked_by_id(before, i);
        }
        let (action, _) = after.notes.pending_confirm->0;
        assert(action@ == (ActionView::Delete { run_ids: ids }));
        let run_ids = action->Delete_run_ids@;
        assert(views(run_ids) == ids);
        assert forall|i: int|
            0 <= i < before.runs.agents@.len() && #[trigger] is_marked(before, i) implies views(
            run_ids,
        ).contains(before.runs.agents@[i].id@) by {
            assert(among(marked, agents[i].id));
        }
        assert forall|k: int| 0 <= k < run_ids.len() implies exists|i: int|
            0 <= i < before.runs.agents@.len() && #[trigger] is_marked(before, i)
                && before.runs.agents@[i].id@ == (#[trigger] run_ids[k])@ by {
            assert(views(run_ids)[k] == run_ids[k]@);
            assert(ids[k] == run_ids[k]@);
            let i = choose|i: int|
                0 <= i < count && (#[trigger] agents[i]).id == ids[k] && among(
                    marked,
                    agents[i].id,
                );
            assert(is_marked(before, i));
        }
    }
}

/// The question before a run under the cursor is killed shows its id and what it is
/// called; its yes is dangerous.
pub proof fn a_kill_question_names_its_run(before: Dashboard, i: int)
    requires
        before.runs.marked@.len() == 0,
        under_cursor(before, i),
        is_live(before.runs.agents@[i].status),
    ensures
        kill_question(before) matches Some((_, question)) && question.danger && question.body.len()
            == 1 && question.body[0].len() == 1 && ({
            let text = question.body[0][0].content;
            let row = before.runs.agents@[i];
            let name = match row.title {
                Some(title) => title@,
                None => row.blueprint_name@,
            };
            text == "Cancel '"@ + name + "' ("@ + row.id@ + ")? Its state stays on disk."@
        }),
{
    assert(before.current() == Some(before.runs.agents@[i]));
}

/// A killed run's row says that it is cancelled and asks for nothing, and is otherwise
/// as it was; no other row changes.
pub proof fn a_killed_row_is_cancelled(before: Seq<AgentView>, after: Seq<AgentView>, run_id: Seq<char>)
    requires
        rows_after_kill(before, after, run_id),
    ensures
        after.len() == before.len(),
        (exists|i: int| 0 <= i < before.len() && (#[trigger] before[i]).id == run_id) ==> exists|
            i: int,
        |
            #![trigger after[i]]
            0 <= i < after.len() && before[i].id == run_id && after[i].status is Cancelled
                && after[i].waiting_prompt is None && after[i].pending_request is None && after[i]
                == (AgentView {
                status: after[i].status,
                waiting_prompt: after[i].waiting_prompt,
                pending_request: after[i].pending_request,
                ..before[i]
            }) && (forall|j: int| 0 <= j < i ==> (#[trigger] before[j]).id != run_id) && forall|
                j: int,
            | 0 <= j < before.len() && j != i ==> #[trigger] after[j] == before[j],
        !(exists|i: int| 0 <= i < before.len() && (#[trigger] before[i]).id == run_id) ==> after
            == before,
{
    if exists|i: int| 0 <= i < before.len() && (#[trigger] before[i]).id == run_id {
        assert(listed(before, run_id));
        let i = choose|i: int| #[trigger]
            is_run(before, run_id, i) && after == before.update(i, killed(before[i]));
        assert(after[i] == killed(before[i]));
    } else {
        if listed(before, run_id) {
            let i = choose|i: int| 0 <= i < before.len() && before[i].id == run_id;
            assert(before[i].id == run_id);
        }
    }
}

/// A delete asks the daemon to cancel the named run, and each other run that goes with it
/// while a row says that it is live: those of the runs to be erased, in their order.
pub proof fn a_delete_cancels_what_goes_on(
    agents: Seq<AgentView>,
    run_id: Seq<char>,
    ids: Seq<Seq<char>>,
    count: int,
)
    requires
        0 <= count <= ids.len(),
    ensures
        cancelled_runs(agents, run_id, ids, count) == ids.take(count).filter(
            |id: Seq<char>|
                id == run_id || exists|i: int|
                    0 <= i < agents.len() && (#[trigger] agents[i]).id == id && (
                    agents[i].status is Active || agents[i].status is Waiting
                        || agents[i].status is Stale || agents[i].status is Paused),
        ),
    decreases count,
{
    let goes_on = |id: Seq<char>|
        id == run_id || exists|i: int|
            0 <= i < agents.len() && (#[trigger] agents[i]).id == id && (agents[i].status is Active
                || agents[i].status is Waiting || agents[i].status is Stale
                || agents[i].status is Paused);
    if count > 0 {
        a_delete_cancels_what_goes_on(agents, run_id, ids, count - 1);
        let id = ids[count - 1];
        assert(ids.take(count) =~= ids.take(count - 1).push(id));
        ids.take(count - 1).lemma_filter_push(id, goes_on);
        assert(cancels(agents, run_id, id) <==> goes_on(id)) by {
            if cancels(agents, run_id, id) && id != run_id {
                let i = choose|i: int|
                    0 <= i < agents.len() && (#[trigger] agents[i]).id == id
                        && agents[i].status.killable();
                assert(agents[i].id == id);
            }
            if goes_on(id) && id != run_id {
                let i = choose|i: int|
                    0 <= i < agents.len() && (#[trigger] agents[i]).id == id && (
                    agents[i].status is Active || agents[i].status is Waiting
                        || agents[i].status is Stale || agents[i].status is Paused);
                assert(agents[i].status.killable());
            }
        }
    } else {
        reveal(Seq::filter);
        assert(ids.take(0) =~= Seq::empty());
        assert(cancelled_runs(agents, run_id, ids, count) =~= ids.take(count).filter(goes_on));
    }
}

/// The rows that a delete leaves are those whose run is not deleted, in their order.
pub proof fn the_rows_left_keep_their_order(
    agents: Seq<AgentView>,
    ids: Seq<Seq<char>>,
    count: int,
)
    requires
        0 <= count <= agents.len(),
    ensures
        rows_left(agents, ids, count) == agents.take(count).filter(
            |row: AgentView| !ids.contains(row.id),
        ),
    decreases count,
{
    let stays = |row: AgentView| !ids.contains(row.id);
    if count > 0 {
        the_rows_left_keep_their_order(agents, ids, count - 1);
        let row = agents[count - 1];
        assert(agents.take(count) =~= agents.take(count - 1).push(row));
        agents.take(count - 1).lemma_filter_push(row, stays);
        assert(among(ids, row.id) <==> ids.contains(row.id));
    } else {
        reveal(Seq::filter);
        assert(agents.take(0) =~= Seq::empty());
        assert(rows_left(agents, ids, count) =~= agents.take(count).filter(stays));
    }
}

/// Each run of a delete is reported once, in order: as deleted, or with the reason why
/// it could not be; and each is kept in mind with the moment, whether or not it could.
pub proof fn every_delete_is_reported(
    stamp: Seq<char>,
    ids: Seq<Seq<char>>,
    failures: Seq<Option<String>>,
    now: u64,
    count: int,
)
    requires
        0 <= count <= ids.len() == failures.len(),
    ensures
        delete_log(stamp, ids, failures, count).len() == count,
        deletes_made(ids, now, count).len() == count,
        forall|k: int|
            #![trigger delete_log(stamp, ids, failures, count)[k]]
            0 <= k < count ==> {
                let line = delete_log(stamp, ids, failures, count)[k];
                &&& line.timestamp == stamp
                &&& failures[k] is None ==> line.message == "Deleted run "@ + ids[k]
                &&& failures[k] is Some ==> line.message == "Delete failed: "@ + failures[k]->0@
            },
        forall|k: int|
            0 <= k < count ==> #[trigger] deletes_made(ids, now, count)[k] == (ids[k], now),
    decreases count,
{
    if count > 0 {
        every_delete_is_reported(stamp, ids, failures, now, count - 1);
    }
}

/// A family is the runs named and what is below them, and nothing more: it holds the
/// named runs, with a run it holds every row whose parent that is, and any set that does
/// both holds it.
pub proof fn a_family_is_the_least_of_its_kind(
    agents: Seq<AgentView>,
    ids: Seq<Seq<char>>,
    other: Set<Seq<char>>,
)
    ensures
        forall|k: int| 0 <= k < ids.len() ==> family(agents, ids).contains(#[trigger] ids[k]),
        forall|i: int|
            0 <= i < agents.len() && (#[trigger] agents[i]).parent_id is Some && family(
                agents,
                ids,
            ).contains(agents[i].parent_id->0) ==> family(agents, ids).contains(agents[i].id),
        (forall|k: int| 0 <= k < ids.len() ==> other.contains(#[trigger] ids[k])) && (forall|i: int|
            0 <= i < agents.len() && (#[trigger] agents[i]).parent_id is Some && other.contains(
                agents[i].parent_id->0,
            ) ==> other.contains(agents[i].id)) ==> family(agents, ids).subset_of(other),
{
    assert forall|k: int| 0 <= k < ids.len() implies family(agents, ids).contains(
        #[trigger] ids[k],
    ) by {
        assert(among(ids, ids[k]));
        assert(within(agents, ids, ids[k], 0));
    }
    assert forall|i: int|
        0 <= i < agents.len() && (#[trigger] agents[i]).parent_id is Some && family(
            agents,
            ids,
        ).contains(agents[i].parent_id->0) implies family(agents, ids).contains(agents[i].id) by {
        children_belong(agents, ids, i);
    }
    if (forall|k: int| 0 <= k < ids.len() ==> other.contains(#[trigger] ids[k])) && (forall|i: int|
        0 <= i < agents.len() && (#[trigger] agents[i]).parent_id is Some && other.contains(
            agents[i].parent_id->0,
        ) ==> other.contains(agents[i].id)) {
        assert forall|id: Seq<char>| family(agents, ids).contains(id) implies other.contains(
            id,
        ) by {
            let steps = choose|steps: nat| within(agents, ids, id, steps);
            within_a_closed_set(agents, ids, other, id, steps);
        }
    }
}

/// A closed set that holds the named runs holds what is below them.
proof fn within_a_closed_set(
    agents: Seq<AgentView>,
    ids: Seq<Seq<char>>,
    other: Set<Seq<char>>,
    id: Seq<char>,
    steps: nat,
)
    requires
        forall|k: int| 0 <= k < ids.len() ==> other.contains(#[trigger] ids[k]),
        forall|i: int|
            0 <= i < agents.len() && (#[trigger] agents[i]).parent_id is Some && other.contains(
                agents[i].parent_id->0,
            ) ==> other.contains(agents[i].id),
        within(agents, ids, id, steps),
    ensures
        other.contains(id),
    decreases steps,
{
    if among(ids, id) {
        let k = choose|k: int| 0 <= k < ids.len() && ids[k] == id;
        assert(other.contains(ids[k]));
    } else {
        let i = choose|i: int|
            0 <= i < agents.len() && (#[trigger] agents[i]).id == id && agents[i].parent_id is Some
                && within(agents, ids, agents[i].parent_id->0, (steps - 1) as nat);
        within_a_closed_set(agents, ids, other, agents[i].parent_id->0, (steps - 1) as nat);
    }
}

/// The question before a delete says of rows that nobody named that they go too: it has a
/// second line if and only if the family is larger than what was named, and the line has
/// the number of the others in it.
pub proof fn a_delete_says_what_else_goes(
    agents: Seq<AgentView>,
    body: Seq<char>,
    run_ids: Seq<Seq<char>>,
)
    requires
        run_ids.no_duplicates(),
    ensures
        ({
            let lines = delete_body(agents, body, run_ids);
            let others = family(agents, run_ids).len() - run_ids.len();
            &&& others >= 0
            &&& lines.len() == (if others > 0 {
                2int
            } else {
                1int
            })
            &&& lines[0].len() == 1 && lines[0][0].content == body
            &&& others > 0 ==> lines[1].len() == 1 && ("Also deletes "@ + decimal(others as nat)
                + " sub-agent run"@).is_prefix_of(lines[1][0].content)
        }),
{
    distinct_runs_can_be_counted(agents, run_ids);
    let others = family(agents, run_ids).len() - run_ids.len();
    let lines = delete_body(agents, body, run_ids);
    if others > 0 {
        let head = "Also deletes "@ + decimal(others as nat) + " sub-agent run"@;
        assert(lines[1][0].content.take(head.len() as int) =~= head);
        assert(head.is_prefix_of(lines[1][0].content));
    }
}

/// The question before a run under the cursor is deleted names it by its id; its yes says what it
/// does and is dangerous.
pub proof fn a_delete_question_names_its_run(before: Dashboard, i: int)
    requires
        before.runs.marked@.len() == 0,
        under_cursor(before, i),
    ensures
        delete_question(before) matches Some((_, question)) && question.danger && question.title
            == "Delete run?"@ && question.accept == "Delete"@ && question.decline == "Cancel"@
            && question.body.len() >= 1 && question.body[0].len() == 1
            && question.body[0][0].content == "Delete '"@ + before.runs.agents@[i].id@
            + "' and all of its on-disk state? This is permanent."@,
{
}

/// A question about marked runs counts exactly those that its yes is about.
pub proof fn a_question_counts_its_runs(before: Dashboard)
    requires
        before.runs.marked@.len() > 0,
    ensures
        kill_question(before) matches Some((ActionView::Kill { run_ids }, question)) ==> run_ids.len()
            > 0 && question.danger && question.accept == "Kill"@ && question.title == "Kill runs?"@
            && (run_ids.len() == 1 ==> question.body[0][0].content
            == "Cancel 1 run? Its state stays on disk."@) && (run_ids.len() > 1
            ==> question.body[0][0].content == "Cancel "@ + decimal(run_ids.len())
            + " runs? Their state stays on disk."@),
        delete_question(before) matches Some((ActionView::Delete { run_ids }, question))
            && question.danger && question.accept == "Delete"@ && (run_ids.len() == 1
            ==> question.body[0][0].content
            == "Delete 1 run and its on-disk state? This is permanent."@) && (run_ids.len() != 1
            ==> question.body[0][0].content == "Delete "@ + decimal(run_ids.len())
            + " runs and their on-disk state? This is permanent."@),
{
}

/// The line about the runs that go too counts them in the singular or the plural, as it does those
/// that were named.
pub proof fn the_others_are_counted_in_words(
    agents: Seq<AgentView>,
    body: Seq<char>,
    run_ids: Seq<Seq<char>>,
    others: nat,
)
    requires
        others > 0,
        family(agents, run_ids).len() == run_ids.len() + others,
    ensures
        ({
            let line = delete_body(agents, body, run_ids)[1][0].content;
            let below = if run_ids.len() == 1 {
                " below "@ + "it"@ + "."@
            } else {
                " below "@ + "them"@ + "."@
            };
            &&& (others == 1 ==> line == "Also deletes "@ + decimal(1) + " sub-agent run"@ + below)
            &&& (others > 1 ==> line == "Also deletes "@ + decimal(others) + " sub-agent runs"@
                + below)
        }),
{
    reveal_strlit("");
    reveal_strlit("s");
    reveal_strlit(" sub-agent run");
    reveal_strlit(" sub-agent runs");
    let line = delete_body(agents, body, run_ids)[1][0].content;
    let below = if run_ids.len() == 1 {
        " below "@ + "it"@ + "."@
    } else {
        " below "@ + "them"@ + "."@
    };
    assert(" sub-agent run"@ + "s"@ =~= " sub-agent runs"@);
    if others == 1 {
        assert(line =~= "Also deletes "@ + decimal(1) + " sub-agent run"@ + below);
    } else {
        assert(line =~= "Also deletes "@ + decimal(others) + (" sub-agent run"@ + "s"@) + below);
    }
}

} // verus!
