//! Reading the runs directory, off the draw loop: what a round reads again and
//! what it reuses, and the feed that hands its snapshots to the dashboard.

use crate::outside::{share, share_opt};
use crate::text::{copy_of, copy_opt, opt_text, same};
use crate::types::{ContextSnapshot, RunEntry, RunMeta, RunSnapshot, StageGraph, StageRecord};
use crate::views::group_views;
use std::sync::Arc;
use vstd::prelude::*;

verus! {

broadcast use group_views;

/// What a round does for one run.
#[derive(Clone, Copy, Debug, PartialEq, Eq, Structural)]
pub enum RunStep {
    /// Take last round's entry as it is.
    Reuse,
    /// Read the run, its stage ledger with it or not.
    Read { stages: bool },
}

/// What a round has for one run: its record, last round's entry for that very
/// record, whether the run is finished and its files with it, and the ledger that
/// was read for it this round.
#[derive(Debug)]
pub struct RunSource {
    pub meta: Arc<RunMeta>,
    pub known: Option<RunEntry>,
    pub settled: bool,
    pub stages: Arc<Vec<StageRecord>>,
}

/// The graphs that a round has loaded, each beside the path of its blueprint.
#[derive(Debug)]
pub struct GraphShelf {
    pub graphs: Vec<(String, Option<Arc<StageGraph>>)>,
}

/// The graph of the blueprint at `path`, among the graphs from `from` on.
pub open spec fn shelved_from(
    graphs: Seq<(String, Option<Arc<StageGraph>>)>,
    path: Seq<char>,
    from: int,
) -> Option<Option<Arc<StageGraph>>>
    decreases graphs.len() - from,
{
    if from < 0 || from >= graphs.len() {
        None
    } else if graphs[from].0@ == path {
        Some(graphs[from].1)
    } else {
        shelved_from(graphs, path, from + 1)
    }
}

/// What was found before stays where a graph is put behind it.
proof fn shelving_keeps(
    graphs: Seq<(String, Option<Arc<StageGraph>>)>,
    more: (String, Option<Arc<StageGraph>>),
    path: Seq<char>,
    from: int,
)
    requires
        0 <= from <= graphs.len(),
    ensures
        shelved_from(graphs.push(more), path, from) == match shelved_from(graphs, path, from) {
            Some(graph) => Some(graph),
            None => if more.0@ == path {
                Some(more.1)
            } else {
                None
            },
        },
    decreases graphs.len() - from,
{
    reveal_with_fuel(shelved_from, 2);
    if from < graphs.len() {
        assert(graphs.push(more)[from] == graphs[from]);
        shelving_keeps(graphs, more, path, from + 1);
    }
}

impl GraphShelf {
    /// The graph of the blueprint at `path`, where it was loaded: `Some(None)` is
    /// a blueprint that could not be read.
    pub open spec fn kept(self, path: Seq<char>) -> Option<Option<Arc<StageGraph>>> {
        shelved_from(self.graphs@, path, 0)
    }

    /// A shelf with nothing on it.
    pub fn new() -> (shelf: GraphShelf)
        ensures
            forall|path: Seq<char>| (#[trigger] shelf.kept(path)) is None,
    {
        GraphShelf { graphs: Vec::new() }
    }

    /// The graph of the blueprint at `path`, where it was loaded.
    pub fn look(&self, path: &str) -> (graph: Option<Option<Arc<StageGraph>>>)
        ensures
            graph == self.kept(path@),
    {
        let mut i: usize = 0;
        while i < self.graphs.len()
            invariant
                i <= self.graphs@.len(),
                self.kept(path@) == shelved_from(self.graphs@, path@, i as int),
            decreases self.graphs.len() - i,
        {
            if same(self.graphs[i].0.as_str(), path) {
                return Some(share_opt(&self.graphs[i].1));
            }
            i = i + 1;
        }
        None
    }

    /// Keep what loading the blueprint at `path` gave, unless the shelf has it.
    pub fn shelve(&mut self, path: String, graph: Option<Arc<StageGraph>>)
        ensures
            forall|other: Seq<char>| #[trigger]
                final(self).kept(other) == match old(self).kept(other) {
                    Some(there) => Some(there),
                    None => if other == path@ {
                        Some(graph)
                    } else {
                        None
                    },
                },
    {
        proof {
            let more = (path, graph);
            assert forall|other: Seq<char>| (#[trigger]
            shelved_from(self.graphs@.push(more), other, 0)) == match self.kept(other) {
                Some(there) => Some(there),
                None => if other == path@ {
                    Some(graph)
                } else {
                    None
                },
            } by {
                shelving_keeps(self.graphs@, more, other, 0);
            }
        }
        self.graphs.push((path, graph));
    }
}

/// Whether a round takes last round's entry: the record is unchanged and the run
/// is finished, so its ledger is final too, unless last round skipped the
/// ledgers and this one wants them.
pub open spec fn reused(known: Option<RunEntry>, settled: bool, with_stages: bool) -> bool {
    match known {
        Some(entry) => settled && (entry.stages_read || !with_stages),
        None => false,
    }
}

/// What a round does for one run.
pub fn plan_run(known: &Option<RunEntry>, settled: bool, with_stages: bool) -> (step: RunStep)
    ensures
        step == if reused(*known, settled, with_stages) {
            RunStep::Reuse
        } else {
            RunStep::Read { stages: with_stages }
        },
{
    match known {
        Some(entry) => if settled && (entry.stages_read || !with_stages) {
            RunStep::Reuse
        } else {
            RunStep::Read { stages: with_stages }
        },
        None => RunStep::Read { stages: with_stages },
    }
}

/// Whether `entry` is what a round makes of one run. The graph is the one that
/// the round loaded for the run's blueprint.
pub open spec fn is_entry_of(
    entry: RunEntry,
    source: RunSource,
    shelf: GraphShelf,
    with_stages: bool,
) -> bool {
    if reused(source.known, source.settled, with_stages) {
        entry == source.known->0
    } else {
        &&& entry.meta == source.meta
        &&& entry.stages_read == with_stages
        &&& Some(entry.graph) == shelf.kept(source.meta.agent_path@)
        &&& with_stages ==> entry.stages == source.stages
        &&& !with_stages ==> entry.stages@ == Seq::<StageRecord>::empty()
    }
}

/// Another pointer to each part of an entry.
fn share_entry(entry: &RunEntry) -> (shared: RunEntry)
    ensures
        shared == *entry,
{
    RunEntry {
        meta: share(&entry.meta),
        stages: share(&entry.stages),
        stages_read: entry.stages_read,
        graph: share_opt(&entry.graph),
    }
}

/// Whether a round has what it needs of one run: last round's entry, or the graph
/// of the run's blueprint.
pub open spec fn is_ready(source: RunSource, shelf: GraphShelf, with_stages: bool) -> bool {
    reused(source.known, source.settled, with_stages) || shelf.kept(source.meta.agent_path@) is Some
}

/// What a round makes of one run.
pub fn entry_of(source: &RunSource, shelf: &GraphShelf, with_stages: bool) -> (entry: RunEntry)
    requires
        is_ready(*source, *shelf, with_stages),
    ensures
        is_entry_of(entry, *source, *shelf, with_stages),
{
    match &source.known {
        Some(known) => if source.settled && (known.stages_read || !with_stages) {
            return share_entry(known);
        },
        None => {},
    }
    let graph = match shelf.look(source.meta.agent_path.as_str()) {
        Some(graph) => graph,
        None => None,
    };
    let stages = if with_stages {
        share(&source.stages)
    } else {
        let none: Vec<StageRecord> = Vec::new();
        Arc::new(none)
    };
    RunEntry { meta: share(&source.meta), stages, stages_read: with_stages, graph }
}

/// Whether one of the runs has this id.
pub open spec fn reads_run(sources: Seq<RunSource>, id: Seq<char>) -> bool {
    exists|i: int| 0 <= i < sources.len() && (#[trigger] sources[i]).meta.run_id@ == id
}

/// A round over the runs directory. `shelf` holds the graphs of the blueprints
/// that it read. `showing` is the run whose context window is worth reading, and
/// `window` what reading it gave; a run that is not in the directory has none.
pub fn collect(
    taken_at: u64,
    sources: &Vec<RunSource>,
    shelf: &GraphShelf,
    showing: Option<&str>,
    window: Option<Arc<ContextSnapshot>>,
    with_stages: bool,
) -> (snapshot: RunSnapshot)
    requires
        forall|i: int|
            0 <= i < sources@.len() ==> is_ready(#[trigger] sources@[i], *shelf, with_stages),
    ensures
        snapshot.taken_at == taken_at,
        snapshot.runs@.len() == sources@.len(),
        forall|i: int|
            0 <= i < sources@.len() ==> is_entry_of(
                #[trigger] snapshot.runs@[i],
                sources@[i],
                *shelf,
                with_stages,
            ),
        match snapshot.context {
            Some((id, context)) => {
                &&& showing is Some
                &&& showing->0@ == id@
                &&& reads_run(sources@, id@)
                &&& window == Some(context)
            },
            None => showing is None || window is None || !reads_run(sources@, showing->0@),
        },
{
    let mut runs: Vec<RunEntry> = Vec::new();
    let mut i: usize = 0;
    while i < sources.len()
        invariant
            i <= sources@.len(),
            runs@.len() == i,
            forall|j: int|
                0 <= j < sources@.len() ==> is_ready(#[trigger] sources@[j], *shelf, with_stages),
            forall|j: int|
                0 <= j < i ==> is_entry_of(#[trigger] runs@[j], sources@[j], *shelf, with_stages),
        decreases sources.len() - i,
    {
        runs.push(entry_of(&sources[i], shelf, with_stages));
        i = i + 1;
    }
    let context = match (showing, window) {
        (Some(id), Some(context)) => if has_run(sources, id) {
            Some((copy_of(id), context))
        } else {
            None
        },
        _ => None,
    };
    RunSnapshot { taken_at, runs, context }
}

/// Runs of one blueprint that a round read share one graph, however many there
/// are.
pub proof fn runs_of_one_blueprint_share_a_graph(
    a: RunEntry,
    b: RunEntry,
    of_a: RunSource,
    of_b: RunSource,
    shelf: GraphShelf,
    with_stages: bool,
)
    requires
        is_entry_of(a, of_a, shelf, with_stages),
        is_entry_of(b, of_b, shelf, with_stages),
        !reused(of_a.known, of_a.settled, with_stages),
        !reused(of_b.known, of_b.settled, with_stages),
        of_a.meta.agent_path@ == of_b.meta.agent_path@,
    ensures
        a.graph == b.graph,
{
}

/// Whether one of the runs has this id.
fn has_run(sources: &Vec<RunSource>, id: &str) -> (there: bool)
    ensures
        there == reads_run(sources@, id@),
{
    let mut i: usize = 0;
    while i < sources.len()
        invariant
            i <= sources@.len(),
            forall|j: int| 0 <= j < i ==> (#[trigger] sources@[j]).meta.run_id@ != id@,
        decreases sources.len() - i,
    {
        if same(sources[i].meta.run_id.as_str(), id) {
            return true;
        }
        i = i + 1;
    }
    false
}

/// The dashboard's end of a running loader.
#[derive(Debug)]
pub struct RunFeed {
    /// The newest snapshot, until it is taken.
    pub arrived: Option<Arc<RunSnapshot>>,
    /// What the loader is to be told about the run on screen.
    pub asks: Vec<Option<String>>,
    /// What it was told last.
    pub last_showing: Option<String>,
}

/// An optional text as characters.
pub open spec fn shown_id(run_id: Option<&str>) -> Option<Seq<char>> {
    match run_id {
        Some(id) => Some(id@),
        None => None,
    }
}

/// What the loader is told, as characters.
pub open spec fn asked(asks: Seq<Option<String>>) -> Seq<Option<Seq<char>>> {
    asks.map_values(|ask: Option<String>| opt_text(ask))
}

impl RunFeed {
    /// A feed from which nothing came yet.
    pub fn new() -> (feed: RunFeed)
        ensures
            feed.arrived is None,
            feed.asks@ == Seq::<Option<String>>::empty(),
            feed.last_showing is None,
    {
        RunFeed { arrived: None, asks: Vec::new(), last_showing: None }
    }

    /// Tell the loader which run is on screen, when that changed.
    pub fn show(&mut self, run_id: Option<&str>)
        ensures
            final(self).arrived == old(self).arrived,
            opt_text(final(self).last_showing) == shown_id(run_id),
            asked(final(self).asks@) == if opt_text(old(self).last_showing) == shown_id(run_id) {
                asked(old(self).asks@)
            } else {
                asked(old(self).asks@).push(shown_id(run_id))
            },
    {
        let unchanged = match (&self.last_showing, run_id) {
            (Some(last), Some(id)) => same(last.as_str(), id),
            (None, None) => true,
            _ => false,
        };
        if unchanged {
            return ;
        }
        let ghost before = asked(self.asks@);
        self.last_showing = match run_id {
            Some(id) => Some(copy_of(id)),
            None => None,
        };
        let ask = copy_opt(&self.last_showing);
        self.asks.push(ask);
        proof {
            assert(asked(self.asks@) =~= before.push(shown_id(run_id)));
        }
    }

    /// The newest snapshot, if one arrived since the last call.
    pub fn take(&mut self) -> (snapshot: Option<Arc<RunSnapshot>>)
        ensures
            snapshot == old(self).arrived,
            *final(self) == (RunFeed { arrived: None, ..*old(self) }),
    {
        self.arrived.take()
    }

    /// Hand the feed a snapshot; one that was not taken gives way to it.
    pub fn deliver(&mut self, snapshot: Arc<RunSnapshot>)
        ensures
            *final(self) == (RunFeed { arrived: Some(snapshot), ..*old(self) }),
    {
        self.arrived = Some(snapshot);
    }
}

/// Where the loader stands between two rounds.
#[derive(Debug)]
pub struct LoaderState {
    /// The run on screen.
    pub on_screen: Option<String>,
    /// Whether the next round reads the stage ledgers.
    pub with_stages: bool,
}

impl LoaderState {
    /// Before the first round, which leaves the ledgers out so that the list
    /// can be drawn before they are read.
    pub fn new() -> (state: LoaderState)
        ensures
            state.on_screen is None,
            !state.with_stages,
    {
        LoaderState { on_screen: None, with_stages: false }
    }

    /// After a round: whether to wait for the interval before the next. The
    /// round after a list-only one follows at once, and reads the ledgers.
    pub fn after_round(&mut self) -> (wait: bool)
        ensures
            wait == old(self).with_stages,
            *final(self) == (LoaderState { with_stages: true, ..*old(self) }),
    {
        let wait = self.with_stages;
        self.with_stages = true;
        wait
    }

    /// Take in what the dashboard said meanwhile: only the last word counts.
    pub fn hear(&mut self, said: Vec<Option<String>>)
        ensures
            final(self).with_stages == old(self).with_stages,
            final(self).on_screen == if said@.len() == 0 {
                old(self).on_screen
            } else {
                said@.last()
            },
    {
        let mut said = said;
        match said.pop() {
            Some(last) => {
                self.on_screen = last;
            },
            None => {},
        }
    }
}

/// A shelf gives the graph that was put there first for a blueprint, and nothing for one that was
/// never put there.
pub proof fn a_shelf_keeps_what_came_first(
    graphs: Seq<(String, Option<Arc<StageGraph>>)>,
    path: Seq<char>,
    from: int,
)
    requires
        0 <= from <= graphs.len(),
    ensures
        match shelved_from(graphs, path, from) {
            Some(graph) => exists|i: int|
                from <= i < graphs.len() && (#[trigger] graphs[i]).0@ == path && graphs[i].1
                    == graph && forall|j: int| from <= j < i ==> (#[trigger] graphs[j]).0@ != path,
            None => forall|j: int| from <= j < graphs.len() ==> (#[trigger] graphs[j]).0@ != path,
        },
    decreases graphs.len() - from,
{
    if from < graphs.len() {
        if graphs[from].0@ == path {
            assert(graphs[from].0@ == path);
        } else {
            a_shelf_keeps_what_came_first(graphs, path, from + 1);
            match shelved_from(graphs, path, from + 1) {
                Some(graph) => {
                    let i = choose|i: int|
                        from + 1 <= i < graphs.len() && (#[trigger] graphs[i]).0@ == path
                            && graphs[i].1 == graph && forall|j: int|
                            from + 1 <= j < i ==> (#[trigger] graphs[j]).0@ != path;
                    assert(graphs[i].0@ == path);
                },
                None => {},
            }
        }
    }
}

/// A run is taken from the round before only once it is settled, and only where that round read
/// its stages or none are asked for: what this round wants is then there, and an unfinished run
/// is read again every time.
pub proof fn only_settled_runs_are_reused(
    entry: RunEntry,
    source: RunSource,
    shelf: GraphShelf,
    with_stages: bool,
)
    requires
        is_entry_of(entry, source, shelf, with_stages),
    ensures
        !source.settled || source.known is None ==> entry.meta == source.meta && (with_stages
            ==> entry.stages == source.stages),
        with_stages ==> entry.stages_read,
        source.known is Some && source.settled && source.known->0.stages_read ==> entry
            == source.known->0,
        source.known is Some && source.settled && !source.known->0.stages_read && with_stages
            ==> entry.meta == source.meta && entry.stages == source.stages,
{
}

} // verus!
