//! The new-run screen: the agents on offer, the `@` file completion, and the
//! runs that are handed to the background to be started.
//!
//! The screen owns the keys while it is open, so that typing a task can never
//! also mean "kill the selected run".

use crate::new_run_inputs::{follows, InputsStep, ResolvedInputs};
use crate::order::{order_by, ordered_items_are_in_order, place_by};
use crate::outside::{lowercase, to_lowercase};
use crate::state::{
    logged, notice, Dashboard, FileRef, Inputs, Lanes, NewRun, Notes, RunList, Screens, Unattended,
};
use crate::text::{
    at_most, cat2, cat3, cat4, contains, copy_of, copy_opt, count_text, decimal, occurs, opt_text,
    same, text_le, trim, trimmed,
};
use crate::types::{
    copy_agent, BundledEntry, InlineParts, LogView, NewAgentView, NewRunAgent, NewRunPane,
    SpawnCommand, SpawnOutcome, SpawnView, TextArea, ToastLevel, ToastView, YoloProfile,
};
use crate::views::{group_views, views};
use vstd::prelude::*;

verus! {

broadcast use group_views;

/// How many ticks the dashboard waits for a just-started run to appear before it
/// gives up on opening its page.
pub const OPEN_RUN_TICKS: u32 = 60;

// ── The catalog ──────────────────────────────────────────────────────────────

/// The row of a bundled blueprint.
pub open spec fn bundled_row(entry: BundledEntry) -> NewAgentView {
    NewAgentView {
        name: entry.name@,
        source: "bundled"@,
        description: "v"@ + entry.version@ + " - install with `lev setup`"@,
        path: entry.name@,
    }
}

/// Whether an agent of this name is on offer.
pub open spec fn offers(agents: Seq<NewAgentView>, name: Seq<char>) -> bool {
    exists|i: int| 0 <= i < agents.len() && (#[trigger] agents[i]).name == name
}

/// The agents found, and the first `count` bundled blueprints that none of them
/// is named like: an installed copy is the one that resolves, so it wins.
pub open spec fn with_bundled(
    found: Seq<NewAgentView>,
    bundled: Seq<BundledEntry>,
    count: int,
) -> Seq<NewAgentView>
    decreases count,
{
    if count <= 0 {
        found
    } else {
        let before = with_bundled(found, bundled, count - 1);
        if offers(before, bundled[count - 1].name@) {
            before
        } else {
            before.push(bundled_row(bundled[count - 1]))
        }
    }
}

/// What the catalog is in the order of.
pub open spec fn by_name() -> spec_fn(NewAgentView) -> Seq<char> {
    |agent: NewAgentView| agent.name
}

/// The first `count` agents in name order, those of one name as they came.
pub open spec fn name_order(agents: Seq<NewAgentView>, count: int) -> Seq<NewAgentView> {
    order_by(agents, by_name(), count)
}

/// The catalog is in name order, and holds each agent as often as it was found.
pub proof fn the_catalog_is_in_name_order(agents: Seq<NewAgentView>, count: int)
    requires
        0 <= count <= agents.len(),
    ensures
        forall|i: int, j: int|
            0 <= i <= j < name_order(agents, count).len() ==> text_le(
                (#[trigger] name_order(agents, count)[i]).name,
                (#[trigger] name_order(agents, count)[j]).name,
            ),
        name_order(agents, count).to_multiset() == agents.take(count).to_multiset(),
        name_order(agents, count).len() == count,
{
    ordered_items_are_in_order(agents, by_name(), count);
    let sorted = name_order(agents, count);
    assert forall|i: int, j: int| 0 <= i <= j < sorted.len() implies text_le(
        (#[trigger] sorted[i]).name,
        (#[trigger] sorted[j]).name,
    ) by {
        assert(text_le(by_name()(sorted[i]), by_name()(sorted[j])));
    }
}

/// A bundled blueprint is not offered beside an agent of its name: every name
/// that bundled rows add is new.
pub proof fn bundled_names_are_added_once(
    found: Seq<NewAgentView>,
    bundled: Seq<BundledEntry>,
    count: int,
)
    requires
        0 <= count <= bundled.len(),
    ensures
        with_bundled(found, bundled, count).len() >= found.len(),
        with_bundled(found, bundled, count).take(found.len() as int) == found,
        forall|i: int, j: int|
            found.len() <= j < with_bundled(found, bundled, count).len() && 0 <= i < j ==> (
            #[trigger] with_bundled(found, bundled, count)[i]).name != (#[trigger] with_bundled(
                found,
                bundled,
                count,
            )[j]).name,
        forall|k: int|
            0 <= k < count ==> offers(with_bundled(found, bundled, count), (#[trigger] bundled[k]).name@),
    decreases count,
{
    if count <= 0 {
        assert(found.take(found.len() as int) =~= found);
    } else {
        bundled_names_are_added_once(found, bundled, count - 1);
        let before = with_bundled(found, bundled, count - 1);
        let after = with_bundled(found, bundled, count);
        if !offers(before, bundled[count - 1].name@) {
            assert(after.take(found.len() as int) =~= before.take(found.len() as int));
            assert(after.last().name == bundled[count - 1].name@);
            assert forall|k: int| 0 <= k < count implies offers(after, (#[trigger] bundled[k]).name@) by {
                if k < count - 1 {
                    let i = choose|i: int|
                        0 <= i < before.len() && (#[trigger] before[i]).name == bundled[k].name@;
                    assert(after[i].name == bundled[k].name@);
                } else {
                    assert(after[after.len() - 1].name == bundled[k].name@);
                }
            }
        }
    }
}

/// Whether an agent matches what was typed: in its name or its description, in
/// either case. With nothing typed every agent matches.
pub open spec fn agent_matches(agent: NewAgentView, filter: Seq<char>) -> bool {
    filter.len() == 0 || lowercase(filter).len() == 0 || occurs(lowercase(agent.name), lowercase(filter)) || occurs(
        lowercase(agent.description),
        lowercase(filter),
    )
}

/// Those of the first `count` agents that match what was typed, as indices.
pub open spec fn matching(agents: Seq<NewAgentView>, filter: Seq<char>, count: int) -> Seq<usize>
    decreases count,
{
    if count <= 0 {
        Seq::empty()
    } else if agent_matches(agents[count - 1], filter) {
        matching(agents, filter, count - 1).push((count - 1) as usize)
    } else {
        matching(agents, filter, count - 1)
    }
}

/// With nothing typed every agent is listed, in its place.
pub proof fn nothing_typed_lists_every_agent(agents: Seq<NewAgentView>, count: int)
    requires
        0 <= count <= agents.len(),
    ensures
        matching(agents, Seq::empty(), count) == Seq::new(count as nat, |i: int| i as usize),
    decreases count,
{
    if count > 0 {
        nothing_typed_lists_every_agent(agents, count - 1);
        assert(Seq::new((count - 1) as nat, |i: int| i as usize).push((count - 1) as usize)
            =~= Seq::new(count as nat, |i: int| i as usize));
    } else {
        assert(Seq::new(0, |i: int| i as usize) =~= Seq::<usize>::empty());
    }
}

/// The matching agents are in order, each once, and they are agents that match.
pub proof fn matches_are_agents(agents: Seq<NewAgentView>, filter: Seq<char>, count: int)
    requires
        0 <= count <= agents.len() <= usize::MAX,
    ensures
        matching(agents, filter, count).len() <= count,
        forall|k: int|
            0 <= k < matching(agents, filter, count).len() ==> {
                &&& (#[trigger] matching(agents, filter, count)[k]) < count
                &&& agent_matches(agents[matching(agents, filter, count)[k] as int], filter)
            },
        forall|j: int, k: int|
            0 <= j < k < matching(agents, filter, count).len() ==> (#[trigger] matching(
                agents,
                filter,
                count,
            )[j]) < (#[trigger] matching(agents, filter, count)[k]),
    decreases count,
{
    if count > 0 {
        matches_are_agents(agents, filter, count - 1);
    }
}

/// A selection kept inside a list of `len` rows.
pub open spec fn clamped(selected: usize, len: nat) -> usize {
    if selected < len {
        selected
    } else if len == 0 {
        0
    } else {
        (len - 1) as usize
    }
}

/// The row that the last launched agent is on, where it is still offered; `at`
/// otherwise.
pub open spec fn reopened_at(
    agents: Seq<NewAgentView>,
    last: Option<Seq<char>>,
    at: usize,
    from: int,
) -> usize
    decreases agents.len() - from,
{
    match last {
        None => at,
        Some(name) => if from < 0 || from >= agents.len() {
            at
        } else if agents[from].name == name {
            from as usize
        } else {
            reopened_at(agents, last, at, from + 1)
        },
    }
}

/// The rows as an agent list shows them: those found, the bundled ones that are
/// new, all in name order.
pub open spec fn catalog_rows(found: Seq<NewAgentView>, bundled: Seq<BundledEntry>) -> Seq<
    NewAgentView,
> {
    let all = with_bundled(found, bundled, bundled.len() as int);
    name_order(all, all.len() as int)
}

impl Dashboard {
    /// The agents that match what was typed.
    pub open spec fn matching_agents(self) -> Seq<usize> {
        matching(
            views(self.new_run.agents@),
            self.new_run.filter@,
            self.new_run.agents@.len() as int,
        )
    }

    /// The agent the picker is on.
    pub open spec fn chosen_agent(self) -> Option<NewRunAgent> {
        let visible = self.matching_agents();
        if self.new_run.selected < visible.len() && visible[self.new_run.selected as int]
            < self.new_run.agents@.len() {
            Some(self.new_run.agents@[visible[self.new_run.selected as int] as int])
        } else {
            None
        }
    }

    /// The name of the agent the picker is on; nothing where it is on none.
    pub open spec fn chosen_name(self) -> Seq<char> {
        match self.chosen_agent() {
            Some(agent) => agent.name@,
            None => Seq::empty(),
        }
    }

    /// Rebuild the agent list: the agents `found`, and the bundled blueprints,
    /// which say so when they are not installed yet.
    pub fn refresh_new_run_agents(&mut self, found: Vec<NewRunAgent>, bundled: &Vec<BundledEntry>)
        ensures
            *final(self) == (Dashboard {
                new_run: NewRun {
                    agents: final(self).new_run.agents,
                    selected: final(self).new_run.selected,
                    ..old(self).new_run
                },
                ..*old(self)
            }),
            views(final(self).new_run.agents@) == catalog_rows(views(found@), bundled@),
            final(self).new_run.selected == clamped(
                old(self).new_run.selected,
                final(self).matching_agents().len(),
            ),
    {
        let all = add_bundled(found, bundled);
        self.new_run.agents = sort_agents(&all);
        self.clamp_new_run_selection();
    }

    /// The agents that match the filter, in display order, as indices.
    pub fn filtered_new_run_agents(&self) -> (visible: Vec<usize>)
        ensures
            visible@ == self.matching_agents(),
    {
        let query = to_lowercase(self.new_run.filter.as_str());
        let mut visible: Vec<usize> = Vec::new();
        let mut i: usize = 0;
        while i < self.new_run.agents.len()
            invariant
                i <= self.new_run.agents@.len(),
                query@ == lowercase(self.new_run.filter@),
                self.new_run.filter@.len() == 0 ==> query@.len() == 0,
                visible@ == matching(
                    views(self.new_run.agents@),
                    self.new_run.filter@,
                    i as int,
                ),
            decreases self.new_run.agents.len() - i,
        {
            let agent = &self.new_run.agents[i];
            assert(views(self.new_run.agents@)[i as int] == agent@);
            let name = to_lowercase(agent.name.as_str());
            let description = to_lowercase(agent.description.as_str());
            if query.as_str().is_empty() || contains(name.as_str(), query.as_str()) || contains(
                description.as_str(),
                query.as_str(),
            ) {
                visible.push(i);
            }
            i = i + 1;
        }
        visible
    }

    /// The agent the picker is on, if the filtered list is not empty.
    pub fn new_run_selected_agent(&self) -> (agent: Option<&NewRunAgent>)
        ensures
            match agent {
                Some(found) => self.chosen_agent() == Some(*found),
                None => self.chosen_agent() is None,
            },
    {
        let visible = self.filtered_new_run_agents();
        if self.new_run.selected >= visible.len() {
            return None;
        }
        let index: usize = visible[self.new_run.selected];
        if index >= self.new_run.agents.len() {
            return None;
        }
        Some(&self.new_run.agents[index])
    }

    /// Keep the selection inside the filtered list.
    pub fn clamp_new_run_selection(&mut self)
        ensures
            *final(self) == (Dashboard {
                new_run: NewRun {
                    selected: clamped(
                        old(self).new_run.selected,
                        old(self).matching_agents().len(),
                    ),
                    ..old(self).new_run
                },
                ..*old(self)
            }),
    {
        let len: usize = self.filtered_new_run_agents().len();
        if self.new_run.selected >= len {
            self.new_run.selected = len.saturating_sub(1);
        }
    }

    /// Put the cursor on the agent last launched from here, when it is still
    /// offered.
    pub fn select_last_launched_agent(&mut self)
        ensures
            *final(self) == (Dashboard {
                new_run: NewRun {
                    selected: reopened_at(
                        views(old(self).new_run.agents@),
                        opt_text(old(self).new_run.last_launched_agent),
                        old(self).new_run.selected,
                        0,
                    ),
                    ..old(self).new_run
                },
                ..*old(self)
            }),
    {
        let name = match &self.new_run.last_launched_agent {
            Some(name) => copy_of(name.as_str()),
            None => return,
        };
        let ghost last = opt_text(self.new_run.last_launched_agent);
        let mut i: usize = 0;
        while i < self.new_run.agents.len()
            invariant
                *self == *old(self),
                i <= self.new_run.agents@.len(),
                last == opt_text(self.new_run.last_launched_agent),
                last == Some(name@),
                reopened_at(views(self.new_run.agents@), last, self.new_run.selected, 0)
                    == reopened_at(
                    views(self.new_run.agents@),
                    last,
                    self.new_run.selected,
                    i as int,
                ),
            decreases self.new_run.agents.len() - i,
        {
            assert(views(self.new_run.agents@)[i as int] == self.new_run.agents@[i as int]@);
            if same(self.new_run.agents[i].name.as_str(), name.as_str()) {
                self.new_run.selected = i;
                return;
            }
            i = i + 1;
        }
    }
}

/// A selection that was kept inside a list is on one of its rows, where it has
/// any, and one that was inside stays where it is.
pub proof fn a_clamped_selection_is_on_a_row(selected: usize, len: nat)
    ensures
        len > 0 ==> clamped(selected, len) < len,
        selected < len ==> clamped(selected, len) == selected,
        clamped(clamped(selected, len), len) == clamped(selected, len),
{
}

/// Whether an agent of this name is on offer.
fn is_offered(agents: &Vec<NewRunAgent>, name: &str) -> (there: bool)
    ensures
        there == offers(views(agents@), name@),
{
    let mut i: usize = 0;
    while i < agents.len()
        invariant
            i <= agents@.len(),
            forall|j: int| 0 <= j < i ==> (#[trigger] views(agents@)[j]).name != name@,
        decreases agents.len() - i,
    {
        assert(views(agents@)[i as int] == agents@[i as int]@);
        if same(agents[i].name.as_str(), name) {
            return true;
        }
        i = i + 1;
    }
    false
}

/// The agents found, and the bundled blueprints that none of them is named like.
fn add_bundled(found: Vec<NewRunAgent>, bundled: &Vec<BundledEntry>) -> (all: Vec<NewRunAgent>)
    ensures
        views(all@) == with_bundled(views(found@), bundled@, bundled@.len() as int),
{
    let ghost rows = views(found@);
    let mut all = found;
    let mut i: usize = 0;
    while i < bundled.len()
        invariant
            i <= bundled@.len(),
            views(all@) == with_bundled(rows, bundled@, i as int),
        decreases bundled.len() - i,
    {
        let entry = &bundled[i];
        if !is_offered(&all, entry.name.as_str()) {
            let agent = NewRunAgent {
                name: copy_of(entry.name.as_str()),
                source: copy_of("bundled"),
                description: cat3("v", entry.version.as_str(), " - install with `lev setup`"),
                path: copy_of(entry.name.as_str()),
            };
            assert(agent@ =~= bundled_row(*entry));
            all.push(agent);
        }
        i = i + 1;
    }
    all
}

/// The agents in name order, those of one name as they came.
fn sort_agents(agents: &Vec<NewRunAgent>) -> (sorted: Vec<NewRunAgent>)
    ensures
        views(sorted@) == name_order(views(agents@), agents@.len() as int),
{
    let mut sorted: Vec<NewRunAgent> = Vec::new();
    let mut i: usize = 0;
    while i < agents.len()
        invariant
            i <= agents@.len(),
            views(sorted@) == name_order(views(agents@), i as int),
        decreases agents.len() - i,
    {
        let agent = copy_agent(&agents[i]);
        let ghost before = views(sorted@);
        assert(views(agents@)[i as int] == agent@);
        let mut place: usize = sorted.len();
        assert(before.take(place as int) =~= before);
        while place > 0 && !at_most(sorted[place - 1].name.as_str(), agent.name.as_str())
            invariant
                place <= sorted@.len(),
                before == views(sorted@),
                place_by(before, by_name(), agent.name@) == place_by(
                    before.take(place as int),
                    by_name(),
                    agent.name@,
                ),
            decreases place,
        {
            proof {
                assert(before.take(place as int).drop_last() =~= before.take(place - 1));
                assert(before.take(place as int).last() == sorted@[place - 1]@);
            }
            place = place - 1;
        }
        proof {
            assert(place > 0 ==> before.take(place as int).last() == sorted@[place - 1]@);
            assert(place_by(before, by_name(), agent.name@) == place);
        }
        sorted.insert(place, agent);
        assert(views(sorted@) =~= before.insert(place as int, agent@));
        i = i + 1;
    }
    sorted
}

// ── Opening and closing ──────────────────────────────────────────────────────

/// The screen as it opens, but for the agents, the cursor and the task.
pub open spec fn opened(
    before: Dashboard,
    after: Dashboard,
    profiles: Vec<YoloProfile>,
    files: Vec<String>,
) -> Dashboard {
    Dashboard {
        new_run: NewRun {
            open: true,
            focus: NewRunPane::Agents,
            filter: after.new_run.filter,
            selected: after.new_run.selected,
            agents: after.new_run.agents,
            task: after.new_run.task,
            ..before.new_run
        },
        unattended: Unattended { on: false, profile: None, profiles },
        file_ref: FileRef { files, open: false, query: after.file_ref.query, selected: 0 },
        inputs: Inputs {
            slots: after.inputs.slots,
            key: after.inputs.key,
            ..before.inputs
        },
        ..before
    }
}

impl Dashboard {
    /// Open the screen with the agents `found`, the bundled blueprints, the
    /// unattended profiles as their file stands now, and the working directory's
    /// files: from an empty task, on the agent last launched. Unattended is off
    /// every time the screen opens. Says what the slots of the Inputs pane need.
    pub fn open_new_run_screen(
        &mut self,
        found: Vec<NewRunAgent>,
        bundled: &Vec<BundledEntry>,
        profiles: Vec<YoloProfile>,
        files: Vec<String>,
    ) -> (step: InputsStep)
        ensures
            *final(self) == opened(*old(self), *final(self), profiles, files),
            final(self).new_run.filter@ == Seq::<char>::empty(),
            final(self).new_run.task.before@ == Seq::<char>::empty(),
            final(self).new_run.task.after@ == Seq::<char>::empty(),
            final(self).file_ref.query@ == Seq::<char>::empty(),
            views(final(self).new_run.agents@) == catalog_rows(views(found@), bundled@),
            final(self).new_run.selected == reopened_at(
                catalog_rows(views(found@), bundled@),
                opt_text(old(self).new_run.last_launched_agent),
                0,
                0,
            ),
            final(self).inputs.key@ == Seq::<char>::empty(),
            follows(*final(self), step),
            final(self).chosen_agent() is None ==> final(self).inputs.slots@ == Seq::<
                crate::new_run_inputs::NewRunInput,
            >::empty(),
            final(self).chosen_agent() is Some ==> final(self).inputs.slots
                == old(self).inputs.slots,
    {
        self.new_run.open = true;
        self.new_run.focus = NewRunPane::Agents;
        self.new_run.filter.clear();
        self.new_run.selected = 0;
        self.new_run.task = TextArea::empty();
        self.unattended.on = false;
        self.unattended.profile = None;
        self.unattended.profiles = profiles;
        self.close_file_ref();
        self.refresh_new_run_agents(found, bundled);
        self.select_last_launched_agent();
        self.file_ref.files = files;
        self.inputs.key.clear();
        self.sync_new_run_inputs()
    }

    /// Close the screen, discarding whatever was typed.
    pub fn close_new_run_screen(&mut self)
        ensures
            *final(self) == closed_screen(*old(self), *final(self)),
            final(self).file_ref.query@ == Seq::<char>::empty(),
    {
        self.new_run.open = false;
        self.new_run.preview = false;
        self.close_file_ref();
    }
}

/// The screen closed, and with it the preview and the completion.
pub open spec fn closed_screen(before: Dashboard, after: Dashboard) -> Dashboard {
    Dashboard {
        new_run: NewRun { open: false, preview: false, ..before.new_run },
        file_ref: FileRef {
            open: false,
            query: after.file_ref.query,
            selected: 0,
            ..before.file_ref
        },
        ..before
    }
}

// ── Starting a run ───────────────────────────────────────────────────────────

/// How the files that go with a run are counted.
pub open spec fn files_counted(count: nat) -> Seq<char> {
    if count == 0 {
        Seq::empty()
    } else if count == 1 {
        " with 1 file"@
    } else {
        " with "@ + decimal(count) + " files"@
    }
}

/// How a run is started, in words.
pub open spec fn manner(on: bool, profile: Option<Seq<char>>) -> Seq<char> {
    if on {
        match profile {
            Some(name) => " unattended under '"@ + name + "'"@,
            None => " unattended"@,
        }
    } else {
        Seq::empty()
    }
}

/// How a start is announced: an unattended one as the warning that the switch
/// gave, an attended one as work in flight.
pub open spec fn start_level(on: bool) -> ToastLevel {
    if on {
        ToastLevel::Warning
    } else {
        ToastLevel::Progress
    }
}

/// The warnings for the first `count` tokens that named no file.
pub open spec fn token_warnings(tokens: Seq<Seq<char>>, count: int) -> Seq<ToastView>
    decreases count,
{
    if count <= 0 {
        Seq::empty()
    } else {
        token_warnings(tokens, count - 1).push(
            notice(
                "'@"@ + tokens[count - 1]
                    + "' names no file in the working directory; sent as text"@,
                ToastLevel::Warning,
            ),
        )
    }
}

/// Why a run does not start, if it does not.
pub open spec fn start_refused(
    dash: Dashboard,
    read: Result<InlineParts, String>,
    inputs: Result<ResolvedInputs, String>,
) -> Option<Seq<char>> {
    if dash.chosen_agent() is None {
        Some("Pick an agent blueprint first"@)
    } else if trimmed(dash.new_run.task.whole()).len() == 0 {
        Some("Write a task first"@)
    } else {
        match read {
            Err(reason) => Some("Could not attach a file: "@ + reason@),
            Ok(_) => match inputs {
                Err(reason) => Some("Could not read an input: "@ + reason@),
                Ok(_) => None,
            },
        }
    }
}

/// The run that is handed to the background.
pub open spec fn spawn_of(
    dash: Dashboard,
    agent: NewRunAgent,
    read: InlineParts,
    inputs: ResolvedInputs,
) -> SpawnView {
    SpawnView {
        agent_path: agent.path@,
        task: read.text@,
        workdir: dash.new_run.workdir@,
        yolo: dash.unattended.on,
        yolo_profile: opt_text(dash.unattended.profile),
        parts: views(read.parts@) + views(inputs.parts@),
        regions: views(inputs.regions@),
    }
}

/// What a start is announced as.
pub open spec fn start_notice(dash: Dashboard, name: Seq<char>, files: nat) -> ToastView {
    notice(
        "Starting '"@ + name + "'"@ + manner(dash.unattended.on, opt_text(dash.unattended.profile))
            + files_counted(files) + "…"@,
        start_level(dash.unattended.on),
    )
}

impl Dashboard {
    /// The task that a start would send, trimmed, where an agent is selected and
    /// a task written: the files it names are to be read before the start.
    pub fn task_to_read(&self) -> (task: Option<String>)
        ensures
            match task {
                Some(text) => self.chosen_agent() is Some && text@ == trimmed(
                    self.new_run.task.whole(),
                ) && text@.len() > 0,
                None => self.chosen_agent() is None || trimmed(self.new_run.task.whole()).len()
                    == 0,
            },
    {
        match self.new_run_selected_agent() {
            None => None,
            Some(_) => {
                let text = self.new_run.task.text();
                let task = trim(text.as_str());
                if task.as_str().is_empty() {
                    None
                } else {
                    Some(task)
                }
            },
        }
    }

    /// Hand the run to the background and close the screen. `read` is what the
    /// files named in the trimmed task came to, `inputs` what the slots did; where
    /// either could not be read, or there is no agent or no task, a toast says so
    /// and nothing else happens.
    pub fn submit_new_run(
        &mut self,
        read: Result<InlineParts, String>,
        inputs: Result<ResolvedInputs, String>,
    )
        ensures
            match start_refused(*old(self), read, inputs) {
                Some(reason) => *final(self) == (Dashboard {
                    notes: Notes { toasts: final(self).notes.toasts, ..old(self).notes },
                    ..*old(self)
                }) && views(final(self).notes.toasts@) == views(old(self).notes.toasts@).push(
                    notice(reason, ToastLevel::Error),
                ),
                None => started(
                    *old(self),
                    *final(self),
                    old(self).chosen_agent()->0,
                    read->Ok_0,
                    inputs->Ok_0,
                ),
            },
    {
        let (name, path) = match self.new_run_selected_agent() {
            Some(agent) => (copy_of(agent.name.as_str()), copy_of(agent.path.as_str())),
            None => {
                self.toast(copy_of("Pick an agent blueprint first"), ToastLevel::Error);
                return;
            },
        };
        let text = self.new_run.task.text();
        if trim(text.as_str()).as_str().is_empty() {
            self.toast(copy_of("Write a task first"), ToastLevel::Error);
            return;
        }
        let read = match read {
            Ok(read) => read,
            Err(reason) => {
                self.toast(cat2("Could not attach a file: ", reason.as_str()), ToastLevel::Error);
                return;
            },
        };
        let inputs = match inputs {
            Ok(inputs) => inputs,
            Err(reason) => {
                self.toast(cat2("Could not read an input: ", reason.as_str()), ToastLevel::Error);
                return;
            },
        };
        self.start_run(name, path, read, inputs);
    }

    /// Hand the run to the background and close the screen.
    fn start_run(&mut self, name: String, path: String, read: InlineParts, inputs: ResolvedInputs)
        requires
            old(self).chosen_agent() matches Some(agent) && name@ == agent.name@ && path@
                == agent.path@,
        ensures
            started(*old(self), *final(self), old(self).chosen_agent()->0, read, inputs),
    {
        let ghost agent = self.chosen_agent()->0;
        let ghost read_parts = views(read.parts@);
        let ghost read_unresolved = views(read.unresolved@);
        let InlineParts { text, mut parts, mut unresolved } = read;
        let ResolvedInputs { regions, parts: mut more_parts, unresolved: mut more } = inputs;
        parts.append(&mut more_parts);
        unresolved.append(&mut more);
        self.warn_of_tokens(&unresolved);
        let files = match parts.len() {
            0 => String::new(),
            1 => copy_of(" with 1 file"),
            n => {
                let count = count_text(n);
                cat3(" with ", count.as_str(), " files")
            },
        };
        let command = SpawnCommand {
            agent_path: path,
            task: text,
            workdir: copy_of(self.new_run.workdir.as_str()),
            yolo: self.unattended.on,
            yolo_profile: copy_opt(&self.unattended.profile),
            parts,
            regions,
        };
        assert(command@ =~= spawn_of(*old(self), agent, read, inputs));
        self.lanes.spawn_commands.push(command);
        let how = if self.unattended.on {
            match &self.unattended.profile {
                Some(profile) => cat3(" unattended under '", profile.as_str(), "'"),
                None => copy_of(" unattended"),
            }
        } else {
            String::new()
        };
        let level = if self.unattended.on {
            ToastLevel::Warning
        } else {
            ToastLevel::Progress
        };
        let mut message = cat4("Starting '", name.as_str(), "'", how.as_str());
        message.append(files.as_str());
        message.append("…");
        self.toast(message, level);
        self.add_log(cat2("run requested: ", name.as_str()));
        self.new_run.last_launched_agent = Some(name);
        self.save_ui_state();
        self.close_new_run_screen();
    }

    /// Warn of each token that named no file.
    fn warn_of_tokens(&mut self, tokens: &Vec<String>)
        ensures
            *final(self) == (Dashboard {
                notes: Notes { toasts: final(self).notes.toasts, ..old(self).notes },
                ..*old(self)
            }),
            views(final(self).notes.toasts@) == views(old(self).notes.toasts@) + token_warnings(
                views(tokens@),
                tokens@.len() as int,
            ),
    {
        let mut i: usize = 0;
        while i < tokens.len()
            invariant
                i <= tokens@.len(),
                *self == (Dashboard {
                    notes: Notes { toasts: self.notes.toasts, ..old(self).notes },
                    ..*old(self)
                }),
                views(self.notes.toasts@) == views(old(self).notes.toasts@) + token_warnings(
                    views(tokens@),
                    i as int,
                ),
            decreases tokens.len() - i,
        {
            assert(views(tokens@)[i as int] == tokens@[i as int]@);
            self.toast(
                cat3(
                    "'@",
                    tokens[i].as_str(),
                    "' names no file in the working directory; sent as text",
                ),
                ToastLevel::Warning,
            );
            i = i + 1;
        }
    }
}

/// A run was handed to the background: what was said, what is remembered, and the
/// screen closed.
pub open spec fn started(
    before: Dashboard,
    after: Dashboard,
    agent: NewRunAgent,
    read: InlineParts,
    inputs: ResolvedInputs,
) -> bool {
    let unresolved = views(read.unresolved@) + views(inputs.unresolved@);
    let files = read.parts@.len() + inputs.parts@.len();
    &&& after == (Dashboard {
        lanes: Lanes { spawn_commands: after.lanes.spawn_commands, ..before.lanes },
        notes: Notes { toasts: after.notes.toasts, log: after.notes.log, ..before.notes },
        new_run: NewRun {
            open: false,
            preview: false,
            last_launched_agent: after.new_run.last_launched_agent,
            ui_state_dirty: true,
            ..before.new_run
        },
        file_ref: FileRef {
            open: false,
            query: after.file_ref.query,
            selected: 0,
            ..before.file_ref
        },
        ..before
    })
    &&& views(after.lanes.spawn_commands@) == views(before.lanes.spawn_commands@).push(
        spawn_of(before, agent, read, inputs),
    )
    &&& views(after.notes.toasts@) == (views(before.notes.toasts@) + token_warnings(
        unresolved,
        unresolved.len() as int,
    )).push(start_notice(before, agent.name@, files))
    &&& views(after.notes.log@) == views(before.notes.log@).push(
        logged(before.notes.log_stamp@, "run requested: "@ + agent.name@),
    )
    &&& opt_text(after.new_run.last_launched_agent) == Some(agent.name@)
    &&& after.file_ref.query@ == Seq::<char>::empty()
}

// ── What came back ───────────────────────────────────────────────────────────

/// How an outcome is announced.
pub open spec fn outcome_notice(outcome: SpawnOutcome) -> ToastView {
    notice(
        outcome.message@,
        if outcome.ok {
            ToastLevel::Info
        } else {
            ToastLevel::Error
        },
    )
}

/// The toasts of the outcomes.
pub open spec fn outcome_toasts(outcomes: Seq<SpawnOutcome>) -> Seq<ToastView> {
    outcomes.map_values(|outcome: SpawnOutcome| outcome_notice(outcome))
}

/// The log lines of the outcomes.
pub open spec fn outcome_log(outcomes: Seq<SpawnOutcome>, stamp: Seq<char>) -> Seq<LogView> {
    outcomes.map_values(|outcome: SpawnOutcome| logged(stamp, outcome.message@))
}

/// The run to open after the first `count` outcomes: the last that started, for
/// as long as the dashboard waits; else the one that was waited for.
pub open spec fn run_to_open(
    outcomes: Seq<SpawnOutcome>,
    waiting: Option<(Seq<char>, u32)>,
    count: int,
) -> Option<(Seq<char>, u32)>
    decreases count,
{
    if count <= 0 {
        waiting
    } else {
        match outcomes[count - 1].run_id {
            Some(id) => Some((id@, OPEN_RUN_TICKS)),
            None => run_to_open(outcomes, waiting, count - 1),
        }
    }
}

/// A run waited for, through its view.
pub open spec fn waited_for(pending: Option<(String, u32)>) -> Option<(Seq<char>, u32)> {
    match pending {
        Some((id, ticks)) => Some((id@, ticks)),
        None => None,
    }
}

/// The row on screen that a run is on, from `from` on.
pub open spec fn row_on_screen(runs: RunList, id: Seq<char>, from: int) -> Option<int>
    decreases runs.display_indices@.len() - from,
{
    let rows = runs.display_indices@;
    if from < 0 || from >= rows.len() {
        None
    } else if rows[from] < runs.agents@.len() && runs.agents@[rows[from] as int].id@ == id {
        Some(from)
    } else {
        row_on_screen(runs, id, from + 1)
    }
}

impl Dashboard {
    /// Hand in an outcome, as the background lane does.
    pub fn inject_spawn_outcome_for_test(&mut self, outcome: SpawnOutcome)
        ensures
            *final(self) == (Dashboard {
                lanes: Lanes { spawn_outcomes: final(self).lanes.spawn_outcomes, ..old(self).lanes },
                ..*old(self)
            }),
            final(self).lanes.spawn_outcomes@ == old(self).lanes.spawn_outcomes@.push(outcome),
    {
        self.lanes.spawn_outcomes.push(outcome);
    }

    /// Turn what came back from the background into toasts and log lines, in
    /// order. A run that started is to be opened once it is listed.
    pub fn drain_spawn_outcomes(&mut self)
        ensures
            *final(self) == (Dashboard {
                lanes: Lanes {
                    spawn_outcomes: final(self).lanes.spawn_outcomes,
                    pending_open_run: final(self).lanes.pending_open_run,
                    ..old(self).lanes
                },
                notes: Notes {
                    toasts: final(self).notes.toasts,
                    log: final(self).notes.log,
                    ..old(self).notes
                },
                ..*old(self)
            }),
            final(self).lanes.spawn_outcomes@ == Seq::<SpawnOutcome>::empty(),
            views(final(self).notes.toasts@) == views(old(self).notes.toasts@) + outcome_toasts(
                old(self).lanes.spawn_outcomes@,
            ),
            views(final(self).notes.log@) == views(old(self).notes.log@) + outcome_log(
                old(self).lanes.spawn_outcomes@,
                old(self).notes.log_stamp@,
            ),
            waited_for(final(self).lanes.pending_open_run) == run_to_open(
                old(self).lanes.spawn_outcomes@,
                waited_for(old(self).lanes.pending_open_run),
                old(self).lanes.spawn_outcomes@.len() as int,
            ),
    {
        let ghost all = self.lanes.spawn_outcomes@;
        let ghost mut done: int = 0;
        assert(all.skip(0) =~= all);
        assert(outcome_toasts(all.take(0)) =~= Seq::empty());
        assert(outcome_log(all.take(0), self.notes.log_stamp@) =~= Seq::empty());
        while self.lanes.spawn_outcomes.len() > 0
            invariant
                all == old(self).lanes.spawn_outcomes@,
                0 <= done <= all.len(),
                self.lanes.spawn_outcomes@ == all.skip(done),
                *self == (Dashboard {
                    lanes: Lanes {
                        spawn_outcomes: self.lanes.spawn_outcomes,
                        pending_open_run: self.lanes.pending_open_run,
                        ..old(self).lanes
                    },
                    notes: Notes {
                        toasts: self.notes.toasts,
                        log: self.notes.log,
                        ..old(self).notes
                    },
                    ..*old(self)
                }),
                views(self.notes.toasts@) == views(old(self).notes.toasts@) + outcome_toasts(
                    all.take(done),
                ),
                views(self.notes.log@) == views(old(self).notes.log@) + outcome_log(
                    all.take(done),
                    old(self).notes.log_stamp@,
                ),
                waited_for(self.lanes.pending_open_run) == run_to_open(
                    all,
                    waited_for(old(self).lanes.pending_open_run),
                    done,
                ),
            decreases self.lanes.spawn_outcomes.len(),
        {
            let outcome = self.lanes.spawn_outcomes.remove(0);
            proof {
                let stamp = old(self).notes.log_stamp@;
                assert(outcome == all[done]);
                assert(self.lanes.spawn_outcomes@ =~= all.skip(done + 1));
                assert(all.take(done + 1) =~= all.take(done).push(outcome));
                assert(outcome_toasts(all.take(done + 1)) =~= outcome_toasts(all.take(done)).push(
                    outcome_notice(outcome),
                ));
                assert(outcome_log(all.take(done + 1), stamp) =~= outcome_log(
                    all.take(done),
                    stamp,
                ).push(logged(stamp, outcome.message@)));
                done = done + 1;
            }
            let SpawnOutcome { message, ok, run_id } = outcome;
            let level = if ok {
                ToastLevel::Info
            } else {
                ToastLevel::Error
            };
            self.add_log(copy_of(message.as_str()));
            self.toast(message, level);
            match run_id {
                Some(id) => {
                    self.lanes.pending_open_run = Some((id, OPEN_RUN_TICKS));
                },
                None => {},
            }
        }
        assert(all.take(done) =~= all);
        assert(self.lanes.spawn_outcomes@ =~= Seq::empty());
    }

    /// Open the page of a run started from this screen, once it is listed, for a
    /// bounded number of ticks, and only from the list: somewhere else means that
    /// the user went there.
    pub fn open_pending_run(&mut self)
        ensures
            match waited_for(old(self).lanes.pending_open_run) {
                None => *final(self) == *old(self),
                Some((id, ticks)) => if old(self).screens.detail_view
                    || old(self).screens.mcp_screen || old(self).new_run.open {
                    *final(self) == (Dashboard {
                        lanes: Lanes { pending_open_run: None, ..old(self).lanes },
                        ..*old(self)
                    })
                } else {
                    match row_on_screen(old(self).runs, id, 0) {
                        Some(row) => *final(self) == (Dashboard {
                            lanes: Lanes { pending_open_run: None, ..old(self).lanes },
                            runs: RunList {
                                selected: row as usize,
                                table_selected: Some(row as usize),
                                ..old(self).runs
                            },
                            screens: Screens { detail_view: true, ..old(self).screens },
                            ..*old(self)
                        }),
                        None => *final(self) == (Dashboard {
                            lanes: Lanes {
                                pending_open_run: final(self).lanes.pending_open_run,
                                ..old(self).lanes
                            },
                            ..*old(self)
                        }) && waited_for(final(self).lanes.pending_open_run) == if ticks == 0 {
                            None
                        } else {
                            Some((id, (ticks - 1) as u32))
                        },
                    }
                },
            },
    {
        let (run_id, ticks) = match self.lanes.pending_open_run.take() {
            Some(pending) => pending,
            None => return,
        };
        if self.screens.detail_view || self.screens.mcp_screen || self.new_run.open {
            return;
        }
        match find_row(&self.runs, run_id.as_str()) {
            Some(row) => {
                self.runs.selected = row;
                self.runs.table_selected = Some(row);
                self.open_detail_view();
            },
            None => {
                if ticks > 0 {
                    self.lanes.pending_open_run = Some((run_id, ticks - 1));
                }
            },
        }
    }
}

/// The row on screen that a run is on.
fn find_row(runs: &RunList, id: &str) -> (row: Option<usize>)
    ensures
        match row {
            Some(at) => row_on_screen(*runs, id@, 0) == Some(at as int),
            None => row_on_screen(*runs, id@, 0) is None,
        },
{
    let mut i: usize = 0;
    while i < runs.display_indices.len()
        invariant
            i <= runs.display_indices@.len(),
            row_on_screen(*runs, id@, 0) == row_on_screen(*runs, id@, i as int),
        decreases runs.display_indices.len() - i,
    {
        let index: usize = runs.display_indices[i];
        if index < runs.agents.len() && same(runs.agents[index].id.as_str(), id) {
            return Some(i);
        }
        i = i + 1;
    }
    None
}

/// What the background lane heard of one start.
#[derive(Clone, Debug, PartialEq, Eq)]
pub enum SpawnReply {
    /// The blueprint did not resolve, and why.
    Unresolved(String),
    /// The daemon started the run with this id.
    Spawned(String),
    /// The daemon refused it, and why.
    Refused(String),
    /// The daemon answered with something else.
    Unexpected(String),
    /// The daemon could not be reached, and why.
    Unreachable(String),
}

/// What a reply reads as.
pub open spec fn reply_text(agent_path: Seq<char>, reply: SpawnReply) -> Seq<char> {
    match reply {
        SpawnReply::Unresolved(reason) => "Could not start '"@ + agent_path + "': "@ + reason@,
        SpawnReply::Spawned(id) => "Started "@ + id@,
        SpawnReply::Refused(message) => "The daemon refused the run: "@ + message@,
        SpawnReply::Unexpected(answer) => "Unexpected daemon response to spawn: "@ + answer@,
        SpawnReply::Unreachable(reason) => "Could not reach the daemon: "@ + reason@,
    }
}

/// What one start came to.
pub fn run_spawn(agent_path: &str, reply: SpawnReply) -> (outcome: SpawnOutcome)
    ensures
        outcome.message@ == reply_text(agent_path@, reply),
        outcome.ok == reply is Spawned,
        opt_text(outcome.run_id) == match reply {
            SpawnReply::Spawned(id) => Some(id@),
            _ => None,
        },
{
    match reply {
        SpawnReply::Unresolved(reason) => SpawnOutcome {
            message: cat4("Could not start '", agent_path, "': ", reason.as_str()),
            ok: false,
            run_id: None,
        },
        SpawnReply::Spawned(id) => SpawnOutcome {
            message: cat2("Started ", id.as_str()),
            ok: true,
            run_id: Some(id),
        },
        SpawnReply::Refused(message) => SpawnOutcome {
            message: cat2("The daemon refused the run: ", message.as_str()),
            ok: false,
            run_id: None,
        },
        SpawnReply::Unexpected(answer) => SpawnOutcome {
            message: cat2("Unexpected daemon response to spawn: ", answer.as_str()),
            ok: false,
            run_id: None,
        },
        SpawnReply::Unreachable(reason) => SpawnOutcome {
            message: cat2("Could not reach the daemon: ", reason.as_str()),
            ok: false,
            run_id: None,
        },
    }
}

} // verus!
