//! One tick's reconciliation of the run list with the runs directory.

use crate::outside::{share, share_opt};
use crate::run_loader::asked;
use crate::state::{listed, toasted, Dashboard, Feed, Notes, RunList};
use crate::text::{
    among, cat2, cat3, cat4, copy_all, copy_of, copy_opt, has_text, opt_text, same, same_opt,
    truncate, truncated,
};
use crate::types::{
    copy_request, copy_wait, opt_view, AgentDisplayStatus, AgentView, ContextSnapshot,
    DashboardAgent, InteractionRequest, RequestView, RunEntry, RunMeta, RunSnapshot, RunStatus,
    StatusView, Toast, ToastLevel, ToastView,
};
use crate::views::{group_views, views};
use std::sync::Arc;
use vstd::prelude::*;

verus! {

broadcast use group_views;

/// How many ticks a toast about a failed run stays.
pub const FAILURE_TICKS: u32 = 50;

/// How many ticks a toast about any other change of a run stays.
pub const CHANGE_TICKS: u32 = 35;

/// What a pass over the runs directory is read against.
pub struct Reading {
    pub prompts: Seq<(String, InteractionRequest)>,
    pub abandoned: Seq<Seq<char>>,
    pub now: i64,
    /// Whether the list had been filled before.
    pub settled: bool,
    pub context: Option<(String, Arc<ContextSnapshot>)>,
    /// How many of the rows were there before the pass.
    pub known: int,
}

/// What a pass over the runs directory comes to.
#[verifier::ext_equal]
pub struct Synced {
    pub agents: Seq<AgentView>,
    pub toasts: Seq<ToastView>,
    pub order_changed: bool,
}

/// The open prompt of a run: the first from `from` on that is for it.
pub open spec fn prompt_from(
    prompts: Seq<(String, InteractionRequest)>,
    id: Seq<char>,
    from: int,
) -> Option<RequestView>
    decreases prompts.len() - from,
{
    if from < 0 || from >= prompts.len() {
        None
    } else if prompts[from].0@ == id {
        Some(prompts[from].1@)
    } else {
        prompt_from(prompts, id, from + 1)
    }
}

/// The open prompt of a run.
pub open spec fn prompt_of(
    prompts: Seq<(String, InteractionRequest)>,
    id: Seq<char>,
) -> Option<RequestView> {
    prompt_from(prompts, id, 0)
}

/// The last of the first `count` rows with this id.
pub open spec fn known_at(agents: Seq<AgentView>, id: Seq<char>, count: int) -> Option<int>
    decreases count,
{
    if count <= 0 {
        None
    } else if agents[count - 1].id == id {
        Some(count - 1)
    } else {
        known_at(agents, id, count - 1)
    }
}

/// How a run's row stands: a run that claims to be going waits while a prompt
/// of its is open, and is stale where nothing drives it.
pub open spec fn standing(run: RunMeta, prompt: Option<RequestView>, stale: bool) -> StatusView {
    match run.status {
        RunStatus::Starting | RunStatus::Running => if prompt is Some {
            StatusView::Waiting
        } else if stale {
            StatusView::Stale
        } else {
            StatusView::Active
        },
        RunStatus::WaitingInput => StatusView::Waiting,
        RunStatus::Paused => StatusView::Paused,
        RunStatus::Complete => StatusView::Complete,
        RunStatus::CompleteInteractive => StatusView::CompleteInteractive,
        RunStatus::Error => StatusView::Error(
            match run.error {
                Some(message) => message@,
                None => Seq::empty(),
            },
        ),
        RunStatus::Cancelled => StatusView::Cancelled,
    }
}

/// The moment a run's working clock is read at: an abandoned run's clock
/// stopped when its record was last written.
pub open spec fn clock_moment(run: RunMeta, stale: bool, now: i64) -> i64 {
    if stale {
        run.updated_at
    } else {
        now
    }
}

/// What a toast calls a run: its title, else its blueprint cut to twenty
/// columns.
pub open spec fn called(title: Option<Seq<char>>, blueprint: Seq<char>) -> Seq<char> {
    match title {
        Some(t) => t,
        None => truncated(blueprint, 20),
    }
}

/// The toast for a run that failed.
pub open spec fn failed(name: Seq<char>, message: Seq<char>) -> ToastView {
    let preview = if message.len() == 0 {
        Seq::empty()
    } else {
        ": "@ + truncated(message, 40)
    };
    toasted("Agent run '"@ + name + "' failed"@ + preview, ToastLevel::Error, FAILURE_TICKS)
}

/// The toast for a run that completed.
pub open spec fn completed(name: Seq<char>) -> ToastView {
    toasted("Agent run '"@ + name + "' completed"@, ToastLevel::Info, CHANGE_TICKS)
}

/// The toast for a run that needs input.
pub open spec fn needs_input(name: Seq<char>) -> ToastView {
    toasted("Agent run '"@ + name + "' needs input"@, ToastLevel::Warning, CHANGE_TICKS)
}

/// The toasts for how a row's status moved: one that was going and failed, or
/// was going and completed.
pub open spec fn transition_toasts(agent: AgentView, status: StatusView) -> Seq<ToastView> {
    let name = called(agent.title, agent.blueprint_name);
    if !(agent.status is Active || agent.status is Waiting) {
        Seq::empty()
    } else if status is Error {
        seq![failed(name, status->0)]
    } else if status is Complete || status is CompleteInteractive {
        seq![completed(name)]
    } else {
        Seq::empty()
    }
}

/// Whether the prompt is the one that the person answered last, whose answer
/// the record has not caught up with.
pub open spec fn answered(agent: AgentView, prompt: RequestView) -> bool {
    match agent.last_answered_request_id {
        Some(id) => id.len() > 0 && id == prompt.id,
        None => false,
    }
}

/// The toast for a known row that newly needs input.
pub open spec fn prompt_toasts(
    agent: AgentView,
    run: RunMeta,
    prompt: Option<RequestView>,
) -> Seq<ToastView> {
    match prompt {
        Some(p) => if !answered(agent, p) && agent.waiting_prompt is None && run.status
            == RunStatus::WaitingInput {
            seq![needs_input(called(opt_text(run.title), agent.blueprint_name))]
        } else {
            Seq::empty()
        },
        None => Seq::empty(),
    }
}

/// Whether a known row's place in the list, or whether a filter matches it, may
/// have changed.
pub open spec fn moved(agent: AgentView, run: RunMeta, status: StatusView) -> bool {
    agent.status != status || agent.last_progress_at != run.last_progress_at || agent.title
        != opt_text(run.title)
}

/// The context window that was read for a run.
pub open spec fn context_for(
    context: Option<(String, Arc<ContextSnapshot>)>,
    id: Seq<char>,
) -> Option<Arc<ContextSnapshot>> {
    match context {
        Some((of, window)) => if of@ == id {
            Some(window)
        } else {
            None
        },
        None => None,
    }
}

/// A known row with what a pass read of its run.
pub open spec fn refreshed(agent: AgentView, entry: RunEntry, reading: Reading) -> AgentView {
    let run = *entry.meta;
    let prompt = prompt_of(reading.prompts, run.run_id@);
    let stale = among(reading.abandoned, run.run_id@);
    let moment = clock_moment(run, stale, reading.now);
    let base = AgentView {
        stage: run.current_stage@,
        stage_index: run.stage_index,
        num_stages: run.num_stages,
        iteration: run.iteration,
        tokens_in: run.prompt_tokens,
        tokens_out: run.completion_tokens,
        cached_tokens: run.cached_tokens,
        title: opt_text(run.title),
        clock_now: moment,
        runtime_secs: run.clock.secs(moment) as u64,
        status: standing(run, prompt, stale),
        workdir: run.workdir@,
        context_snapshot: context_for(reading.context, run.run_id@),
        stages: entry.stages,
        last_progress_at: run.last_progress_at,
        wait_reason: opt_view(run.waiting_on),
        ..agent
    };
    match prompt {
        Some(p) => if answered(agent, p) {
            base
        } else {
            AgentView { waiting_prompt: Some(p.prompt), pending_request: Some(p), ..base }
        },
        None => if run.status == RunStatus::CompleteInteractive {
            base
        } else {
            AgentView {
                waiting_prompt: None,
                pending_request: None,
                last_answered_request_id: None,
                ..base
            }
        },
    }
}

/// The row of a run that was not listed.
pub open spec fn admitted(entry: RunEntry, reading: Reading) -> AgentView {
    let run = *entry.meta;
    let prompt = prompt_of(reading.prompts, run.run_id@);
    let stale = among(reading.abandoned, run.run_id@);
    let moment = clock_moment(run, stale, reading.now);
    AgentView {
        id: run.run_id@,
        blueprint_name: run.agent_name@,
        stage: run.current_stage@,
        stage_index: run.stage_index,
        num_stages: run.num_stages,
        status: standing(run, prompt, stale),
        tokens_in: run.prompt_tokens,
        tokens_out: run.completion_tokens,
        cached_tokens: run.cached_tokens,
        iteration: run.iteration,
        broken_scripts: views(run.broken_scripts@),
        waiting_prompt: match prompt {
            Some(p) => Some(p.prompt),
            None => None,
        },
        wait_reason: opt_view(run.waiting_on),
        pending_request: prompt,
        last_answered_request_id: None,
        context_snapshot: context_for(reading.context, run.run_id@),
        stages: entry.stages,
        workdir: run.workdir@,
        task: run.task@,
        title: opt_text(run.title),
        model: opt_text(run.model),
        parent_id: opt_text(run.parent_run_id),
        started_at: run.started_at,
        last_progress_at: run.last_progress_at,
        runtime_secs: run.clock.secs(moment) as u64,
        clock_now: moment,
        graph: entry.graph,
        accepts_messages: true,
    }
}

/// The toasts for a run that was not listed; none on the first pass, which
/// would flood the screen.
pub open spec fn arrival_toasts(entry: RunEntry, reading: Reading) -> Seq<ToastView> {
    let run = *entry.meta;
    let name = called(opt_text(run.title), run.agent_name@);
    if !reading.settled {
        Seq::empty()
    } else if run.status == RunStatus::WaitingInput && prompt_of(reading.prompts, run.run_id@)
        is Some {
        seq![needs_input(name)]
    } else if run.status == RunStatus::Complete || run.status == RunStatus::CompleteInteractive {
        seq![completed(name)]
    } else {
        Seq::empty()
    }
}

/// One run of a pass.
pub open spec fn sync_step(so_far: Synced, entry: RunEntry, reading: Reading) -> Synced {
    let run = *entry.meta;
    let prompt = prompt_of(reading.prompts, run.run_id@);
    let stale = among(reading.abandoned, run.run_id@);
    match known_at(so_far.agents, run.run_id@, reading.known) {
        Some(at) => {
            let agent = so_far.agents[at];
            let status = standing(run, prompt, stale);
            Synced {
                agents: so_far.agents.update(at, refreshed(agent, entry, reading)),
                toasts: so_far.toasts + transition_toasts(agent, status) + prompt_toasts(
                    agent,
                    run,
                    prompt,
                ),
                order_changed: so_far.order_changed || moved(agent, run, status),
            }
        },
        None => Synced {
            agents: so_far.agents.push(admitted(entry, reading)),
            toasts: so_far.toasts + arrival_toasts(entry, reading),
            order_changed: true,
        },
    }
}

/// The deletes that a pass begun at `taken_at` may not have seen.
pub open spec fn standing_deletes(
    deletes: Seq<(String, u64)>,
    taken_at: u64,
) -> Seq<(String, u64)> {
    deletes.filter(|d: (String, u64)| d.1 > taken_at)
}

/// Whether a run is among the deletes.
pub open spec fn is_deleted(deletes: Seq<(String, u64)>, id: Seq<char>) -> bool {
    exists|i: int| 0 <= i < deletes.len() && (#[trigger] deletes[i]).0@ == id
}

/// The first `count` runs of a pass, those deleted since it began left out.
#[verifier::opaque]
pub open spec fn synced(
    before: Synced,
    runs: Seq<RunEntry>,
    deletes: Seq<(String, u64)>,
    reading: Reading,
    count: int,
) -> Synced
    decreases count,
{
    if count <= 0 {
        before
    } else {
        let so_far = synced(before, runs, deletes, reading, count - 1);
        let entry = runs[count - 1];
        if is_deleted(deletes, entry.meta.run_id@) {
            so_far
        } else {
            sync_step(so_far, entry, reading)
        }
    }
}

/// What a pass over the runs directory is read against.
pub open spec fn reading_of(dash: Dashboard, snapshot: RunSnapshot) -> Reading {
    Reading {
        prompts: dash.feed.pending_interactions@,
        abandoned: views(dash.feed.abandoned_runs@),
        now: dash.feed.now,
        settled: dash.feed.initial_sync_done,
        context: snapshot.context,
        known: dash.runs.agents@.len() as int,
    }
}

/// What the list, the toasts and the order come to under a snapshot.
pub open spec fn applied(dash: Dashboard, snapshot: RunSnapshot) -> Synced {
    synced(
        Synced {
            agents: views(dash.runs.agents@),
            toasts: views(dash.notes.toasts@),
            order_changed: !dash.feed.initial_sync_done,
        },
        snapshot.runs@,
        standing_deletes(dash.feed.deleted_runs@, snapshot.taken_at),
        reading_of(dash, snapshot),
        snapshot.runs@.len() as int,
    )
}

// ── The pass ─────────────────────────────────────────────────────────────────

/// The open prompt of a run.
fn find_prompt(prompts: &Vec<(String, InteractionRequest)>, id: &str) -> (found: Option<
    InteractionRequest,
>)
    ensures
        opt_view(found) == prompt_of(prompts@, id@),
{
    let mut i: usize = 0;
    while i < prompts.len()
        invariant
            i <= prompts@.len(),
            prompt_of(prompts@, id@) == prompt_from(prompts@, id@, i as int),
        decreases prompts.len() - i,
    {
        if same(prompts[i].0.as_str(), id) {
            return Some(copy_request(&prompts[i].1));
        }
        i = i + 1;
    }
    None
}

/// The last of the first `count` rows with this id.
fn find_known(agents: &Vec<DashboardAgent>, id: &str, count: usize) -> (at: Option<usize>)
    requires
        count <= agents@.len(),
    ensures
        match at {
            Some(i) => known_at(views(agents@), id@, count as int) == Some(i as int) && i < count,
            None => known_at(views(agents@), id@, count as int) is None,
        },
{
    let mut left: usize = count;
    while left > 0
        invariant
            left <= count <= agents@.len(),
            known_at(views(agents@), id@, count as int) == known_at(
                views(agents@),
                id@,
                left as int,
            ),
        decreases left,
    {
        proof {
            assert(views(agents@)[left as int - 1] == agents@[left as int - 1]@);
        }
        if same(agents[left - 1].id.as_str(), id) {
            return Some(left - 1);
        }
        left = left - 1;
    }
    None
}

/// How a run's row stands.
fn status_of(run: &RunMeta, prompted: bool, stale: bool) -> (status: AgentDisplayStatus)
    ensures
        forall|prompt: Option<RequestView>|
            (prompt is Some) == prompted ==> status@ == #[trigger] standing(*run, prompt, stale),
{
    match run.status {
        RunStatus::Starting | RunStatus::Running => {
            if prompted {
                AgentDisplayStatus::Waiting
            } else if stale {
                AgentDisplayStatus::Stale
            } else {
                AgentDisplayStatus::Active
            }
        },
        RunStatus::WaitingInput => AgentDisplayStatus::Waiting,
        RunStatus::Paused => AgentDisplayStatus::Paused,
        RunStatus::Complete => AgentDisplayStatus::Complete,
        RunStatus::CompleteInteractive => AgentDisplayStatus::CompleteInteractive,
        RunStatus::Error => match &run.error {
            Some(message) => AgentDisplayStatus::Error(copy_of(message.as_str())),
            None => AgentDisplayStatus::Error(String::new()),
        },
        RunStatus::Cancelled => AgentDisplayStatus::Cancelled,
    }
}

/// What a toast calls a run.
fn name_of(title: &Option<String>, blueprint: &str) -> (name: String)
    ensures
        name@ == called(opt_text(*title), blueprint@),
{
    match title {
        Some(t) => copy_of(t.as_str()),
        None => truncate(blueprint, 20),
    }
}

/// The context window that was read for a run.
fn window_for(context: &Option<(String, Arc<ContextSnapshot>)>, id: &str) -> (window: Option<
    Arc<ContextSnapshot>,
>)
    ensures
        window == context_for(*context, id@),
{
    match context {
        Some(read) => if same(read.0.as_str(), id) {
            Some(share(&read.1))
        } else {
            None
        },
        None => None,
    }
}

/// Whether the prompt is the one answered last.
fn was_answered(last: &Option<String>, prompt: &InteractionRequest) -> (was: bool)
    ensures
        was == match opt_text(*last) {
            Some(id) => id.len() > 0 && id == prompt@.id,
            None => false,
        },
{
    match last {
        Some(id) => !id.as_str().is_empty() && same(id.as_str(), prompt.id.as_str()),
        None => false,
    }
}

/// Show how a row's status moved.
fn announce_transition(
    toasts: &mut Vec<Toast>,
    agent: &DashboardAgent,
    status: &AgentDisplayStatus,
)
    ensures
        views(final(toasts)@) == views(old(toasts)@) + transition_toasts(agent@, status@),
{
    let ghost before = views(toasts@);
    let was_going = match agent.status {
        AgentDisplayStatus::Active | AgentDisplayStatus::Waiting => true,
        _ => false,
    };
    if was_going {
        let name = name_of(&agent.title, agent.blueprint_name.as_str());
        match status {
            AgentDisplayStatus::Error(message) => {
                let preview = if message.as_str().is_empty() {
                    String::new()
                } else {
                    let cut = truncate(message.as_str(), 40);
                    cat2(": ", cut.as_str())
                };
                let text = cat4("Agent run '", name.as_str(), "' failed", preview.as_str());
                Dashboard::push_toast(toasts, text, ToastLevel::Error, FAILURE_TICKS);
            },
            AgentDisplayStatus::Complete | AgentDisplayStatus::CompleteInteractive => {
                let text = cat3("Agent run '", name.as_str(), "' completed");
                Dashboard::push_toast(toasts, text, ToastLevel::Info, CHANGE_TICKS);
            },
            _ => {},
        }
    }
    proof {
        assert(views(toasts@) =~= before + transition_toasts(agent@, status@));
    }
}

/// Show that a known row newly needs input, and say whether its prompt is one
/// still to be answered.
fn announce_prompt(
    toasts: &mut Vec<Toast>,
    agent: &DashboardAgent,
    run: &RunMeta,
    prompt: &Option<InteractionRequest>,
) -> (open: bool)
    ensures
        views(final(toasts)@) == views(old(toasts)@) + prompt_toasts(
            agent@,
            *run,
            opt_view(*prompt),
        ),
        open == match opt_view(*prompt) {
            Some(p) => !answered(agent@, p),
            None => false,
        },
{
    let ghost before = views(toasts@);
    let open = match prompt {
        Some(p) => {
            let done = was_answered(&agent.last_answered_request_id, p);
            if !done && agent.waiting_prompt.is_none() && run.status == RunStatus::WaitingInput {
                let name = name_of(&run.title, agent.blueprint_name.as_str());
                let text = cat3("Agent run '", name.as_str(), "' needs input");
                Dashboard::push_toast(toasts, text, ToastLevel::Warning, CHANGE_TICKS);
            }
            !done
        },
        None => false,
    };
    proof {
        assert(views(toasts@) =~= before + prompt_toasts(agent@, *run, opt_view(*prompt)));
    }
    open
}

/// Whether a known row may have to move.
fn has_moved(agent: &DashboardAgent, run: &RunMeta, status: &AgentDisplayStatus) -> (changed: bool)
    ensures
        changed == moved(agent@, *run, status@),
{
    !agent.status.same(status) || !same_moment(&agent.last_progress_at, &run.last_progress_at)
        || !same_opt(&agent.title, &run.title)
}

/// Give a known row what a pass read of its run.
fn refresh_row(
    agent: &mut DashboardAgent,
    entry: &RunEntry,
    status: AgentDisplayStatus,
    moment: i64,
    window: Option<Arc<ContextSnapshot>>,
    prompt: Option<InteractionRequest>,
    open: bool,
    Ghost(reading): Ghost<Reading>,
)
    requires
        opt_view(prompt) == prompt_of(reading.prompts, entry.meta.run_id@),
        status@ == standing(
            *entry.meta,
            prompt_of(reading.prompts, entry.meta.run_id@),
            among(reading.abandoned, entry.meta.run_id@),
        ),
        moment == clock_moment(
            *entry.meta,
            among(reading.abandoned, entry.meta.run_id@),
            reading.now,
        ),
        window == context_for(reading.context, entry.meta.run_id@),
        open == match opt_view(prompt) {
            Some(p) => !answered(old(agent)@, p),
            None => false,
        },
    ensures
        final(agent)@ == refreshed(old(agent)@, *entry, reading),
{
    let run: &RunMeta = &*entry.meta;
    agent.stage = copy_of(run.current_stage.as_str());
    agent.stage_index = run.stage_index;
    agent.num_stages = run.num_stages;
    agent.iteration = run.iteration;
    agent.tokens_in = run.prompt_tokens;
    agent.tokens_out = run.completion_tokens;
    agent.cached_tokens = run.cached_tokens;
    agent.title = copy_opt(&run.title);
    agent.clock_now = moment;
    agent.runtime_secs = run.clock.active_runtime_secs(moment);
    agent.status = status;
    agent.workdir = copy_of(run.workdir.as_str());
    agent.context_snapshot = window;
    agent.stages = share(&entry.stages);
    agent.last_progress_at = run.last_progress_at;
    agent.wait_reason = copy_wait(&run.waiting_on);
    match prompt {
        Some(p) => {
            if open {
                agent.waiting_prompt = Some(copy_of(p.prompt.as_str()));
                agent.pending_request = Some(p);
            }
        },
        None => {
            if run.status != RunStatus::CompleteInteractive {
                agent.waiting_prompt = None;
                agent.pending_request = None;
                agent.last_answered_request_id = None;
            }
        },
    }
}

/// The row of a run that was not listed.
fn admit_row(
    entry: &RunEntry,
    status: AgentDisplayStatus,
    moment: i64,
    window: Option<Arc<ContextSnapshot>>,
    prompt: Option<InteractionRequest>,
    Ghost(reading): Ghost<Reading>,
) -> (agent: DashboardAgent)
    requires
        opt_view(prompt) == prompt_of(reading.prompts, entry.meta.run_id@),
        status@ == standing(
            *entry.meta,
            prompt_of(reading.prompts, entry.meta.run_id@),
            among(reading.abandoned, entry.meta.run_id@),
        ),
        moment == clock_moment(
            *entry.meta,
            among(reading.abandoned, entry.meta.run_id@),
            reading.now,
        ),
        window == context_for(reading.context, entry.meta.run_id@),
    ensures
        agent@ == admitted(*entry, reading),
{
    let run: &RunMeta = &*entry.meta;
    let waiting_prompt = match &prompt {
        Some(p) => Some(copy_of(p.prompt.as_str())),
        None => None,
    };
    DashboardAgent {
        id: copy_of(run.run_id.as_str()),
        blueprint_name: copy_of(run.agent_name.as_str()),
        stage: copy_of(run.current_stage.as_str()),
        stage_index: run.stage_index,
        num_stages: run.num_stages,
        status,
        tokens_in: run.prompt_tokens,
        tokens_out: run.completion_tokens,
        cached_tokens: run.cached_tokens,
        iteration: run.iteration,
        broken_scripts: copy_all(&run.broken_scripts),
        waiting_prompt,
        wait_reason: copy_wait(&run.waiting_on),
        pending_request: prompt,
        last_answered_request_id: None,
        context_snapshot: window,
        stages: share(&entry.stages),
        workdir: copy_of(run.workdir.as_str()),
        task: copy_of(run.task.as_str()),
        title: copy_opt(&run.title),
        model: copy_opt(&run.model),
        parent_id: copy_opt(&run.parent_run_id),
        started_at: run.started_at,
        last_progress_at: run.last_progress_at,
        runtime_secs: run.clock.active_runtime_secs(moment),
        clock_now: moment,
        graph: share_opt(&entry.graph),
        accepts_messages: true,
    }
}

/// Show that a run arrived that was not listed.
fn announce_arrival(
    toasts: &mut Vec<Toast>,
    entry: &RunEntry,
    prompted: bool,
    settled: bool,
    Ghost(reading): Ghost<Reading>,
)
    requires
        prompted == (prompt_of(reading.prompts, entry.meta.run_id@) is Some),
        settled == reading.settled,
    ensures
        views(final(toasts)@) == views(old(toasts)@) + arrival_toasts(*entry, reading),
{
    let ghost before = views(toasts@);
    let run: &RunMeta = &*entry.meta;
    if settled {
        let name = name_of(&run.title, run.agent_name.as_str());
        match run.status {
            RunStatus::WaitingInput => {
                if prompted {
                    let text = cat3("Agent run '", name.as_str(), "' needs input");
                    Dashboard::push_toast(toasts, text, ToastLevel::Warning, CHANGE_TICKS);
                }
            },
            RunStatus::Complete | RunStatus::CompleteInteractive => {
                let text = cat3("Agent run '", name.as_str(), "' completed");
                Dashboard::push_toast(toasts, text, ToastLevel::Info, CHANGE_TICKS);
            },
            _ => {},
        }
    }
    proof {
        assert(views(toasts@) =~= before + arrival_toasts(*entry, reading));
    }
}

/// One run of a pass: whether the order of the list may have changed.
fn sync_run(
    agents: &mut Vec<DashboardAgent>,
    toasts: &mut Vec<Toast>,
    entry: &RunEntry,
    known: usize,
    prompt: Option<InteractionRequest>,
    stale: bool,
    now: i64,
    settled: bool,
    window: Option<Arc<ContextSnapshot>>,
    Ghost(reading): Ghost<Reading>,
) -> (changed: bool)
    requires
        known <= old(agents)@.len(),
        known == reading.known,
        opt_view(prompt) == prompt_of(reading.prompts, entry.meta.run_id@),
        stale == among(reading.abandoned, entry.meta.run_id@),
        now == reading.now,
        settled == reading.settled,
        window == context_for(reading.context, entry.meta.run_id@),
    ensures
        forall|order: bool|
            (Synced {
                agents: views(final(agents)@),
                toasts: views(final(toasts)@),
                order_changed: order || changed,
            }) == #[trigger] sync_step(
                Synced {
                    agents: views(old(agents)@),
                    toasts: views(old(toasts)@),
                    order_changed: order,
                },
                *entry,
                reading,
            ),
        final(agents)@.len() >= old(agents)@.len(),
{
    let run: &RunMeta = &*entry.meta;
    let status = status_of(run, prompt.is_some(), stale);
    let ghost wanted = prompt_of(reading.prompts, run.run_id@);
    assert(status@ == standing(*run, wanted, stale));
    let moment: i64 = if stale {
        run.updated_at
    } else {
        now
    };
    let ghost before = views(agents@);
    match find_known(agents, run.run_id.as_str(), known) {
        Some(at) => {
            let ghost row = agents@[at as int]@;
            assert(before[at as int] == row);
            announce_transition(toasts, &agents[at], &status);
            let changed = has_moved(&agents[at], run, &status);
            let open = announce_prompt(toasts, &agents[at], run, &prompt);
            refresh_row(
                &mut agents[at],
                entry,
                status,
                moment,
                window,
                prompt,
                open,
                Ghost(reading),
            );
            proof {
                assert(views(agents@) =~= before.update(
                    at as int,
                    refreshed(row, *entry, reading),
                ));
            }
            changed
        },
        None => {
            announce_arrival(toasts, entry, prompt.is_some(), settled, Ghost(reading));
            let row = admit_row(entry, status, moment, window, prompt, Ghost(reading));
            agents.push(row);
            true
        },
    }
}

impl Dashboard {
    /// Whether a run that claims to be live has nothing driving it.
    pub fn looks_stale(&self, run: &RunMeta) -> (stale: bool)
        ensures
            stale == among(views(self.feed.abandoned_runs@), run.run_id@),
    {
        has_text(&self.feed.abandoned_runs, run.run_id.as_str())
    }

    /// Reconcile the run list with one snapshot: new runs become rows, known
    /// ones take the snapshot's fields, and the clocks and staleness that depend
    /// on the moment are worked out afresh. A run deleted after the snapshot was
    /// read is still in it, and stays out.
    pub fn apply_run_snapshot(&mut self, snapshot: &RunSnapshot)
        ensures
            *final(self) == (Dashboard {
                runs: RunList {
                    agents: final(self).runs.agents,
                    order_stale: final(self).runs.order_stale,
                    ..old(self).runs
                },
                notes: Notes { toasts: final(self).notes.toasts, ..old(self).notes },
                feed: Feed {
                    deleted_runs: final(self).feed.deleted_runs,
                    initial_sync_done: true,
                    ..old(self).feed
                },
                ..*old(self)
            }),
            final(self).runs.order_stale == (old(self).runs.order_stale || applied(
                *old(self),
                *snapshot,
            ).order_changed),
            final(self).feed.deleted_runs@ == standing_deletes(
                old(self).feed.deleted_runs@,
                snapshot.taken_at,
            ),
            views(final(self).runs.agents@) == applied(*old(self), *snapshot).agents,
            views(final(self).notes.toasts@) == applied(*old(self), *snapshot).toasts,
    {
        let deletes = keep_deletes(&self.feed.deleted_runs, snapshot.taken_at);
        let ghost reading = reading_of(*self, *snapshot);
        let settled = self.feed.initial_sync_done;
        let now: i64 = self.now_secs();
        let order_changed = sync_runs(
            &mut self.runs.agents,
            &mut self.notes.toasts,
            snapshot,
            &deletes,
            &self.feed.pending_interactions,
            &self.feed.abandoned_runs,
            now,
            settled,
            Ghost(reading),
        );
        self.feed.deleted_runs = deletes;
        self.runs.order_stale = self.runs.order_stale || order_changed;
        self.feed.initial_sync_done = true;
    }

    /// Take over the loader's newest snapshot, and reconcile the run list with
    /// the one at hand. The loader is told which run the cursor is on, the one
    /// whose context window is worth reading. Until the first snapshot lands
    /// there is nothing to show.
    pub fn sync_from_run_state(&mut self)
        ensures
            asked(final(self).feed.link.asks@) == told(*old(self)),
            opt_text(final(self).feed.link.last_showing) == on_screen(*old(self)),
            final(self).feed.link.arrived is None,
            final(self).feed.snapshot == newest(*old(self)),
            match newest(*old(self)) {
                None => *final(self) == (Dashboard {
                    feed: Feed { link: final(self).feed.link, ..old(self).feed },
                    ..*old(self)
                }),
                Some(snapshot) => {
                    &&& *final(self) == (Dashboard {
                        runs: RunList {
                            agents: final(self).runs.agents,
                            order_stale: final(self).runs.order_stale,
                            ..old(self).runs
                        },
                        notes: Notes { toasts: final(self).notes.toasts, ..old(self).notes },
                        feed: Feed {
                            link: final(self).feed.link,
                            snapshot: newest(*old(self)),
                            loading: false,
                            deleted_runs: final(self).feed.deleted_runs,
                            initial_sync_done: true,
                            ..old(self).feed
                        },
                        ..*old(self)
                    })
                    &&& final(self).runs.order_stale == (old(self).runs.order_stale || applied(
                        *old(self),
                        *snapshot,
                    ).order_changed)
                    &&& final(self).feed.deleted_runs@ == standing_deletes(
                        old(self).feed.deleted_runs@,
                        snapshot.taken_at,
                    )
                    &&& views(final(self).runs.agents@) == applied(*old(self), *snapshot).agents
                    &&& views(final(self).notes.toasts@) == applied(*old(self), *snapshot).toasts
                },
            },
    {
        let showing = match self.selected_agent() {
            Some(agent) => Some(copy_of(agent.id.as_str())),
            None => None,
        };
        match &showing {
            Some(id) => self.feed.link.show(Some(id.as_str())),
            None => self.feed.link.show(None),
        }
        match self.feed.link.take() {
            Some(latest) => {
                self.feed.snapshot = Some(latest);
            },
            None => {},
        }
        let snapshot = match &self.feed.snapshot {
            Some(snapshot) => share(snapshot),
            None => {
                return ;
            },
        };
        self.feed.loading = false;
        let ghost before = *self;
        self.apply_run_snapshot(&*snapshot);
        proof {
            assert(reading_of(before, *snapshot) == reading_of(*old(self), *snapshot));
        }
    }
}

/// The id of the run the cursor is on.
pub open spec fn on_screen(dash: Dashboard) -> Option<Seq<char>> {
    match dash.current() {
        Some(agent) => Some(agent.id@),
        None => None,
    }
}

/// What the loader has been told once it knows the run the cursor is on.
pub open spec fn told(dash: Dashboard) -> Seq<Option<Seq<char>>> {
    if opt_text(dash.feed.link.last_showing) == on_screen(dash) {
        asked(dash.feed.link.asks@)
    } else {
        asked(dash.feed.link.asks@).push(on_screen(dash))
    }
}

/// The newest snapshot: the one that arrived, else the one at hand.
pub open spec fn newest(dash: Dashboard) -> Option<Arc<RunSnapshot>> {
    if dash.feed.link.arrived is Some {
        dash.feed.link.arrived
    } else {
        dash.feed.snapshot
    }
}

/// The runs of a pass, one after the other: whether the order of the list may
/// have changed.
fn sync_runs(
    agents: &mut Vec<DashboardAgent>,
    toasts: &mut Vec<Toast>,
    snapshot: &RunSnapshot,
    deletes: &Vec<(String, u64)>,
    prompts: &Vec<(String, InteractionRequest)>,
    abandoned: &Vec<String>,
    now: i64,
    settled: bool,
    Ghost(reading): Ghost<Reading>,
) -> (order_changed: bool)
    requires
        reading == (Reading {
            prompts: prompts@,
            abandoned: views(abandoned@),
            now,
            settled,
            context: snapshot.context,
            known: old(agents)@.len() as int,
        }),
    ensures
        (Synced {
            agents: views(final(agents)@),
            toasts: views(final(toasts)@),
            order_changed,
        }) == synced(
            Synced {
                agents: views(old(agents)@),
                toasts: views(old(toasts)@),
                order_changed: !settled,
            },
            snapshot.runs@,
            deletes@,
            reading,
            snapshot.runs@.len() as int,
        ),
{
    let ghost start = Synced {
        agents: views(agents@),
        toasts: views(toasts@),
        order_changed: !settled,
    };
    let known: usize = agents.len();
    let mut order_changed = !settled;
    let mut i: usize = 0;
    proof {
        reveal(synced);
    }
    while i < snapshot.runs.len()
        invariant
            i <= snapshot.runs@.len(),
            reading.prompts == prompts@,
            reading.abandoned == views(abandoned@),
            reading.now == now,
            reading.settled == settled,
            reading.context == snapshot.context,
            reading.known == known,
            known <= agents@.len(),
            (Synced { agents: views(agents@), toasts: views(toasts@), order_changed }) == synced(
                start,
                snapshot.runs@,
                deletes@,
                reading,
                i as int,
            ),
        decreases snapshot.runs.len() - i,
    {
        proof {
            reveal(synced);
        }
        let entry = &snapshot.runs[i];
        let run: &RunMeta = &*entry.meta;
        if !has_delete(deletes, run.run_id.as_str()) {
            let prompt = find_prompt(prompts, run.run_id.as_str());
            let stale = has_text(abandoned, run.run_id.as_str());
            let window = window_for(&snapshot.context, run.run_id.as_str());
            let ghost so_far = Synced { agents: views(agents@), toasts: views(toasts@), order_changed };
            let changed = sync_run(
                agents,
                toasts,
                entry,
                known,
                prompt,
                stale,
                now,
                settled,
                window,
                Ghost(reading),
            );
            proof {
                let after = sync_step(so_far, *entry, reading);
                assert(after.order_changed == (order_changed || changed));
            }
            order_changed = order_changed || changed;
        }
        i = i + 1;
    }
    order_changed
}

/// The deletes that a pass begun at `taken_at` may not have seen.
fn keep_deletes(deletes: &Vec<(String, u64)>, taken_at: u64) -> (kept: Vec<(String, u64)>)
    ensures
        kept@ == standing_deletes(deletes@, taken_at),
{
    let mut kept: Vec<(String, u64)> = Vec::new();
    let mut i: usize = 0;
    let ghost newer = |d: (String, u64)| d.1 > taken_at;
    proof {
        assert(deletes@.take(0) =~= Seq::<(String, u64)>::empty());
        reveal(Seq::filter);
    }
    while i < deletes.len()
        invariant
            i <= deletes@.len(),
            newer == (|d: (String, u64)| d.1 > taken_at),
            kept@ == deletes@.take(i as int).filter(newer),
        decreases deletes.len() - i,
    {
        proof {
            assert(deletes@.take(i as int + 1) =~= deletes@.take(i as int).push(
                deletes@[i as int],
            ));
            deletes@.take(i as int).lemma_filter_push(deletes@[i as int], newer);
        }
        if deletes[i].1 > taken_at {
            kept.push((deletes[i].0.clone(), deletes[i].1));
        }
        i = i + 1;
    }
    proof {
        assert(deletes@.take(deletes@.len() as int) =~= deletes@);
    }
    kept
}

/// Whether a run is among the deletes.
fn has_delete(deletes: &Vec<(String, u64)>, id: &str) -> (deleted: bool)
    ensures
        deleted == is_deleted(deletes@, id@),
{
    let mut i: usize = 0;
    while i < deletes.len()
        invariant
            i <= deletes@.len(),
            forall|j: int| 0 <= j < i ==> (#[trigger] deletes@[j]).0@ != id@,
        decreases deletes.len() - i,
    {
        if same(deletes[i].0.as_str(), id) {
            return true;
        }
        i = i + 1;
    }
    false
}

/// Whether two optional moments are the same.
fn same_moment(a: &Option<i64>, b: &Option<i64>) -> (equal: bool)
    ensures
        equal == (*a == *b),
{
    match (a, b) {
        (Some(x), Some(y)) => *x == *y,
        (None, None) => true,
        _ => false,
    }
}

// ── What a pass keeps ────────────────────────────────────────────────────────

/// A row found among the first rows is one of them and has the id.
proof fn known_at_is_a_row(agents: Seq<AgentView>, id: Seq<char>, count: int)
    requires
        0 <= count <= agents.len(),
    ensures
        match known_at(agents, id, count) {
            Some(at) => 0 <= at < count && agents[at].id == id,
            None => forall|j: int| 0 <= j < count ==> (#[trigger] agents[j]).id != id,
        },
    decreases count,
{
    if count > 0 && agents[count - 1].id != id {
        known_at_is_a_row(agents, id, count - 1);
    }
}

/// What holds of a pass after any number of its runs: the rows that were there
/// keep their places and what a pass does not read, and toasts are only added.
pub proof fn rows_and_toasts_stay(
    before: Synced,
    runs: Seq<RunEntry>,
    deletes: Seq<(String, u64)>,
    reading: Reading,
    count: int,
)
    requires
        0 <= count <= runs.len(),
        reading.known == before.agents.len(),
    ensures
        synced(before, runs, deletes, reading, count).agents.len() >= before.agents.len(),
        forall|i: int|
            0 <= i < before.agents.len() ==> {
                let row = (#[trigger] synced(before, runs, deletes, reading, count).agents[i]);
                &&& row.id == before.agents[i].id
                &&& row.blueprint_name == before.agents[i].blueprint_name
                &&& row.task == before.agents[i].task
                &&& row.parent_id == before.agents[i].parent_id
                &&& row.started_at == before.agents[i].started_at
                &&& row.graph == before.agents[i].graph
            },
        before.toasts.is_prefix_of(synced(before, runs, deletes, reading, count).toasts),
    decreases count,
{
    reveal(synced);
    if count > 0 {
        rows_and_toasts_stay(before, runs, deletes, reading, count - 1);
        let so_far = synced(before, runs, deletes, reading, count - 1);
        let entry = runs[count - 1];
        if !is_deleted(deletes, entry.meta.run_id@) {
            known_at_is_a_row(so_far.agents, entry.meta.run_id@, reading.known);
        }
    }
}

/// A run that was deleted after the snapshot was read does not come back.
pub proof fn deleted_runs_stay_away(
    before: Synced,
    runs: Seq<RunEntry>,
    deletes: Seq<(String, u64)>,
    reading: Reading,
    count: int,
    id: Seq<char>,
)
    requires
        0 <= count <= runs.len(),
        reading.known == before.agents.len(),
        is_deleted(deletes, id),
        !listed(before.agents, id),
    ensures
        !listed(synced(before, runs, deletes, reading, count).agents, id),
    decreases count,
{
    reveal(synced);
    if count > 0 {
        deleted_runs_stay_away(before, runs, deletes, reading, count - 1, id);
        rows_and_toasts_stay(before, runs, deletes, reading, count - 1);
        let so_far = synced(before, runs, deletes, reading, count - 1);
        let entry = runs[count - 1];
        if !is_deleted(deletes, entry.meta.run_id@) {
            known_at_is_a_row(so_far.agents, entry.meta.run_id@, reading.known);
            let after = sync_step(so_far, entry, reading).agents;
            assert forall|i: int| 0 <= i < after.len() implies after[i].id != id by {
                if i < so_far.agents.len() {
                    assert(so_far.agents[i].id != id);
                }
            }
        }
    }
}

/// Every run that was read and not deleted since is listed.
pub proof fn read_runs_are_listed(
    before: Synced,
    runs: Seq<RunEntry>,
    deletes: Seq<(String, u64)>,
    reading: Reading,
    count: int,
    at: int,
)
    requires
        0 <= at < count <= runs.len(),
        reading.known == before.agents.len(),
        !is_deleted(deletes, runs[at].meta.run_id@),
    ensures
        listed(synced(before, runs, deletes, reading, count).agents, runs[at].meta.run_id@),
    decreases count,
{
    reveal(synced);
    let id = runs[at].meta.run_id@;
    rows_and_toasts_stay(before, runs, deletes, reading, count - 1);
    let so_far = synced(before, runs, deletes, reading, count - 1);
    let entry = runs[count - 1];
    if !is_deleted(deletes, entry.meta.run_id@) {
        known_at_is_a_row(so_far.agents, entry.meta.run_id@, reading.known);
    }
    let after = synced(before, runs, deletes, reading, count).agents;
    if at == count - 1 {
        match known_at(so_far.agents, id, reading.known) {
            Some(i) => {
                assert(after[i].id == id);
            },
            None => {
                assert(after[so_far.agents.len() as int].id == id);
            },
        }
    } else {
        read_runs_are_listed(before, runs, deletes, reading, count - 1, at);
        let i = choose|i: int| 0 <= i < so_far.agents.len() && so_far.agents[i].id == id;
        assert(after[i].id == id);
    }
}

/// Whether no two rows have the same id.
pub open spec fn distinct_rows(agents: Seq<AgentView>) -> bool {
    forall|i: int, j: int|
        0 <= i < j < agents.len() ==> (#[trigger] agents[i]).id != (#[trigger] agents[j]).id
}

/// Whether one of the first `count` runs of a pass has this id.
spec fn read_among(runs: Seq<RunEntry>, count: int, id: Seq<char>) -> bool {
    exists|j: int| 0 <= j < count && (#[trigger] runs[j]).meta.run_id@ == id
}

/// Rows with ids of their own keep them: a pass that reads no run twice lists no
/// run twice.
pub proof fn rows_stay_distinct(
    before: Synced,
    runs: Seq<RunEntry>,
    deletes: Seq<(String, u64)>,
    reading: Reading,
    count: int,
)
    requires
        0 <= count <= runs.len(),
        reading.known == before.agents.len(),
        distinct_rows(before.agents),
        forall|i: int, j: int|
            0 <= i < j < runs.len() ==> (#[trigger] runs[i]).meta.run_id@ != (
            #[trigger] runs[j]).meta.run_id@,
    ensures
        distinct_rows(synced(before, runs, deletes, reading, count).agents),
{
    new_rows_were_read(before, runs, deletes, reading, count);
}

/// The rows a pass adds are of runs it read, and no two rows have the same id.
proof fn new_rows_were_read(
    before: Synced,
    runs: Seq<RunEntry>,
    deletes: Seq<(String, u64)>,
    reading: Reading,
    count: int,
)
    requires
        0 <= count <= runs.len(),
        reading.known == before.agents.len(),
        distinct_rows(before.agents),
        forall|i: int, j: int|
            0 <= i < j < runs.len() ==> (#[trigger] runs[i]).meta.run_id@ != (
            #[trigger] runs[j]).meta.run_id@,
    ensures
        distinct_rows(synced(before, runs, deletes, reading, count).agents),
        forall|i: int|
            before.agents.len() <= i < synced(before, runs, deletes, reading, count).agents.len()
                ==> read_among(
                runs,
                count,
                (#[trigger] synced(before, runs, deletes, reading, count).agents[i]).id,
            ),
    decreases count,
{
    reveal(synced);
    if count > 0 {
        new_rows_were_read(before, runs, deletes, reading, count - 1);
        rows_and_toasts_stay(before, runs, deletes, reading, count - 1);
        let so_far = synced(before, runs, deletes, reading, count - 1);
        let after = synced(before, runs, deletes, reading, count);
        let entry = runs[count - 1];
        let id = entry.meta.run_id@;
        assert forall|i: int| before.agents.len() <= i < so_far.agents.len() implies read_among(
            runs,
            count,
            (#[trigger] so_far.agents[i]).id,
        ) && so_far.agents[i].id != id by {
            assert(read_among(runs, count - 1, so_far.agents[i].id));
            let j = choose|j: int|
                0 <= j < count - 1 && (#[trigger] runs[j]).meta.run_id@ == so_far.agents[i].id;
            assert(runs[j].meta.run_id@ != runs[count - 1].meta.run_id@);
        }
        assert(read_among(runs, count, id));
        if !is_deleted(deletes, id) {
            known_at_is_a_row(so_far.agents, id, reading.known);
            assert forall|i: int| 0 <= i < so_far.agents.len() implies after.agents[i].id
                == so_far.agents[i].id by {}
            assert forall|i: int, j: int| 0 <= i < j < after.agents.len() implies (
            #[trigger] after.agents[i]).id != (#[trigger] after.agents[j]).id by {
                if j < so_far.agents.len() {
                    assert(so_far.agents[i].id != so_far.agents[j].id);
                } else {
                    assert(so_far.agents[i].id != id);
                }
            }
            assert forall|i: int| before.agents.len() <= i < after.agents.len() implies read_among(
                runs,
                count,
                (#[trigger] after.agents[i]).id,
            ) by {
                if i < so_far.agents.len() {
                    assert(read_among(runs, count, so_far.agents[i].id));
                }
            }
        }
    }
}

/// The first pass over an empty list shows no toast, however many runs it finds.
pub proof fn the_first_pass_is_quiet(
    before: Synced,
    runs: Seq<RunEntry>,
    deletes: Seq<(String, u64)>,
    reading: Reading,
    count: int,
)
    requires
        0 <= count <= runs.len(),
        reading.known == 0,
        !reading.settled,
    ensures
        synced(before, runs, deletes, reading, count).toasts == before.toasts,
    decreases count,
{
    reveal(synced);
    if count > 0 {
        the_first_pass_is_quiet(before, runs, deletes, reading, count - 1);
        let so_far = synced(before, runs, deletes, reading, count - 1);
        assert(so_far.toasts + Seq::<ToastView>::empty() =~= so_far.toasts);
    }
}

/// Reading the same run again, as every tick does until a newer snapshot lands,
/// leaves its row, its place and the toasts alone.
pub proof fn reading_again_changes_nothing(agent: AgentView, entry: RunEntry, reading: Reading)
    ensures
        ({
            let once = refreshed(agent, entry, reading);
            let prompt = prompt_of(reading.prompts, entry.meta.run_id@);
            let stale = among(reading.abandoned, entry.meta.run_id@);
            let status = standing(*entry.meta, prompt, stale);
            &&& refreshed(once, entry, reading) == once
            &&& transition_toasts(once, status) == Seq::<ToastView>::empty()
            &&& prompt_toasts(once, *entry.meta, prompt) == Seq::<ToastView>::empty()
            &&& !moved(once, *entry.meta, status)
        }),
{
}

/// Whether no run is read twice in a pass.
pub open spec fn distinct_runs(runs: Seq<RunEntry>) -> bool {
    forall|i: int, j: int|
        0 <= i < j < runs.len() ==> (#[trigger] runs[i]).meta.run_id@ != (
        #[trigger] runs[j]).meta.run_id@
}

/// Whether a row has all that a pass reads of its run, so that reading it again
/// leaves the row, its place and the toasts alone.
spec fn is_read(row: AgentView, entry: RunEntry, reading: Reading) -> bool {
    let prompt = prompt_of(reading.prompts, entry.meta.run_id@);
    let stale = among(reading.abandoned, entry.meta.run_id@);
    let status = standing(*entry.meta, prompt, stale);
    &&& row.id == entry.meta.run_id@
    &&& refreshed(row, entry, reading) == row
    &&& transition_toasts(row, status) == Seq::<ToastView>::empty()
    &&& prompt_toasts(row, *entry.meta, prompt) == Seq::<ToastView>::empty()
    &&& !moved(row, *entry.meta, status)
}

/// Whether the row at `at` is of a run and has all that was read of it.
spec fn holds_run(agents: Seq<AgentView>, entry: RunEntry, reading: Reading, at: int) -> bool {
    0 <= at < agents.len() && is_read(agents[at], entry, reading)
}

/// After a pass every run it read, and that was not deleted since, has its row with
/// all that was read of it.
proof fn runs_have_their_rows(
    before: Synced,
    runs: Seq<RunEntry>,
    deletes: Seq<(String, u64)>,
    reading: Reading,
    count: int,
)
    requires
        0 <= count <= runs.len(),
        reading.known == before.agents.len(),
        distinct_rows(before.agents),
        distinct_runs(runs),
    ensures
        forall|j: int|
            0 <= j < count && !is_deleted(deletes, (#[trigger] runs[j]).meta.run_id@) ==> exists|
                i: int,
            |
                holds_run(synced(before, runs, deletes, reading, count).agents, runs[j], reading, i),
    decreases count,
{
    reveal(synced);
    if count > 0 {
        runs_have_their_rows(before, runs, deletes, reading, count - 1);
        rows_and_toasts_stay(before, runs, deletes, reading, count - 1);
        let so_far = synced(before, runs, deletes, reading, count - 1).agents;
        let after = synced(before, runs, deletes, reading, count).agents;
        let entry = runs[count - 1];
        let id = entry.meta.run_id@;
        known_at_is_a_row(so_far, id, reading.known);
        assert forall|j: int|
            0 <= j < count && !is_deleted(deletes, (#[trigger] runs[j]).meta.run_id@) implies exists|
            i: int,
        | holds_run(after, runs[j], reading, i) by {
            if j < count - 1 {
                let i = choose|i: int| holds_run(so_far, runs[j], reading, i);
                assert(runs[j].meta.run_id@ != runs[count - 1].meta.run_id@);
                assert(after[i] == so_far[i]);
                assert(holds_run(after, runs[j], reading, i));
            } else {
                match known_at(so_far, id, reading.known) {
                    Some(at) => {
                        reading_again_changes_nothing(so_far[at], entry, reading);
                        assert(holds_run(after, entry, reading, at));
                    },
                    None => {
                        let at = so_far.len() as int;
                        assert(after[at] == admitted(entry, reading));
                        assert(refreshed(after[at], entry, reading) == after[at]);
                        assert(holds_run(after, entry, reading, at));
                    },
                }
            }
        }
    }
}

/// A pass over rows that have all that is read changes nothing.
proof fn a_pass_over_read_rows_changes_nothing(
    start: Synced,
    runs: Seq<RunEntry>,
    deletes: Seq<(String, u64)>,
    reading: Reading,
    count: int,
)
    requires
        0 <= count <= runs.len(),
        reading.known == start.agents.len(),
        distinct_rows(start.agents),
        forall|j: int|
            0 <= j < runs.len() && !is_deleted(deletes, (#[trigger] runs[j]).meta.run_id@)
                ==> exists|i: int| holds_run(start.agents, runs[j], reading, i),
    ensures
        synced(start, runs, deletes, reading, count) == start,
    decreases count,
{
    reveal(synced);
    if count > 0 {
        a_pass_over_read_rows_changes_nothing(start, runs, deletes, reading, count - 1);
        let entry = runs[count - 1];
        let id = entry.meta.run_id@;
        if !is_deleted(deletes, id) {
            known_at_is_a_row(start.agents, id, reading.known);
            let i = choose|i: int| holds_run(start.agents, entry, reading, i);
            assert(start.agents[i].id == id);
            let at = known_at(start.agents, id, reading.known)->0;
            assert(at == i) by {
                if at < i {
                    assert(start.agents[at].id != start.agents[i].id);
                } else if i < at {
                    assert(start.agents[i].id != start.agents[at].id);
                }
            }
            let after = sync_step(start, entry, reading);
            assert(after.agents =~= start.agents);
            assert(after.toasts =~= start.toasts);
            assert(after =~= start);
        }
    }
}

/// A whole pass repeated changes nothing: with no run read twice and no row listed
/// twice, what one pass leaves is left as it is by the same pass again, without a
/// toast and in the same order.
pub proof fn a_pass_repeated_changes_nothing(
    before: Synced,
    runs: Seq<RunEntry>,
    deletes: Seq<(String, u64)>,
    reading: Reading,
)
    requires
        reading.known == before.agents.len(),
        distinct_rows(before.agents),
        distinct_runs(runs),
    ensures
        ({
            let once = synced(before, runs, deletes, reading, runs.len() as int);
            let again = Reading { settled: true, known: once.agents.len() as int, ..reading };
            let start = Synced { order_changed: false, ..once };
            synced(start, runs, deletes, again, runs.len() as int) == start
        }),
{
    let count = runs.len() as int;
    let once = synced(before, runs, deletes, reading, count);
    let again = Reading { settled: true, known: once.agents.len() as int, ..reading };
    let start = Synced { order_changed: false, ..once };
    rows_stay_distinct(before, runs, deletes, reading, count);
    runs_have_their_rows(before, runs, deletes, reading, count);
    assert forall|j: int|
        0 <= j < runs.len() && !is_deleted(deletes, (#[trigger] runs[j]).meta.run_id@) implies exists|
        i: int,
    | holds_run(start.agents, runs[j], again, i) by {
        let i = choose|i: int| holds_run(once.agents, runs[j], reading, i);
        assert(refreshed(once.agents[i], runs[j], again) == refreshed(
            once.agents[i],
            runs[j],
            reading,
        ));
        assert(holds_run(start.agents, runs[j], again, i));
    }
    a_pass_over_read_rows_changes_nothing(start, runs, deletes, again, count);
}

/// Deletes that stand once stand again.
proof fn standing_deletes_stand(deletes: Seq<(String, u64)>, taken_at: u64)
    ensures
        standing_deletes(standing_deletes(deletes, taken_at), taken_at) == standing_deletes(
            deletes,
            taken_at,
        ),
    decreases deletes.len(),
{
    let newer = |d: (String, u64)| d.1 > taken_at;
    reveal(Seq::filter);
    if deletes.len() > 0 {
        let rest = deletes.drop_last();
        standing_deletes_stand(rest, taken_at);
        assert(deletes =~= rest.push(deletes.last()));
        rest.lemma_filter_push(deletes.last(), newer);
        rest.filter(newer).lemma_filter_push(deletes.last(), newer);
    }
}

/// Applying the same snapshot again, as every tick does until a newer one lands,
/// changes nothing while the clock, the prompts and the abandoned runs stand.
pub proof fn a_snapshot_applied_again_changes_nothing(
    before: Dashboard,
    after: Dashboard,
    snapshot: RunSnapshot,
)
    requires
        distinct_rows(views(before.runs.agents@)),
        distinct_runs(snapshot.runs@),
        views(after.runs.agents@) == applied(before, snapshot).agents,
        views(after.notes.toasts@) == applied(before, snapshot).toasts,
        after.feed.deleted_runs@ == standing_deletes(
            before.feed.deleted_runs@,
            snapshot.taken_at,
        ),
        after.feed.initial_sync_done,
        after.feed.pending_interactions == before.feed.pending_interactions,
        after.feed.abandoned_runs == before.feed.abandoned_runs,
        after.feed.now == before.feed.now,
    ensures
        applied(after, snapshot) == (Synced {
            agents: views(after.runs.agents@),
            toasts: views(after.notes.toasts@),
            order_changed: false,
        }),
{
    let start = Synced {
        agents: views(before.runs.agents@),
        toasts: views(before.notes.toasts@),
        order_changed: !before.feed.initial_sync_done,
    };
    let deletes = standing_deletes(before.feed.deleted_runs@, snapshot.taken_at);
    let reading = reading_of(before, snapshot);
    standing_deletes_stand(before.feed.deleted_runs@, snapshot.taken_at);
    a_pass_repeated_changes_nothing(start, snapshot.runs@, deletes, reading);
    let once = applied(before, snapshot);
    assert(reading_of(after, snapshot) =~= (Reading {
        settled: true,
        known: once.agents.len() as int,
        ..reading
    }));
}

// ── What a row shows ─────────────────────────────────────────────────────────

/// Whether a row shows what its run's record says. A run that has ended, waits or is
/// paused stands as its record has it; one that is going waits while it is
/// `prompted`, is stale where it is `abandoned`, and else is active.
pub open spec fn shows_record(
    row: DashboardAgent,
    run: RunMeta,
    prompted: bool,
    abandoned: bool,
    now: i64,
) -> bool {
    let going = run.status == RunStatus::Starting || run.status == RunStatus::Running;
    &&& row.id@ == run.run_id@
    &&& (row.status is Cancelled <==> run.status == RunStatus::Cancelled)
    &&& (row.status is Complete <==> run.status == RunStatus::Complete)
    &&& (row.status is CompleteInteractive <==> run.status == RunStatus::CompleteInteractive)
    &&& (row.status is Error <==> run.status == RunStatus::Error)
    &&& (row.status is Paused <==> run.status == RunStatus::Paused)
    &&& (row.status is Waiting <==> run.status == RunStatus::WaitingInput || going && prompted)
    &&& (row.status is Stale <==> going && !prompted && abandoned)
    &&& (row.status is Active <==> going && !prompted && !abandoned)
    &&& (row.status matches AgentDisplayStatus::Error(why) ==> match run.error {
        Some(message) => why@ == message@,
        None => why@.len() == 0,
    })
    &&& row.stage@ == run.current_stage@
    &&& row.stage_index == run.stage_index
    &&& row.num_stages == run.num_stages
    &&& row.iteration == run.iteration
    &&& row.tokens_in == run.prompt_tokens
    &&& row.tokens_out == run.completion_tokens
    &&& row.cached_tokens == run.cached_tokens
    &&& row.workdir@ == run.workdir@
    &&& row.last_progress_at == run.last_progress_at
    &&& match (row.title, run.title) {
        (Some(shown), Some(given)) => shown@ == given@,
        (None, None) => true,
        _ => false,
    }
    &&& match (row.wait_reason, run.waiting_on) {
        (Some(shown), Some(given)) => shown.label@ == given.label@ && shown.needs_person
            == given.needs_person,
        (None, None) => true,
        _ => false,
    }
    &&& abandoned ==> row.clock_now == run.updated_at
    &&& !abandoned ==> row.clock_now == now
    &&& match run.clock.since {
        Some(since) if since < row.clock_now => row.runtime_secs == run.clock.banked_secs + (
        row.clock_now - since) || row.runtime_secs == u64::MAX && run.clock.banked_secs + (
        row.clock_now - since) > u64::MAX,
        _ => row.runtime_secs == run.clock.banked_secs,
    }
}

/// Whether a run was deleted here after a snapshot was begun.
pub open spec fn deleted_since(dash: Dashboard, snapshot: RunSnapshot, id: Seq<char>) -> bool {
    exists|k: int|
        0 <= k < dash.feed.deleted_runs@.len() && (#[trigger] dash.feed.deleted_runs@[k]).0@ == id
            && dash.feed.deleted_runs@[k].1 > snapshot.taken_at
}

/// Whether a run has an open prompt.
pub open spec fn has_prompt(dash: Dashboard, id: Seq<char>) -> bool {
    exists|k: int|
        0 <= k < dash.feed.pending_interactions@.len() && (
        #[trigger] dash.feed.pending_interactions@[k]).0@ == id
}

/// Whether a run was found to be driven by nothing.
pub open spec fn was_abandoned(dash: Dashboard, id: Seq<char>) -> bool {
    exists|k: int|
        0 <= k < dash.feed.abandoned_runs@.len() && (#[trigger] dash.feed.abandoned_runs@[k])@
            == id
}

/// Whether no two rows of the list have one id.
pub open spec fn rows_have_own_ids(dash: Dashboard) -> bool {
    forall|i: int, j: int|
        0 <= i < j < dash.runs.agents@.len() ==> (#[trigger] dash.runs.agents@[i]).id@ != (
        #[trigger] dash.runs.agents@[j]).id@
}

/// Whether no two runs of a snapshot have one id.
pub open spec fn runs_have_own_ids(snapshot: RunSnapshot) -> bool {
    forall|i: int, j: int|
        0 <= i < j < snapshot.runs@.len() ==> (#[trigger] snapshot.runs@[i]).meta.run_id@ != (
        #[trigger] snapshot.runs@[j]).meta.run_id@
}

/// Whether a snapshot reads this run, and it was not deleted since.
pub open spec fn reads(dash: Dashboard, snapshot: RunSnapshot, id: Seq<char>) -> bool {
    !deleted_since(dash, snapshot, id) && exists|j: int|
        0 <= j < snapshot.runs@.len() && (#[trigger] snapshot.runs@[j]).meta.run_id@ == id
}

/// The first prompt of a run, where it has one.
proof fn first_prompt(prompts: Seq<(String, InteractionRequest)>, id: Seq<char>, from: int)
    requires
        0 <= from <= prompts.len(),
    ensures
        match prompt_from(prompts, id, from) {
            Some(p) => exists|k: int|
                from <= k < prompts.len() && (#[trigger] prompts[k]).0@ == id && prompts[k].1@ == p
                    && forall|j: int| from <= j < k ==> (#[trigger] prompts[j]).0@ != id,
            None => forall|k: int| from <= k < prompts.len() ==> (#[trigger] prompts[k]).0@ != id,
        },
    decreases prompts.len() - from,
{
    if from < prompts.len() && prompts[from].0@ != id {
        first_prompt(prompts, id, from + 1);
        if prompt_from(prompts, id, from + 1) is Some {
            let k = choose|k: int|
                from + 1 <= k < prompts.len() && (#[trigger] prompts[k]).0@ == id && prompts[k].1@
                    == prompt_from(prompts, id, from + 1)->0 && forall|j: int|
                    from + 1 <= j < k ==> (#[trigger] prompts[j]).0@ != id;
            assert(prompts[k].0@ == id);
        }
    } else if from < prompts.len() {
        assert(prompts[from].0@ == id);
    }
}

/// A delete stands against a snapshot if and only if it was made after the snapshot
/// was begun.
proof fn standing_deletes_are_since(dash: Dashboard, snapshot: RunSnapshot, id: Seq<char>)
    ensures
        is_deleted(standing_deletes(dash.feed.deleted_runs@, snapshot.taken_at), id)
            <==> deleted_since(dash, snapshot, id),
{
    let all = dash.feed.deleted_runs@;
    let newer = |d: (String, u64)| d.1 > snapshot.taken_at;
    let kept = all.filter(newer);
    broadcast use vstd::seq_lib::group_filter_ensures;

    if is_deleted(kept, id) {
        let k = choose|k: int| 0 <= k < kept.len() && (#[trigger] kept[k]).0@ == id;
        assert(kept.contains(kept[k]));
        all.lemma_filter_contains_rev(newer, kept[k]);
        let m = choose|m: int| 0 <= m < all.len() && all[m] == kept[k];
        assert(all[m].0@ == id && newer(all[m]));
    }
    if deleted_since(dash, snapshot, id) {
        let m = choose|m: int|
            0 <= m < all.len() && (#[trigger] all[m]).0@ == id && all[m].1 > snapshot.taken_at;
        assert(newer(all[m]));
        assert(kept.contains(all[m]));
        let k = choose|k: int| 0 <= k < kept.len() && kept[k] == all[m];
        assert(kept[k].0@ == id);
    }
}

/// Whether one of the first `count` runs of a pass has this id and was not deleted.
spec fn takes_in(
    runs: Seq<RunEntry>,
    deletes: Seq<(String, u64)>,
    count: int,
    id: Seq<char>,
) -> bool {
    exists|j: int|
        0 <= j < count && (#[trigger] runs[j]).meta.run_id@ == id && !is_deleted(
            deletes,
            runs[j].meta.run_id@,
        )
}

/// The row of a run that the pass has not come to is as it was.
proof fn rows_wait_for_their_runs(
    before: Synced,
    runs: Seq<RunEntry>,
    deletes: Seq<(String, u64)>,
    reading: Reading,
    count: int,
    i: int,
)
    requires
        0 <= count <= runs.len(),
        reading.known == before.agents.len(),
        0 <= i < before.agents.len(),
        !takes_in(runs, deletes, count, before.agents[i].id),
    ensures
        synced(before, runs, deletes, reading, count).agents.len() >= before.agents.len(),
        synced(before, runs, deletes, reading, count).agents[i] == before.agents[i],
    decreases count,
{
    reveal(synced);
    rows_and_toasts_stay(before, runs, deletes, reading, count);
    if count > 0 {
        assert forall|j: int| 0 <= j < count - 1 implies !((#[trigger] runs[j]).meta.run_id@
            == before.agents[i].id && !is_deleted(deletes, runs[j].meta.run_id@)) by {
            assert(!takes_in(runs, deletes, count, before.agents[i].id));
        }
        rows_wait_for_their_runs(before, runs, deletes, reading, count - 1, i);
        rows_and_toasts_stay(before, runs, deletes, reading, count - 1);
        let so_far = synced(before, runs, deletes, reading, count - 1);
        let entry = runs[count - 1];
        known_at_is_a_row(so_far.agents, entry.meta.run_id@, reading.known);
        assert(runs[count - 1].meta.run_id@ != before.agents[i].id || is_deleted(
            deletes,
            entry.meta.run_id@,
        ));
    }
}

/// A known run's row is that of the list before the pass, as far as ids go.
proof fn known_by_id(
    before: Seq<AgentView>,
    after: Seq<AgentView>,
    id: Seq<char>,
    count: int,
)
    requires
        0 <= count <= before.len(),
        count <= after.len(),
        forall|i: int| 0 <= i < count ==> (#[trigger] after[i]).id == before[i].id,
    ensures
        known_at(after, id, count) == known_at(before, id, count),
    decreases count,
{
    if count > 0 {
        assert(after[count - 1].id == before[count - 1].id);
        known_by_id(before, after, id, count - 1);
    }
}

/// The row that a pass leaves a run with: its row of before, given what was read of
/// it, or a new one.
proof fn the_row_of_a_run(
    before: Synced,
    runs: Seq<RunEntry>,
    deletes: Seq<(String, u64)>,
    reading: Reading,
    count: int,
    j: int,
) -> (i: int)
    requires
        0 <= j < count <= runs.len(),
        reading.known == before.agents.len(),
        distinct_rows(before.agents),
        distinct_runs(runs),
        !is_deleted(deletes, runs[j].meta.run_id@),
    ensures
        0 <= i < synced(before, runs, deletes, reading, count).agents.len(),
        match known_at(before.agents, runs[j].meta.run_id@, reading.known) {
            Some(at) => i == at && synced(before, runs, deletes, reading, count).agents[i]
                == refreshed(before.agents[at], runs[j], reading),
            None => before.agents.len() <= i && synced(
                before,
                runs,
                deletes,
                reading,
                count,
            ).agents[i] == admitted(runs[j], reading),
        },
    decreases count,
{
    reveal(synced);
    let id = runs[j].meta.run_id@;
    let so_far = synced(before, runs, deletes, reading, count - 1);
    let after = synced(before, runs, deletes, reading, count);
    rows_and_toasts_stay(before, runs, deletes, reading, count - 1);
    known_at_is_a_row(before.agents, id, reading.known);
    if j == count - 1 {
        known_by_id(before.agents, so_far.agents, id, reading.known);
        match known_at(before.agents, id, reading.known) {
            Some(at) => {
                assert(!takes_in(runs, deletes, count - 1, id)) by {
                    if takes_in(runs, deletes, count - 1, id) {
                        let k = choose|k: int|
                            0 <= k < count - 1 && (#[trigger] runs[k]).meta.run_id@ == id;
                        assert(runs[k].meta.run_id@ != runs[j].meta.run_id@);
                    }
                }
                rows_wait_for_their_runs(before, runs, deletes, reading, count - 1, at);
                at
            },
            None => so_far.agents.len() as int,
        }
    } else {
        let i = the_row_of_a_run(before, runs, deletes, reading, count - 1, j);
        let entry = runs[count - 1];
        assert(runs[j].meta.run_id@ != runs[count - 1].meta.run_id@);
        known_at_is_a_row(so_far.agents, entry.meta.run_id@, reading.known);
        i
    }
}

/// The row that a snapshot leaves a run with.
proof fn the_row_after_a_snapshot(
    before: Dashboard,
    after: Dashboard,
    snapshot: RunSnapshot,
    j: int,
) -> (i: int)
    requires
        views(after.runs.agents@) == applied(before, snapshot).agents,
        rows_have_own_ids(before),
        runs_have_own_ids(snapshot),
        0 <= j < snapshot.runs@.len(),
        !deleted_since(before, snapshot, snapshot.runs@[j].meta.run_id@),
    ensures
        0 <= i < after.runs.agents@.len(),
        match known_at(
            views(before.runs.agents@),
            snapshot.runs@[j].meta.run_id@,
            before.runs.agents@.len() as int,
        ) {
            Some(at) => i == at && 0 <= at < before.runs.agents@.len() && after.runs.agents@[i]@
                == refreshed(
                before.runs.agents@[at]@,
                snapshot.runs@[j],
                reading_of(before, snapshot),
            ),
            None => before.runs.agents@.len() <= i && after.runs.agents@[i]@ == admitted(
                snapshot.runs@[j],
                reading_of(before, snapshot),
            ),
        },
{
    let start = Synced {
        agents: views(before.runs.agents@),
        toasts: views(before.notes.toasts@),
        order_changed: !before.feed.initial_sync_done,
    };
    let id = snapshot.runs@[j].meta.run_id@;
    let deletes = standing_deletes(before.feed.deleted_runs@, snapshot.taken_at);
    standing_deletes_are_since(before, snapshot, id);
    assert(distinct_rows(start.agents)) by {
        assert forall|a: int, b: int| 0 <= a < b < start.agents.len() implies (
        #[trigger] start.agents[a]).id != (#[trigger] start.agents[b]).id by {
            assert(before.runs.agents@[a].id@ != before.runs.agents@[b].id@);
        }
    }
    known_at_is_a_row(start.agents, id, start.agents.len() as int);
    let i = the_row_of_a_run(
        start,
        snapshot.runs@,
        deletes,
        reading_of(before, snapshot),
        snapshot.runs@.len() as int,
        j,
    );
    assert(views(after.runs.agents@)[i] == after.runs.agents@[i]@);
    i
}

/// Every run that a snapshot reads, and that was not deleted since, has a row that
/// shows its record: in particular the row of a run that ended says so, in the same
/// words as the record.
pub proof fn a_row_shows_its_record(
    before: Dashboard,
    after: Dashboard,
    snapshot: RunSnapshot,
    j: int,
)
    requires
        views(after.runs.agents@) == applied(before, snapshot).agents,
        rows_have_own_ids(before),
        runs_have_own_ids(snapshot),
        0 <= j < snapshot.runs@.len(),
        !deleted_since(before, snapshot, snapshot.runs@[j].meta.run_id@),
    ensures
        exists|i: int|
            0 <= i < after.runs.agents@.len() && shows_record(
                #[trigger] after.runs.agents@[i],
                *snapshot.runs@[j].meta,
                has_prompt(before, snapshot.runs@[j].meta.run_id@),
                was_abandoned(before, snapshot.runs@[j].meta.run_id@),
                before.feed.now,
            ),
{
    let run = *snapshot.runs@[j].meta;
    let id = run.run_id@;
    let i = the_row_after_a_snapshot(before, after, snapshot, j);
    let row = after.runs.agents@[i];
    first_prompt(before.feed.pending_interactions@, id, 0);
    known_at_is_a_row(
        views(before.runs.agents@),
        id,
        before.runs.agents@.len() as int,
    );
    abandoned_by_id(before, id);
    assert(row@.id == id);
    assert(row.status@ == row@.status);
    assert(opt_view(row.wait_reason) == opt_view(run.waiting_on));
    if row.wait_reason is Some {
        assert(row.wait_reason->0@ == run.waiting_on->0@);
        assert(row.wait_reason->0@.label == row.wait_reason->0.label@);
    }
    assert(shows_record(row, run, has_prompt(before, id), was_abandoned(before, id), before.feed.now));
}

/// A run is among the abandoned by its id.
proof fn abandoned_by_id(dash: Dashboard, id: Seq<char>)
    ensures
        among(views(dash.feed.abandoned_runs@), id) <==> was_abandoned(dash, id),
{
    let runs = dash.feed.abandoned_runs@;
    if among(views(runs), id) {
        let k = choose|k: int| 0 <= k < views(runs).len() && views(runs)[k] == id;
        assert(runs[k]@ == id);
    }
    if was_abandoned(dash, id) {
        let k = choose|k: int| 0 <= k < runs.len() && (#[trigger] runs[k])@ == id;
        assert(views(runs)[k] == id);
    }
}

/// The row of a run shows the prompt that the run is blocked on: the first that is
/// open for it, unless that is the one its person answered last, which leaves the
/// row as it was; and none where none is open, but for a run that has completed and
/// still takes messages.
pub proof fn a_row_shows_its_prompt(
    before: Dashboard,
    after: Dashboard,
    snapshot: RunSnapshot,
    j: int,
    i: int,
)
    requires
        views(after.runs.agents@) == applied(before, snapshot).agents,
        rows_have_own_ids(before),
        runs_have_own_ids(snapshot),
        0 <= j < snapshot.runs@.len(),
        !deleted_since(before, snapshot, snapshot.runs@[j].meta.run_id@),
        0 <= i < after.runs.agents@.len(),
        after.runs.agents@[i].id@ == snapshot.runs@[j].meta.run_id@,
    ensures
        ({
            let run = *snapshot.runs@[j].meta;
            let prompts = before.feed.pending_interactions@;
            let row = after.runs.agents@[i];
            &&& !has_prompt(before, run.run_id@) && run.status != RunStatus::CompleteInteractive
                ==> row.pending_request is None && row.waiting_prompt is None
            &&& forall|k: int|
                #![trigger prompts[k]]
                0 <= k < prompts.len() && prompts[k].0@ == run.run_id@ && (forall|m: int|
                    0 <= m < k ==> (#[trigger] prompts[m]).0@ != run.run_id@) ==> {
                    let answered = i < before.runs.agents@.len()
                        && before.runs.agents@[i].last_answered_request_id is Some
                        && before.runs.agents@[i].last_answered_request_id->0@ == prompts[k].1.id@
                        && prompts[k].1.id@.len() > 0;
                    if answered {
                        opt_view(row.pending_request) == opt_view(
                            before.runs.agents@[i].pending_request,
                        )
                    } else {
                        &&& row.pending_request is Some
                        &&& row.pending_request->0@ == prompts[k].1@
                        &&& row.waiting_prompt is Some
                        &&& row.waiting_prompt->0@ == prompts[k].1.prompt@
                    }
                }
        }),
{
    let run = *snapshot.runs@[j].meta;
    let id = run.run_id@;
    let prompts = before.feed.pending_interactions@;
    let row = after.runs.agents@[i];
    let here = the_row_after_a_snapshot(before, after, snapshot, j);
    rows_keep_own_ids(before, after, snapshot);
    known_at_is_a_row(views(before.runs.agents@), id, before.runs.agents@.len() as int);
    assert(after.runs.agents@[here]@.id == id);
    assert(here == i) by {
        if here < i {
            assert(after.runs.agents@[here].id@ != after.runs.agents@[i].id@);
        } else if i < here {
            assert(after.runs.agents@[i].id@ != after.runs.agents@[here].id@);
        }
    }
    first_prompt(prompts, id, 0);
    assert(opt_text(row.waiting_prompt) == row@.waiting_prompt);
    assert forall|k: int|
        #![trigger prompts[k]]
        0 <= k < prompts.len() && prompts[k].0@ == id && (forall|m: int|
            0 <= m < k ==> (#[trigger] prompts[m]).0@ != id) implies prompt_of(prompts, id) == Some(
        prompts[k].1@,
    ) by {
        let f = choose|f: int|
            0 <= f < prompts.len() && (#[trigger] prompts[f]).0@ == id && prompts[f].1@
                == prompt_of(prompts, id)->0 && forall|m: int|
                0 <= m < f ==> (#[trigger] prompts[m]).0@ != id;
        if f < k {
            assert(prompts[f].0@ != id);
        } else if k < f {
            assert(prompts[k].0@ != id);
        }
    }
    if i < before.runs.agents@.len() {
        assert(views(before.runs.agents@)[i] == before.runs.agents@[i]@);
    }
}

/// A snapshot that reads no run twice lists no run twice.
pub proof fn rows_keep_own_ids(before: Dashboard, after: Dashboard, snapshot: RunSnapshot)
    requires
        views(after.runs.agents@) == applied(before, snapshot).agents,
        rows_have_own_ids(before),
        runs_have_own_ids(snapshot),
    ensures
        rows_have_own_ids(after),
{
    let start = Synced {
        agents: views(before.runs.agents@),
        toasts: views(before.notes.toasts@),
        order_changed: !before.feed.initial_sync_done,
    };
    assert forall|a: int, b: int| 0 <= a < b < start.agents.len() implies (
    #[trigger] start.agents[a]).id != (#[trigger] start.agents[b]).id by {
        assert(before.runs.agents@[a].id@ != before.runs.agents@[b].id@);
    }
    rows_stay_distinct(
        start,
        snapshot.runs@,
        standing_deletes(before.feed.deleted_runs@, snapshot.taken_at),
        reading_of(before, snapshot),
        snapshot.runs@.len() as int,
    );
    assert forall|a: int, b: int| 0 <= a < b < after.runs.agents@.len() implies (
    #[trigger] after.runs.agents@[a]).id@ != (#[trigger] after.runs.agents@[b]).id@ by {
        assert(views(after.runs.agents@)[a].id != views(after.runs.agents@)[b].id);
    }
}

/// A snapshot touches only what it reads: the rows that were there keep their
/// places, one whose run was not read, or was deleted since, is as it was, and every
/// row behind them is of a run that was read.
pub proof fn a_snapshot_touches_only_what_it_reads(
    before: Dashboard,
    after: Dashboard,
    snapshot: RunSnapshot,
    i: int,
)
    requires
        views(after.runs.agents@) == applied(before, snapshot).agents,
        rows_have_own_ids(before),
        runs_have_own_ids(snapshot),
        0 <= i < after.runs.agents@.len(),
    ensures
        before.runs.agents@.len() <= after.runs.agents@.len(),
        i < before.runs.agents@.len() ==> after.runs.agents@[i].id@ == before.runs.agents@[i].id@,
        i < before.runs.agents@.len() && !reads(before, snapshot, before.runs.agents@[i].id@)
            ==> after.runs.agents@[i]@ == before.runs.agents@[i]@,
        i >= before.runs.agents@.len() ==> reads(before, snapshot, after.runs.agents@[i].id@),
{
    let start = Synced {
        agents: views(before.runs.agents@),
        toasts: views(before.notes.toasts@),
        order_changed: !before.feed.initial_sync_done,
    };
    let runs = snapshot.runs@;
    let deletes = standing_deletes(before.feed.deleted_runs@, snapshot.taken_at);
    let reading = reading_of(before, snapshot);
    let count = runs.len() as int;
    assert(views(after.runs.agents@)[i] == after.runs.agents@[i]@);
    rows_and_toasts_stay(start, runs, deletes, reading, count);
    if i < before.runs.agents@.len() {
        let id = before.runs.agents@[i].id@;
        assert(start.agents[i] == before.runs.agents@[i]@);
        assert(synced(start, runs, deletes, reading, count).agents[i].id == id);
        if !reads(before, snapshot, id) {
            standing_deletes_are_since(before, snapshot, id);
            assert(!takes_in(runs, deletes, count, id)) by {
                if takes_in(runs, deletes, count, id) {
                    let j = choose|j: int|
                        0 <= j < count && (#[trigger] runs[j]).meta.run_id@ == id && !is_deleted(
                            deletes,
                            runs[j].meta.run_id@,
                        );
                    assert(snapshot.runs@[j].meta.run_id@ == id);
                }
            }
            rows_wait_for_their_runs(start, runs, deletes, reading, count, i);
        }
    } else {
        new_rows_are_of_read_runs(start, runs, deletes, reading, count, i);
        let id = after.runs.agents@[i].id@;
        standing_deletes_are_since(before, snapshot, id);
        let j = choose|j: int|
            0 <= j < count && (#[trigger] runs[j]).meta.run_id@ == id && !is_deleted(
                deletes,
                runs[j].meta.run_id@,
            );
        assert(snapshot.runs@[j].meta.run_id@ == id);
    }
}

/// The rows a pass adds are of runs that it takes in.
proof fn new_rows_are_of_read_runs(
    before: Synced,
    runs: Seq<RunEntry>,
    deletes: Seq<(String, u64)>,
    reading: Reading,
    count: int,
    i: int,
)
    requires
        0 <= count <= runs.len(),
        reading.known == before.agents.len(),
        before.agents.len() <= i < synced(before, runs, deletes, reading, count).agents.len(),
    ensures
        takes_in(
            runs,
            deletes,
            count,
            synced(before, runs, deletes, reading, count).agents[i].id,
        ),
    decreases count,
{
    reveal(synced);
    if count > 0 {
        rows_and_toasts_stay(before, runs, deletes, reading, count - 1);
        let so_far = synced(before, runs, deletes, reading, count - 1);
        let after = synced(before, runs, deletes, reading, count);
        let entry = runs[count - 1];
        if !is_deleted(deletes, entry.meta.run_id@) {
            known_at_is_a_row(so_far.agents, entry.meta.run_id@, reading.known);
        }
        if i < so_far.agents.len() {
            new_rows_are_of_read_runs(before, runs, deletes, reading, count - 1, i);
            let j = choose|j: int|
                0 <= j < count - 1 && (#[trigger] runs[j]).meta.run_id@ == so_far.agents[i].id
                    && !is_deleted(deletes, runs[j].meta.run_id@);
            assert(runs[j].meta.run_id@ == after.agents[i].id);
        } else {
            assert(runs[count - 1].meta.run_id@ == after.agents[i].id);
        }
    }
}

/// A run that was not listed gets a row of its own, with what its record says of where
/// it came from; one that was listed keeps that. Either has the stages that were read
/// of it, and the context window where it is the run that one was read for.
pub proof fn a_row_is_of_its_run(
    before: Dashboard,
    after: Dashboard,
    snapshot: RunSnapshot,
    j: int,
    i: int,
)
    requires
        views(after.runs.agents@) == applied(before, snapshot).agents,
        rows_have_own_ids(before),
        runs_have_own_ids(snapshot),
        0 <= j < snapshot.runs@.len(),
        !deleted_since(before, snapshot, snapshot.runs@[j].meta.run_id@),
        0 <= i < after.runs.agents@.len(),
        after.runs.agents@[i].id@ == snapshot.runs@[j].meta.run_id@,
    ensures
        ({
            let run = *snapshot.runs@[j].meta;
            let row = after.runs.agents@[i];
            &&& row.stages == snapshot.runs@[j].stages
            &&& match snapshot.context {
                Some((of, window)) => row.context_snapshot == (if of@ == run.run_id@ {
                    Some(window)
                } else {
                    None
                }),
                None => row.context_snapshot is None,
            }
            &&& if i < before.runs.agents@.len() {
                let old = before.runs.agents@[i];
                &&& old.id@ == row.id@
                &&& row.blueprint_name@ == old.blueprint_name@
                &&& row.task@ == old.task@
                &&& row.started_at == old.started_at
                &&& row.graph == old.graph
                &&& row.accepts_messages == old.accepts_messages
                &&& row@.model == old@.model
                &&& row@.parent_id == old@.parent_id
                &&& row@.broken_scripts == old@.broken_scripts
            } else {
                &&& forall|k: int|
                    0 <= k < before.runs.agents@.len() ==> (
                    #[trigger] before.runs.agents@[k]).id@ != run.run_id@
                &&& row.blueprint_name@ == run.agent_name@
                &&& row.task@ == run.task@
                &&& row.started_at == run.started_at
                &&& row.graph == snapshot.runs@[j].graph
                &&& row.accepts_messages
                &&& row.last_answered_request_id is None
                &&& row.model is Some <==> run.model is Some
                &&& row.model is Some ==> row.model->0@ == run.model->0@
                &&& row.parent_id is Some <==> run.parent_run_id is Some
                &&& row.parent_id is Some ==> row.parent_id->0@ == run.parent_run_id->0@
                &&& row.broken_scripts@.len() == run.broken_scripts@.len()
                &&& forall|k: int|
                    0 <= k < row.broken_scripts@.len() ==> (#[trigger] row.broken_scripts@[k])@
                        == run.broken_scripts@[k]@
            }
        }),
{
    let run = *snapshot.runs@[j].meta;
    let id = run.run_id@;
    let row = after.runs.agents@[i];
    let here = the_row_after_a_snapshot(before, after, snapshot, j);
    rows_keep_own_ids(before, after, snapshot);
    known_at_is_a_row(views(before.runs.agents@), id, before.runs.agents@.len() as int);
    assert(after.runs.agents@[here]@.id == id);
    assert(here == i) by {
        if here < i {
            assert(after.runs.agents@[here].id@ != after.runs.agents@[i].id@);
        } else if i < here {
            assert(after.runs.agents@[i].id@ != after.runs.agents@[here].id@);
        }
    }
    if i >= before.runs.agents@.len() {
        assert(views(row.broken_scripts@) == views(run.broken_scripts@));
        assert forall|k: int| 0 <= k < row.broken_scripts@.len() implies (
        #[trigger] row.broken_scripts@[k])@ == run.broken_scripts@[k]@ by {
            assert(views(row.broken_scripts@)[k] == views(run.broken_scripts@)[k]);
        }
        assert forall|k: int| 0 <= k < before.runs.agents@.len() implies (
        #[trigger] before.runs.agents@[k]).id@ != id by {
            assert(views(before.runs.agents@)[k].id != id);
        }
        assert(opt_text(row.model) == row@.model && opt_text(row.parent_id) == row@.parent_id);
    } else {
        assert(views(before.runs.agents@)[i] == before.runs.agents@[i]@);
    }
}

/// What one run adds to the toasts, by how its row stood and what its record says.
pub open spec fn says_rightly(
    news: Seq<ToastView>,
    old_row: Option<DashboardAgent>,
    run: RunMeta,
    prompted: bool,
    settled: bool,
) -> bool {
    let ended_well = run.status == RunStatus::Complete || run.status
        == RunStatus::CompleteInteractive;
    &&& news.len() <= 2
    &&& forall|k: int|
        #![trigger news[k]]
        0 <= k < news.len() ==> {
            &&& match (old_row, news[k].level) {
                (Some(row), ToastLevel::Error) => row.title matches Some(t) ==> ("Agent run '"@ + t@
                    + "' failed"@).is_prefix_of(news[k].message),
                (Some(row), ToastLevel::Info) => row.title matches Some(t) ==> news[k].message
                    == "Agent run '"@ + t@ + "' completed"@,
                (_, ToastLevel::Warning) => run.title matches Some(t) ==> news[k].message
                    == "Agent run '"@ + t@ + "' needs input"@,
                (None, ToastLevel::Info) => run.title matches Some(t) ==> news[k].message
                    == "Agent run '"@ + t@ + "' completed"@,
                _ => true,
            }
            &&& news[k].level == ToastLevel::Error ==> run.status == RunStatus::Error
                && news[k].remaining_ticks == 50
            &&& news[k].level == ToastLevel::Info ==> ended_well && news[k].remaining_ticks == 35
            &&& news[k].level == ToastLevel::Warning ==> run.status == RunStatus::WaitingInput
                && prompted && news[k].remaining_ticks == 35
        }
    &&& match old_row {
        Some(row) => {
            let was_going = row.status is Active || row.status is Waiting;
            &&& (was_going && run.status == RunStatus::Error <==> exists|k: int|
                0 <= k < news.len() && (#[trigger] news[k]).level == ToastLevel::Error)
            &&& (was_going && ended_well <==> exists|k: int|
                0 <= k < news.len() && (#[trigger] news[k]).level == ToastLevel::Info)
            &&& row.waiting_prompt is Some ==> forall|k: int|
                0 <= k < news.len() ==> (#[trigger] news[k]).level != ToastLevel::Warning
            &&& row.waiting_prompt is None && row.last_answered_request_id is None && prompted
                && run.status == RunStatus::WaitingInput ==> exists|k: int|
                0 <= k < news.len() && (#[trigger] news[k]).level == ToastLevel::Warning
        },
        None => {
            &&& !settled ==> news.len() == 0
            &&& (settled && ended_well <==> exists|k: int|
                0 <= k < news.len() && (#[trigger] news[k]).level == ToastLevel::Info)
            &&& (settled && prompted && run.status == RunStatus::WaitingInput <==> exists|k: int|
                0 <= k < news.len() && (#[trigger] news[k]).level == ToastLevel::Warning)
            &&& forall|k: int|
                0 <= k < news.len() ==> (#[trigger] news[k]).level != ToastLevel::Error
        },
    }
}

/// Reading one more run adds its toasts behind the others: about a run that was going
/// and failed or completed, about one that newly needs input, and about one that was
/// not listed and has completed or needs input, unless the list is filled for the
/// first time. A run deleted since adds none.
pub proof fn one_more_run_adds_its_toasts(
    dash: Dashboard,
    fewer: RunSnapshot,
    more: RunSnapshot,
    entry: RunEntry,
    row: Option<int>,
)
    requires
        rows_have_own_ids(dash),
        runs_have_own_ids(more),
        more.runs@ == fewer.runs@.push(entry),
        more.taken_at == fewer.taken_at,
        more.context == fewer.context,
        match row {
            Some(i) => 0 <= i < dash.runs.agents@.len() && dash.runs.agents@[i].id@
                == entry.meta.run_id@,
            None => forall|i: int|
                0 <= i < dash.runs.agents@.len() ==> (#[trigger] dash.runs.agents@[i]).id@
                    != entry.meta.run_id@,
        },
    ensures
        ({
            let was = applied(dash, fewer).toasts;
            let is = applied(dash, more).toasts;
            let news = is.skip(was.len() as int);
            &&& is.len() >= was.len() && is.take(was.len() as int) == was
            &&& deleted_since(dash, more, entry.meta.run_id@) ==> news.len() == 0
            &&& !deleted_since(dash, more, entry.meta.run_id@) ==> says_rightly(
                news,
                match row {
                    Some(i) => Some(dash.runs.agents@[i]),
                    None => None,
                },
                *entry.meta,
                has_prompt(dash, entry.meta.run_id@),
                dash.feed.initial_sync_done,
            )
        }),
{
    let start = Synced {
        agents: views(dash.runs.agents@),
        toasts: views(dash.notes.toasts@),
        order_changed: !dash.feed.initial_sync_done,
    };
    let id = entry.meta.run_id@;
    let deletes = standing_deletes(dash.feed.deleted_runs@, more.taken_at);
    let reading = reading_of(dash, more);
    let count = more.runs@.len() as int;
    standing_deletes_are_since(dash, more, id);
    the_same_runs_come_to_the_same(start, fewer.runs@, more.runs@, deletes, reading, count - 1);
    reveal(synced);
    let so_far = synced(start, more.runs@, deletes, reading, count - 1);
    assert(so_far == applied(dash, fewer));
    let is = applied(dash, more).toasts;
    let was = so_far.toasts;
    rows_and_toasts_stay(start, more.runs@, deletes, reading, count - 1);
    known_by_id(start.agents, so_far.agents, id, reading.known);
    known_at_is_a_row(start.agents, id, reading.known);
    first_prompt(dash.feed.pending_interactions@, id, 0);
    assert forall|a: int, b: int| 0 <= a < b < start.agents.len() implies (
    #[trigger] start.agents[a]).id != (#[trigger] start.agents[b]).id by {
        assert(dash.runs.agents@[a].id@ != dash.runs.agents@[b].id@);
    }
    if is_deleted(deletes, id) {
        assert(is.take(was.len() as int) =~= was);
    } else {
        let prompt = prompt_of(reading.prompts, id);
        match row {
            Some(i) => {
                assert(start.agents[i] == dash.runs.agents@[i]@);
                let at = known_at(start.agents, id, reading.known)->0;
                assert(at == i) by {
                    if at < i {
                        assert(start.agents[at].id != start.agents[i].id);
                    } else if i < at {
                        assert(start.agents[i].id != start.agents[at].id);
                    }
                }
                assert(!takes_in(more.runs@, deletes, count - 1, id)) by {
                    if takes_in(more.runs@, deletes, count - 1, id) {
                        let k = choose|k: int|
                            0 <= k < count - 1 && (#[trigger] more.runs@[k]).meta.run_id@ == id;
                        assert(more.runs@[k].meta.run_id@ != more.runs@[count - 1].meta.run_id@);
                    }
                }
                rows_wait_for_their_runs(start, more.runs@, deletes, reading, count - 1, i);
                let old_row = dash.runs.agents@[i];
                let stale = among(reading.abandoned, id);
                let run = *more.runs@[count - 1].meta;
                let status = standing(run, prompt, stale);
                let first = transition_toasts(old_row@, status);
                let second = prompt_toasts(old_row@, run, prompt);
                let news = is.skip(was.len() as int);
                assert(news =~= first + second);
                if first.len() > 0 {
                    assert(news[0] == first[0]);
                }
                if second.len() > 0 {
                    assert(news[first.len() as int] == second[0]);
                }
            },
            None => {
                if known_at(start.agents, id, reading.known) is Some {
                    let at = known_at(start.agents, id, reading.known)->0;
                    assert(dash.runs.agents@[at].id@ != id);
                }
                let news = is.skip(was.len() as int);
                assert(news =~= arrival_toasts(entry, reading));
                if news.len() > 0 {
                    assert(news[0].level == arrival_toasts(entry, reading)[0].level);
                }
            },
        }
        assert(is.take(was.len() as int) =~= was);
    }
}

/// A pass over the same first runs comes to the same.
proof fn the_same_runs_come_to_the_same(
    before: Synced,
    these: Seq<RunEntry>,
    those: Seq<RunEntry>,
    deletes: Seq<(String, u64)>,
    reading: Reading,
    count: int,
)
    requires
        0 <= count <= these.len(),
        count <= those.len(),
        forall|j: int| 0 <= j < count ==> these[j] == those[j],
    ensures
        synced(before, these, deletes, reading, count) == synced(
            before,
            those,
            deletes,
            reading,
            count,
        ),
    decreases count,
{
    reveal(synced);
    if count > 0 {
        the_same_runs_come_to_the_same(before, these, those, deletes, reading, count - 1);
    }
}

/// A pass that leaves the order of the list alone has added no row, and no row's
/// status, progress or title is another than it was.
proof fn order_stays_where_nothing_moved(
    before: Synced,
    runs: Seq<RunEntry>,
    deletes: Seq<(String, u64)>,
    reading: Reading,
    count: int,
)
    requires
        0 <= count <= runs.len(),
        reading.known == before.agents.len(),
        !synced(before, runs, deletes, reading, count).order_changed,
    ensures
        !before.order_changed,
        synced(before, runs, deletes, reading, count).agents.len() == before.agents.len(),
        forall|i: int|
            0 <= i < before.agents.len() ==> {
                let row = (#[trigger] synced(before, runs, deletes, reading, count).agents[i]);
                &&& row.status == before.agents[i].status
                &&& row.last_progress_at == before.agents[i].last_progress_at
                &&& row.title == before.agents[i].title
            },
    decreases count,
{
    reveal(synced);
    if count > 0 {
        order_stays_where_nothing_moved(before, runs, deletes, reading, count - 1);
        let so_far = synced(before, runs, deletes, reading, count - 1);
        let entry = runs[count - 1];
        if !is_deleted(deletes, entry.meta.run_id@) {
            known_at_is_a_row(so_far.agents, entry.meta.run_id@, reading.known);
        }
    }
}

/// The order of the list is worked out afresh whenever a row is new, or its status,
/// its progress or its title is another than it was, and when the list is filled for
/// the first time.
pub proof fn what_moved_is_put_in_order(before: Dashboard, after: Dashboard, snapshot: RunSnapshot)
    requires
        views(after.runs.agents@) == applied(before, snapshot).agents,
        after.runs.order_stale == (before.runs.order_stale || applied(
            before,
            snapshot,
        ).order_changed),
    ensures
        before.runs.order_stale ==> after.runs.order_stale,
        !before.feed.initial_sync_done ==> after.runs.order_stale,
        after.runs.agents@.len() != before.runs.agents@.len() ==> after.runs.order_stale,
        forall|i: int|
            #![trigger after.runs.agents@[i]]
            0 <= i < before.runs.agents@.len() && !after.runs.order_stale ==> {
                &&& after.runs.agents@[i].status@ == before.runs.agents@[i].status@
                &&& after.runs.agents@[i].last_progress_at
                    == before.runs.agents@[i].last_progress_at
                &&& after.runs.agents@[i]@.title == before.runs.agents@[i]@.title
            },
{
    let start = Synced {
        agents: views(before.runs.agents@),
        toasts: views(before.notes.toasts@),
        order_changed: !before.feed.initial_sync_done,
    };
    let deletes = standing_deletes(before.feed.deleted_runs@, snapshot.taken_at);
    let reading = reading_of(before, snapshot);
    let count = snapshot.runs@.len() as int;
    if !applied(before, snapshot).order_changed {
        order_stays_where_nothing_moved(start, snapshot.runs@, deletes, reading, count);
        let agents = synced(start, snapshot.runs@, deletes, reading, count).agents;
        assert forall|i: int|
            #![trigger after.runs.agents@[i]]
            0 <= i < before.runs.agents@.len() implies {
            &&& after.runs.agents@[i].status@ == before.runs.agents@[i].status@
            &&& after.runs.agents@[i].last_progress_at == before.runs.agents@[i].last_progress_at
            &&& after.runs.agents@[i]@.title == before.runs.agents@[i]@.title
        } by {
            assert(agents[i] == after.runs.agents@[i]@);
            assert(start.agents[i] == before.runs.agents@[i]@);
        }
    }
}

/// The loader is told of the run under the cursor when that is another than it was told of last,
/// and not again while it stays.
pub proof fn the_loader_is_told_when_the_cursor_moves(dash: Dashboard)
    ensures
        ({
            let last = opt_text(dash.feed.link.last_showing);
            let now = match dash.current() {
                Some(agent) => Some(agent.id@),
                None => None,
            };
            &&& (last == now ==> told(dash) == asked(dash.feed.link.asks@))
            &&& (last != now ==> told(dash) == asked(dash.feed.link.asks@).push(now))
        }),
{
}

/// The snapshot that arrived last is the one that counts; until one arrives it is the one at hand.
pub proof fn the_newest_snapshot_counts(dash: Dashboard)
    ensures
        dash.feed.link.arrived is Some ==> newest(dash) == dash.feed.link.arrived,
        dash.feed.link.arrived is None ==> newest(dash) == dash.feed.snapshot,
{
}

/// A toast calls a run by its title, and by its blueprint, cut to twenty columns, where it has
/// none; one that failed says why in forty.
pub proof fn a_toast_calls_a_run_by_its_title(
    title: Option<Seq<char>>,
    blueprint: Seq<char>,
    why: Seq<char>,
)
    ensures
        title is Some ==> called(title, blueprint) == title->0,
        title is None ==> called(title, blueprint) == truncated(blueprint, 20),
        ({
            let name = called(title, blueprint);
            &&& completed(name).message == "Agent run '"@ + name + "' completed"@
            &&& needs_input(name).message == "Agent run '"@ + name + "' needs input"@
            &&& (why.len() > 0 ==> failed(name, why).message == "Agent run '"@ + name + "' failed"@
                + (": "@ + truncated(why, 40)))
            &&& (why.len() == 0 ==> failed(name, why).message == "Agent run '"@ + name
                + "' failed"@)
            &&& completed(name).level is Info
            &&& needs_input(name).level is Warning
            &&& failed(name, why).level is Error
        }),
{
    let name = called(title, blueprint);
    assert("Agent run '"@ + name + "' failed"@ + Seq::empty() =~= "Agent run '"@ + name
        + "' failed"@);
}

} // verus!
