//! The dashboard's data: runs and their stages, prompts, toasts, the new-run
//! screen's slots, and what a press of a key or a button can mean.

use crate::style::{Line, Rect, SpanView, Tone};
use crate::text::{copy_all, copy_of, copy_opt, opt_text};
use crate::views::{group_views, views};
use std::sync::Arc;
use vstd::prelude::*;

verus! {

broadcast use group_views;

// ── Runs ─────────────────────────────────────────────────────────────────────

/// How a run's record says it stands.
#[derive(Clone, Copy, Debug, PartialEq, Eq, Structural)]
pub enum RunStatus {
    Starting,
    Running,
    WaitingInput,
    Paused,
    Complete,
    CompleteInteractive,
    Error,
    Cancelled,
}

/// How a row of the run list stands.
#[derive(Clone, Debug, PartialEq, Eq)]
pub enum AgentDisplayStatus {
    Active,
    Waiting,
    Stale,
    Paused,
    Complete,
    CompleteInteractive,
    Cancelled,
    Error(String),
}

/// How a row of the run list stands.
#[verifier::ext_equal]
pub enum StatusView {
    Active,
    Waiting,
    Stale,
    Paused,
    Complete,
    CompleteInteractive,
    Cancelled,
    Error(Seq<char>),
}

impl View for AgentDisplayStatus {
    type V = StatusView;

    open spec fn view(&self) -> StatusView {
        match self {
            AgentDisplayStatus::Active => StatusView::Active,
            AgentDisplayStatus::Waiting => StatusView::Waiting,
            AgentDisplayStatus::Stale => StatusView::Stale,
            AgentDisplayStatus::Paused => StatusView::Paused,
            AgentDisplayStatus::Complete => StatusView::Complete,
            AgentDisplayStatus::CompleteInteractive => StatusView::CompleteInteractive,
            AgentDisplayStatus::Cancelled => StatusView::Cancelled,
            AgentDisplayStatus::Error(message) => StatusView::Error(message@),
        }
    }
}

impl StatusView {
    /// Whether a run that stands like this can be cancelled: it has not ended.
    pub open spec fn killable(self) -> bool {
        !self.over()
    }

    /// Whether the run has ended.
    pub open spec fn over(self) -> bool {
        self is Complete || self is CompleteInteractive || self is Cancelled || self is Error
    }

    /// What the status reads as.
    pub open spec fn label(self) -> Seq<char> {
        match self {
            StatusView::Active => "ACTIVE"@,
            StatusView::Waiting => "WAITING"@,
            StatusView::Stale => "STALE"@,
            StatusView::Paused => "PAUSED"@,
            StatusView::Complete => "COMPLETE"@,
            StatusView::CompleteInteractive => "COMPLETE"@,
            StatusView::Cancelled => "CANCELLED"@,
            StatusView::Error(message) => "ERROR: "@ + message,
        }
    }

    /// How the status shows in colour.
    pub open spec fn tone(self) -> Tone {
        match self {
            StatusView::Active => Tone::Active,
            StatusView::Waiting => Tone::Waiting,
            StatusView::Stale => Tone::Stale,
            StatusView::Paused => Tone::Paused,
            StatusView::Complete => Tone::Complete,
            StatusView::CompleteInteractive => Tone::CompleteInteractive,
            StatusView::Cancelled => Tone::Cancelled,
            StatusView::Error(_) => Tone::Error,
        }
    }
}

impl AgentDisplayStatus {
    /// Whether a run that stands like this can be cancelled.
    pub fn is_killable(&self) -> (killable: bool)
        ensures
            killable == self@.killable(),
    {
        !self.is_over()
    }

    /// Whether the run has ended.
    pub fn is_over(&self) -> (over: bool)
        ensures
            over == self@.over(),
    {
        match self {
            AgentDisplayStatus::Complete
            | AgentDisplayStatus::CompleteInteractive
            | AgentDisplayStatus::Cancelled
            | AgentDisplayStatus::Error(_) => true,
            _ => false,
        }
    }

    /// What the status reads as.
    pub fn label(&self) -> (label: String)
        ensures
            label@ == self@.label(),
    {
        match self {
            AgentDisplayStatus::Active => copy_of("ACTIVE"),
            AgentDisplayStatus::Waiting => copy_of("WAITING"),
            AgentDisplayStatus::Stale => copy_of("STALE"),
            AgentDisplayStatus::Paused => copy_of("PAUSED"),
            AgentDisplayStatus::Complete => copy_of("COMPLETE"),
            AgentDisplayStatus::CompleteInteractive => copy_of("COMPLETE"),
            AgentDisplayStatus::Cancelled => copy_of("CANCELLED"),
            AgentDisplayStatus::Error(message) => crate::text::cat2("ERROR: ", message.as_str()),
        }
    }

    /// How the status shows in colour.
    pub fn tone(&self) -> (tone: Tone)
        ensures
            tone == self@.tone(),
    {
        match self {
            AgentDisplayStatus::Active => Tone::Active,
            AgentDisplayStatus::Waiting => Tone::Waiting,
            AgentDisplayStatus::Stale => Tone::Stale,
            AgentDisplayStatus::Paused => Tone::Paused,
            AgentDisplayStatus::Complete => Tone::Complete,
            AgentDisplayStatus::CompleteInteractive => Tone::CompleteInteractive,
            AgentDisplayStatus::Cancelled => Tone::Cancelled,
            AgentDisplayStatus::Error(_) => Tone::Error,
        }
    }

    /// Whether two statuses are the same.
    pub fn same(&self, other: &AgentDisplayStatus) -> (equal: bool)
        ensures
            equal == (self@ == other@),
    {
        match (self, other) {
            (AgentDisplayStatus::Active, AgentDisplayStatus::Active) => true,
            (AgentDisplayStatus::Waiting, AgentDisplayStatus::Waiting) => true,
            (AgentDisplayStatus::Stale, AgentDisplayStatus::Stale) => true,
            (AgentDisplayStatus::Paused, AgentDisplayStatus::Paused) => true,
            (AgentDisplayStatus::Complete, AgentDisplayStatus::Complete) => true,
            (
                AgentDisplayStatus::CompleteInteractive,
                AgentDisplayStatus::CompleteInteractive,
            ) => true,
            (AgentDisplayStatus::Cancelled, AgentDisplayStatus::Cancelled) => true,
            (AgentDisplayStatus::Error(a), AgentDisplayStatus::Error(b)) => {
                crate::text::same(a.as_str(), b.as_str())
            },
            _ => false,
        }
    }
}

/// Why a run is parked: the words for it, and whether a person is needed.
#[derive(Clone, Debug, PartialEq, Eq)]
pub struct WaitReason {
    pub label: String,
    pub needs_person: bool,
}

/// Why a run is parked.
#[verifier::ext_equal]
pub struct WaitView {
    pub label: Seq<char>,
    pub needs_person: bool,
}

impl View for WaitReason {
    type V = WaitView;

    open spec fn view(&self) -> WaitView {
        WaitView { label: self.label@, needs_person: self.needs_person }
    }
}

/// An optional value through its view.
pub open spec fn opt_view<T: View>(value: Option<T>) -> Option<T::V> {
    match value {
        Some(v) => Some(v@),
        None => None,
    }
}

/// A copy of a reason.
pub fn copy_wait(reason: &Option<WaitReason>) -> (copy: Option<WaitReason>)
    ensures
        opt_view(copy) == opt_view(*reason),
{
    match reason {
        Some(r) => Some(
            WaitReason { label: copy_of(r.label.as_str()), needs_person: r.needs_person },
        ),
        None => None,
    }
}

/// What kind of answer a prompt asks for.
#[derive(Clone, Copy, Debug, PartialEq, Eq, Structural)]
pub enum InteractionKind {
    FreeText,
    EditText,
    MultipleChoice,
    ToolApproval,
    Confirm,
}

/// A prompt that a run is blocked on.
#[derive(Clone, Debug, PartialEq, Eq)]
pub struct InteractionRequest {
    pub id: String,
    pub kind: InteractionKind,
    pub prompt: String,
    pub options: Vec<String>,
    pub required: bool,
    pub stage_name: String,
    pub body: Option<String>,
}

/// A prompt that a run is blocked on.
#[verifier::ext_equal]
pub struct RequestView {
    pub id: Seq<char>,
    pub kind: InteractionKind,
    pub prompt: Seq<char>,
    pub options: Seq<Seq<char>>,
    pub required: bool,
    pub stage_name: Seq<char>,
    pub body: Option<Seq<char>>,
}

impl View for InteractionRequest {
    type V = RequestView;

    open spec fn view(&self) -> RequestView {
        RequestView {
            id: self.id@,
            kind: self.kind,
            prompt: self.prompt@,
            options: views(self.options@),
            required: self.required,
            stage_name: self.stage_name@,
            body: opt_text(self.body),
        }
    }
}

/// A copy of a prompt.
pub fn copy_request(request: &InteractionRequest) -> (copy: InteractionRequest)
    ensures
        copy@ == request@,
{
    InteractionRequest {
        id: copy_of(request.id.as_str()),
        kind: request.kind,
        prompt: copy_of(request.prompt.as_str()),
        options: copy_all(&request.options),
        required: request.required,
        stage_name: copy_of(request.stage_name.as_str()),
        body: copy_opt(&request.body),
    }
}

/// How a stage of a run stands.
#[derive(Clone, Copy, Debug, PartialEq, Eq, Structural)]
pub enum StageRunStatus {
    Pending,
    Active,
    WaitingInput,
    Complete,
    Error,
    Skipped,
}

/// How long something has been working: what was counted before, and since when
/// it counts now.
#[derive(Clone, Copy, Debug, PartialEq, Eq)]
pub struct ActiveClock {
    pub banked_secs: u64,
    pub since: Option<i64>,
}

impl ActiveClock {
    /// The seconds worked by `now`, held at the largest count. A clock that
    /// starts after `now` adds nothing.
    pub open spec fn secs(self, now: i64) -> nat {
        let running = match self.since {
            Some(since) if since < now => now - since,
            _ => 0,
        };
        if self.banked_secs + running > u64::MAX {
            u64::MAX as nat
        } else {
            (self.banked_secs + running) as nat
        }
    }

    /// The seconds worked by `now`.
    pub fn active_runtime_secs(&self, now: i64) -> (secs: u64)
        ensures
            secs == self.secs(now),
    {
        let running: u64 = match self.since {
            Some(since) => if since < now {
                (now as i128 - since as i128) as u64
            } else {
                0
            },
            None => 0,
        };
        self.banked_secs.saturating_add(running)
    }
}

/// One stage of a run, as its ledger records it.
#[derive(Clone, Debug, PartialEq, Eq)]
pub struct StageRecord {
    pub name: String,
    pub status: StageRunStatus,
    pub prompt_tokens: usize,
    pub completion_tokens: usize,
    pub started_at: Option<i64>,
    pub ended_at: Option<i64>,
    pub clock: ActiveClock,
}

/// One stage of a blueprint.
#[derive(Clone, Debug, PartialEq, Eq)]
pub struct StageNode {
    pub id: String,
    pub kind_label: String,
    pub max_iterations: Option<u64>,
    pub max_revisits: Option<u64>,
    pub self_loop: bool,
    pub inputs: Vec<String>,
    pub outputs: Vec<String>,
    pub description: Option<String>,
}

/// One transition of a blueprint. The condition label is empty where the
/// transition is always taken.
#[derive(Clone, Debug, PartialEq, Eq)]
pub struct StageEdge {
    pub from: String,
    pub to: String,
    pub condition_label: String,
    pub hint: Option<String>,
    pub transform: String,
    pub unseen: Vec<String>,
}

/// The stage graph of a blueprint.
#[derive(Clone, Debug, PartialEq, Eq)]
pub struct StageGraph {
    pub is_branching: bool,
    pub nodes: Vec<StageNode>,
    pub edges: Vec<StageEdge>,
}

/// A stored piece of an entry: its name, and the hash and type of its bytes
/// where it has any.
#[derive(Clone, Debug, PartialEq, Eq)]
pub struct Part {
    pub name: Option<String>,
    pub blob: Option<Blob>,
}

/// Stored bytes, by hash and type.
#[derive(Clone, Debug, PartialEq, Eq)]
pub struct Blob {
    pub sha256: String,
    pub mime_type: String,
}

/// One entry of a context region.
#[derive(Clone, Debug, PartialEq, Eq)]
pub struct ContextEntry {
    pub parts: Vec<Part>,
}

/// One region of a context window.
#[derive(Clone, Debug, PartialEq, Eq)]
pub struct ContextRegion {
    pub name: String,
    pub kind: String,
    pub current_tokens: usize,
    pub entries: Vec<ContextEntry>,
}

/// A run's context window.
#[derive(Clone, Debug, PartialEq, Eq)]
pub struct ContextSnapshot {
    pub total_tokens: usize,
    pub max_tokens: usize,
    pub regions: Vec<ContextRegion>,
}

/// A row of the context tree.
#[derive(Clone, Debug, PartialEq, Eq)]
pub enum TreeRow {
    Region { region: String },
    Entry { region: String, index: usize },
    Part { region: String, index: usize, part: usize },
}

/// One run as the list and the detail view show it.
#[derive(Clone, Debug, PartialEq, Eq)]
pub struct DashboardAgent {
    pub id: String,
    pub blueprint_name: String,
    pub stage: String,
    pub stage_index: usize,
    pub num_stages: usize,
    pub status: AgentDisplayStatus,
    pub tokens_in: usize,
    pub tokens_out: usize,
    pub cached_tokens: usize,
    pub iteration: usize,
    pub broken_scripts: Vec<String>,
    pub waiting_prompt: Option<String>,
    pub wait_reason: Option<WaitReason>,
    pub pending_request: Option<InteractionRequest>,
    pub last_answered_request_id: Option<String>,
    pub context_snapshot: Option<Arc<ContextSnapshot>>,
    pub stages: Arc<Vec<StageRecord>>,
    pub workdir: String,
    pub task: String,
    pub title: Option<String>,
    pub model: Option<String>,
    pub parent_id: Option<String>,
    pub started_at: i64,
    pub last_progress_at: Option<i64>,
    pub runtime_secs: u64,
    pub clock_now: i64,
    pub graph: Option<Arc<StageGraph>>,
    pub accepts_messages: bool,
}

/// One run as the list and the detail view show it.
#[verifier::ext_equal]
pub struct AgentView {
    pub id: Seq<char>,
    pub blueprint_name: Seq<char>,
    pub stage: Seq<char>,
    pub stage_index: usize,
    pub num_stages: usize,
    pub status: StatusView,
    pub tokens_in: usize,
    pub tokens_out: usize,
    pub cached_tokens: usize,
    pub iteration: usize,
    pub broken_scripts: Seq<Seq<char>>,
    pub waiting_prompt: Option<Seq<char>>,
    pub wait_reason: Option<WaitView>,
    pub pending_request: Option<RequestView>,
    pub last_answered_request_id: Option<Seq<char>>,
    pub context_snapshot: Option<Arc<ContextSnapshot>>,
    pub stages: Arc<Vec<StageRecord>>,
    pub workdir: Seq<char>,
    pub task: Seq<char>,
    pub title: Option<Seq<char>>,
    pub model: Option<Seq<char>>,
    pub parent_id: Option<Seq<char>>,
    pub started_at: i64,
    pub last_progress_at: Option<i64>,
    pub runtime_secs: u64,
    pub clock_now: i64,
    pub graph: Option<Arc<StageGraph>>,
    pub accepts_messages: bool,
}

impl View for DashboardAgent {
    type V = AgentView;

    open spec fn view(&self) -> AgentView {
        AgentView {
            id: self.id@,
            blueprint_name: self.blueprint_name@,
            stage: self.stage@,
            stage_index: self.stage_index,
            num_stages: self.num_stages,
            status: self.status@,
            tokens_in: self.tokens_in,
            tokens_out: self.tokens_out,
            cached_tokens: self.cached_tokens,
            iteration: self.iteration,
            broken_scripts: views(self.broken_scripts@),
            waiting_prompt: opt_text(self.waiting_prompt),
            wait_reason: opt_view(self.wait_reason),
            pending_request: opt_view(self.pending_request),
            last_answered_request_id: opt_text(self.last_answered_request_id),
            context_snapshot: self.context_snapshot,
            stages: self.stages,
            workdir: self.workdir@,
            task: self.task@,
            title: opt_text(self.title),
            model: opt_text(self.model),
            parent_id: opt_text(self.parent_id),
            started_at: self.started_at,
            last_progress_at: self.last_progress_at,
            runtime_secs: self.runtime_secs,
            clock_now: self.clock_now,
            graph: self.graph,
            accepts_messages: self.accepts_messages,
        }
    }
}

/// A run's record.
#[derive(Clone, Debug, PartialEq, Eq)]
pub struct RunMeta {
    pub run_id: String,
    pub agent_name: String,
    pub agent_path: String,
    pub current_stage: String,
    pub stage_index: usize,
    pub num_stages: usize,
    pub iteration: usize,
    pub prompt_tokens: usize,
    pub completion_tokens: usize,
    pub cached_tokens: usize,
    pub title: Option<String>,
    pub status: RunStatus,
    pub error: Option<String>,
    pub workdir: String,
    pub task: String,
    pub model: Option<String>,
    pub parent_run_id: Option<String>,
    pub started_at: i64,
    pub updated_at: i64,
    pub last_progress_at: Option<i64>,
    pub waiting_on: Option<WaitReason>,
    pub broken_scripts: Vec<String>,
    pub clock: ActiveClock,
}

/// One run as a pass over the runs directory reads it.
#[derive(Clone, Debug, PartialEq, Eq)]
pub struct RunEntry {
    pub meta: Arc<RunMeta>,
    /// The run's stage ledger; empty until it has one, and in a list-only pass.
    pub stages: Arc<Vec<StageRecord>>,
    /// Whether `stages` was read, rather than skipped for a list-only pass.
    pub stages_read: bool,
    /// The graph of the blueprint the run was started from, where it can be
    /// read.
    pub graph: Option<Arc<StageGraph>>,
}

/// Everything read from the runs directory in one pass.
#[derive(Clone, Debug, PartialEq, Eq)]
pub struct RunSnapshot {
    /// When the pass began: what changed on disk after this moment may be
    /// missing from it.
    pub taken_at: u64,
    /// Newest first.
    pub runs: Vec<RunEntry>,
    /// The context window of the run on screen, by run id.
    pub context: Option<(String, Arc<ContextSnapshot>)>,
}

/// One visit of a run to a stage.
#[derive(Clone, Debug, PartialEq, Eq)]
pub struct StageVisit {
    pub stage: String,
    pub entered_at: i64,
    pub left_at: Option<i64>,
    pub iterations: usize,
    pub first_point: usize,
}

/// A run's submitted answer.
#[derive(Clone, Debug, PartialEq, Eq)]
pub struct FinalOutput {
    pub stage: String,
    pub format: Option<String>,
    pub truncated: bool,
    pub content: String,
    pub artifacts: Vec<Artifact>,
}

/// A file that came with a run's answer. Its size is spelled out for people.
#[derive(Clone, Debug, PartialEq, Eq)]
pub struct Artifact {
    pub name: String,
    pub path: String,
    pub mime_type: String,
    pub size_label: String,
    pub sha256: String,
}

// ── Messages ─────────────────────────────────────────────────────────────────

/// What a toast is about.
#[derive(Clone, Copy, Debug, PartialEq, Eq, Structural)]
pub enum ToastLevel {
    Info,
    Warning,
    Error,
    Progress,
}

/// A short message over the screen, for as many ticks as it has left.
#[derive(Clone, Debug, PartialEq, Eq)]
pub struct Toast {
    pub message: String,
    pub level: ToastLevel,
    pub remaining_ticks: u32,
}

/// A short message over the screen.
#[verifier::ext_equal]
pub struct ToastView {
    pub message: Seq<char>,
    pub level: ToastLevel,
    pub remaining_ticks: u32,
}

impl View for Toast {
    type V = ToastView;

    open spec fn view(&self) -> ToastView {
        ToastView {
            message: self.message@,
            level: self.level,
            remaining_ticks: self.remaining_ticks,
        }
    }
}

/// A line of the activity log.
#[derive(Clone, Debug, PartialEq, Eq)]
pub struct LogEntry {
    pub timestamp: String,
    pub message: String,
}

/// A line of the activity log.
#[verifier::ext_equal]
pub struct LogView {
    pub timestamp: Seq<char>,
    pub message: Seq<char>,
}

impl View for LogEntry {
    type V = LogView;

    open spec fn view(&self) -> LogView {
        LogView { timestamp: self.timestamp@, message: self.message@ }
    }
}

/// What a yes to the open question does.
#[derive(Clone, Debug, PartialEq, Eq)]
pub enum ConfirmAction {
    Kill { run_ids: Vec<String> },
    Delete { run_ids: Vec<String> },
    EnableYolo,
}

/// What a yes to the open question does.
#[verifier::ext_equal]
pub enum ActionView {
    Kill { run_ids: Seq<Seq<char>> },
    Delete { run_ids: Seq<Seq<char>> },
    EnableYolo,
}

impl View for ConfirmAction {
    type V = ActionView;

    open spec fn view(&self) -> ActionView {
        match self {
            ConfirmAction::Kill { run_ids } => ActionView::Kill { run_ids: views(run_ids@) },
            ConfirmAction::Delete { run_ids } => ActionView::Delete { run_ids: views(run_ids@) },
            ConfirmAction::EnableYolo => ActionView::EnableYolo,
        }
    }
}

/// A question with two buttons.
#[derive(Clone, Debug, PartialEq, Eq)]
pub struct Confirm {
    pub title: String,
    pub body: Vec<Line>,
    pub accept: String,
    pub decline: String,
    pub danger: bool,
}

/// A question with two buttons.
#[verifier::ext_equal]
pub struct ConfirmView {
    pub title: Seq<char>,
    pub body: Seq<Seq<SpanView>>,
    pub accept: Seq<char>,
    pub decline: Seq<char>,
    pub danger: bool,
}

impl View for Confirm {
    type V = ConfirmView;

    open spec fn view(&self) -> ConfirmView {
        ConfirmView {
            title: self.title@,
            body: views(self.body@),
            accept: self.accept@,
            decline: self.decline@,
            danger: self.danger,
        }
    }
}

/// What the daemon is asked to do.
#[derive(Clone, Debug, PartialEq, Eq)]
pub enum DaemonCommand {
    Cancel { run_id: String },
}

impl View for DaemonCommand {
    type V = Seq<char>;

    /// The run to cancel.
    open spec fn view(&self) -> Seq<char> {
        match self {
            DaemonCommand::Cancel { run_id } => run_id@,
        }
    }
}

// ── The new-run screen ───────────────────────────────────────────────────────

/// The panes of the new-run screen, and its Start button.
#[derive(Clone, Copy, Debug, PartialEq, Eq, Structural)]
pub enum NewRunPane {
    Agents,
    Inputs,
    Task,
    Start,
}

/// One agent on offer.
#[derive(Clone, Debug, PartialEq, Eq)]
pub struct NewRunAgent {
    pub name: String,
    pub source: String,
    pub description: String,
    pub path: String,
}

/// One agent on offer.
#[verifier::ext_equal]
pub struct NewAgentView {
    pub name: Seq<char>,
    pub source: Seq<char>,
    pub description: Seq<char>,
    pub path: Seq<char>,
}

impl View for NewRunAgent {
    type V = NewAgentView;

    open spec fn view(&self) -> NewAgentView {
        NewAgentView {
            name: self.name@,
            source: self.source@,
            description: self.description@,
            path: self.path@,
        }
    }
}

/// A copy of an offered agent.
pub fn copy_agent(agent: &NewRunAgent) -> (copy: NewRunAgent)
    ensures
        copy@ == agent@,
{
    NewRunAgent {
        name: copy_of(agent.name.as_str()),
        source: copy_of(agent.source.as_str()),
        description: copy_of(agent.description.as_str()),
        path: copy_of(agent.path.as_str()),
    }
}

/// A bundled blueprint, by name and version.
#[derive(Clone, Debug, PartialEq, Eq)]
pub struct BundledEntry {
    pub name: String,
    pub version: String,
}

/// A profile for unattended runs, and what it keeps for a person.
#[derive(Clone, Debug, PartialEq, Eq)]
pub struct YoloProfile {
    pub name: String,
    pub holds: Vec<String>,
}

/// A file that goes with a run or an answer: the region it is for, where it
/// names one, and where its bytes are.
#[derive(Clone, Debug, PartialEq, Eq)]
pub struct InboundPart {
    pub name: String,
    pub region: Option<String>,
    pub bytes: Vec<u8>,
}

/// A file that goes with a run or an answer.
#[verifier::ext_equal]
pub struct InboundView {
    pub name: Seq<char>,
    pub region: Option<Seq<char>>,
    pub bytes: Seq<u8>,
}

impl View for InboundPart {
    type V = InboundView;

    open spec fn view(&self) -> InboundView {
        InboundView { name: self.name@, region: opt_text(self.region), bytes: self.bytes@ }
    }
}

/// What the files named in a text came to: the text to send, the files, and the
/// `@path` tokens that named none.
#[derive(Clone, Debug, PartialEq, Eq)]
pub struct InlineParts {
    pub text: String,
    pub parts: Vec<InboundPart>,
    pub unresolved: Vec<String>,
}

/// A run to start.
#[derive(Clone, Debug, PartialEq, Eq)]
pub struct SpawnCommand {
    pub agent_path: String,
    pub task: String,
    pub workdir: String,
    pub yolo: bool,
    pub yolo_profile: Option<String>,
    pub parts: Vec<InboundPart>,
    pub regions: Vec<(String, String)>,
}

/// A run to start.
#[verifier::ext_equal]
pub struct SpawnView {
    pub agent_path: Seq<char>,
    pub task: Seq<char>,
    pub workdir: Seq<char>,
    pub yolo: bool,
    pub yolo_profile: Option<Seq<char>>,
    pub parts: Seq<InboundView>,
    pub regions: Seq<(Seq<char>, Seq<char>)>,
}

impl View for SpawnCommand {
    type V = SpawnView;

    open spec fn view(&self) -> SpawnView {
        SpawnView {
            agent_path: self.agent_path@,
            task: self.task@,
            workdir: self.workdir@,
            yolo: self.yolo,
            yolo_profile: opt_text(self.yolo_profile),
            parts: views(self.parts@),
            regions: views(self.regions@),
        }
    }
}

/// What became of a run that was to start.
#[derive(Clone, Debug, PartialEq, Eq)]
pub struct SpawnOutcome {
    pub message: String,
    pub ok: bool,
    pub run_id: Option<String>,
}

/// Text with a cursor in it.
#[derive(Clone, Debug, PartialEq, Eq)]
pub struct TextArea {
    pub before: String,
    pub after: String,
}

impl TextArea {
    /// The whole text.
    pub open spec fn whole(self) -> Seq<char> {
        self.before@ + self.after@
    }

    /// An empty text.
    pub fn empty() -> (area: TextArea)
        ensures
            area.before@ == Seq::<char>::empty(),
            area.after@ == Seq::<char>::empty(),
    {
        TextArea { before: String::new(), after: String::new() }
    }

    /// A text with the cursor after it.
    pub fn of(text: &str) -> (area: TextArea)
        ensures
            area.before@ == text@,
            area.after@ == Seq::<char>::empty(),
    {
        TextArea { before: copy_of(text), after: String::new() }
    }

    /// The whole text.
    pub fn text(&self) -> (text: String)
        ensures
            text@ == self.whole(),
    {
        crate::text::cat2(self.before.as_str(), self.after.as_str())
    }

    /// Type one character at the cursor.
    pub fn insert_char(&mut self, c: char)
        ensures
            final(self).before@ == old(self).before@.push(c),
            final(self).after == old(self).after,
    {
        self.before.push(c);
    }

    /// Type a text at the cursor.
    pub fn insert_str(&mut self, text: &str)
        ensures
            final(self).before@ == old(self).before@ + text@,
            final(self).after == old(self).after,
    {
        self.before.append(text);
    }

    /// Delete the character before the cursor, where there is one.
    pub fn delete_char(&mut self)
        ensures
            final(self).before@ == if old(self).before@.len() > 0 {
                old(self).before@.drop_last()
            } else {
                old(self).before@
            },
            final(self).after == old(self).after,
    {
        let _ = self.before.pop();
    }
}

/// What a one-line field holds.
#[derive(Clone, Debug, PartialEq, Eq)]
pub struct LineEdit {
    pub value: String,
    pub masked: bool,
}

impl LineEdit {
    /// A field that holds `value`.
    pub fn new(value: String, masked: bool) -> (edit: LineEdit)
        ensures
            edit.value == value,
            edit.masked == masked,
    {
        LineEdit { value, masked }
    }
}

/// What a key did to a one-line field.
#[derive(Clone, Copy, Debug, PartialEq, Eq, Structural)]
pub enum EditOutcome {
    Commit,
    Cancel,
    Pending,
}

// ── Screens, panes and targets ───────────────────────────────────────────────

/// What the content pane shows.
#[derive(Clone, Copy, Debug, PartialEq, Eq, Structural)]
pub enum StageContentMode {
    Output,
    Logs,
    Context,
    FinalOutput,
}

/// Which pane of the main screen has the keys.
#[derive(Clone, Copy, Debug, PartialEq, Eq, Structural)]
pub enum MainPane {
    RunList,
    LogPane,
}

/// A pane the wheel can be over.
#[derive(Clone, Copy, Debug, PartialEq, Eq, Structural)]
pub enum PaneId {
    RunTable,
    LogPanel,
    ExplorerGraph,
}

/// What a click lands on.
#[derive(Clone, Copy, Debug, PartialEq, Eq, Structural)]
pub enum ClickTarget {
    RunRow(usize),
    RunToggle(usize),
    LogPanel,
    StageTab(usize),
    ContentMode(StageContentMode),
    ContextRow(usize),
    ResponseSend,
    NewRunStart,
    NewRunInput(usize),
}

/// The shape of a run list row: how it nests, and what its fold hides.
#[derive(Clone, Debug, PartialEq, Eq)]
pub struct TreeShape {
    pub prefix: String,
    pub expandable: bool,
    pub collapsed: bool,
    pub hidden: usize,
}

/// An in-progress or just-released mouse selection over one pane.
///
/// Coordinates are absolute screen cells, column then row, both endpoints
/// inclusive.
#[derive(Clone, Copy, Debug, PartialEq, Eq)]
pub struct Selection {
    /// The region the drag started in.
    pub region: Rect,
    /// Where the drag started.
    pub anchor: (u16, u16),
    /// Where the drag currently is, or ended.
    pub cursor: (u16, u16),
    /// True between button press and release.
    pub dragging: bool,
    /// True once any drag motion arrived.
    pub moved: bool,
    /// Set on release; the next draw copies the text.
    pub pending_copy: bool,
}

/// The log pane's scroll position, counted from its newest line.
#[derive(Clone, Copy, Debug, PartialEq, Eq)]
pub struct LogScroll {
    pub offset_from_tail: usize,
}

/// The cursor of the context tree.
#[derive(Clone, Copy, Debug, PartialEq, Eq)]
pub struct ContextTree {
    pub cursor: usize,
    /// Set when the view is to scroll to the cursor once.
    pub follow_cursor: bool,
}

/// The marks that stand for how a stage stands, and the frames of the spinner.
#[derive(Clone, Debug, PartialEq, Eq)]
pub struct Theme {
    pub spinner: Vec<String>,
    pub complete: String,
    pub waiting: String,
    pub error: String,
    pub pending: String,
}

/// What a key is, apart from its modifiers.
#[derive(Clone, Copy, Debug, PartialEq, Eq, Structural)]
pub enum KeyCode {
    Char(char),
    F(u8),
    Backspace,
    Enter,
    Left,
    Right,
    Up,
    Down,
    Home,
    End,
    PageUp,
    PageDown,
    Tab,
    BackTab,
    Delete,
    Insert,
    Esc,
    Other,
}

/// A key press.
#[derive(Clone, Copy, Debug, PartialEq, Eq, Structural)]
pub struct KeyEvent {
    pub code: KeyCode,
    pub control: bool,
}

/// What the mouse did.
#[derive(Clone, Copy, Debug, PartialEq, Eq, Structural)]
pub enum MouseEventKind {
    LeftDown,
    LeftUp,
    LeftDrag,
    Moved,
    ScrollUp,
    ScrollDown,
    Other,
}

/// What the mouse did, and where.
#[derive(Clone, Copy, Debug, PartialEq, Eq, Structural)]
pub struct MouseEvent {
    pub kind: MouseEventKind,
    pub column: u16,
    pub row: u16,
}

} // verus!
