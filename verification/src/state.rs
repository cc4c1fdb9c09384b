//! The dashboard's state, and the small moves that its screens share.

use crate::style::{Color, Rect};
use crate::text::{copy_of, same};
use crate::types::{
    AgentView, ClickTarget, Confirm, ConfirmAction, ContextTree, DaemonCommand, DashboardAgent,
    InteractionKind, InteractionRequest, LogEntry, LogScroll, LogView, MainPane, NewRunAgent, NewRunPane,
    PaneId, RunSnapshot, Selection, SpawnCommand, SpawnOutcome, StageContentMode, TextArea, Theme,
    Toast, ToastLevel, ToastView, TreeShape, YoloProfile,
};
use crate::new_run_inputs::NewRunInput;
use crate::run_loader::RunFeed;
use crate::views::{group_views, views};
use std::sync::Arc;
use vstd::prelude::*;

verus! {

broadcast use group_views;

/// How many ticks an ordinary toast stays.
pub const TOAST_TICKS: u32 = 25;

/// The run list.
#[derive(Debug)]
pub struct RunList {
    pub agents: Vec<DashboardAgent>,
    /// The rows on screen, as indices into `agents`.
    pub display_indices: Vec<usize>,
    /// The shape of each row on screen.
    pub tree_rows: Vec<TreeShape>,
    /// Set when `display_indices` no longer answers to `agents`.
    pub order_stale: bool,
    /// The row under the cursor.
    pub selected: usize,
    /// The row the table widget highlights.
    pub table_selected: Option<usize>,
    /// The marked runs, by id.
    pub marked: Vec<String>,
    pub search_mode: bool,
    pub search_query: String,
    pub sort_label: String,
    /// What to say about the link to the daemon, and in which colour.
    pub daemon_chip: Option<(String, Color)>,
}

/// What was read from the runs directory, and what it is read against.
#[derive(Debug)]
pub struct Feed {
    /// The loader, where one runs.
    pub link: RunFeed,
    /// The snapshot on screen.
    pub snapshot: Option<Arc<RunSnapshot>>,
    pub loading: bool,
    pub initial_sync_done: bool,
    /// Runs deleted here, with the moment of each delete.
    pub deleted_runs: Vec<(String, u64)>,
    /// The open prompts, by run id.
    pub pending_interactions: Vec<(String, InteractionRequest)>,
    /// Runs that claim to be live and that nothing drives.
    pub abandoned_runs: Vec<String>,
    /// The wall clock, in Unix seconds.
    pub now: i64,
}

/// Toasts, the activity log, and the open question.
#[derive(Debug)]
pub struct Notes {
    pub toasts: Vec<Toast>,
    pub log: Vec<LogEntry>,
    /// The time that new log lines carry.
    pub log_stamp: String,
    pub log_scroll: LogScroll,
    pub log_viewport: usize,
    pub pending_confirm: Option<(ConfirmAction, Confirm)>,
}

/// Which screen is up, and what it is drawn with.
#[derive(Debug)]
pub struct Screens {
    pub main_focus: MainPane,
    pub detail_view: bool,
    pub mcp_screen: bool,
    pub show_help: bool,
    pub tick_count: u64,
    pub theme: Theme,
}

/// The detail view.
#[derive(Debug)]
pub struct Detail {
    pub selected_stage: usize,
    pub content_mode: StageContentMode,
    pub scroll: usize,
    pub review_scroll: usize,
    pub search_mode: bool,
    pub search_query: String,
    pub search_match_idx: usize,
    pub history_idx: Option<usize>,
    pub tree: ContextTree,
}

/// The response box.
#[derive(Debug)]
pub struct Reply {
    pub input_mode: bool,
    pub deny_feedback_open: bool,
    pub focus_send: bool,
    pub choice_selected: usize,
    pub text: TextArea,
}

/// The new-run screen.
#[derive(Debug)]
pub struct NewRun {
    pub open: bool,
    pub focus: NewRunPane,
    pub filter: String,
    pub selected: usize,
    pub agents: Vec<NewRunAgent>,
    pub task: TextArea,
    /// Whether the task box shows a popup of its own.
    pub task_modal: bool,
    pub preview: bool,
    pub workdir: String,
    pub last_launched_agent: Option<String>,
    /// Set when what is remembered between sessions has changed.
    pub ui_state_dirty: bool,
}

/// Whether runs started here ask before they act.
#[derive(Debug)]
pub struct Unattended {
    pub on: bool,
    pub profile: Option<String>,
    pub profiles: Vec<YoloProfile>,
}

/// The `@` completion of the task box.
#[derive(Debug)]
pub struct FileRef {
    pub files: Vec<String>,
    pub open: bool,
    pub query: String,
    pub selected: usize,
}

/// The new-run screen's slots.
#[derive(Debug)]
pub struct Inputs {
    pub slots: Vec<NewRunInput>,
    pub key: String,
    pub selected: usize,
    /// The slot whose file picker is open.
    pub picker: Option<usize>,
}

/// What goes to the background, and what came back.
#[derive(Debug)]
pub struct Lanes {
    /// Runs to start, for the background lane.
    pub spawn_commands: Vec<SpawnCommand>,
    /// What came back from it.
    pub spawn_outcomes: Vec<SpawnOutcome>,
    /// A run to open once it is listed, and for how many more ticks.
    pub pending_open_run: Option<(String, u32)>,
    /// What the daemon is to be asked.
    pub daemon_commands: Vec<DaemonCommand>,
}

/// What the mouse can land on, and what it has selected.
#[derive(Debug)]
pub struct Mouse {
    pub selection: Option<Selection>,
    pub selection_regions: Vec<Rect>,
    pub pane_rects: Vec<(PaneId, Rect)>,
    pub click_targets: Vec<(Rect, ClickTarget)>,
}

/// Everything the dashboard knows between one event and the next.
#[derive(Debug)]
pub struct Dashboard {
    pub runs: RunList,
    pub feed: Feed,
    pub notes: Notes,
    pub screens: Screens,
    pub detail: Detail,
    pub reply: Reply,
    pub new_run: NewRun,
    pub unattended: Unattended,
    pub file_ref: FileRef,
    pub inputs: Inputs,
    pub lanes: Lanes,
    pub mouse: Mouse,
}

/// A toast as it stands in a contract.
pub open spec fn toasted(message: Seq<char>, level: ToastLevel, ticks: u32) -> ToastView {
    ToastView { message, level, remaining_ticks: ticks }
}

/// An ordinary toast as it stands in a contract.
pub open spec fn notice(message: Seq<char>, level: ToastLevel) -> ToastView {
    toasted(message, level, TOAST_TICKS)
}

/// A log line as it stands in a contract.
pub open spec fn logged(timestamp: Seq<char>, message: Seq<char>) -> LogView {
    LogView { timestamp, message }
}

/// Whether nothing was read or typed yet: nothing is listed, said, open, picked
/// or under way, and the loader has yet to send its first snapshot.
pub open spec fn untouched(dash: Dashboard) -> bool {
    &&& untouched_lists(dash.runs, dash.feed, dash.notes)
    &&& untouched_screens(dash.screens, dash.detail, dash.reply)
    &&& untouched_form(dash.new_run, dash.unattended, dash.file_ref, dash.inputs)
    &&& dash.lanes.spawn_commands@.len() == 0
    &&& dash.lanes.spawn_outcomes@.len() == 0
    &&& dash.lanes.pending_open_run is None
    &&& dash.lanes.daemon_commands@.len() == 0
    &&& dash.mouse.selection is None
    &&& dash.mouse.selection_regions@.len() == 0
    &&& dash.mouse.pane_rects@.len() == 0
    &&& dash.mouse.click_targets@.len() == 0
}

/// Whether nothing was read or said yet.
pub open spec fn untouched_lists(runs: RunList, feed: Feed, notes: Notes) -> bool {
    &&& runs.agents@.len() == 0
    &&& runs.display_indices@.len() == 0
    &&& runs.tree_rows@.len() == 0
    &&& !runs.order_stale
    &&& runs.selected == 0
    &&& runs.table_selected is None
    &&& runs.marked@.len() == 0
    &&& !runs.search_mode
    &&& runs.search_query@.len() == 0
    &&& runs.sort_label@ == "started"@
    &&& runs.daemon_chip is None
    &&& feed.link.arrived is None
    &&& feed.link.asks@.len() == 0
    &&& feed.link.last_showing is None
    &&& feed.snapshot is None
    &&& feed.loading
    &&& !feed.initial_sync_done
    &&& feed.deleted_runs@.len() == 0
    &&& feed.pending_interactions@.len() == 0
    &&& feed.abandoned_runs@.len() == 0
    &&& feed.now == 0
    &&& notes.toasts@.len() == 0
    &&& notes.log@.len() == 0
    &&& notes.log_stamp@.len() == 0
    &&& notes.log_scroll.at_tail()
    &&& notes.log_viewport == 0
    &&& notes.pending_confirm is None
}

/// Whether no screen but the run list was opened yet.
pub open spec fn untouched_screens(screens: Screens, detail: Detail, reply: Reply) -> bool {
    &&& screens.main_focus == MainPane::RunList
    &&& !screens.detail_view
    &&& !screens.mcp_screen
    &&& !screens.show_help
    &&& screens.tick_count == 0
    &&& screens.theme.spinner@.len() == 0
    &&& screens.theme.complete@ == "✓"@
    &&& screens.theme.waiting@ == "?"@
    &&& screens.theme.error@ == "✗"@
    &&& screens.theme.pending@ == "○"@
    &&& detail.selected_stage == 0
    &&& detail.content_mode == StageContentMode::Output
    &&& detail.scroll == 0
    &&& detail.review_scroll == 0
    &&& !detail.search_mode
    &&& detail.search_query@.len() == 0
    &&& detail.search_match_idx == 0
    &&& detail.history_idx is None
    &&& detail.tree == (ContextTree { cursor: 0, follow_cursor: false })
    &&& !reply.input_mode
    &&& !reply.deny_feedback_open
    &&& !reply.focus_send
    &&& reply.choice_selected == 0
    &&& reply.text.whole().len() == 0
}

/// Whether the new-run form was not filled in yet.
pub open spec fn untouched_form(
    new_run: NewRun,
    unattended: Unattended,
    file_ref: FileRef,
    inputs: Inputs,
) -> bool {
    &&& !new_run.open
    &&& new_run.focus == NewRunPane::Agents
    &&& new_run.filter@.len() == 0
    &&& new_run.selected == 0
    &&& new_run.agents@.len() == 0
    &&& new_run.task.whole().len() == 0
    &&& !new_run.task_modal
    &&& !new_run.preview
    &&& new_run.workdir@.len() == 0
    &&& new_run.last_launched_agent is None
    &&& !new_run.ui_state_dirty
    &&& !unattended.on
    &&& unattended.profile is None
    &&& unattended.profiles@.len() == 0
    &&& file_ref.files@.len() == 0
    &&& !file_ref.open
    &&& file_ref.query@.len() == 0
    &&& file_ref.selected == 0
    &&& inputs.slots@.len() == 0
    &&& inputs.key@.len() == 0
    &&& inputs.selected == 0
    &&& inputs.picker is None
}

impl Dashboard {
    /// A dashboard that has read nothing yet.
    pub fn new() -> (dash: Dashboard)
        ensures
            untouched(dash),
    {
        Dashboard {
            runs: RunList {
                agents: Vec::new(),
                display_indices: Vec::new(),
                tree_rows: Vec::new(),
                order_stale: false,
                selected: 0,
                table_selected: None,
                marked: Vec::new(),
                search_mode: false,
                search_query: String::new(),
                sort_label: copy_of("started"),
                daemon_chip: None,
            },
            feed: Feed {
                link: RunFeed::new(),
                snapshot: None,
                loading: true,
                initial_sync_done: false,
                deleted_runs: Vec::new(),
                pending_interactions: Vec::new(),
                abandoned_runs: Vec::new(),
                now: 0,
            },
            notes: Notes {
                toasts: Vec::new(),
                log: Vec::new(),
                log_stamp: String::new(),
                log_scroll: LogScroll { offset_from_tail: 0 },
                log_viewport: 0,
                pending_confirm: None,
            },
            screens: Screens {
                main_focus: MainPane::RunList,
                detail_view: false,
                mcp_screen: false,
                show_help: false,
                tick_count: 0,
                theme: Theme {
                    spinner: Vec::new(),
                    complete: copy_of("✓"),
                    waiting: copy_of("?"),
                    error: copy_of("✗"),
                    pending: copy_of("○"),
                },
            },
            detail: Detail {
                selected_stage: 0,
                content_mode: StageContentMode::Output,
                scroll: 0,
                review_scroll: 0,
                search_mode: false,
                search_query: String::new(),
                search_match_idx: 0,
                history_idx: None,
                tree: ContextTree { cursor: 0, follow_cursor: false },
            },
            reply: Reply {
                input_mode: false,
                deny_feedback_open: false,
                focus_send: false,
                choice_selected: 0,
                text: TextArea::empty(),
            },
            new_run: NewRun {
                open: false,
                focus: NewRunPane::Agents,
                filter: String::new(),
                selected: 0,
                agents: Vec::new(),
                task: TextArea::empty(),
                task_modal: false,
                preview: false,
                workdir: String::new(),
                last_launched_agent: None,
                ui_state_dirty: false,
            },
            unattended: Unattended {
                on: false,
                profile: None,
                profiles: Vec::new(),
            },
            file_ref: FileRef {
                files: Vec::new(),
                open: false,
                query: String::new(),
                selected: 0,
            },
            inputs: Inputs {
                slots: Vec::new(),
                key: String::new(),
                selected: 0,
                picker: None,
            },
            lanes: Lanes {
                spawn_commands: Vec::new(),
                spawn_outcomes: Vec::new(),
                pending_open_run: None,
                daemon_commands: Vec::new(),
            },
            mouse: Mouse {
                selection: None,
                selection_regions: Vec::new(),
                pane_rects: Vec::new(),
                click_targets: Vec::new(),
            },
        }
    }

    /// The current wall-clock time in Unix seconds.
    pub fn now_secs(&self) -> (now: i64)
        ensures
            now == self.feed.now,
    {
        self.feed.now
    }

    /// Add a toast that stays for `ticks`.
    pub fn push_toast(toasts: &mut Vec<Toast>, message: String, level: ToastLevel, ticks: u32)
        ensures
            views(final(toasts)@) == views(old(toasts)@).push(toasted(message@, level, ticks)),
    {
        toasts.push(Toast { message, level, remaining_ticks: ticks });
    }

    /// Show a message.
    pub fn toast(&mut self, message: String, level: ToastLevel)
        ensures
            *final(self) == (Dashboard {
                notes: Notes { toasts: final(self).notes.toasts, ..old(self).notes },
                ..*old(self)
            }),
            views(final(self).notes.toasts@) == views(old(self).notes.toasts@).push(notice(message@, level)),
    {
        Self::push_toast(&mut self.notes.toasts, message, level, TOAST_TICKS);
    }

    /// Write a line to the activity log.
    pub fn add_log(&mut self, message: String)
        ensures
            *final(self) == (Dashboard {
                notes: Notes { log: final(self).notes.log, ..old(self).notes },
                ..*old(self)
            }),
            views(final(self).notes.log@) == views(old(self).notes.log@).push(
                logged(old(self).notes.log_stamp@, message@),
            ),
    {
        let timestamp = copy_of(self.notes.log_stamp.as_str());
        self.notes.log.push(LogEntry { timestamp, message });
    }

    /// Make `rect` a target of the mouse.
    pub fn register_click(&mut self, rect: Rect, target: ClickTarget)
        ensures
            *final(self) == (Dashboard {
                mouse: Mouse { click_targets: final(self).mouse.click_targets, ..old(self).mouse },
                ..*old(self)
            }),
            final(self).mouse.click_targets@ == old(self).mouse.click_targets@.push((rect, target)),
    {
        self.mouse.click_targets.push((rect, target));
    }

    /// Which of the runs the cursor is on.
    pub open spec fn selected_index(self) -> Option<int> {
        if self.runs.selected < self.runs.display_indices@.len()
            && self.runs.display_indices@[self.runs.selected as int] < self.runs.agents@.len() {
            Some(self.runs.display_indices@[self.runs.selected as int] as int)
        } else {
            None
        }
    }

    /// The run the cursor is on.
    pub open spec fn current(self) -> Option<DashboardAgent> {
        match self.selected_index() {
            Some(i) => Some(self.runs.agents@[i]),
            None => None,
        }
    }

    /// The run the cursor is on.
    pub fn selected_agent(&self) -> (agent: Option<&DashboardAgent>)
        ensures
            agent is Some <==> self.current() is Some,
            agent matches Some(a) ==> self.current() == Some(*a),
    {
        if self.runs.selected >= self.runs.display_indices.len() {
            return None;
        }
        let index: usize = self.runs.display_indices[self.runs.selected];
        if index >= self.runs.agents.len() {
            return None;
        }
        Some(&self.runs.agents[index])
    }

    /// Whether the run the cursor is on asks for an edit of a document and the
    /// answer is being written.
    pub open spec fn edits_document(self) -> bool {
        self.reply.input_mode && match self.current() {
            Some(agent) => match agent.pending_request {
                Some(request) => request.kind == InteractionKind::EditText,
                None => false,
            },
            None => false,
        }
    }

    /// Whether a document is being edited in place.
    pub fn editing_document(&self) -> (editing: bool)
        ensures
            editing == self.edits_document(),
    {
        if !self.reply.input_mode {
            return false;
        }
        match self.selected_agent() {
            Some(agent) => match &agent.pending_request {
                Some(request) => match request.kind {
                    InteractionKind::EditText => true,
                    _ => false,
                },
                None => false,
            },
            None => false,
        }
    }

    /// The spinner's frame at this tick; nothing where the theme has none.
    pub open spec fn spin(self) -> Seq<char> {
        if self.screens.theme.spinner@.len() == 0 {
            Seq::empty()
        } else {
            let frames = self.screens.theme.spinner@;
            frames[self.screens.tick_count as int % frames.len() as int]@
        }
    }

    /// The spinner's frame at this tick.
    pub fn spinner_frame(&self) -> (frame: String)
        ensures
            frame@ == self.spin(),
    {
        let frames: u64 = self.screens.theme.spinner.len() as u64;
        if frames == 0 {
            return String::new();
        }
        let at: usize = (self.screens.tick_count % frames) as usize;
        copy_of(self.screens.theme.spinner[at].as_str())
    }

    /// Show the page of the run the cursor is on.
    pub fn open_detail_view(&mut self)
        ensures
            *final(self) == (Dashboard {
                screens: Screens { detail_view: true, ..old(self).screens },
                ..*old(self)
            }),
    {
        self.screens.detail_view = true;
    }

    /// Leave the response box, with nothing in it.
    pub fn close_input_box(&mut self)
        ensures
            *final(self) == (Dashboard {
                reply: Reply {
                    input_mode: false,
                    deny_feedback_open: false,
                    focus_send: false,
                    text: final(self).reply.text,
                    ..old(self).reply
                },
                ..*old(self)
            }),
            final(self).reply.text.whole() == Seq::<char>::empty(),
    {
        self.reply.input_mode = false;
        self.reply.deny_feedback_open = false;
        self.reply.focus_send = false;
        self.reply.text = TextArea::empty();
    }

    /// Remember the choices that outlive the session.
    pub fn save_ui_state(&mut self)
        ensures
            *final(self) == (Dashboard {
                new_run: NewRun { ui_state_dirty: true, ..old(self).new_run },
                ..*old(self)
            }),
    {
        self.new_run.ui_state_dirty = true;
    }

    /// Scroll the detail view: up through history with `lines` above zero, down
    /// with `lines` below. A highlight is anchored to screen cells, so it goes.
    pub fn scroll_by(&mut self, lines: i32)
        ensures
            *final(self) == (Dashboard {
                detail: Detail {
                    scroll: scrolled(old(self).detail.scroll, lines),
                    ..old(self).detail
                },
                mouse: Mouse { selection: None, ..old(self).mouse },
                ..*old(self)
            }),
    {
        if lines >= 0 {
            self.detail.scroll = self.detail.scroll.saturating_add(lines as usize);
        } else {
            self.detail.scroll = self.detail.scroll.saturating_sub((-(lines as i64)) as usize);
        }
        self.mouse.selection = None;
    }
}

/// A scroll position `lines` further back, between zero and the largest one.
pub open spec fn scrolled(position: usize, lines: i32) -> usize {
    if position + lines < 0 {
        0
    } else if position + lines > usize::MAX {
        usize::MAX
    } else {
        (position + lines) as usize
    }
}

/// The first of the runs with this id.
pub open spec fn is_run(agents: Seq<AgentView>, id: Seq<char>, at: int) -> bool {
    0 <= at < agents.len() && agents[at].id == id && forall|j: int|
        0 <= j < at ==> agents[j].id != id
}

/// Whether any of the runs has this id.
pub open spec fn listed(agents: Seq<AgentView>, id: Seq<char>) -> bool {
    exists|i: int| 0 <= i < agents.len() && agents[i].id == id
}

/// The first of the runs with this id.
pub fn run_position(agents: &Vec<DashboardAgent>, id: &str) -> (at: Option<usize>)
    ensures
        match at {
            Some(i) => is_run(views(agents@), id@, i as int),
            None => !listed(views(agents@), id@),
        },
{
    let mut i: usize = 0;
    while i < agents.len()
        invariant
            i <= agents@.len(),
            forall|j: int| 0 <= j < i ==> agents@[j].id@ != id@,
        decreases agents.len() - i,
    {
        if same(agents[i].id.as_str(), id) {
            return Some(i);
        }
        i = i + 1;
    }
    None
}

// ── The log pane ─────────────────────────────────────────────────────────────

impl LogScroll {
    /// Whether the newest line is on screen.
    pub open spec fn at_tail(self) -> bool {
        self.offset_from_tail == 0
    }

    /// Whether the newest line is on screen.
    pub fn is_tailing(&self) -> (tailing: bool)
        ensures
            tailing == self.at_tail(),
    {
        self.offset_from_tail == 0
    }

    /// Scroll back through `len` lines of which `viewport` are on screen, no
    /// further than the oldest line.
    pub fn scroll_up(&mut self, lines: usize, len: usize, viewport: usize)
        ensures
            final(self).offset_from_tail == back(
                old(self).offset_from_tail as int,
                lines as int,
                len as int,
                viewport as int,
            ),
    {
        let most: usize = len.saturating_sub(viewport);
        let wanted: usize = self.offset_from_tail.saturating_add(lines);
        self.offset_from_tail = if wanted > most {
            most
        } else {
            wanted
        };
    }

    /// Scroll forward, no further than the newest line.
    pub fn scroll_down(&mut self, lines: usize)
        ensures
            final(self).offset_from_tail == if old(self).offset_from_tail < lines {
                0
            } else {
                old(self).offset_from_tail - lines
            },
    {
        self.offset_from_tail = self.offset_from_tail.saturating_sub(lines);
    }

    /// Where the `viewport` lines on screen begin and end among `len`.
    pub open spec fn shown(self, len: int, viewport: int) -> (int, int) {
        let hidden = if self.offset_from_tail < len {
            self.offset_from_tail as int
        } else {
            len
        };
        let end = len - hidden;
        (if end < viewport {
            0
        } else {
            end - viewport
        }, end)
    }

    /// Where the `viewport` lines on screen begin and end among `len`.
    pub fn window(&self, len: usize, viewport: usize) -> (range: (usize, usize))
        ensures
            (range.0 as int, range.1 as int) == self.shown(len as int, viewport as int),
            range.0 <= range.1 <= len,
    {
        let end: usize = len.saturating_sub(self.offset_from_tail);
        (end.saturating_sub(viewport), end)
    }
}

/// `lines` further back than `offset`, no further than the oldest of `len`
/// lines of which `viewport` are on screen.
pub open spec fn back(offset: int, lines: int, len: int, viewport: int) -> int {
    let most = if len > viewport {
        len - viewport
    } else {
        0
    };
    if offset + lines > most {
        most
    } else {
        offset + lines
    }
}

} // verus!
