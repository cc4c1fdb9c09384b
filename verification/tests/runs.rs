//! Keeping the run list in step with the runs directory, and killing and deleting
//! runs.

use leviath_dashboard::state::Dashboard;
use leviath_dashboard::sync::{CHANGE_TICKS, FAILURE_TICKS};
use leviath_dashboard::types::{
    ActiveClock, AgentDisplayStatus, ConfirmAction, ContextSnapshot, DaemonCommand, DashboardAgent,
    InteractionKind, InteractionRequest, RunEntry, RunMeta, RunSnapshot, RunStatus, ToastLevel,
};
use std::sync::Arc;

fn meta(id: &str, status: RunStatus) -> RunMeta {
    RunMeta {
        run_id: id.to_string(),
        agent_name: "a-blueprint-with-a-long-name".to_string(),
        agent_path: "/p".to_string(),
        current_stage: "main".to_string(),
        stage_index: 0,
        num_stages: 1,
        iteration: 0,
        prompt_tokens: 1,
        completion_tokens: 2,
        cached_tokens: 3,
        title: None,
        status,
        error: None,
        workdir: "/work".to_string(),
        task: "task".to_string(),
        model: None,
        parent_run_id: None,
        started_at: 10,
        updated_at: 70,
        last_progress_at: None,
        waiting_on: None,
        broken_scripts: vec![],
        clock: ActiveClock { banked_secs: 5, since: Some(60) },
    }
}

fn entry(meta: RunMeta) -> RunEntry {
    RunEntry { meta: Arc::new(meta), stages: Arc::new(vec![]), stages_read: true, graph: None }
}

fn snapshot(taken_at: u64, metas: Vec<RunMeta>) -> RunSnapshot {
    RunSnapshot { taken_at, runs: metas.into_iter().map(entry).collect(), context: None }
}

fn request(id: &str) -> InteractionRequest {
    InteractionRequest {
        id: id.to_string(),
        kind: InteractionKind::FreeText,
        prompt: "Which one?".to_string(),
        options: vec![],
        required: true,
        stage_name: "main".to_string(),
        body: None,
    }
}

fn ids(dash: &Dashboard) -> Vec<&str> {
    dash.runs.agents.iter().map(|a| a.id.as_str()).collect()
}

fn messages(dash: &Dashboard) -> Vec<String> {
    dash.notes.toasts.iter().map(|t| t.message.clone()).collect()
}

/// A dashboard that has taken these runs in.
fn following(metas: Vec<RunMeta>) -> Dashboard {
    let mut dash = Dashboard::new();
    dash.feed.now = 100;
    dash.apply_run_snapshot(&snapshot(1, metas));
    dash.runs.display_indices = (0..dash.runs.agents.len()).collect();
    dash
}

// ── One tick ─────────────────────────────────────────────────────────────────

#[test]
fn the_first_snapshot_fills_the_list_in_silence() {
    let mut dash = Dashboard::new();
    dash.feed.now = 100;
    let snap =
        snapshot(1, vec![meta("one", RunStatus::Running), meta("two", RunStatus::Complete)]);
    dash.feed.link.deliver(Arc::new(snap));
    dash.sync_from_run_state();
    assert_eq!(ids(&dash), vec!["one", "two"]);
    assert!(!dash.feed.loading);
    assert!(dash.feed.initial_sync_done);
    assert!(dash.runs.order_stale);
    assert!(dash.notes.toasts.is_empty(), "{:?}", messages(&dash));
    // The clock of a run at work goes on; it has been at work for 45 seconds.
    assert_eq!(dash.runs.agents[0].runtime_secs, 45);
    assert_eq!(dash.runs.agents[0].tokens_in, 1);
}

#[test]
fn nothing_happens_until_a_snapshot_lands() {
    let mut dash = Dashboard::new();
    dash.sync_from_run_state();
    assert!(dash.feed.loading);
    assert!(dash.runs.agents.is_empty());
    assert!(dash.feed.link.asks.is_empty(), "no run is on screen, as before");
}

#[test]
fn the_loader_hears_which_run_is_on_screen() {
    let mut dash = following(vec![meta("one", RunStatus::Running)]);
    dash.sync_from_run_state();
    dash.sync_from_run_state();
    assert_eq!(dash.feed.link.asks, vec![Some("one".to_string())]);
}

#[test]
fn a_run_that_ends_says_so_once() {
    let mut dash = following(vec![meta("one", RunStatus::Running), meta("two", RunStatus::Running)]);
    let failed = RunMeta {
        title: Some("The Job".to_string()),
        error: Some("it broke".to_string()),
        ..meta("two", RunStatus::Error)
    };
    let next = snapshot(2, vec![meta("one", RunStatus::Complete), failed]);
    dash.apply_run_snapshot(&next);
    // The name is the title the row had, else the blueprint cut short.
    assert_eq!(
        messages(&dash),
        vec![
            "Agent run 'a-blueprint-with-a-…' completed".to_string(),
            "Agent run 'a-blueprint-with-a-…' failed: it broke".to_string(),
        ]
    );
    assert_eq!(dash.notes.toasts[0].level, ToastLevel::Info);
    assert_eq!(dash.notes.toasts[0].remaining_ticks, CHANGE_TICKS);
    assert_eq!(dash.notes.toasts[1].level, ToastLevel::Error);
    assert_eq!(dash.notes.toasts[1].remaining_ticks, FAILURE_TICKS);
    assert_eq!(dash.runs.agents[1].title.as_deref(), Some("The Job"));
    // Reading the same again says nothing more.
    dash.runs.order_stale = false;
    dash.apply_run_snapshot(&next);
    assert_eq!(dash.notes.toasts.len(), 2);
    assert!(!dash.runs.order_stale);
}

#[test]
fn a_prompt_makes_a_row_wait_until_it_is_answered() {
    let mut dash = following(vec![meta("one", RunStatus::Running)]);
    dash.feed.pending_interactions = vec![("one".to_string(), request("q1"))];
    dash.apply_run_snapshot(&snapshot(2, vec![meta("one", RunStatus::WaitingInput)]));
    let agent = &dash.runs.agents[0];
    assert!(matches!(agent.status, AgentDisplayStatus::Waiting));
    assert_eq!(agent.waiting_prompt.as_deref(), Some("Which one?"));
    assert!(messages(&dash)[0].ends_with("needs input"), "{:?}", messages(&dash));

    // Answered here: the prompt does not come back while the record catches up.
    dash.runs.agents[0].waiting_prompt = None;
    dash.runs.agents[0].pending_request = None;
    dash.runs.agents[0].last_answered_request_id = Some("q1".to_string());
    dash.apply_run_snapshot(&snapshot(3, vec![meta("one", RunStatus::WaitingInput)]));
    assert_eq!(dash.runs.agents[0].waiting_prompt, None);
    assert_eq!(dash.notes.toasts.len(), 1);

    // Once the prompt is gone the answer is forgotten.
    dash.feed.pending_interactions.clear();
    dash.apply_run_snapshot(&snapshot(4, vec![meta("one", RunStatus::Running)]));
    assert_eq!(dash.runs.agents[0].last_answered_request_id, None);
    assert!(matches!(dash.runs.agents[0].status, AgentDisplayStatus::Active));
}

#[test]
fn an_abandoned_run_is_stale_and_its_clock_stands_still() {
    let mut dash = following(vec![meta("one", RunStatus::Running)]);
    dash.feed.abandoned_runs = vec!["one".to_string()];
    assert!(dash.looks_stale(&meta("one", RunStatus::Running)));
    dash.apply_run_snapshot(&snapshot(2, vec![meta("one", RunStatus::Running)]));
    assert!(matches!(dash.runs.agents[0].status, AgentDisplayStatus::Stale));
    assert_eq!(dash.runs.agents[0].clock_now, 70);
    assert_eq!(dash.runs.agents[0].runtime_secs, 15);
}

#[test]
fn a_run_that_arrives_later_is_announced() {
    let mut dash = following(vec![]);
    dash.apply_run_snapshot(&snapshot(
        2,
        vec![meta("new", RunStatus::Complete), meta("going", RunStatus::Running)],
    ));
    assert_eq!(ids(&dash), vec!["new", "going"]);
    assert_eq!(messages(&dash), vec!["Agent run 'a-blueprint-with-a-…' completed".to_string()]);
}

/// The window that was read is handed over, not copied.
#[test]
fn the_context_window_is_shared_with_the_row() {
    let mut dash = following(vec![meta("one", RunStatus::Running)]);
    let window = Arc::new(ContextSnapshot { total_tokens: 1, max_tokens: 2, regions: vec![] });
    let snap = RunSnapshot {
        context: Some(("one".to_string(), window.clone())),
        ..snapshot(2, vec![meta("one", RunStatus::Running), meta("two", RunStatus::Running)])
    };
    dash.apply_run_snapshot(&snap);
    assert!(Arc::ptr_eq(dash.runs.agents[0].context_snapshot.as_ref().unwrap(), &window));
    assert!(dash.runs.agents[1].context_snapshot.is_none());
    assert!(Arc::ptr_eq(&dash.runs.agents[0].stages, &snap.runs[0].stages));
}

// ── Deleting ─────────────────────────────────────────────────────────────────

/// A parent, its worker, the worker's worker, and a run of its own.
fn families() -> Dashboard {
    let child = |id: &str, parent: &str, status: RunStatus| RunMeta {
        parent_run_id: Some(parent.to_string()),
        ..meta(id, status)
    };
    following(vec![
        meta("parent", RunStatus::Running),
        child("worker", "parent", RunStatus::Running),
        child("deep", "worker", RunStatus::Complete),
        meta("other", RunStatus::Running),
    ])
}

fn body(dash: &Dashboard) -> Vec<String> {
    let (_, dialog) = dash.notes.pending_confirm.as_ref().expect("a question");
    dialog.body.iter().map(|l| l.text()).collect()
}

#[test]
fn a_delete_counts_the_runs_below() {
    let mut dash = families();
    assert_eq!(dash.extra_sub_agent_rows(&vec!["parent".to_string()]), 2);
    assert_eq!(dash.extra_sub_agent_rows(&vec!["worker".to_string()]), 1);
    assert_eq!(dash.extra_sub_agent_rows(&vec!["other".to_string()]), 0);
    // A run below two of the runs named is counted once.
    assert_eq!(dash.extra_sub_agent_rows(&vec!["parent".to_string(), "worker".to_string()]), 1);

    dash.request_delete();
    assert_eq!(
        body(&dash),
        vec![
            "Delete 'parent' and all of its on-disk state? This is permanent.".to_string(),
            "Also deletes 2 sub-agent runs below it.".to_string(),
        ]
    );
    dash.runs.marked = vec!["other".to_string(), "worker".to_string()];
    dash.request_delete();
    assert_eq!(
        body(&dash),
        vec![
            "Delete 2 runs and their on-disk state? This is permanent.".to_string(),
            "Also deletes 1 sub-agent run below them.".to_string(),
        ]
    );
    let (action, _) = dash.notes.pending_confirm.as_ref().expect("a question");
    assert!(
        matches!(action, ConfirmAction::Delete { run_ids } if *run_ids == ["worker", "other"]),
        "in the order of the rows"
    );
}

#[test]
fn runs_that_go_in_a_circle_are_counted_once_each() {
    let mut dash = families();
    dash.runs.agents[0].parent_id = Some("deep".to_string());
    assert_eq!(dash.extra_sub_agent_rows(&vec!["parent".to_string()]), 2);
}

#[test]
fn a_delete_takes_its_rows_and_tells_the_daemon() {
    let mut dash = families();
    dash.runs.marked = vec!["worker".to_string(), "other".to_string()];
    let gone = vec!["deep".to_string(), "worker".to_string(), "parent".to_string()];
    let failures = vec![None, Some("busy".to_string()), None];
    let erasing = dash.perform_delete("parent", gone.clone()).expect("it is listed");
    assert_eq!(erasing.ids, gone);
    // The daemon is told before anything is erased. The named run is always
    // cancelled, another only while it goes.
    assert_eq!(ids(&dash).len(), 4);
    let told: Vec<&str> = dash
        .lanes
        .daemon_commands
        .iter()
        .map(|DaemonCommand::Cancel { run_id }| run_id.as_str())
        .collect();
    assert_eq!(told, vec!["worker", "parent"]);
    assert!(dash.notes.log.is_empty());
    dash.finish_delete(erasing, &failures, 50);
    assert_eq!(ids(&dash), vec!["other"]);
    assert!(dash.runs.order_stale);
    let log: Vec<&str> = dash.notes.log.iter().map(|l| l.message.as_str()).collect();
    assert_eq!(log, vec!["Deleted run deep", "Delete failed: busy", "Deleted run parent"]);

    // A pass that began before the delete still lists the runs; they stay away.
    dash.apply_run_snapshot(&snapshot(
        49,
        vec![meta("parent", RunStatus::Running), meta("other", RunStatus::Running)],
    ));
    assert_eq!(ids(&dash), vec!["other"]);
    // One that began after it lists what it finds.
    dash.apply_run_snapshot(&snapshot(
        50,
        vec![meta("parent", RunStatus::Running), meta("other", RunStatus::Running)],
    ));
    assert_eq!(ids(&dash), vec!["other", "parent"]);
}

#[test]
fn a_run_that_is_not_listed_is_not_deleted() {
    let mut dash = families();
    assert!(!dash.lists("gone"));
    assert!(dash.perform_delete("gone", vec!["gone".to_string()]).is_none());
    assert_eq!(ids(&dash).len(), 4);
    assert!(dash.lanes.daemon_commands.is_empty());
    assert!(dash.notes.log.is_empty());
}

// ── Killing ──────────────────────────────────────────────────────────────────

#[test]
fn a_kill_marks_its_row_and_no_other() {
    let mut dash = families();
    dash.runs.agents[1].waiting_prompt = Some("?".to_string());
    dash.runs.agents[1].pending_request = Some(request("q"));
    dash.reply.input_mode = true;
    dash.reply.text.insert_str("half an answer");
    let statuses = |agents: &Vec<DashboardAgent>| -> Vec<bool> {
        agents.iter().map(|a| matches!(a.status, AgentDisplayStatus::Cancelled)).collect()
    };
    dash.perform_kill("worker");
    assert_eq!(statuses(&dash.runs.agents), vec![false, true, false, false]);
    assert_eq!(dash.runs.agents[1].waiting_prompt, None);
    assert!(dash.runs.agents[1].pending_request.is_none());
    assert!(!dash.reply.input_mode);
    assert_eq!(dash.reply.text.text(), "");
    assert_eq!(dash.notes.log[0].message, "worker: kill requested");
    assert_eq!(dash.lanes.daemon_commands.len(), 1);
}

#[test]
fn only_live_runs_are_asked_about_before_a_kill() {
    let mut dash = families();
    dash.runs.selected = 2; // "deep", which has completed
    dash.request_kill();
    assert!(dash.notes.pending_confirm.is_none());
    dash.runs.marked = vec!["deep".to_string()];
    dash.request_kill();
    assert!(dash.notes.pending_confirm.is_none());
    dash.runs.marked = vec!["deep".to_string(), "worker".to_string()];
    dash.request_kill();
    assert_eq!(body(&dash), vec!["Cancel 1 run? Its state stays on disk.".to_string()]);
    dash.runs.marked = vec!["parent".to_string(), "worker".to_string()];
    dash.request_kill();
    assert_eq!(body(&dash), vec!["Cancel 2 runs? Their state stays on disk.".to_string()]);
}

/// A snapshot applied again changes nothing: no row, no toast, not the order.
#[test]
fn a_snapshot_applied_twice_is_applied_once() {
    let mut dash = following(vec![meta("a", RunStatus::Running), meta("b", RunStatus::Running)]);
    dash.feed.pending_interactions = vec![("b".to_string(), request("q"))];
    let next = snapshot(
        9,
        vec![
            meta("a", RunStatus::Complete),
            meta("b", RunStatus::WaitingInput),
            meta("c", RunStatus::Error),
        ],
    );
    dash.apply_run_snapshot(&next);
    let (rows, said) = (dash.runs.agents.clone(), messages(&dash));
    assert!(!said.is_empty());
    dash.runs.order_stale = false;
    dash.apply_run_snapshot(&next);
    assert_eq!(dash.runs.agents, rows);
    assert_eq!(messages(&dash), said);
    assert!(!dash.runs.order_stale);
}

/// Marks on rows that share an id cannot be counted, and are not asked about.
#[test]
fn marks_that_cannot_be_counted_are_told_apart() {
    let mut dash = families();
    assert!(dash.delete_can_be_asked());
    dash.runs.marked = vec!["other".to_string()];
    assert!(dash.delete_can_be_asked());
    let twin = dash.runs.agents.iter().find(|a| a.id == "other").expect("it is there").clone();
    dash.runs.agents.push(twin);
    assert!(!dash.delete_can_be_asked());
}
