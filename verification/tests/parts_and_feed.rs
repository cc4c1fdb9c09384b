//! Stored parts, and the feed of runs.

use leviath_dashboard::parts::{bytes_missing, export_name_of, PartOutcome};
use leviath_dashboard::run_loader::{
    collect, entry_of, plan_run, GraphShelf, LoaderState, RunFeed, RunSource, RunStep,
};
use leviath_dashboard::state::Dashboard;
use leviath_dashboard::types::{
    ActiveClock, AgentDisplayStatus, Blob, ContextEntry, ContextRegion, ContextSnapshot,
    DashboardAgent, InboundPart, InlineParts, Part, RunEntry, RunMeta, RunSnapshot, RunStatus,
    StageGraph, StageRecord, StageRunStatus, ToastLevel, TreeRow,
};
use std::sync::Arc;

fn test_agent(id: &str) -> DashboardAgent {
    DashboardAgent {
        id: id.to_string(),
        blueprint_name: "test-agent".to_string(),
        stage: "main".to_string(),
        stage_index: 0,
        num_stages: 2,
        status: AgentDisplayStatus::Active,
        tokens_in: 0,
        tokens_out: 0,
        cached_tokens: 0,
        iteration: 0,
        broken_scripts: vec![],
        waiting_prompt: None,
        wait_reason: None,
        pending_request: None,
        last_answered_request_id: None,
        context_snapshot: None,
        stages: Arc::new(vec![]),
        workdir: "/tmp".to_string(),
        task: "test".to_string(),
        title: None,
        model: None,
        parent_id: None,
        started_at: 1000,
        last_progress_at: None,
        runtime_secs: 0,
        clock_now: 0,
        graph: None,
        accepts_messages: true,
    }
}

fn messages(dash: &Dashboard) -> Vec<String> {
    dash.notes.toasts.iter().map(|t| t.message.clone()).collect()
}

fn stored() -> Part {
    Part {
        name: Some("hero.png".to_string()),
        blob: Some(Blob { sha256: "abc123".to_string(), mime_type: "image/png".to_string() }),
    }
}

fn context() -> ContextSnapshot {
    ContextSnapshot { total_tokens: 1, max_tokens: 10, regions: vec![] }
}

/// A dashboard looking at a run's context, the rows of the tree, and the window.
fn dashboard_on_a_part(run_id: &str) -> (Dashboard, Vec<TreeRow>, ContextSnapshot) {
    let mut dash = Dashboard::new();
    let mut agent = test_agent(run_id);
    agent.workdir = "/home/u/work".to_string();
    dash.runs.agents = vec![agent];
    dash.runs.display_indices = vec![0];
    dash.screens.detail_view = true;
    let rows = vec![
        TreeRow::Region { region: "task".to_string() },
        TreeRow::Entry { region: "task".to_string(), index: 0 },
        TreeRow::Part { region: "task".to_string(), index: 0, part: 1 },
    ];
    let snapshot = ContextSnapshot {
        total_tokens: 1,
        max_tokens: 100,
        regions: vec![ContextRegion {
            name: "task".to_string(),
            kind: "pinned".to_string(),
            current_tokens: 1,
            entries: vec![ContextEntry {
                parts: vec![Part { name: None, blob: None }, stored()],
            }],
        }],
    };
    dash.detail.tree.cursor = 2;
    (dash, rows, snapshot)
}

// ── Parts ────────────────────────────────────────────────────────────────────

#[test]
fn the_part_under_the_cursor_is_found_with_its_run() {
    let (mut dash, rows, snapshot) = dashboard_on_a_part("parts-run");
    let found = dash.context_part_under_cursor(Some(&snapshot), &rows).expect("a part");
    assert_eq!(found.run_id, "parts-run");
    assert_eq!(found.workdir, "/home/u/work");
    assert_eq!(found.part.name.as_deref(), Some("hero.png"));
    // A row that holds others is no part, nor is a part the window does not have.
    let gone = vec![TreeRow::Part { region: "task".to_string(), index: 0, part: 2 }];
    dash.detail.tree.cursor = 0;
    assert!(dash.context_part_under_cursor(Some(&snapshot), &gone).is_none());
    assert!(dash.context_part_under_cursor(Some(&snapshot), &rows).is_none());
    dash.detail.tree.cursor = 9;
    assert!(dash.context_part_under_cursor(Some(&snapshot), &rows).is_none());
}

#[test]
fn opening_and_writing_a_part_say_how_it_went() {
    let mut dash = Dashboard::new();
    let done = |result: Result<&str, &str>| {
        Some(PartOutcome {
            name: "hero.png".to_string(),
            result: result.map(str::to_string).map_err(str::to_string),
        })
    };
    dash.open_context_part(done(Ok("/tmp/hero.png")));
    dash.write_context_part(done(Ok("/home/u/work/hero.png")));
    dash.open_context_part(done(Err("no opener")));
    dash.write_context_part(done(Err("gone")));
    dash.open_context_part(None);
    dash.write_context_part(None);
    let toasts = messages(&dash);
    assert_eq!(toasts[0], "Opened hero.png");
    assert!(toasts[1].starts_with("Wrote "), "{toasts:?}");
    assert!(toasts[2].starts_with("Could not open hero.png"), "{toasts:?}");
    assert!(toasts[3].starts_with("Could not write hero.png"), "{toasts:?}");
    assert!(toasts[4].contains("Move the cursor onto a stored part"), "{toasts:?}");
    assert!(toasts[5].contains("Move the cursor onto a stored part"), "{toasts:?}");
    assert_eq!(toasts.len(), 6);
}

#[test]
fn with_no_run_selected_there_is_no_part_to_act_on() {
    let mut dash = Dashboard::new();
    let rows = vec![TreeRow::Region { region: "task".to_string() }];
    assert!(dash.context_part_under_cursor(None, &rows).is_none());
    dash.open_context_part(None);
    assert!(!dash.notes.toasts.is_empty());
    // A run with no context to read has no parts either.
    dash.runs.agents = vec![test_agent("bare")];
    dash.runs.display_indices = vec![0];
    assert!(dash.context_part_under_cursor(None, &rows).is_none());
}

#[test]
fn a_part_with_no_name_exports_under_its_hash() {
    let words = Part { name: None, blob: None };
    assert_eq!(export_name_of(&words).0, "");
    assert!(!bytes_missing("it is text").is_empty());
    let part = stored();
    assert_eq!(export_name_of(&part), ("abc123".to_string(), "image/png".to_string()));
}

#[test]
fn an_answer_carries_the_files_it_names() {
    let mut dash = Dashboard::new();
    let part = InboundPart { name: "a.png".to_string(), region: None, bytes: vec![1] };
    let read = Ok(InlineParts {
        text: "see @a.png and @b.png".to_string(),
        parts: vec![part],
        unresolved: vec!["b.png".to_string()],
    });
    let (text, parts) = dash.answer_parts("see @a.png and @b.png", read);
    assert_eq!(text, "see @a.png and @b.png");
    assert_eq!(parts.len(), 1);
    assert!(messages(&dash)[0].contains("b.png"), "{:?}", messages(&dash));

    // A file that cannot be read leaves the answer as text, and says so.
    let (text, parts) = dash.answer_parts("see @c.png", Err("c.png is empty".to_string()));
    assert_eq!(text, "see @c.png");
    assert!(parts.is_empty());
    let last = dash.notes.toasts.last().expect("a toast");
    assert!(last.message.contains("c.png is empty"), "{}", last.message);
    assert_ne!(last.level, ToastLevel::Info);
}

// ── The feed ─────────────────────────────────────────────────────────────────

fn run(id: &str, status: RunStatus, started_at: i64) -> Arc<RunMeta> {
    run_of(id, "/p", status, started_at)
}

fn run_of(id: &str, agent_path: &str, status: RunStatus, started_at: i64) -> Arc<RunMeta> {
    Arc::new(RunMeta {
        run_id: id.to_string(),
        agent_name: "agent".to_string(),
        agent_path: agent_path.to_string(),
        current_stage: String::new(),
        stage_index: 0,
        num_stages: 1,
        iteration: 0,
        prompt_tokens: 0,
        completion_tokens: 0,
        cached_tokens: 0,
        title: None,
        status,
        error: None,
        workdir: "/work".to_string(),
        task: "task".to_string(),
        model: None,
        parent_run_id: None,
        started_at,
        updated_at: started_at,
        last_progress_at: None,
        waiting_on: None,
        broken_scripts: vec![],
        clock: ActiveClock { banked_secs: 0, since: None },
    })
}

fn record(name: &str) -> StageRecord {
    StageRecord {
        name: name.to_string(),
        status: StageRunStatus::Pending,
        prompt_tokens: 0,
        completion_tokens: 0,
        started_at: None,
        ended_at: None,
        clock: ActiveClock { banked_secs: 0, since: None },
    }
}

fn source(meta: Arc<RunMeta>, ledger: usize) -> RunSource {
    let stages = (0..ledger).map(|i| record(&format!("s{i}"))).collect();
    RunSource { meta, known: None, settled: false, stages: Arc::new(stages) }
}

/// A shelf with the graph of "/p", and a blueprint that could not be read.
fn shelf() -> GraphShelf {
    let mut shelf = GraphShelf::new();
    let graph = Arc::new(StageGraph { is_branching: false, nodes: vec![], edges: vec![] });
    shelf.shelve("/p".to_string(), Some(graph));
    shelf.shelve("/no/such/blueprint".to_string(), None);
    shelf
}

/// One pass lists every run in the order it was found; the list-only pass leaves
/// the ledgers out; the run on screen, and only that one, brings its context
/// window; and runs of one blueprint share one graph.
#[test]
fn collect_reads_the_runs_directory() {
    let sources = vec![
        source(run("newer", RunStatus::Running, 20), 1),
        source(run("older", RunStatus::Complete, 10), 1),
        source(run_of("lost", "/no/such/blueprint", RunStatus::Complete, 5), 0),
    ];
    let graphs = shelf();
    let window = Arc::new(context());
    let list_only = collect(7, &sources, &graphs, Some("newer"), Some(window.clone()), false);
    let ids: Vec<&str> = list_only.runs.iter().map(|r| r.meta.run_id.as_str()).collect();
    assert_eq!(ids, ["newer", "older", "lost"]);
    assert_eq!(list_only.taken_at, 7);
    assert!(list_only.runs.iter().all(|r| r.stages.is_empty()));
    assert_eq!(list_only.context.as_ref().unwrap().0, "newer");
    let (a, b) = (&list_only.runs[0].graph, &list_only.runs[1].graph);
    assert!(Arc::ptr_eq(a.as_ref().unwrap(), b.as_ref().unwrap()));
    assert!(list_only.runs[2].graph.is_none(), "an unreadable blueprint");

    // The full pass reads the ledgers, the settled run's included,
    // which the list-only pass had skipped.
    let full = collect(8, &sources, &graphs, Some("older"), None, true);
    assert!(full.runs.iter().take(2).all(|r| r.stages.len() == 1));
    assert!(full.context.is_none(), "`older` has no context file");

    // A run the directory does not hold brings no context either.
    assert!(collect(9, &sources, &graphs, Some("gone"), Some(window), true).context.is_none());
}

/// A finished run whose record has not changed is handed back as it was,
/// ledger and all; a live run is read again.
#[test]
fn collect_reuses_a_settled_run_and_rereads_a_live_one() {
    let done = run("done", RunStatus::Complete, 10);
    let live = run("live", RunStatus::Running, 20);
    let first = collect(
        1,
        &vec![source(done.clone(), 1), source(live.clone(), 1)],
        &shelf(),
        None,
        None,
        true,
    );
    let known = |i: usize| -> Option<RunEntry> {
        let entry = &first.runs[i];
        Some(RunEntry {
            meta: entry.meta.clone(),
            stages: entry.stages.clone(),
            stages_read: entry.stages_read,
            graph: entry.graph.clone(),
        })
    };
    assert_eq!(plan_run(&known(0), true, true), RunStep::Reuse);
    assert_eq!(plan_run(&known(1), false, true), RunStep::Read { stages: true });
    assert_eq!(plan_run(&known(1), false, false), RunStep::Read { stages: false });
    assert_eq!(plan_run(&None, true, true), RunStep::Read { stages: true });

    // Both ledgers changed on disk. The finished run's record did not,
    // so its ledger is not looked at; the live one's is.
    let second = collect(
        2,
        &vec![
            RunSource { known: known(0), settled: true, ..source(done, 2) },
            RunSource { known: known(1), settled: false, ..source(live, 2) },
        ],
        &shelf(),
        None,
        None,
        true,
    );
    assert!(Arc::ptr_eq(&first.runs[0].stages, &second.runs[0].stages));
    assert_eq!(second.runs[1].stages.len(), 2);
}

/// A settled run listed without its ledger has it read by the first full pass.
#[test]
fn a_ledger_the_list_pass_skipped_is_read_by_the_full_one() {
    let meta = run("done", RunStatus::Complete, 10);
    let listed = entry_of(&source(meta.clone(), 1), &shelf(), false);
    assert!(!listed.stages_read);
    let known = Some(listed);
    assert_eq!(plan_run(&known, true, false), RunStep::Reuse);
    assert_eq!(plan_run(&known, true, true), RunStep::Read { stages: true });
}

/// A blueprint is loaded once a round, and one that could not be read is not tried
/// again.
#[test]
fn a_shelf_keeps_what_it_was_given_first() {
    let mut shelf = shelf();
    assert!(shelf.look("/other").is_none());
    assert!(matches!(shelf.look("/no/such/blueprint"), Some(None)));
    let first = shelf.look("/p").flatten().expect("a graph");
    let second = Arc::new(StageGraph { is_branching: true, nodes: vec![], edges: vec![] });
    shelf.shelve("/p".to_string(), Some(second));
    assert!(Arc::ptr_eq(&shelf.look("/p").flatten().expect("a graph"), &first));
}

/// The feed hands over each new snapshot once, and tells the loader about
/// the run on screen only when it changes.
#[test]
fn a_feed_takes_each_snapshot_once_and_shows_changes_only() {
    let mut feed = RunFeed::new();
    assert!(feed.take().is_none(), "nothing sent yet");
    let snapshot = Arc::new(RunSnapshot { taken_at: 1, runs: vec![], context: None });
    feed.deliver(snapshot.clone());
    assert!(Arc::ptr_eq(&feed.take().unwrap(), &snapshot));
    assert!(feed.take().is_none(), "the same snapshot is not taken twice");

    feed.show(Some("a"));
    feed.show(Some("a"));
    feed.show(None);
    assert_eq!(feed.asks, vec![Some("a".to_string()), None], "the repeat sent nothing");
    feed.show(Some("b"));
    assert!(feed.take().is_none());
}

/// The first round lists the runs alone and goes straight on to the next, which
/// reads everything; the run on screen is the one heard last.
#[test]
fn the_loader_lists_first_and_reads_what_it_heard_last() {
    let mut state = LoaderState::new();
    assert!(!state.with_stages);
    let waits = state.after_round();
    assert!(state.with_stages);
    state.hear(vec![Some("queued".to_string()), Some("latest".to_string())]);
    assert_eq!(state.on_screen.as_deref(), Some("latest"));
    state.hear(vec![]);
    assert_eq!(state.on_screen.as_deref(), Some("latest"));
    assert_ne!(waits, state.after_round(), "only the later rounds wait");
}
