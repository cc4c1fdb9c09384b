//! The content pane and the context card.

use leviath_dashboard::render::content::{
    build_output_lines, content_kind, final_output_lines, viewed_file, ContentKind, ContentPane,
    ContentPaths, ContentReading, ContentView, ViewedFile,
};
use leviath_dashboard::render::context::{
    usage_percent, window_on_view, ContextCard, FlatTree, HistoryPoint, WindowReading,
    CARD_REGIONS,
};
use leviath_dashboard::state::Dashboard;
use leviath_dashboard::style::{Color, Line, Rect, Span, Style};
use leviath_dashboard::types::{
    ActiveClock, AgentDisplayStatus, Artifact, ClickTarget, ContextEntry, ContextRegion,
    ContextSnapshot, DashboardAgent, FinalOutput, InteractionKind, InteractionRequest,
    StageContentMode, StageEdge, StageGraph, StageNode, StageRecord, StageRunStatus,
};
use std::sync::Arc;

fn make_test_agent(id: &str, status: AgentDisplayStatus) -> DashboardAgent {
    DashboardAgent {
        id: id.to_string(),
        blueprint_name: "test-agent".to_string(),
        stage: "main".to_string(),
        stage_index: 0,
        num_stages: 1,
        status,
        tokens_in: 100,
        tokens_out: 50,
        cached_tokens: 10,
        iteration: 3,
        broken_scripts: vec![],
        waiting_prompt: None,
        wait_reason: None,
        pending_request: None,
        last_answered_request_id: None,
        context_snapshot: None,
        stages: Arc::new(vec![]),
        workdir: "/tmp/test".to_string(),
        task: "test task".to_string(),
        title: Some("My Test".to_string()),
        model: None,
        parent_id: None,
        started_at: 940,
        last_progress_at: None,
        runtime_secs: 0,
        clock_now: 0,
        graph: None,
        accepts_messages: true,
    }
}

fn region(name: &str, kind: &str, tokens: usize, entries: usize) -> ContextRegion {
    ContextRegion {
        name: name.to_string(),
        kind: kind.to_string(),
        current_tokens: tokens,
        entries: (0..entries).map(|_| ContextEntry { parts: vec![] }).collect(),
    }
}

fn make_context_snapshot(total: usize, max: usize) -> ContextSnapshot {
    ContextSnapshot {
        total_tokens: total,
        max_tokens: max,
        regions: vec![region("system", "pinned", total / 2, 0)],
    }
}

fn make_stage_record(name: &str) -> StageRecord {
    StageRecord {
        name: name.to_string(),
        status: StageRunStatus::Active,
        prompt_tokens: 0,
        completion_tokens: 0,
        started_at: None,
        ended_at: None,
        clock: ActiveClock { banked_secs: 0, since: None },
    }
}

fn line(text: &str) -> Line {
    Line {
        spans: vec![Span {
            content: text.to_string(),
            style: Style { fg: None, bg: None, bold: false, reversed: false },
        }],
    }
}

fn lines(texts: &[&str]) -> Vec<Line> {
    texts.iter().map(|t| line(t)).collect()
}

fn text_of(lines: &[Line]) -> String {
    lines.iter().map(|l| l.text()).collect::<Vec<String>>().join("\n")
}

/// A reading of a run that has written nothing.
fn reading() -> ContentReading {
    ContentReading {
        answer: None,
        reviewing: None,
        output: String::new(),
        log: String::new(),
        windows: no_windows(),
        tree: no_tree(),
        rendered: vec![],
        paths: ContentPaths {
            output: "/runs/r/stages/0/output.log".to_string(),
            logs: "/runs/r/stages/0/logs.log".to_string(),
            context: "/runs/r/stages/0/context.json".to_string(),
            answer: "/runs/r/final_output.json".to_string(),
        },
        home: "/home/u".to_string(),
    }
}

/// A reading of a stage that put this out.
fn output(text: &str) -> ContentReading {
    ContentReading { output: text.to_string(), ..reading() }
}

/// A reading of a context window whose tree has these lines, each a row of its own.
fn tree_of(snapshot: &ContextSnapshot, texts: &[&str]) -> ContentReading {
    ContentReading {
        windows: recorded(Some(snapshot)),
        tree: FlatTree { lines: lines(texts), cursor_lines: (0..texts.len()).collect() },
        ..reading()
    }
}

/// Markdown as lines: headings and emphasis lose their marks.
fn markdown(text: &str) -> Vec<Line> {
    text.lines().map(|l| line(&l.trim_start_matches("# ").replace("**", ""))).collect()
}

/// The pane over `area`, with the text of the view that is on rendered first.
fn draw_in(
    dash: &mut Dashboard,
    area: Rect,
    agent: &DashboardAgent,
    mut read: ContentReading,
) -> ContentPane {
    if let Some(text) = dash.text_to_render(agent, &read) {
        if read.rendered.is_empty() {
            read.rendered = markdown(&text);
        }
    }
    match dash.render_content_pane(area, agent, read) {
        ContentView::Pane(pane) => pane,
        ContentView::Editor(editor) => panic!("{}", editor.title),
    }
}

fn draw(dash: &mut Dashboard, agent: &DashboardAgent, read: ContentReading) -> ContentPane {
    draw_in(dash, Rect::new(0, 0, 100, 20), agent, read)
}

/// The pane as text: its title, its lines, and the hints on its border.
fn shown(pane: &ContentPane) -> String {
    format!("{}\n{}\n{}{}", pane.title, text_of(&pane.lines), pane.path_hint, pane.scroll_info)
}

fn in_mode(mode: StageContentMode) -> Dashboard {
    let mut dash = Dashboard::new();
    dash.detail.content_mode = mode;
    dash
}

fn no_windows() -> WindowReading {
    WindowReading { browsed: None, stage: None }
}

/// A run whose live window this is.
fn with_live(snapshot: Option<&ContextSnapshot>) -> DashboardAgent {
    let mut agent = make_test_agent("run-live", AgentDisplayStatus::Active);
    agent.context_snapshot = snapshot.map(|live| Arc::new(live.clone()));
    agent
}

fn card(dash: &Dashboard, snapshot: Option<&ContextSnapshot>) -> ContextCard {
    dash.render_context_bar(Rect::new(0, 0, 80, 5), &with_live(snapshot), &no_windows(), None)
}

fn titled(dash: &Dashboard, snapshot: &ContextSnapshot, points: &Vec<HistoryPoint>) -> String {
    let agent = with_live(Some(snapshot));
    let area = Rect::new(0, 0, 80, 5);
    dash.render_context_bar(area, &agent, &no_windows(), Some(points)).title
}

fn card_text(card: &ContextCard) -> String {
    format!("{}\n{}", card.title, text_of(&card.lines))
}

fn no_tree() -> FlatTree {
    FlatTree { lines: vec![], cursor_lines: vec![] }
}

fn context_text(agent: &DashboardAgent, snapshot: Option<&ContextSnapshot>) -> String {
    let dash = Dashboard::new();
    text_of(&dash.build_context_lines(agent, &recorded(snapshot), no_tree()).0)
}

/// A stage that recorded this window.
fn recorded(snapshot: Option<&ContextSnapshot>) -> WindowReading {
    WindowReading { browsed: None, stage: snapshot.cloned() }
}

fn answer(stage: &str, content: &str) -> FinalOutput {
    FinalOutput {
        stage: stage.to_string(),
        format: Some("markdown".to_string()),
        truncated: false,
        content: content.to_string(),
        artifacts: vec![],
    }
}

fn modes(dash: &Dashboard) -> Vec<StageContentMode> {
    dash.mouse
        .click_targets
        .iter()
        .filter_map(|(_, t)| match t {
            ClickTarget::ContentMode(mode) => Some(*mode),
            _ => None,
        })
        .collect()
}

// ── The context card ─────────────────────────────────────────────────────────

#[test]
fn render_context_bar_with_snapshot() {
    let snap = make_context_snapshot(4000, 8000);
    let buf = card_text(&card(&Dashboard::new(), Some(&snap)));
    assert!(buf.contains("ctx"), "{buf}");
    assert!(buf.contains("50%"), "{buf}");
}

#[test]
fn render_context_bar_without_snapshot() {
    let buf = card_text(&card(&Dashboard::new(), None));
    assert!(!buf.contains("%"), "{buf}");
}

#[test]
fn render_context_bar_high_fill() {
    let snap = make_context_snapshot(7500, 8000); // 93% = red
    let buf = card_text(&card(&Dashboard::new(), Some(&snap)));
    assert!(buf.contains("ctx"), "{buf}");
    assert!(buf.contains("93%"), "{buf}");
}

#[test]
fn render_context_bar_medium_fill() {
    let snap = make_context_snapshot(6000, 8000); // 75% = yellow
    let buf = card_text(&card(&Dashboard::new(), Some(&snap)));
    assert!(buf.contains("ctx"), "{buf}");
    assert!(buf.contains("75%"), "{buf}");
}

#[test]
fn render_context_bar_multiple_regions() {
    let snap = ContextSnapshot {
        total_tokens: 5000,
        max_tokens: 8000,
        regions: vec![
            region("system", "pinned", 1000, 0),
            region("history", "sliding_window", 3000, 0),
            region("context", "compacting", 1000, 0),
        ],
    };
    let buf = card_text(&card(&Dashboard::new(), Some(&snap)));
    // The bar shows one initial per region.
    assert!(buf.contains("[P S H]"), "{buf}");
}

#[test]
fn render_context_bar_regions_string_with_many_region_types() {
    let kinds = ["pinned", "sliding", "compacting", "history", "other", "more", "extra"];
    let snap = ContextSnapshot {
        total_tokens: 4000,
        max_tokens: 8000,
        regions: kinds.iter().map(|k| region("s", k, 500, 0)).collect(),
    };
    let buf = card_text(&card(&Dashboard::new(), Some(&snap)));
    assert!(buf.contains("ctx"), "{buf}");
    assert_eq!(CARD_REGIONS, 6, "the seventh is left out");
}

#[test]
fn render_context_bar_run_state_uses_stage_context() {
    let snap = make_context_snapshot(3000, 8000);
    let buf = card_text(&card(&Dashboard::new(), Some(&snap)));
    assert!(buf.contains("ctx"), "{buf}");
}

fn point(at: i64) -> HistoryPoint {
    HistoryPoint { stage: "main".to_string(), at, offset: 0 }
}

#[test]
fn render_context_bar_titles_cover_the_fallback_arms() {
    // An index past the cached points still titles with the position;
    // an unrepresentable timestamp renders a blank clock.
    let mut dash = Dashboard::new();
    let snap = make_context_snapshot(1000, 8000);
    let points = vec![point(i64::MIN)];
    dash.detail.history_idx = Some(0);
    let first = titled(&dash, &snap, &points);
    assert!(!first.contains(':'), "{first}");

    dash.detail.history_idx = Some(9);
    let text = titled(&dash, &snap, &points);
    assert!(text.contains("point 10/1"), "{text}");
}

#[test]
fn render_context_bar_shows_history_position_when_browsing() {
    let mut dash = Dashboard::new();
    let snap = make_context_snapshot(1000, 8000);
    dash.detail.history_idx = Some(0);
    let text = titled(&dash, &snap, &vec![point(1)]);
    assert!(text.contains("point 1/1"), "history position in title: {text}");
    assert!(text.contains("00:00:01"), "and its time: {text}");
}

#[test]
fn the_window_is_never_more_than_full() {
    assert_eq!(usage_percent(0, 0), 0);
    assert_eq!(usage_percent(7500, 8000), 93);
    assert_eq!(usage_percent(9000, 8000), 100);
}

// ── The context view ─────────────────────────────────────────────────────────

fn node(id: &str) -> StageNode {
    StageNode {
        id: id.to_string(),
        kind_label: "autonomous".to_string(),
        max_iterations: None,
        max_revisits: None,
        self_loop: false,
        inputs: vec![],
        outputs: vec![],
        description: None,
    }
}

fn edge(from: &str, to: &str) -> StageEdge {
    StageEdge {
        from: from.to_string(),
        to: to.to_string(),
        condition_label: String::new(),
        hint: None,
        transform: "direct".to_string(),
        unseen: vec![],
    }
}

fn graph(stages: &[&str], edges: Vec<StageEdge>) -> Option<Arc<StageGraph>> {
    Some(Arc::new(StageGraph {
        is_branching: true,
        nodes: stages.iter().map(|s| node(s)).collect(),
        edges,
    }))
}

#[test]
fn build_context_lines_with_snapshot() {
    let agent = make_test_agent("run-bcl", AgentDisplayStatus::Active);
    let snap = make_context_snapshot(4000, 8000);
    let text = context_text(&agent, Some(&snap));
    assert!(!text.is_empty());
    assert!(text.contains("1 regions  4k/8k tokens total  50%"), "{text}");
}

#[test]
fn build_context_lines_without_snapshot() {
    let agent = make_test_agent("run-bcl2", AgentDisplayStatus::Active);
    let text = context_text(&agent, None);
    assert!(text.contains("no context snapshot"), "{text}");
}

#[test]
fn build_context_lines_with_graph_info() {
    let mut agent = make_test_agent("run-graph", AgentDisplayStatus::Active);
    agent.graph = graph(
        &["main", "implement"],
        vec![StageEdge { hint: Some("after plan".to_string()), ..edge("main", "implement") }],
    );
    agent.stages = Arc::new(vec![make_stage_record("main")]);
    let text = context_text(&agent, Some(&make_context_snapshot(4000, 8000)));
    assert!(text.contains("Stage:"));
    assert!(text.contains("→ implement - after plan"), "{text}");
    assert!(text.contains("Visited 1 time\n"), "{text}");
}

#[test]
fn build_context_lines_graph_info_falls_back_to_stage_names_when_no_stage_record() {
    let mut agent = make_test_agent("run-graph-fallback", AgentDisplayStatus::Active);
    agent.graph = graph(&["main", "implement"], vec![edge("main", "implement")]);
    agent.stages = Arc::new(vec![]); // no stage records at all
    let text = context_text(&agent, Some(&make_context_snapshot(4000, 8000)));
    assert!(text.contains("Stage: main"));
}

#[test]
fn build_context_lines_graph_info_shows_visited_count() {
    let mut agent = make_test_agent("run-graph-visited", AgentDisplayStatus::Active);
    agent.graph = graph(&["main"], vec![]);
    // Two records named "main": two visits, in the plural.
    agent.stages = Arc::new(vec![make_stage_record("main"), make_stage_record("main")]);
    let text = context_text(&agent, Some(&make_context_snapshot(4000, 8000)));
    assert!(text.contains("Visited 2 times"));
}

#[test]
fn build_context_lines_graph_info_edge_with_non_always_condition() {
    let mut agent = make_test_agent("run-graph-cond", AgentDisplayStatus::Active);
    agent.graph = graph(
        &["main", "error_recovery"],
        vec![StageEdge { condition_label: "error".to_string(), ..edge("main", "error_recovery") }],
    );
    agent.stages = Arc::new(vec![make_stage_record("main")]);
    let text = context_text(&agent, Some(&make_context_snapshot(4000, 8000)));
    assert!(text.contains("[error]"));
}

#[test]
fn build_context_lines_with_graph_info_and_incoming_edges() {
    let mut agent = make_test_agent("run-incoming", AgentDisplayStatus::Active);
    // "plan" has an edge to "implement", which is the selected stage.
    agent.graph = graph(
        &["plan", "implement"],
        vec![StageEdge { transform: "clear".to_string(), ..edge("plan", "implement") }],
    );
    agent.stages = Arc::new(vec![make_stage_record("implement")]);
    let text = context_text(&agent, Some(&make_context_snapshot(4000, 8000)));
    // The incoming edge from "plan" should be listed, with its transform.
    assert!(text.contains("← plan"));
    assert!(text.contains("[transform: clear]"));
}

#[test]
fn build_context_lines_with_terminal_stage_no_edges() {
    let mut agent = make_test_agent("run-terminal", AgentDisplayStatus::Active);
    // "plan" has no outgoing edges (terminal)
    agent.graph = graph(&["plan"], vec![]);
    agent.stages = Arc::new(vec![make_stage_record("plan")]);
    let text = context_text(&agent, Some(&make_context_snapshot(4000, 8000)));
    assert!(text.contains("terminal"));
}

#[test]
fn build_context_lines_skips_the_transition_block_for_a_linear_blueprint() {
    // A linear blueprint's chain is a graph too, but the block is for
    // ones that branch: no "Stage:" header here.
    let mut agent = make_test_agent("run-noedge", AgentDisplayStatus::Active);
    agent.graph = Some(Arc::new(StageGraph {
        is_branching: false,
        nodes: vec![node("main"), node("next")],
        edges: vec![edge("main", "next")],
    }));
    agent.stages = Arc::new(vec![make_stage_record("main")]);
    let text = context_text(&agent, Some(&make_context_snapshot(4000, 8000)));
    assert!(!text.contains("Stage:"), "{text}");
    assert!(!text.contains("Transitions"), "{text}");
}

#[test]
fn build_context_lines_old_run_without_entries() {
    let agent = make_test_agent("run-old", AgentDisplayStatus::Active);
    // Has tokens but no entries = old run
    let old = ContextSnapshot {
        total_tokens: 4000,
        max_tokens: 8000,
        regions: vec![region("system", "pinned", 2000, 0)],
    };
    assert!(context_text(&agent, Some(&old)).contains("predates"));
    let new = ContextSnapshot { regions: vec![region("system", "pinned", 2000, 1)], ..old };
    assert!(!context_text(&agent, Some(&new)).contains("predates"));
}

#[test]
fn build_context_lines_zero_usage_region() {
    let agent = make_test_agent("run-zerouse", AgentDisplayStatus::Active);
    let snap = ContextSnapshot {
        total_tokens: 0,
        max_tokens: 8000,
        regions: vec![region("empty", "sliding", 0, 0)],
    };
    let text = context_text(&agent, Some(&snap));
    assert!(!text.is_empty());
    assert!(!text.contains("predates"), "{text}");
}

/// The rows of the tree start below what stands above it.
#[test]
fn the_trees_rows_are_counted_from_the_top_of_the_view() {
    let dash = Dashboard::new();
    let agent = make_test_agent("run-rows", AgentDisplayStatus::Active);
    let snap = make_context_snapshot(0, 8000);
    let tree = FlatTree { lines: lines(&["region", "stub", "stub"]), cursor_lines: vec![0, 2] };
    let (all, rows) = dash.build_context_lines(&agent, &recorded(Some(&snap)), tree);
    assert_eq!(all.len(), 5);
    assert_eq!(rows, vec![2, 4]);
    assert_eq!(all[rows[0]].text(), "region");
    let tree = FlatTree { lines: lines(&["region"]), cursor_lines: vec![0] };
    assert!(dash.build_context_lines(&agent, &no_windows(), tree).1.is_empty());
}

// ── The content pane ─────────────────────────────────────────────────────────

#[test]
fn render_content_pane_output_mode() {
    let mut dash = in_mode(StageContentMode::Output);
    let agent = make_test_agent("run-out", AgentDisplayStatus::Active);
    let buf = shown(&draw(&mut dash, &agent, reading()));
    assert!(buf.contains("Output"), "{buf}");
}

#[test]
fn render_content_pane_logs_mode() {
    let mut dash = in_mode(StageContentMode::Logs);
    let agent = make_test_agent("run-logs", AgentDisplayStatus::Active);
    let buf = shown(&draw(&mut dash, &agent, reading()));
    assert!(buf.contains("Logs"), "{buf}");
}

#[test]
fn render_content_pane_context_mode() {
    let mut dash = in_mode(StageContentMode::Context);
    let agent = make_test_agent("run-ctxm", AgentDisplayStatus::Active);
    let buf = shown(&draw(&mut dash, &agent, reading()));
    assert!(buf.contains("Context"), "{buf}");
}

#[test]
fn render_content_pane_error_banner() {
    let mut dash = in_mode(StageContentMode::Output);
    let agent =
        make_test_agent("run-err", AgentDisplayStatus::Error("something broke".to_string()));
    let buf = shown(&draw(&mut dash, &agent, reading()));
    assert!(buf.contains("Error"), "{buf}");
    assert!(buf.contains("something broke"), "{buf}");
}

#[test]
fn render_content_pane_error_empty_message() {
    let mut dash = in_mode(StageContentMode::Output);
    let agent = make_test_agent("run-err2", AgentDisplayStatus::Error(String::new()));
    let buf = shown(&draw(&mut dash, &agent, reading()));
    assert!(!buf.contains("Error  "), "{buf}");
}

#[test]
fn render_content_pane_cancelled_banner() {
    let mut dash = in_mode(StageContentMode::Output);
    let agent = make_test_agent("run-cancel", AgentDisplayStatus::Cancelled);
    let buf = shown(&draw(&mut dash, &agent, reading()));
    assert!(buf.contains("Run was cancelled."), "{buf}");
}

#[test]
fn render_content_pane_with_search() {
    let mut dash = in_mode(StageContentMode::Output);
    dash.detail.search_query = "test".to_string();
    let agent = make_test_agent("run-search", AgentDisplayStatus::Active);
    let buf = shown(&draw(&mut dash, &agent, reading()));
    assert!(buf.contains("test"), "{buf}");
}

#[test]
fn render_content_pane_search_mode_active() {
    let mut dash = in_mode(StageContentMode::Output);
    dash.detail.search_mode = true;
    dash.detail.search_query = "find".to_string();
    let agent = make_test_agent("run-sm", AgentDisplayStatus::Active);
    let buf = shown(&draw(&mut dash, &agent, reading()));
    assert!(buf.contains("find"), "{buf}");
}

#[test]
fn render_content_pane_search_mode_active_empty_query_shows_cursor() {
    let mut dash = in_mode(StageContentMode::Output);
    dash.detail.search_mode = true;
    dash.detail.search_query = String::new();
    let agent = make_test_agent("run-sm-empty", AgentDisplayStatus::Active);
    let content = shown(&draw(&mut dash, &agent, reading()));
    assert!(content.contains('▌'));
}

#[test]
fn render_content_pane_clamps_scroll_beyond_available_lines() {
    let mut dash = in_mode(StageContentMode::Output);
    dash.detail.scroll = 9999;
    let agent = make_test_agent("run-clamp", AgentDisplayStatus::Active);
    draw(&mut dash, &agent, reading());
    assert_eq!(dash.detail.scroll, 0);
}

#[test]
fn render_content_pane_with_stage_name_in_title() {
    let mut dash = in_mode(StageContentMode::Output);
    let mut agent = make_test_agent("run-sn", AgentDisplayStatus::Active);
    agent.stages = Arc::new(vec![make_stage_record("analyze")]);
    let buf = shown(&draw(&mut dash, &agent, reading()));
    assert!(buf.contains("Output"), "{buf}");
    assert!(buf.contains("No output yet for analyze"), "{buf}");
}

#[test]
fn render_content_pane_logs_mode_run_state() {
    let mut dash = in_mode(StageContentMode::Logs);
    let agent = make_test_agent("run-logs-rs", AgentDisplayStatus::Active);
    let buf = shown(&draw(&mut dash, &agent, reading()));
    assert!(buf.contains("Logs"), "{buf}");
}

#[test]
fn render_content_pane_context_mode_run_state() {
    let mut dash = in_mode(StageContentMode::Context);
    let agent = make_test_agent("run-ctx-rs", AgentDisplayStatus::Active);
    let buf = shown(&draw(&mut dash, &agent, reading()));
    assert!(buf.contains("Context"), "{buf}");
    assert!(buf.contains("no context snapshot available"), "{buf}");
}

#[test]
fn render_content_pane_file_path_hint_context_mode() {
    let mut dash = in_mode(StageContentMode::Context);
    let agent = make_test_agent("run-ctx-fph", AgentDisplayStatus::Active);
    let pane = draw(&mut dash, &agent, reading());
    assert!(pane.title.contains("Context"), "{}", pane.title);
    assert_eq!(pane.path_hint, " /runs/r/stages/0/context.json ");
    assert_eq!(viewed_file(StageContentMode::Context, false), ViewedFile::StageContext);
}

#[test]
fn render_content_pane_file_path_hint_logs_mode() {
    let mut dash = in_mode(StageContentMode::Logs);
    let agent = make_test_agent("run-logs-fph", AgentDisplayStatus::Active);
    let pane = draw(&mut dash, &agent, reading());
    assert!(pane.title.contains("Logs"), "{}", pane.title);
    assert_eq!(pane.path_hint, " /runs/r/stages/0/logs.log ");
    assert_eq!(viewed_file(StageContentMode::Logs, false), ViewedFile::StageLogs);
}

#[test]
fn render_content_pane_output_mode_run_state_shows_file_path_hint() {
    let mut dash = in_mode(StageContentMode::Output);
    let agent = make_test_agent("test-content-output-hint", AgentDisplayStatus::Active);
    let mut read = output("hello output");
    read.paths.output = "/home/u/.leviath/runs/r/stages/0/output.log".to_string();
    let pane = draw(&mut dash, &agent, read);
    assert_eq!(text_of(&pane.lines), "hello output");
    assert!(pane.path_hint.contains("output.log"), "{}", pane.path_hint);
    assert_eq!(pane.path_hint, " ~/.leviath/runs/r/stages/0/output.log ");
    assert_eq!(viewed_file(StageContentMode::Output, false), ViewedFile::StageOutput);
}

#[test]
fn render_content_pane_logs_mode_shows_tool_count_badge() {
    let mut dash = in_mode(StageContentMode::Logs);
    let agent = make_test_agent("test-content-tool-badge", AgentDisplayStatus::Active);
    let log = "[tool] read_file(x.rs)\n[tool] write_file(y.rs)\n";
    let pane = draw(&mut dash, &agent, ContentReading { log: log.to_string(), ..reading() });
    assert!(pane.title.contains("2 tools"), "{}", pane.title);
}

#[test]
fn render_content_pane_search_with_matches() {
    let mut dash = in_mode(StageContentMode::Context);
    dash.detail.search_query = "token".to_string();
    let agent = make_test_agent("run-sm2", AgentDisplayStatus::Active);
    let snap = ContextSnapshot {
        total_tokens: 4000,
        max_tokens: 8000,
        regions: vec![region("system", "pinned", 2000, 1)],
    };
    let tree = ["▾ system  2.0k tokens", "  ▾ entry 1", "hello Token world"];
    let pane = draw(&mut dash, &agent, tree_of(&snap, &tree));
    // Matches present: the title carries the position within them.
    assert!(pane.title.contains("/token/"), "{}", pane.title);
    assert!(pane.title.contains("1/3"), "{}", pane.title);
}

#[test]
fn render_content_pane_search_no_matches() {
    let mut dash = in_mode(StageContentMode::Context);
    dash.detail.search_query = "xyznotfound".to_string();
    let agent = make_test_agent("run-nm", AgentDisplayStatus::Active);
    let snap = make_context_snapshot(4000, 8000);
    let pane = draw(&mut dash, &agent, tree_of(&snap, &["one", "two"]));
    // No matches says so, rather than showing a position in an empty set.
    assert!(pane.title.contains("0 matches"), "{}", pane.title);
}

/// Scrolling counts rows as they wrap, so the bottom is the bottom.
#[test]
fn wrapped_content_shows_its_last_line_at_the_bottom() {
    let mut dash = in_mode(StageContentMode::Output);
    dash.detail.scroll = 0;
    let agent = make_test_agent("run-wrap-bottom", AgentDisplayStatus::Active);
    let document = || {
        let (first, second) = ("wrapping ".repeat(40), "more wrapping text here ".repeat(30));
        output(&format!("{first}\n\n{second}\n\nTHE-FINAL-LINE"))
    };
    let pane = draw_in(&mut dash, Rect::new(0, 0, 48, 14), &agent, document());
    assert_eq!(pane.lines.last().map(|l| l.text()).as_deref(), Some("THE-FINAL-LINE"));
    let rows = (1..200)
        .find(|&height| {
            let mut whole = in_mode(StageContentMode::Output);
            let area = Rect::new(0, 0, 48, height + 2);
            draw_in(&mut whole, area, &agent, document()).scrollbar.is_none()
        })
        .expect("a pane that holds it all");
    assert!(rows > 12, "the lines wrap: {rows}");
    assert_eq!(pane.scroll_y + 12, rows as usize, "the last row is the last in view");
}

/// How many rows the lines take at a width, by how far a pane of one row can
/// scroll over them.
fn rows_at(width: u16, lines: &Vec<Line>) -> usize {
    let mut dash = Dashboard::new();
    match dash.render_review_body(Rect::new(0, 0, width + 2, 3), lines, None).scrollbar {
        Some(limit) => limit + 1,
        None => 0,
    }
}

#[test]
fn wrapped_rows_counts_display_rows_not_logical_lines() {
    let all = vec![line(&"a".repeat(100)), line("short"), line("")];
    // At width 40 the 100-char line wraps to 3 rows: 3 + 1 + 1 = 5.
    assert_eq!(rows_at(40, &all), 5);
    // Wide enough for no wrapping: one row per logical line.
    assert_eq!(rows_at(120, &all), 3);
    // Degenerate width renders nothing.
    assert_eq!(rows_at(0, &all), 0);
}

#[test]
fn render_content_pane_scrollbar_visible_when_overflow() {
    let mut dash = in_mode(StageContentMode::Context);
    dash.detail.scroll = 5;
    let agent = make_test_agent("run-scroll", AgentDisplayStatus::Active);
    let all: Vec<String> = (0..48).map(|i| format!("content line {i}")).collect();
    let texts: Vec<&str> = all.iter().map(String::as_str).collect();
    let pane = draw(&mut dash, &agent, tree_of(&make_context_snapshot(0, 8000), &texts));
    assert_eq!(pane.lines.len(), 50, "the tree under its two lines of head");
    assert_eq!(pane.scrollbar, Some(32), "fifty rows over eighteen");
    assert_eq!(pane.scroll_y, 27, "five up from the bottom");
    assert!(pane.scroll_info.contains("(45/50)"), "{}", pane.scroll_info);
}

#[test]
fn a_tree_cursor_move_scrolls_the_context_view_once() {
    let mut dash = in_mode(StageContentMode::Context);
    let agent = make_test_agent("run-follow", AgentDisplayStatus::Active);
    dash.detail.tree.follow_cursor = true;
    draw(&mut dash, &agent, tree_of(&make_context_snapshot(4000, 8000), &["region"]));
    assert!(!dash.detail.tree.follow_cursor, "the one-shot follow flag is consumed by the draw");
}

/// Only the rows the viewport is showing become clickable; the ones
/// scrolled past the bottom register nothing, so a click cannot land on a
/// row that is not there.
#[test]
fn only_the_visible_context_rows_are_clickable() {
    let mut dash = in_mode(StageContentMode::Context);
    let agent = make_test_agent("run-ctx-click", AgentDisplayStatus::Active);
    let all: Vec<String> = (0..12).map(|i| format!("row {i}")).collect();
    let texts: Vec<&str> = all.iter().map(String::as_str).collect();
    let snap = ContextSnapshot {
        total_tokens: 400,
        max_tokens: 8000,
        regions: (0..4).map(|i| region(&format!("region {i}"), "pinned", 100, 2)).collect(),
    };
    draw_in(&mut dash, Rect::new(0, 0, 100, 10), &agent, tree_of(&snap, &texts));
    let rows: Vec<usize> = dash
        .mouse
        .click_targets
        .iter()
        .filter_map(|(_, t)| match t {
            ClickTarget::ContextRow(i) => Some(*i),
            _ => None,
        })
        .collect();
    assert!(!rows.is_empty(), "some rows are on screen");
    assert!(
        rows.len() < 12,
        "four regions with two entries each do not fit in eight rows: {rows:?}"
    );
    // Every registered row sits inside the pane's inner area.
    for (rect, target) in &dash.mouse.click_targets {
        if matches!(target, ClickTarget::ContextRow(_)) {
            assert!((1..9).contains(&rect.y), "{rect:?}");
        }
    }
}

/// The chips are registered only for the modes the label actually offers,
/// and only when there is room to draw them.
#[test]
fn the_mode_chips_registered_match_the_label() {
    let mut dash = in_mode(StageContentMode::Output);
    let agent = make_test_agent("run-chips", AgentDisplayStatus::Active);
    draw(&mut dash, &agent, reading());
    let chips = modes(&dash);
    assert!(chips.contains(&StageContentMode::Logs));
    assert!(chips.contains(&StageContentMode::Context));
    assert!(
        !chips.contains(&StageContentMode::Output),
        "the mode already showing has no chip of its own"
    );

    // A pane too narrow for the title registers nothing rather than
    // buttons over columns that were never drawn.
    dash.mouse.click_targets.clear();
    draw_in(&mut dash, Rect::new(0, 0, 6, 6), &agent, reading());
    assert!(dash.mouse.click_targets.is_empty(), "no room for a chip");
    // …and neither does a pane with no width at all.
    dash.mouse.click_targets.clear();
    draw_in(&mut dash, Rect::new(0, 0, 1, 6), &agent, reading());
    assert!(dash.mouse.click_targets.is_empty());
}

// ── Output, logs and the answer ──────────────────────────────────────────────

#[test]
fn render_content_pane_shows_pending_review_body() {
    // Output mode with a pending interaction body shows just that document
    // (the current plan) instead of the accumulated output history.
    let mut dash = in_mode(StageContentMode::Output);
    let mut agent = make_test_agent("run-review", AgentDisplayStatus::Waiting);
    let plan = "## Plan\n1. write the script";
    agent.pending_request = Some(InteractionRequest {
        id: "mc1".to_string(),
        kind: InteractionKind::MultipleChoice,
        prompt: "Approve?".to_string(),
        options: vec!["Approve".to_string()],
        required: true,
        stage_name: "plan_approval".to_string(),
        body: Some(plan.to_string()),
    });
    let (text, from_answer) = dash.output_text(&agent, Some(plan), "old output", None);
    assert_eq!(text, plan);
    assert!(!from_answer);
    let read = ContentReading { reviewing: Some(plan.to_string()), ..output("old output") };
    let buf = shown(&draw(&mut dash, &agent, read));
    assert!(buf.contains("write the script"), "{buf}");
    assert!(!buf.contains("old output"), "{buf}");
}

#[test]
fn build_output_lines_logs_mode_colors_by_line_prefix() {
    let log = "[tool] did a thing\n[error] it broke\n[denied] not allowed\n--- separator ---\n\
               [All stages complete]\na plain message\n[tool]";
    let all = build_output_lines(false, log, vec![]);
    let text = text_of(&all);
    assert!(text.contains("did a thing"));
    assert!(text.contains("it broke"));
    assert!(text.contains("not allowed"));
    assert!(text.contains("separator"));
    assert!(text.contains("All stages complete"));
    assert!(text.contains("a plain message"));
    let inks: Vec<Option<Color>> = all.iter().map(|l| l.spans[0].style.fg).collect();
    assert_eq!(
        inks,
        vec![
            Some(Color::Accent),
            Some(Color::Error),
            Some(Color::Warn),
            Some(Color::Dim),
            Some(Color::Dim),
            Some(Color::Muted),
            Some(Color::Accent),
        ]
    );
    // A tagged line reads as a bold tag plus muted body.
    assert_eq!(all[0].spans[0].content, " [tool]");
    assert!(all[0].spans[0].style.bold);
    assert_eq!(all[0].spans[1].content, " did a thing");
    assert_eq!(all[6].spans.len(), 1, "a bare tag is one span");
}

#[test]
fn build_output_lines_logs_mode_non_run_state() {
    assert!(build_output_lines(false, "", vec![]).is_empty());
}

#[test]
fn build_output_lines_non_run_state() {
    let dash = Dashboard::new();
    let agent = make_test_agent("run-nrs", AgentDisplayStatus::Active);
    let (text, showing_final) = dash.output_text(&agent, None, "", None);
    assert!(build_output_lines(true, &text, vec![]).is_empty());
    assert!(!showing_final);
}

#[test]
fn build_output_lines_output_mode_renders_markdown_when_non_empty() {
    let dash = Dashboard::new();
    let agent = make_test_agent("test-content-output-markdown", AgentDisplayStatus::Active);
    let (text, showing_final) = dash.output_text(&agent, None, "# Heading\n\nbody text", None);
    assert_eq!(text, "# Heading\n\nbody text");
    // A non-empty output.log is the real stage output, not the
    // final-answer fallback.
    assert!(!showing_final);
    let all = build_output_lines(true, &text, lines(&["Heading", "", "body text"]));
    assert_eq!(text_of(&all), "Heading\n\nbody text");
}

#[test]
fn build_output_lines_falls_back_to_final_output_for_the_submitting_stage() {
    // A stage that answers writes nothing to its output; its answer is the run's.
    let dash = Dashboard::new();
    let mut agent = make_test_agent("test-content-final-output-match", AgentDisplayStatus::Complete);
    agent.stages = Arc::new(vec![make_stage_record("present")]);
    let given = answer("present", "# The Answer\n\nall done");
    let (text, showing_final) = dash.output_text(&agent, None, "", Some(&given));
    assert!(showing_final);
    assert!(text.contains("The Answer"));
    assert!(text.contains("all done"));
}

#[test]
fn build_output_lines_ignores_final_output_submitted_by_another_stage() {
    let mut dash = in_mode(StageContentMode::Output);
    let mut agent =
        make_test_agent("test-content-final-output-other-stage", AgentDisplayStatus::Complete);
    // The selected stage (index 0) is not the one that submitted,
    // so its Output pane keeps the honest empty state.
    agent.stages = Arc::new(vec![make_stage_record("draft")]);
    let given = answer("present", "the answer");
    let (text, showing_final) = dash.output_text(&agent, None, "", Some(&given));
    assert!(text.is_empty());
    assert!(!showing_final);
    assert!(build_output_lines(true, &text, vec![]).is_empty());
    let read = ContentReading { answer: Some(given), ..reading() };
    let buf = shown(&draw(&mut dash, &agent, read));
    assert!(buf.contains("No output yet for draft"), "{buf}");
}

#[test]
fn build_output_lines_ignores_final_output_without_a_stage_record() {
    let dash = Dashboard::new();
    // No stage records at all: the selected stage has no name to
    // compare against the answer's, so nothing substitutes.
    let agent = make_test_agent("test-content-final-output-no-record", AgentDisplayStatus::Complete);
    let given = answer("present", "the answer");
    let (text, showing_final) = dash.output_text(&agent, None, "", Some(&given));
    assert!(text.is_empty());
    assert!(!showing_final);
}

#[test]
fn build_output_lines_prefers_stage_output_over_final_output() {
    let dash = Dashboard::new();
    let mut agent =
        make_test_agent("test-content-final-output-tail-wins", AgentDisplayStatus::Complete);
    agent.stages = Arc::new(vec![make_stage_record("present")]);
    let given = answer("present", "the answer");
    let (text, showing_final) =
        dash.output_text(&agent, None, "streamed stage output", Some(&given));
    assert!(!showing_final);
    assert!(text.contains("streamed stage output"));
    assert!(!text.contains("the answer"));
}

#[test]
fn render_content_pane_final_output_fallback_names_the_final_output_file() {
    // The hint names the file actually shown, not the stage's (empty) output.
    assert_eq!(viewed_file(StageContentMode::Output, true), ViewedFile::Answer);
    let mut dash = in_mode(StageContentMode::Output);
    let mut agent =
        make_test_agent("test-content-final-output-hint", AgentDisplayStatus::Complete);
    agent.stages = Arc::new(vec![make_stage_record("present")]);
    let read = ContentReading { answer: Some(answer("present", "the answer")), ..reading() };
    let buf = shown(&draw(&mut dash, &agent, read));
    assert!(buf.contains("the answer"), "{buf}");
    assert!(buf.contains("final_output.json"), "{buf}");
    assert!(!buf.contains("output.log"), "{buf}");
}

/// The `[f] final` chip is on the title only while the run has an answer,
/// and its click target with it.
#[test]
fn the_final_chip_is_offered_only_when_the_run_has_an_answer() {
    let mut dash = in_mode(StageContentMode::Output);
    let without = make_test_agent("final-chip-no", AgentDisplayStatus::Active);
    let pane = draw(&mut dash, &without, output("out"));
    assert!(!pane.title.contains("[f] final"), "{}", pane.title);
    assert!(!modes(&dash).contains(&StageContentMode::FinalOutput), "no chip, no button");

    dash.mouse.click_targets.clear();
    let with = make_test_agent("final-chip-yes", AgentDisplayStatus::Complete);
    let answered =
        || ContentReading { answer: Some(answer("present", "the answer")), ..reading() };
    let pane = draw(&mut dash, &with, answered());
    assert!(pane.title.contains("[f] final"), "{}", pane.title);
    assert!(modes(&dash).contains(&StageContentMode::FinalOutput), "the chip is a button");
    // Every other view offers it too.
    for mode in [StageContentMode::Logs, StageContentMode::Context] {
        dash.detail.content_mode = mode;
        let pane = draw(&mut dash, &with, answered());
        assert!(pane.title.contains("[f] final"), "{mode:?}: {}", pane.title);
    }
}

/// The view shows the answer under a header naming the submitting stage and the
/// format, with the answer's file named in the hint.
#[test]
fn the_final_view_shows_exactly_what_the_api_serves() {
    let mut dash = in_mode(StageContentMode::FinalOutput);
    assert_eq!(dash.settle_content_mode(true), StageContentMode::FinalOutput);
    assert_eq!(content_kind(StageContentMode::FinalOutput, true), ContentKind::Answer);
    assert_eq!(viewed_file(StageContentMode::FinalOutput, false), ViewedFile::Answer);
    let agent = make_test_agent("final-view-content", AgentDisplayStatus::Complete);
    let given = answer("present", "The **submitted** answer, not the chat.");
    // The same stage also chatted something else into its output, which is what
    // the Output view shows and this view must not.
    let read = ContentReading { answer: Some(given), ..output("a chatty draft nobody submitted") };
    let pane = draw(&mut dash, &agent, read);
    assert_eq!(dash.detail.content_mode, StageContentMode::FinalOutput);
    assert!(pane.title.contains(" Final output  [o] output  [l] logs  [c] ctx "), "{}", pane.title);
    let buf = shown(&pane);
    // Rendered as markdown: the emphasis markers become styling.
    assert!(buf.contains("The submitted answer, not the chat."), "{buf}");
    assert!(!buf.contains("chatty draft"), "{buf}");
    assert!(buf.contains("submitted by stage present"), "{buf}");
    assert!(buf.contains("format: markdown"), "{buf}");
    assert!(buf.contains("final_output.json"), "{buf}");
    assert!(!buf.contains("output.log"), "{buf}");
    let chips = modes(&dash);
    for mode in [StageContentMode::Output, StageContentMode::Logs, StageContentMode::Context] {
        assert!(chips.contains(&mode), "{mode:?}");
    }
    assert!(
        !chips.contains(&StageContentMode::FinalOutput),
        "the view showing has no chip of its own"
    );
}

/// Selecting a run without an answer while in the Final view lands on
/// Output, the view the chip would otherwise leave unreachable.
#[test]
fn the_final_view_falls_back_to_output_for_a_run_without_an_answer() {
    let mut dash = in_mode(StageContentMode::FinalOutput);
    let agent = make_test_agent("final-fallback", AgentDisplayStatus::Active);
    let pane = draw(&mut dash, &agent, output("plain"));
    assert_eq!(dash.detail.content_mode, StageContentMode::Output);
    assert!(pane.title.contains(" Output  [l] logs  [c] ctx "), "{}", pane.title);
    assert!(shown(&pane).contains("plain"));
    assert!(pane.path_hint.contains("output.log"), "{}", pane.path_hint);
    // The other views stay where they are.
    dash.detail.content_mode = StageContentMode::Logs;
    assert_eq!(dash.settle_content_mode(false), StageContentMode::Logs);
    assert_eq!(content_kind(StageContentMode::Context, false), ContentKind::Context);
    assert_eq!(content_kind(StageContentMode::Output, true), ContentKind::Text);
}

#[test]
fn final_output_lines_name_a_missing_format_and_truncation() {
    let mut given = answer("last", "body");
    given.format = None;
    given.truncated = true;
    let all = final_output_lines(&given, lines(&["body"]));
    assert_eq!(all[0].text(), " submitted by stage last · format: no format · truncated");
    let body = text_of(&all[2..]);
    assert!(body.contains("body"), "{body}");

    // The files the run produced, under the answer, hashed when stored.
    given.artifacts = vec![
        Artifact {
            name: "notes.md".to_string(),
            path: "out/notes.md".to_string(),
            mime_type: "text/markdown".to_string(),
            size_label: "0 B".to_string(),
            sha256: String::new(),
        },
        Artifact {
            name: "final".to_string(),
            path: "out/final.mp4".to_string(),
            mime_type: "video/mp4".to_string(),
            size_label: "3.0 MB".to_string(),
            sha256: "abcdef0123456789".repeat(4),
        },
    ];
    let body = text_of(&final_output_lines(&given, lines(&["body"])));
    assert!(body.contains("Files produced (2):"), "{body}");
    assert!(body.contains("   notes.md  out/notes.md"), "{body}");
    assert!(
        body.contains("   final  out/final.mp4  video/mp4  3.0 MB  sha256:abcdef012345"),
        "{body}"
    );
    assert!(!body.contains("abcdef0123456"), "twelve characters of the hash: {body}");
}

// ── What the pane is drawn from ──────────────────────────────────────────────

/// A browsed point of the history outranks what the stage recorded, and that the
/// run's live window.
#[test]
fn the_browsed_point_outranks_the_stage_and_the_live_window() {
    let agent = with_live(Some(&make_context_snapshot(3000, 8000)));
    let live = no_windows();
    assert_eq!(window_on_view(&live, &agent).map(|w| w.total_tokens), Some(3000));
    let stage = recorded(Some(&make_context_snapshot(2000, 8000)));
    assert_eq!(window_on_view(&stage, &agent).map(|w| w.total_tokens), Some(2000));
    let browsed = WindowReading {
        browsed: Some(make_context_snapshot(1000, 8000)),
        stage: Some(make_context_snapshot(2000, 8000)),
    };
    assert_eq!(window_on_view(&browsed, &agent).map(|w| w.total_tokens), Some(1000));
    assert!(window_on_view(&live, &with_live(None)).is_none());

    let dash = Dashboard::new();
    let card = dash.render_context_bar(Rect::new(0, 0, 80, 5), &agent, &browsed, None);
    assert!(card_text(&card).contains("1k / 8k tokens"), "{}", card_text(&card));
    let (all, _) = dash.build_context_lines(&agent, &stage, no_tree());
    assert!(text_of(&all).contains("2k/8k tokens total  25%"), "{}", text_of(&all));
}

#[test]
fn a_search_opens_the_whole_tree() {
    let mut dash = Dashboard::new();
    assert!(!dash.shows_whole_tree());
    dash.detail.search_mode = true;
    assert!(dash.shows_whole_tree());
    dash.detail.search_mode = false;
    dash.detail.search_query = "x".to_string();
    assert!(dash.shows_whole_tree());
}

/// A run that asks for an edit of a document.
fn edited_agent() -> DashboardAgent {
    let mut agent = make_test_agent("run-edit", AgentDisplayStatus::Waiting);
    agent.pending_request = Some(InteractionRequest {
        id: "et1".to_string(),
        kind: InteractionKind::EditText,
        prompt: "Edit".to_string(),
        options: vec![],
        required: true,
        stage_name: "plan".to_string(),
        body: Some("line A\nline B".to_string()),
    });
    agent
}

#[test]
fn render_content_pane_inline_document_edit() {
    let mut dash = Dashboard::new();
    let agent = edited_agent();
    dash.runs.agents.push(edited_agent());
    dash.runs.display_indices = vec![0];
    dash.reply.input_mode = true;
    // The editable textarea takes over the content pane instead of output.
    assert!(dash.editing_document());
    match dash.render_content_pane(Rect::new(0, 0, 100, 20), &agent, reading()) {
        ContentView::Editor(editor) => {
            assert_eq!(editor.button, "[ Save document ]");
            assert_eq!(editor.rows.editor, Rect::new(0, 0, 100, 19));
            assert_eq!(editor.rows.button, Rect::new(83, 19, 17, 1));
        }
        ContentView::Pane(pane) => panic!("{}", pane.title),
    }
    assert!(
        dash.mouse.click_targets.iter().any(|(_, t)| *t == ClickTarget::ResponseSend),
        "the Save button is drawn under the editor"
    );
}

/// A document is edited while the run under the cursor asks for it and the answer is
/// being written.
#[test]
fn a_document_is_edited_only_while_it_is_asked_for() {
    let mut dash = Dashboard::new();
    dash.reply.input_mode = true;
    assert!(!dash.editing_document(), "no run");
    dash.runs.agents.push(edited_agent());
    dash.runs.display_indices = vec![0];
    assert!(dash.editing_document());
    dash.reply.input_mode = false;
    assert!(!dash.editing_document(), "nothing is being written");
    dash.reply.input_mode = true;
    dash.runs.agents[0].pending_request.as_mut().unwrap().kind = InteractionKind::FreeText;
    assert!(!dash.editing_document(), "another question");
}

/// No live window on the agent: the browsed point is the only source.
#[test]
fn build_context_lines_uses_browsed_history_point() {
    let dash = Dashboard::new();
    let agent = make_test_agent("run-hist-lines-xyzzy", AgentDisplayStatus::Active);
    let windows = WindowReading {
        browsed: Some(ContextSnapshot {
            total_tokens: 42,
            max_tokens: 100,
            regions: vec![region("hist-region", "pinned", 42, 0)],
        }),
        stage: None,
    };
    let shown = window_on_view(&windows, &agent).expect("the browsed point");
    let names: Vec<&str> = shown.regions.iter().map(|r| r.name.as_str()).collect();
    let tree = FlatTree { lines: lines(&names), cursor_lines: vec![0] };
    let (all, _rows) = dash.build_context_lines(&agent, &windows, tree);
    let text = text_of(&all);
    assert!(text.contains("hist-region"), "browsed region rendered");
    assert!(text.contains("42%"), "{text}");
}

/// While a document is edited in place its editor takes the pane over, with the
/// keys in it or on its Save button.
#[test]
fn an_edited_document_takes_the_pane_over() {
    let mut dash = in_mode(StageContentMode::Output);
    let agent = edited_agent();
    dash.runs.agents.push(edited_agent());
    dash.runs.display_indices = vec![0];
    dash.reply.input_mode = true;
    for on_button in [false, true] {
        dash.reply.focus_send = on_button;
        dash.mouse.click_targets.clear();
        match dash.render_content_pane(Rect::new(0, 0, 100, 20), &agent, reading()) {
            ContentView::Editor(editor) => {
                assert!(editor.title.contains("Editing this document"), "{}", editor.title);
                assert_eq!(editor.button, "[ Save document ]");
                assert_eq!(editor.color, Color::Success);
                assert_eq!(editor.focused, !on_button);
            }
            ContentView::Pane(pane) => panic!("{}", pane.title),
        }
    }
    assert_eq!(dash.mouse.click_targets.len(), 1, "no chip of the pane behind it");
}

/// Each view is rendered from its own text, and names the file it came from.
#[test]
fn each_view_shows_its_own_text_and_file() {
    let mut agent = make_test_agent("run-views", AgentDisplayStatus::Active);
    agent.stages = Arc::new(vec![make_stage_record("main")]);
    let read = || ContentReading {
        answer: Some(answer("main", "the answer")),
        output: "the output".to_string(),
        log: "[tool] read".to_string(),
        windows: recorded(Some(&make_context_snapshot(4000, 8000))),
        tree: FlatTree { lines: lines(&["region"]), cursor_lines: vec![0] },
        ..reading()
    };
    let wanted = |mode| in_mode(mode).text_to_render(&agent, &read());
    assert_eq!(wanted(StageContentMode::Output), Some("the output".to_string()));
    assert_eq!(wanted(StageContentMode::FinalOutput), Some("the answer".to_string()));
    assert_eq!(wanted(StageContentMode::Logs), None);
    assert_eq!(wanted(StageContentMode::Context), None);

    let rendered = |text: &str| ContentReading { rendered: lines(&[text]), ..read() };
    let pane = draw(&mut in_mode(StageContentMode::Output), &agent, rendered("OUTPUT"));
    assert_eq!(text_of(&pane.lines), "OUTPUT");
    assert_eq!(pane.path_hint, " /runs/r/stages/0/output.log ");
    let pane = draw(&mut in_mode(StageContentMode::FinalOutput), &agent, rendered("ANSWER"));
    assert!(text_of(&pane.lines).contains("submitted by stage main"), "{}", shown(&pane));
    assert!(text_of(&pane.lines).contains("ANSWER"), "{}", shown(&pane));
    assert_eq!(pane.path_hint, " /runs/r/final_output.json ");
    let pane = draw(&mut in_mode(StageContentMode::Logs), &agent, read());
    assert_eq!(text_of(&pane.lines), " [tool] read");
    assert_eq!(pane.path_hint, " /runs/r/stages/0/logs.log ");
    assert!(pane.title.contains("1 tools"), "{}", pane.title);
    let mut dash = in_mode(StageContentMode::Context);
    let pane = draw(&mut dash, &agent, read());
    assert!(text_of(&pane.lines).ends_with("region"), "{}", shown(&pane));
    assert_eq!(pane.path_hint, " /runs/r/stages/0/context.json ");
    let rows =
        dash.mouse.click_targets.iter().filter(|(_, t)| *t == ClickTarget::ContextRow(0)).count();
    assert_eq!(rows, 1, "the tree's row is a target");
}

/// Every target over a row of the tree is inside the pane's border.
#[test]
fn the_trees_targets_are_inside_the_pane() {
    let agent = make_test_agent("run-inside", AgentDisplayStatus::Active);
    let mut dash = in_mode(StageContentMode::Context);
    let all: Vec<String> = (0..30).map(|i| format!("row {i}")).collect();
    let texts: Vec<&str> = all.iter().map(String::as_str).collect();
    let read = ContentReading {
        windows: recorded(Some(&make_context_snapshot(0, 8000))),
        tree: FlatTree { lines: lines(&texts), cursor_lines: (0..30).collect() },
        ..reading()
    };
    draw(&mut dash, &agent, read);
    let area = Rect::new(0, 0, 100, 20);
    let rows: Vec<Rect> = dash
        .mouse
        .click_targets
        .iter()
        .filter(|(_, t)| matches!(t, ClickTarget::ContextRow(_)))
        .map(|(rect, _)| *rect)
        .collect();
    assert_eq!(rows.len(), 18, "as many as the pane has rows");
    for row in rows {
        assert_eq!((row.x, row.width), (1, 98));
        assert!(area.y < row.y && row.y + row.height < area.y + area.height, "{row:?}");
    }
}

/// An empty output falls back to the answer its stage submitted, a document up for
/// review comes before either, and without an answer the Final view is the Output
/// view.
#[test]
fn the_output_view_falls_back_to_the_stages_answer() {
    let mut agent = make_test_agent("run-fall", AgentDisplayStatus::Active);
    agent.stages = Arc::new(vec![make_stage_record("main")]);
    let mut dash = in_mode(StageContentMode::Output);
    let answered = || ContentReading { answer: Some(answer("main", "done")), ..reading() };
    assert_eq!(dash.text_to_render(&agent, &answered()), Some("done".to_string()));
    let read = ContentReading { rendered: lines(&["done"]), ..answered() };
    let pane = draw(&mut dash, &agent, read);
    assert_eq!(text_of(&pane.lines), "done");
    assert_eq!(pane.path_hint, " /runs/r/final_output.json ");

    let reviewing = ContentReading { reviewing: Some("plan".to_string()), ..answered() };
    assert_eq!(dash.text_to_render(&agent, &reviewing), Some("plan".to_string()));
    let other = ContentReading { answer: Some(answer("other", "done")), ..reading() };
    assert_eq!(dash.text_to_render(&agent, &other), None);

    let mut last = in_mode(StageContentMode::FinalOutput);
    let output = || ContentReading { output: "so far".to_string(), ..reading() };
    assert_eq!(last.text_to_render(&agent, &output()), Some("so far".to_string()));
    let pane = draw(&mut last, &agent, ContentReading { rendered: lines(&["so far"]), ..output() });
    assert!(pane.title.starts_with(" Output"), "{}", pane.title);
    assert_eq!(pane.path_hint, " /runs/r/stages/0/output.log ");
    assert_eq!(last.detail.content_mode, StageContentMode::Output);
}

/// What is typed into the search is no chip, whatever it spells: only the views that
/// the title offers are buttons, and none stands over the search.
#[test]
fn a_search_that_spells_a_chip_is_no_button() {
    let agent = make_test_agent("run-spelled", AgentDisplayStatus::Active);
    for spelled in ["[f] final", "[o] output", "[l] logs"] {
        let mut dash = in_mode(StageContentMode::Output);
        dash.detail.search_query = spelled.to_string();
        let pane = draw(&mut dash, &agent, output("text"));
        assert!(pane.title.contains(spelled), "{}", pane.title);
        assert_eq!(modes(&dash), vec![StageContentMode::Logs, StageContentMode::Context]);
        let over = pane.title.find('/').expect("the search note") as u16;
        for (rect, _) in &dash.mouse.click_targets {
            assert!(rect.x + rect.width <= 1 + over, "{rect:?} in {}", pane.title);
        }
    }
}

/// With no search typed no line is marked and the pane stays where it was.
#[test]
fn without_a_search_the_pane_stays() {
    let agent = make_test_agent("run-still", AgentDisplayStatus::Active);
    let mut dash = in_mode(StageContentMode::Output);
    dash.detail.scroll = 4;
    let texts: Vec<String> = (0..60).map(|i| format!("line {i}")).collect();
    let all: Vec<&str> = texts.iter().map(String::as_str).collect();
    let pane = draw(&mut dash, &agent, output(&all.join("\n")));
    assert_eq!(dash.detail.scroll, 4);
    assert_eq!(text_of(&pane.lines), all.join("\n"));
    assert!(pane.lines.iter().all(|l| l.spans.iter().all(|s| s.style.bg.is_none())));
}

/// Marking what a search found moves no text: the pane scrolls as far as it did.
#[test]
fn a_marked_match_takes_the_rows_it_took() {
    let agent = make_test_agent("run-marked", AgentDisplayStatus::Active);
    let text = format!("{}\n{}\nend", "needle in hay ".repeat(60), "hay ".repeat(300));
    let still = draw(&mut in_mode(StageContentMode::Output), &agent, output(&text));
    let mut dash = in_mode(StageContentMode::Output);
    dash.detail.search_query = "NEEDLE".to_string();
    let marked = draw(&mut dash, &agent, output(&text));
    assert!(marked.lines[0].spans.iter().all(|s| s.style.bg == Some(Color::Yellow)));
    assert_eq!(text_of(&marked.lines), text_of(&still.lines));
    assert_eq!(marked.scrollbar, still.scrollbar);
    assert!(marked.scrollbar.is_some(), "the lines wrap");
}
