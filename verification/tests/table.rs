//! The run table, the log panel and the help bars.

use leviath_dashboard::render::table::{part_widths, table_column_widths, AgentTable, RunRow};
use leviath_dashboard::state::Dashboard;
use leviath_dashboard::style::{Color, Rect};
use leviath_dashboard::types::{
    AgentDisplayStatus, ClickTarget, DashboardAgent, InteractionKind, InteractionRequest, LogEntry,
    MainPane, StageRecord, TreeShape, WaitReason,
};
use std::sync::Arc;

fn make_test_agent(id: &str, status: AgentDisplayStatus) -> DashboardAgent {
    DashboardAgent {
        id: id.to_string(),
        blueprint_name: "test-agent".to_string(),
        stage: "main".to_string(),
        stage_index: 0,
        num_stages: 2,
        status,
        tokens_in: 100,
        tokens_out: 50,
        cached_tokens: 10,
        iteration: 3,
        broken_scripts: vec![],
        waiting_prompt: None,
        wait_reason: None,
        pending_request: None,
        last_answered_request_id: None,
        context_snapshot: None,
        stages: Arc::new(Vec::<StageRecord>::new()),
        workdir: "/tmp/test".to_string(),
        task: "test task".to_string(),
        title: Some("My Test".to_string()),
        model: Some("aurora-4-20250514".to_string()),
        parent_id: None,
        started_at: 940,
        last_progress_at: None,
        runtime_secs: 0,
        clock_now: 0,
        graph: None,
        accepts_messages: true,
    }
}

fn leaf() -> TreeShape {
    TreeShape { prefix: String::new(), expandable: false, collapsed: false, hidden: 0 }
}

/// A dashboard that lists these runs, in this order and flat.
fn dashboard(agents: Vec<DashboardAgent>) -> Dashboard {
    let mut dash = Dashboard::new();
    dash.screens.theme.spinner = vec!["⠋".to_string()];
    dash.runs.display_indices = (0..agents.len()).collect();
    dash.runs.tree_rows = agents.iter().map(|_| leaf()).collect();
    dash.runs.agents = agents;
    dash
}

fn one(status: AgentDisplayStatus) -> Dashboard {
    dashboard(vec![make_test_agent("run-1", status)])
}

fn table_over(dash: &mut Dashboard, width: u16, height: u16) -> AgentTable {
    let started: Vec<String> = dash.runs.display_indices.iter().map(|_| "1m".to_string()).collect();
    dash.draw_agent_table(Rect::new(0, 0, width, height), &started)
}

fn row_text(row: &RunRow) -> String {
    format!(
        "{} | {} | {} | {} | {} | {}",
        row.title.text(),
        row.blueprint,
        row.stage,
        row.status.content,
        row.tokens,
        row.started.content
    )
}

/// The table as text: its title and chip, what it says where it is empty, its rows.
fn shown(table: &AgentTable) -> String {
    let mut text = format!("{}{}\n", table.title, table.sort_chip);
    match &table.empty {
        Some(empty) => text.push_str(empty),
        None => {
            for row in &table.rows {
                text.push_str(&row_text(row));
                text.push('\n');
            }
        }
    }
    text
}

fn table_at(width: u16, dash: &mut Dashboard) -> String {
    shown(&table_over(dash, width, 20))
}

fn drawn(dash: &mut Dashboard) -> String {
    shown(&table_over(dash, 120, 40))
}

fn help(dash: &Dashboard, can_respond: bool, accepts_messages: bool) -> String {
    dash.draw_help_bar(can_respond, accepts_messages).line.text()
}

fn bar(dash: &Dashboard) -> String {
    help(dash, false, true)
}

fn detail_bar(dash: &Dashboard, can_respond: bool, accepts_messages: bool) -> String {
    dash.build_detail_help_bar(can_respond, accepts_messages).text()
}

fn request(kind: InteractionKind, prompt: &str) -> InteractionRequest {
    InteractionRequest {
        id: "req-1".to_string(),
        kind,
        prompt: prompt.to_string(),
        options: vec!["A".to_string(), "B".to_string()],
        required: true,
        stage_name: "main".to_string(),
        body: None,
    }
}

// ── The table ────────────────────────────────────────────────────────────────

/// While the daemon is unreachable the run list says so beside the sort
/// chip, in the warning colour; a healthy link draws no chip at all.
#[test]
fn the_run_list_wears_the_daemon_chip_while_something_is_wrong() {
    let mut dash = dashboard(vec![]);
    let table = table_over(&mut dash, 140, 20);
    assert!(table.daemon_chip.is_none(), "healthy: no chip");

    dash.runs.daemon_chip =
        Some((" daemon unreachable, reconnecting ".to_string(), Color::Warn));
    let table = table_over(&mut dash, 140, 20);
    let chip = table.daemon_chip.expect("a chip");
    assert!(chip.content.contains("daemon unreachable, reconnecting"), "{}", chip.content);
    assert!(table.sort_chip.contains("sort:"), "the sort chip is still there");
    assert_eq!(chip.style.fg, Some(Color::Warn));
}

#[test]
fn draw_agent_table_empty() {
    let mut dash = dashboard(vec![]);
    let buf = drawn(&mut dash);
    assert!(!buf.contains("My Test"), "{buf}");
    assert!(buf.contains("No agent runs yet"), "{buf}");
}

#[test]
fn draw_agent_table_filter_no_match() {
    let mut dash = one(AgentDisplayStatus::Active);
    dash.runs.search_query = "nonexistent".to_string();
    dash.runs.display_indices = vec![];
    dash.runs.tree_rows = vec![];
    let buf = drawn(&mut dash);
    assert!(!buf.contains("My Test"), "{buf}");
    assert!(buf.contains("No agent runs match \"nonexistent\"."), "{buf}");
    assert!(buf.contains("/nonexistent/  0/1"), "{buf}");
}

#[test]
fn draw_agent_table_multiple_agents() {
    let mut dash = dashboard(vec![
        make_test_agent("run-1", AgentDisplayStatus::Active),
        make_test_agent("run-2", AgentDisplayStatus::Complete),
        make_test_agent("run-3", AgentDisplayStatus::Waiting),
    ]);
    let buf = drawn(&mut dash);
    assert!(buf.contains("My Test #1"), "{buf}");
    assert!(buf.contains("My Test #2"), "{buf}");
    assert!(buf.contains("My Test #3"), "{buf}");
}

#[test]
fn draw_agent_table_non_run_state() {
    let mut dash = dashboard(vec![make_test_agent("run-ecs", AgentDisplayStatus::Active)]);
    let buf = drawn(&mut dash);
    assert!(buf.contains("My Test #ecs"), "{buf}");
}

#[test]
fn draw_agent_table_run_state_zero_tokens_shows_dash() {
    let mut agent = make_test_agent("run-zero-tok", AgentDisplayStatus::Active);
    agent.tokens_in = 0;
    agent.tokens_out = 0;
    let mut dash = dashboard(vec![agent]);
    let buf = drawn(&mut dash);
    assert!(buf.contains("My Test #tok"), "{buf}");
    // Zero tokens render as a dash, so neither arrow glyph should be on the row.
    assert!(!buf.contains("\u{2191}"), "{buf}");
    assert!(!buf.contains("\u{2193}"), "{buf}");
    assert_eq!(table_over(&mut dash, 120, 40).rows[0].tokens, "-");
}

#[test]
fn draw_agent_table_title_none_falls_back_to_task() {
    let mut agent = make_test_agent("run-no-title", AgentDisplayStatus::Active);
    agent.title = None;
    agent.task = "fallback task".to_string();
    let mut dash = dashboard(vec![agent]);
    let buf = drawn(&mut dash);
    assert!(buf.contains("fallback task #title"), "{buf}");
}

#[test]
fn draw_agent_table_single_stage_omits_stage_counter() {
    let mut agent = make_test_agent("run-single-stage", AgentDisplayStatus::Active);
    agent.num_stages = 1;
    let mut dash = dashboard(vec![agent]);
    let buf = drawn(&mut dash);
    assert!(buf.contains("My Test #stage"), "{buf}");
    assert!(!buf.contains("main 1/"), "{buf}");
}

#[test]
fn draw_agent_table_non_run_state_zero_max_context() {
    let mut dash = dashboard(vec![make_test_agent("run-zero-ctx", AgentDisplayStatus::Active)]);
    let buf = drawn(&mut dash);
    assert!(buf.contains("My Test #ctx"), "{buf}");
}

#[test]
fn draw_agent_table_with_list_search_mode() {
    let mut dash = one(AgentDisplayStatus::Active);
    dash.runs.search_mode = true;
    let buf = drawn(&mut dash);
    assert!(buf.contains("My Test #1"), "{buf}");
}

#[test]
fn draw_agent_table_unfocused_when_log_holds_focus() {
    let mut dash = one(AgentDisplayStatus::Active);
    assert!(table_over(&mut dash, 120, 40).focused);
    dash.screens.main_focus = MainPane::LogPane;
    let table = table_over(&mut dash, 120, 40);
    assert!(table.sort_chip.contains("sort: started"));
    assert!(!table.focused);
}

/// A parked run says what it is parked on, so WAITING stops meaning four
/// different things.
#[test]
fn a_waiting_row_names_what_it_is_waiting_on() {
    for (label, needs_person) in
        [("tool approval", true), ("workers(3)", false), ("children(2)", false)]
    {
        let mut agent = make_test_agent("run-1", AgentDisplayStatus::Waiting);
        agent.wait_reason = Some(WaitReason { label: label.to_string(), needs_person });
        let mut dash = dashboard(vec![agent]);
        let buf = drawn(&mut dash);
        assert!(buf.contains(label), "expected {label}: {buf}");
        // The reason replaces the bare word: this column is too narrow to
        // carry both, and the word is the half that says nothing.
        assert!(!buf.contains("WAITING"), "{buf}");
        // Only a run that needs a person wears the colour of a question.
        let color = table_over(&mut dash, 120, 40).rows[0].status.style.fg;
        assert_eq!(color == Some(Color::Dim), !needs_person);
    }
}

/// A run parked until the machine is fixed says what it needs, rather than
/// showing a bare PAUSED that reads as somebody's own decision.
#[test]
fn a_parked_row_names_what_the_machine_is_missing() {
    let mut agent = make_test_agent("run-1", AgentDisplayStatus::Paused);
    agent.wait_reason =
        Some(WaitReason { label: "needs provider".to_string(), needs_person: true });
    let mut dash = dashboard(vec![agent]);
    let buf = drawn(&mut dash);
    assert!(buf.contains("needs provider"), "{buf}");
    assert!(!buf.contains("PAUSED"), "the reason replaces the word: {buf}");
}

/// A run somebody paused themselves has no reason, and reads as it always
/// did.
#[test]
fn a_row_paused_by_a_person_reads_as_it_always_did() {
    let mut dash = one(AgentDisplayStatus::Paused);
    let buf = drawn(&mut dash);
    assert!(buf.contains("PAUSED"), "{buf}");
}

/// A run with no recorded reason does not claim one.
#[test]
fn a_waiting_row_without_a_reason_reads_as_it_always_did() {
    let mut dash = one(AgentDisplayStatus::Waiting);
    let buf = drawn(&mut dash);
    assert!(buf.contains("WAITING"), "{buf}");
    assert!(!buf.contains("workers("), "{buf}");
}

#[test]
fn marked_rows_show_a_check_and_the_title_counts_them() {
    let mut dash = dashboard(vec![
        make_test_agent("run-1", AgentDisplayStatus::Active),
        make_test_agent("run-2", AgentDisplayStatus::Active),
    ]);
    dash.runs.marked = vec!["run-1".to_string()];
    let buf = drawn(&mut dash);
    // The two columns between the tick and the title are the fold-arrow
    // gutter, blank on a run with no sub-agents so titles stay aligned.
    assert!(buf.contains("✓   My Test #1"), "{buf}");
    assert!(!buf.contains("✓   My Test #2"), "{buf}");
    assert!(buf.contains("My Test #2"), "the unmarked row still renders");
    assert!(buf.contains("1 marked"), "{buf}");
}

#[test]
fn table_without_marks_shows_no_check_or_count() {
    let mut dash = one(AgentDisplayStatus::Active);
    let buf = drawn(&mut dash);
    assert!(!buf.contains('✓'), "{buf}");
    assert!(!buf.contains("marked"), "{buf}");
}

// ── The sub-agent fold ───────────────────────────────────────────────────────

/// A parent with one worker, the shape the run list draws as a tree.
fn dash_with_a_worker() -> Dashboard {
    let mut child = make_test_agent("worker", AgentDisplayStatus::Active);
    child.parent_id = Some("parent".to_string());
    let mut dash =
        dashboard(vec![make_test_agent("parent", AgentDisplayStatus::Active), child]);
    dash.runs.tree_rows[0].expandable = true;
    dash.runs.tree_rows[1].prefix = "└─ ".to_string();
    dash
}

/// The arrow says which way the fold goes, and a folded row says how many
/// runs are behind it.
#[test]
fn the_fold_arrow_and_its_hidden_count_are_drawn() {
    let mut dash = dash_with_a_worker();
    let buf = drawn(&mut dash);
    assert!(buf.contains("▾ My Test"), "an unfolded parent: {buf}");
    assert!(!buf.contains("▸ "), "nothing is folded yet: {buf}");

    dash.runs.display_indices = vec![0];
    dash.runs.tree_rows = vec![TreeShape { expandable: true, collapsed: true, hidden: 1, ..leaf() }];
    let buf = drawn(&mut dash);
    assert!(buf.contains("▸ My Test"), "a folded parent: {buf}");
    assert!(buf.contains("+1"), "and what it hides: {buf}");
}

/// The arrow's rect is registered where the arrow was actually drawn, and
/// only for rows that have one.
#[test]
fn only_a_foldable_row_registers_a_fold_arrow() {
    let mut dash = dash_with_a_worker();
    dash.register_run_row_clicks(Rect::new(0, 0, 120, 40), false, 0);
    let toggles: Vec<_> = dash
        .mouse
        .click_targets
        .iter()
        .filter(|(_, t)| matches!(t, ClickTarget::RunToggle(_)))
        .collect();
    assert_eq!(toggles.len(), 1, "the parent only, not the worker");
    assert_eq!(*toggles[0], (Rect::new(1, 2, 2, 1), ClickTarget::RunToggle(0)));
    let rows = dash
        .mouse
        .click_targets
        .iter()
        .filter(|(_, t)| matches!(t, ClickTarget::RunRow(_)))
        .count();
    assert_eq!(rows, 2, "both rows are clickable");
}

/// The arrow moves right with the tick column and with the tree's own lines.
#[test]
fn the_fold_arrow_stands_after_the_tick_and_the_lines() {
    let mut dash = dash_with_a_worker();
    dash.runs.tree_rows[1].expandable = true;
    dash.register_run_row_clicks(Rect::new(5, 3, 120, 40), true, 1);
    assert_eq!(
        dash.mouse.click_targets,
        vec![
            (Rect::new(5, 5, 120, 1), ClickTarget::RunRow(1)),
            (Rect::new(11, 5, 2, 1), ClickTarget::RunToggle(1)),
        ]
    );
}

/// A table too narrow to hold the arrow registers the row but no arrow,
/// rather than a rect hanging off the right edge.
#[test]
fn a_table_narrower_than_the_arrow_registers_no_arrow() {
    let mut dash = dash_with_a_worker();
    dash.register_run_row_clicks(Rect::new(0, 0, 2, 8), false, 0);
    assert!(
        !dash.mouse.click_targets.iter().any(|(_, t)| matches!(t, ClickTarget::RunToggle(_))),
        "no room for an arrow to click"
    );
}

// ── Cells cut to their column ────────────────────────────────────────────────

/// The widths the table draws with sum to the inner width less the five
/// gaps, and a zero-width area does not underflow.
#[test]
fn table_column_widths_follow_the_layout() {
    let widths = table_column_widths(Rect::new(0, 0, 120, 10));
    assert_eq!(widths.len(), 6);
    assert_eq!(widths.iter().sum::<usize>(), 118 - 5);
    assert_eq!(table_column_widths(Rect::new(0, 0, 0, 0)).iter().sum::<usize>(), 0);
}

/// A long title is whole when its column is wide enough and cut with an
/// ellipsis, keeping its id, when it is not.
#[test]
fn draw_agent_table_cuts_the_title_to_its_column_and_keeps_the_id() {
    let title = "Add adversarial and cross-company risk analysis";
    let mut agent = make_test_agent("run-abc-zz9", AgentDisplayStatus::Active);
    agent.title = Some(title.to_string());
    let mut dash = dashboard(vec![agent]);

    let wide = table_at(300, &mut dash);
    assert!(wide.contains(&format!("{title} #zz9")), "{wide}");

    let narrow = table_at(100, &mut dash);
    assert!(!narrow.contains(title), "{narrow}");
    assert!(narrow.contains("… #zz9"), "{narrow}");
}

/// The blueprint, stage, and status cells are cut to their columns too,
/// and the stage counter outlives the stage name.
#[test]
fn draw_agent_table_cuts_the_other_text_cells_to_their_columns() {
    let mut agent = make_test_agent("run-cells", AgentDisplayStatus::Active);
    agent.blueprint_name = "a-very-long-blueprint-name-indeed".to_string();
    agent.stage = "gather-and-cross-check-sources".to_string();
    agent.num_stages = 3;
    agent.stage_index = 1;
    agent.status = AgentDisplayStatus::Error(
        "provider returned 502 after three attempts and the breaker opened".to_string(),
    );
    let mut dash = dashboard(vec![agent]);

    let buf = table_at(100, &mut dash);
    assert!(!buf.contains("a-very-long-blueprint-name-indeed"), "{buf}");
    assert!(buf.contains("a-very-l"), "{buf}");
    assert!(!buf.contains("gather-and-cross-check-sources"), "{buf}");
    assert!(buf.contains("… 2/3"), "{buf}");
    assert!(!buf.contains("breaker opened"), "{buf}");
    assert!(buf.contains("ERROR: "), "{buf}");

    let wide = table_at(500, &mut dash);
    assert!(wide.contains("a-very-long-blueprint-name-indeed"), "{wide}");
    assert!(wide.contains("gather-and-cross-check-sources 2/3"), "{wide}");
    assert!(wide.contains("breaker opened"), "{wide}");
}

// ── The log panel ────────────────────────────────────────────────────────────

fn log_text(dash: &mut Dashboard, area: Rect) -> String {
    let panel = dash.draw_log_panel(area);
    let mut text = panel.title.clone();
    for line in &panel.lines {
        text.push('\n');
        text.push_str(&line.text());
    }
    text
}

#[test]
fn draw_log_panel_empty() {
    let mut dash = Dashboard::new();
    let buf = log_text(&mut dash, Rect::new(0, 0, 120, 40));
    assert!(!buf.contains("Agent started"), "{buf}");
}

#[test]
fn draw_log_panel_scrolled_back_shows_position_and_scrollbar() {
    let mut dash = Dashboard::new();
    for i in 0..50 {
        dash.notes.log.push(LogEntry {
            timestamp: "12:00:00".to_string(),
            message: format!("line {i}"),
        });
    }
    dash.screens.main_focus = MainPane::LogPane;
    dash.notes.log_scroll.scroll_up(7, 50, 10);
    let panel = dash.draw_log_panel(Rect::new(0, 0, 120, 12));
    assert!(panel.title.contains("↑7"), "{}", panel.title);
    assert!(panel.title.contains("End resumes"), "{}", panel.title);
    assert!(panel.scrollbar.is_some());
    assert_eq!(panel.lines.len(), 10);
    assert!(panel.lines[9].text().contains("line 42"), "{}", panel.lines[9].text());
    assert!(!dash.mouse.pane_rects.is_empty(), "the pane registered its rect");
}

#[test]
fn draw_log_panel_with_entries() {
    let mut dash = Dashboard::new();
    for (timestamp, message) in
        [("12:00:00", "Agent started"), ("12:00:01", "Stage changed to implement")]
    {
        dash.notes.log.push(LogEntry {
            timestamp: timestamp.to_string(),
            message: message.to_string(),
        });
    }
    let buf = log_text(&mut dash, Rect::new(0, 0, 120, 40));
    assert!(buf.contains("Agent started"), "{buf}");
    assert!(buf.contains("Stage changed to implement"), "{buf}");
}

// ── Help bars ────────────────────────────────────────────────────────────────

#[test]
fn draw_help_bar_log_pane_focused() {
    let mut dash = Dashboard::new();
    dash.screens.main_focus = MainPane::LogPane;
    let text = bar(&dash);
    assert!(text.contains("scroll log"), "{text}");
    assert!(text.contains("back to list"), "{text}");
    // Every key the panel takes is on the bar, aliases included.
    assert!(text.contains("[PgUp/PgDn] screen"), "{text}");
    assert!(text.contains("[Home/g] oldest"), "{text}");
    assert!(text.contains("[End/G] newest"), "{text}");
    assert!(text.contains("[?] help"), "{text}");
}

/// The pause/resume hint tracks what the selected agent's state allows, in
/// both the main list and the detail view: `[p]` for a pausable run, `[r]`
/// for a paused one, neither for a finished one (or an empty list).
#[test]
fn help_bars_show_pause_or_resume_to_match_the_selected_agent() {
    for detail_view in [false, true] {
        for (status, expect_pause, expect_resume) in [
            (Some(AgentDisplayStatus::Active), true, false),
            (Some(AgentDisplayStatus::Paused), false, true),
            (Some(AgentDisplayStatus::Complete), false, false),
            (None, false, false),
        ] {
            let said = format!("{status:?} detail={detail_view}");
            let mut dash = match status {
                Some(status) => one(status),
                None => dashboard(vec![]),
            };
            dash.screens.detail_view = detail_view;
            let rendered = bar(&dash);
            assert_eq!(rendered.contains("[p] pause"), expect_pause, "{said}");
            assert_eq!(rendered.contains("[r] resume"), expect_resume, "{said}");
        }
    }
}

#[test]
fn draw_help_bar_main_list_mode() {
    let dash = Dashboard::new();
    let text = bar(&dash);
    assert!(!text.contains("back to list"), "{text}");
    assert!(!text.contains("Search: /"), "{text}");
    // Over 200 columns the whole bar is shown.
    assert!(text.chars().count() <= 200, "{text}");
    assert!(text.contains("[m] mcp"), "the MCP screen has a key: {text}");
    assert!(!text.contains('…'), "{text}");
    // 120 columns is not enough for it: help and quit, its last two, stay at the end.
    assert!(text.chars().count() > 120, "{text}");
    assert!(text.ends_with("[?] help  [q] quit"), "{text}");
    assert_eq!(dash.draw_help_bar(false, true).last_kept, 2);
}

#[test]
fn draw_help_bar_detail_view() {
    let mut dash = Dashboard::new();
    dash.screens.detail_view = true;
    let buf = help(&dash, false, false);
    assert!(buf.contains("[Esc] back"), "{buf}");
    assert!(buf.contains("[g] graph"), "the graph has a key: {buf}");
    assert!(buf.contains("[1-9] jump"), "{buf}");
}

#[test]
fn draw_help_bar_input_mode_freetext() {
    let mut dash = Dashboard::new();
    dash.screens.detail_view = true;
    dash.reply.input_mode = true;
    // No pending request means the response box.
    let buf = bar(&dash);
    // Enter is a newline in the box; the bar must not say it sends.
    assert!(buf.contains("[^S] send"), "{buf}");
    assert!(buf.contains("[Enter] newline"), "{buf}");
    assert!(buf.contains("[Tab] Send button"), "{buf}");
    assert!(!buf.contains("[Enter] send"), "{buf}");
    assert!(buf.contains("[PgUp/PgDn] scroll document"), "{buf}");
}

fn answering(id: &str, kind: InteractionKind, prompt: &str) -> Dashboard {
    let mut agent = make_test_agent(id, AgentDisplayStatus::Waiting);
    agent.pending_request = Some(request(kind, prompt));
    agent.waiting_prompt = Some(prompt.to_string());
    let mut dash = dashboard(vec![agent]);
    dash.screens.detail_view = true;
    dash.reply.input_mode = true;
    dash
}

#[test]
fn draw_help_bar_input_mode_choice() {
    let dash = answering("run-choice", InteractionKind::MultipleChoice, "Pick one");
    let buf = bar(&dash);
    assert!(buf.contains("select"), "{buf}");
}

/// An in-place edit is the response box with a Save button, and takes the
/// same keys.
#[test]
fn draw_help_bar_input_mode_edit_text() {
    let dash = answering("run-edit", InteractionKind::EditText, "Edit this");
    let buf = bar(&dash);
    assert!(buf.contains("[^S] send"), "{buf}");
    assert!(buf.contains("[Enter] newline"), "{buf}");
    assert!(buf.contains("[Tab] Send button"), "{buf}");
    assert!(!buf.contains("[Enter] confirm"), "{buf}");
}

/// With the feedback box open the bar names the box's keys, and says
/// where Esc goes, because it does not go where it goes on the prompt.
#[test]
fn draw_help_bar_deny_feedback_box() {
    let mut dash = answering("run-df", InteractionKind::ToolApproval, "ls");
    dash.reply.deny_feedback_open = true;
    let buf = bar(&dash);
    assert!(buf.contains("[^S] send with the deny"), "{buf}");
    assert!(buf.contains("[Esc] back to the prompt"), "{buf}");
    assert!(!buf.contains("select"), "{buf}");
}

#[test]
fn draw_help_bar_search_mode() {
    let mut dash = Dashboard::new();
    dash.screens.detail_view = true;
    dash.detail.search_mode = true;
    dash.detail.search_query = "hello".to_string();
    let buf = bar(&dash);
    assert!(buf.contains("Search: /"), "{buf}");
}

#[test]
fn draw_help_bar_search_active_not_mode() {
    let mut dash = Dashboard::new();
    dash.screens.detail_view = true;
    dash.detail.search_mode = false;
    dash.detail.search_query = "test".to_string();
    let buf = bar(&dash);
    assert!(buf.contains("/test/"), "{buf}");
    assert!(buf.contains("clear search"), "{buf}");
    assert!(!buf.contains("Search: /"), "{buf}");
}

#[test]
fn draw_help_bar_confirm_delete() {
    let mut dash = one(AgentDisplayStatus::Active);
    dash.request_delete();
    let buf = bar(&dash);
    assert!(buf.contains("confirm"), "{buf}");
}

#[test]
fn draw_help_bar_list_search_mode() {
    let mut dash = Dashboard::new();
    dash.runs.search_mode = true;
    dash.runs.search_query = "cod".to_string();
    let buf = bar(&dash);
    assert!(buf.contains("Filter: /"), "{buf}");
}

#[test]
fn draw_help_bar_list_filter_active() {
    let mut dash = one(AgentDisplayStatus::Active);
    dash.runs.search_mode = false;
    dash.runs.search_query = "coder".to_string();
    let buf = bar(&dash);
    assert!(buf.contains("/coder/"), "{buf}");
    assert!(buf.contains("refine"), "{buf}");
    assert!(!buf.contains("Filter: /"), "{buf}");
}

#[test]
fn build_detail_help_bar_with_can_respond() {
    let mut dash = one(AgentDisplayStatus::Waiting);
    dash.runs.agents[0].waiting_prompt = Some("Do something".to_string());
    let text = detail_bar(&dash, true, true);
    assert!(text.contains("respond"));
}

#[test]
fn build_detail_help_bar_with_can_kill() {
    let dash = one(AgentDisplayStatus::Active);
    assert!(detail_bar(&dash, false, true).contains("kill"));
}

#[test]
fn build_detail_help_bar_complete_no_kill() {
    let dash = one(AgentDisplayStatus::Complete);
    assert!(!detail_bar(&dash, false, true).contains("kill"));
}

#[test]
fn build_main_list_help_bar_basic() {
    let dash = Dashboard::new();
    let text = dash.build_main_list_help_bar().text();
    assert!(text.contains("select"));
    assert!(text.contains("detail"));
    assert!(text.contains("quit"));
}

#[test]
fn build_main_list_help_bar_with_killable() {
    let dash = one(AgentDisplayStatus::Active);
    let text = dash.build_main_list_help_bar().text();
    assert!(text.contains("[x]"));
    assert!(text.contains("kill"));
}

#[test]
fn build_main_list_help_bar_selected_complete_no_kill() {
    let dash = one(AgentDisplayStatus::Complete);
    let text = dash.build_main_list_help_bar().text();
    assert!(text.contains("select"));
    assert!(!text.contains("kill"));
}

#[test]
fn build_detail_help_bar_with_accepts_messages() {
    let dash = one(AgentDisplayStatus::Active);
    let text = detail_bar(&dash, false, true);
    assert!(text.contains("input"));
    assert!(text.contains("[i]"));
    // 'm' was unified into 'i' - no separate [m] hint should remain.
    assert!(!text.contains("[m]"));
}

#[test]
fn build_detail_help_bar_can_respond_shows_respond_label() {
    let mut dash = one(AgentDisplayStatus::Waiting);
    dash.runs.agents[0].pending_request = Some(request(InteractionKind::FreeText, "prompt"));
    let text = detail_bar(&dash, true, true);
    assert!(text.contains("[i]"));
    assert!(text.contains("respond"));
}

#[test]
fn build_detail_help_bar_no_input_hint_when_neither() {
    let dash = one(AgentDisplayStatus::Active);
    assert!(!detail_bar(&dash, false, false).contains("[i]"));
}

/// The fold hint earns its place on the bar only when there is a tree.
#[test]
fn the_fold_hint_appears_only_with_sub_agents() {
    let dash = dashboard(vec![make_test_agent("solo", AgentDisplayStatus::Active)]);
    assert!(!bar(&dash).contains("fold sub-agents"), "no tree, no hint");
    let dash = dash_with_a_worker();
    assert!(bar(&dash).contains("fold sub-agents"), "the hint shows once a run has workers");
}

#[test]
fn main_list_help_bar_offers_the_mark_key() {
    let dash = Dashboard::new();
    let text = dash.build_main_list_help_bar().text();
    assert!(text.contains("[space] mark"), "{text}");
}

/// A status that is no longer than its column's share, less the gaps, is whole at
/// every width of the table.
#[test]
fn a_status_with_room_is_not_cut() {
    for width in 80..300 {
        let widths = table_column_widths(Rect::new(0, 0, width, 10));
        assert_eq!(widths.iter().sum::<usize>(), width as usize - 7);
        for (at, share) in [22, 12, 14, 18, 14, 20].into_iter().enumerate() {
            let (w, whole) = (widths[at], width as usize - 2);
            assert!(share * whole <= 100 * (w + 7) && 100 * w <= share * whole + 200, "{widths:?}");
        }
    }
    let mut agent = make_test_agent("run-1", AgentDisplayStatus::Waiting);
    let label = "workers(3)".to_string();
    agent.wait_reason = Some(WaitReason { label, needs_person: false });
    let mut dash = dashboard(vec![agent]);
    for width in [104, 120, 200] {
        assert_eq!(table_over(&mut dash, width, 40).rows[0].status.content, "?workers(3)");
    }
}

#[test]
fn the_widths_of_parts_are_in_their_order() {
    let parts = vec![Rect::new(0, 0, 7, 1), Rect::new(8, 0, 0, 1), Rect::new(9, 0, 65_535, 1)];
    assert_eq!(part_widths(&parts), vec![7, 0, 65_535]);
    assert!(part_widths(&vec![]).is_empty());
}
