//! Toasts, the help pages, and the questions asked before a run is killed or deleted.

use leviath_dashboard::render::overlays::{
    agent_editor_sections, agents_sections, formatting_section, shared_sections, toast_glyph,
    toast_width, AgentsScreen, FormattingKeys, HelpSection, ToastStack,
};
use leviath_dashboard::state::Dashboard;
use leviath_dashboard::style::{Color, Line, Rect};
use leviath_dashboard::types::{
    AgentDisplayStatus, ConfirmAction, DashboardAgent, MainPane, Toast, ToastLevel,
};
use std::sync::Arc;

fn make_test_agent(id: &str, status: AgentDisplayStatus) -> DashboardAgent {
    DashboardAgent {
        id: id.to_string(),
        blueprint_name: "test-agent".to_string(),
        stage: "main".to_string(),
        stage_index: 0,
        num_stages: 1,
        status,
        tokens_in: 100,
        tokens_out: 50,
        cached_tokens: 10,
        iteration: 3,
        broken_scripts: vec![],
        waiting_prompt: None,
        wait_reason: None,
        pending_request: None,
        last_answered_request_id: None,
        context_snapshot: None,
        stages: Arc::new(vec![]),
        workdir: "/tmp/test".to_string(),
        task: "test task".to_string(),
        title: Some("My Test".to_string()),
        model: None,
        parent_id: None,
        started_at: 940,
        last_progress_at: None,
        runtime_secs: 0,
        clock_now: 0,
        graph: None,
        accepts_messages: true,
    }
}

fn list(dash: &mut Dashboard, agents: Vec<DashboardAgent>) {
    dash.runs.display_indices = (0..agents.len()).collect();
    dash.runs.agents = agents;
}

fn toast(message: &str, level: ToastLevel) -> Toast {
    Toast { message: message.to_string(), remaining_ticks: 25, level }
}

fn keys() -> FormattingKeys {
    FormattingKeys { mode_chord: "^R", shortcuts: vec![("^B", "bold"), ("^T", "italic")] }
}

/// A help page as text, a line per title and per key.
fn page(sections: &[HelpSection]) -> String {
    let mut text = String::new();
    for section in sections {
        text.push_str(section.title);
        text.push('\n');
        for (key, what) in &section.entries {
            text.push_str(&format!("{key}  {what}\n"));
        }
    }
    text
}

fn help(dash: &Dashboard) -> String {
    page(&dash.draw_help_overlay(AgentsScreen::Closed, &keys()))
}

fn stacked(stack: &Option<ToastStack>) -> Vec<String> {
    match stack {
        Some(stack) => stack.rows.iter().map(|(_, line)| line.text()).collect(),
        None => vec![],
    }
}

fn text(line: &Line) -> String {
    line.spans.iter().map(|s| s.content.as_str()).collect()
}

// ── Toasts ───────────────────────────────────────────────────────────────────

#[test]
fn draw_toasts_empty() {
    let dash = Dashboard::new();
    assert!(dash.draw_toasts(Rect::new(0, 0, 120, 40)).is_none());
}

#[test]
fn draw_toasts_info() {
    let mut dash = Dashboard::new();
    dash.notes.toasts.push(toast("Agent completed", ToastLevel::Info));
    let rows = stacked(&dash.draw_toasts(Rect::new(0, 0, 120, 40)));
    assert!(rows[0].contains("Agent completed"), "{rows:?}");
}

#[test]
fn draw_toasts_warning_and_error() {
    let mut dash = Dashboard::new();
    dash.notes.toasts.push(toast("Needs input", ToastLevel::Warning));
    dash.notes.toasts.push(toast("Agent failed", ToastLevel::Error));
    let rows = stacked(&dash.draw_toasts(Rect::new(0, 0, 120, 40)));
    assert!(rows[0].contains("Needs input"), "{rows:?}");
    assert!(rows[1].contains("Agent failed"), "{rows:?}");
}

/// Work in flight wears its own glyph, not the check of work that is done.
#[test]
fn a_progress_toast_does_not_wear_the_completion_check() {
    assert_eq!(toast_glyph(ToastLevel::Progress).0, "◌");
    assert_eq!(toast_glyph(ToastLevel::Info).0, "✓");
    assert_eq!(toast_glyph(ToastLevel::Warning).0, "!");
    assert_eq!(toast_glyph(ToastLevel::Error).0, "✗");
    let mut dash = Dashboard::new();
    dash.notes.toasts.push(toast("Starting 'x'…", ToastLevel::Progress));
    let rows = stacked(&dash.draw_toasts(Rect::new(0, 0, 120, 40)));
    assert!(rows[0].contains("◌ Starting 'x'…"), "{rows:?}");
    assert!(!rows[0].contains("✓"), "{rows:?}");
}

/// The toast is sized to the frame: 40 where there is room, narrower on
/// a small terminal, gone where it could not hold a word.
#[test]
fn the_toast_fits_the_frame() {
    assert_eq!(toast_width(200), 40);
    assert_eq!(toast_width(42), 40);
    assert_eq!(toast_width(38), 36);
    assert_eq!(toast_width(14), 12);
    assert_eq!(toast_width(13), 0);
    assert_eq!(toast_width(0), 0);

    let mut dash = Dashboard::new();
    dash.notes.toasts.push(toast("Starting 'writer' unattended…", ToastLevel::Warning));
    // At 38 columns the message sits inside the frame.
    let stack = dash.draw_toasts(Rect::new(0, 0, 38, 20)).expect("a toast");
    let (row, line) = &stack.rows[0];
    assert_eq!((row.x, row.y), (1, 1), "one column of margin");
    assert!(row.x + row.width <= 38);
    let drawn = line.text();
    assert!(drawn.contains("! Starting 'writer' unattended…"), "{drawn}");
    assert!(drawn.chars().count() <= row.width as usize);
    assert_eq!(drawn.chars().next(), Some(' '), "the toast's own padding");
    assert_eq!(drawn.chars().nth(1), Some('!'), "then the glyph");

    // Too narrow for a toast: nothing is drawn.
    assert!(dash.draw_toasts(Rect::new(0, 0, 10, 20)).is_none());
    // Too short for the row under the title: the same.
    assert!(dash.draw_toasts(Rect::new(0, 0, 80, 1)).is_none());
    // Four toasts on three rows: the last one waits its turn.
    for i in 0..3 {
        dash.notes.toasts.push(toast(&format!("toast {i}"), ToastLevel::Info));
    }
    let rows = stacked(&dash.draw_toasts(Rect::new(0, 0, 80, 3)));
    assert!(rows.iter().any(|r| r.contains("toast 0")), "{rows:?}");
    assert!(!rows.iter().any(|r| r.contains("toast 2")), "{rows:?}");
}

#[test]
fn a_long_toast_is_cut_to_its_width() {
    let mut dash = Dashboard::new();
    dash.notes.toasts.push(toast(&"x".repeat(80), ToastLevel::Error));
    let stack = dash.draw_toasts(Rect::new(0, 0, 120, 40)).expect("a toast");
    let (row, line) = &stack.rows[0];
    assert_eq!(*row, Rect::new(79, 1, 40, 1));
    assert_eq!(line.text(), format!(" ✗ {}…", "x".repeat(35)));
    assert_eq!(toast_glyph(ToastLevel::Error).1, Color::Error);
}

// ── Help ─────────────────────────────────────────────────────────────────────

#[test]
fn draw_help_overlay_renders() {
    let dash = Dashboard::new();
    let shown = help(&dash);
    assert!(shown.contains("Agent run list"), "{shown}");
}

#[test]
fn draw_help_overlay_main_list_omits_detail_view_section() {
    let mut dash = Dashboard::new();
    dash.screens.detail_view = false;
    let rendered = help(&dash);
    assert!(rendered.contains("Agent run list"));
    assert!(rendered.contains("cycle sort"));
    assert!(rendered.contains("kill the run (asks first)"));
    assert!(!rendered.contains("Detail view"));
    assert!(!rendered.contains("switch stage tab"));
}

#[test]
fn draw_help_overlay_detail_view_omits_main_list_section() {
    let mut dash = Dashboard::new();
    dash.screens.detail_view = true;
    let rendered = help(&dash);
    assert!(rendered.contains("Detail view"));
    assert!(rendered.contains("switch stage tab"));
    assert!(rendered.contains("the stage graph explorer"), "{rendered}");
    assert!(rendered.contains("Stage explorer (g)"), "{rendered}");
    assert!(rendered.contains("tab / shift-tab"), "{rendered}");
    assert!(rendered.contains("escape edges"), "{rendered}");
    assert!(rendered.contains("logs / output / context"), "{rendered}");
    // The response editor's keys are listed here rather than in a mode of
    // their own: `?` is unbound once you are typing, so the only place to
    // read them is before you press `i`.
    assert!(rendered.contains("Writing a response"));
    assert!(!rendered.contains("Agent run list"));
    assert!(!rendered.contains("cycle sort"));
}

#[test]
fn draw_help_overlay_mcp_screen_shows_its_own_keys() {
    let mut dash = Dashboard::new();
    dash.screens.mcp_screen = true;
    let rendered = help(&dash);
    assert!(rendered.contains("MCP servers"));
    assert!(rendered.contains("remove (asks first)"));
}

/// The run list's help has to name the key that opens the newest screen.
#[test]
fn draw_help_overlay_run_list_names_the_new_run_key() {
    let dash = Dashboard::new();
    let rendered = help(&dash);
    assert!(rendered.contains("start a new run"), "{rendered}");
    // And the shared tail every mode ends with.
    assert!(rendered.contains("Everywhere"));
    assert!(rendered.contains("Mouse"));
}

/// The new-run screen has its own help, reachable with F1 because `?` is a
/// question mark in both of its panes.
#[test]
fn draw_help_overlay_new_run_screen_documents_its_panes() {
    let mut dash = Dashboard::new();
    dash.new_run.open = true;
    let rendered = help(&dash);
    assert!(rendered.contains("New run: agent blueprints"), "{rendered}");
    assert!(rendered.contains("New run: task"));
    assert!(rendered.contains("reference a file"));
    assert!(rendered.contains("New run: unattended"));
}

/// The log panel has a section of its own.
#[test]
fn draw_help_overlay_log_pane_has_its_own_section() {
    let mut dash = Dashboard::new();
    dash.screens.main_focus = MainPane::LogPane;
    let rendered = help(&dash);
    assert!(rendered.contains("Log panel"), "{rendered}");
    assert!(rendered.contains("follow again"));
}

/// The unattended warning has no "don't ask again" box, so the Questions
/// section must not offer a key for it.
#[test]
fn the_questions_help_offers_no_dont_ask_again_box() {
    let dash = Dashboard::new();
    let shown = help(&dash);
    assert!(shown.contains("y / n"), "the section is there: {shown}");
    assert!(!shown.contains("don't ask again"), "{shown}");
}

/// `t` and `R` are bound in the detail view, so its help lists them.
#[test]
fn the_detail_help_lists_the_band_keys() {
    let mut dash = Dashboard::new();
    dash.screens.detail_view = true;
    let shown = help(&dash);
    assert!(shown.contains("the whole blueprint"), "t: {shown}");
    assert!(shown.contains("snake the path again"), "R: {shown}");
    assert!(shown.contains("open the stored part"), "v: {shown}");
    assert!(shown.contains("run's working directory"), "w: {shown}");
}

#[test]
fn the_agents_screen_has_its_own_help() {
    let dash = Dashboard::new();
    let catalog = dash.draw_help_overlay(AgentsScreen::Catalog, &keys());
    let editor = dash.draw_help_overlay(AgentsScreen::Editor, &keys());
    assert_eq!(catalog[0].title, agents_sections()[0].title);
    assert_eq!(editor[0].title, agent_editor_sections(&keys())[0].title);
    assert_ne!(page(&catalog), page(&editor));
}

/// Every page ends with the sections they all share.
#[test]
fn the_shared_sections_close_every_help_page() {
    let tail = page(&shared_sections());
    let mut dash = Dashboard::new();
    for builder in [AgentsScreen::Closed, AgentsScreen::Catalog, AgentsScreen::Editor] {
        for detail in [false, true] {
            dash.screens.detail_view = detail;
            let shown = page(&dash.draw_help_overlay(builder, &keys()));
            assert!(shown.ends_with(&tail), "{builder:?}");
            assert!(shown.len() > tail.len());
        }
    }
}

#[test]
fn the_formatting_section_starts_with_the_way_in() {
    let section = formatting_section(&keys());
    assert_eq!(section.entries[0].0, "^R");
    assert_eq!(&section.entries[1..3], &[("^B", "bold"), ("^T", "italic")]);
    assert_eq!(section.entries.len(), 7);
}

// ── Questions ────────────────────────────────────────────────────────────────

#[test]
fn the_delete_dialog_renders_over_the_frame() {
    let mut dash = Dashboard::new();
    list(&mut dash, vec![make_test_agent("run-del-123", AgentDisplayStatus::Complete)]);
    dash.request_delete();
    let (action, dialog) = dash.notes.pending_confirm.as_ref().expect("dialog open");
    assert!(dialog.title.contains("Delete run?"));
    assert_eq!(dialog.decline, "Cancel");
    assert!(
        matches!(action, ConfirmAction::Delete { run_ids } if *run_ids == ["run-del-123".to_string()])
    );
}

/// The kill and delete dialogs carry the whole run id and title.
#[test]
fn the_kill_and_delete_dialogs_carry_the_whole_id() {
    let long_id = "run-20260829-abcdefghijklmnopqrstuvwxyz-0123456789";
    let mut dash = Dashboard::new();
    let mut agent = make_test_agent(long_id, AgentDisplayStatus::Active);
    agent.title = None;
    agent.blueprint_name = "a-blueprint-name-well-past-twenty-four-columns".to_string();
    list(&mut dash, vec![agent]);

    dash.request_kill();
    let (_, dialog) = dash.notes.pending_confirm.take().expect("kill dialog");
    let body = text(&dialog.body[0]);
    assert!(body.contains(long_id), "{body}");
    assert!(body.contains("a-blueprint-name-well-past-twenty-four-columns"), "{body}");
    assert!(!body.contains('…'), "{body}");

    dash.request_delete();
    let (_, dialog) = dash.notes.pending_confirm.take().expect("delete dialog");
    let body = text(&dialog.body[0]);
    assert!(body.contains(long_id), "{body}");
    assert!(dialog.title.contains("Delete run?"));
    assert!(body.contains("0123456789"), "the id's tail is there: {body}");
}
