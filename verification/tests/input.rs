//! The review pane and the input pane.

use leviath_dashboard::render::button::button_style;
use leviath_dashboard::render::input::{send_button, InputPane};
use leviath_dashboard::state::Dashboard;
use leviath_dashboard::style::{Color, Line, Rect, Span, Style};
use leviath_dashboard::types::{
    AgentDisplayStatus, ClickTarget, DashboardAgent, InteractionKind, InteractionRequest,
};
use std::sync::Arc;

const AREA: Rect = Rect { x: 0, y: 0, width: 80, height: 12 };

fn make_test_agent(id: &str, status: AgentDisplayStatus) -> DashboardAgent {
    DashboardAgent {
        id: id.to_string(),
        blueprint_name: "test-agent".to_string(),
        stage: "main".to_string(),
        stage_index: 0,
        num_stages: 1,
        status,
        tokens_in: 100,
        tokens_out: 50,
        cached_tokens: 10,
        iteration: 3,
        broken_scripts: vec![],
        waiting_prompt: Some("What should I do?".to_string()),
        wait_reason: None,
        pending_request: None,
        last_answered_request_id: None,
        context_snapshot: None,
        stages: Arc::new(vec![]),
        workdir: "/tmp/test".to_string(),
        task: "test task".to_string(),
        title: Some("My Test".to_string()),
        model: None,
        parent_id: None,
        started_at: 940,
        last_progress_at: None,
        runtime_secs: 0,
        clock_now: 0,
        graph: None,
        accepts_messages: true,
    }
}

fn make_pending_req(kind: InteractionKind) -> InteractionRequest {
    InteractionRequest {
        id: "req-1".to_string(),
        kind,
        prompt: "Choose wisely".to_string(),
        options: vec!["Option A".to_string(), "Option B".to_string()],
        required: true,
        stage_name: "main".to_string(),
        body: None,
    }
}

fn line(text: &str) -> Line {
    Line {
        spans: vec![Span {
            content: text.to_string(),
            style: Style { fg: None, bg: None, bold: false, reversed: false },
        }],
    }
}

/// The pane as text: its title, then its lines.
fn shown(pane: &InputPane) -> String {
    match pane {
        InputPane::Editor { title, .. } => title.clone(),
        InputPane::Prompt { title, lines, .. } => {
            let mut text = title.clone();
            for line in lines {
                text.push('\n');
                text.push_str(&line.text());
            }
            text
        }
    }
}

fn options(texts: &[&str]) -> Vec<String> {
    texts.iter().map(|s| s.to_string()).collect()
}

// ── The review pane ──────────────────────────────────────────────────────────

#[test]
fn render_review_body_basic() {
    let mut dash = Dashboard::new();
    let lines = vec![line("Line 1"), line("Line 2"), line("Line 3")];
    let pane = dash.render_review_body(Rect::new(0, 0, 80, 10), &lines, None);
    assert_eq!(pane.scroll_y, 0, "all three are in view");
    assert!(pane.scrollbar.is_none());
}

#[test]
fn render_review_body_with_scrollbar() {
    let mut dash = Dashboard::new();
    // More lines than fit in the area.
    let lines: Vec<Line> = (0..50).map(|i| line(&format!("Line {i}"))).collect();
    let pane = dash.render_review_body(Rect::new(0, 0, 80, 10), &lines, None);
    assert!(pane.scrollbar.is_some(), "no scrollbar drawn");
}

/// A review document whose lines wrap must still show its final line when
/// scrolled to the bottom.
#[test]
fn wrapped_review_shows_its_last_line_at_the_bottom() {
    let mut dash = Dashboard::new();
    dash.detail.review_scroll = 0;
    let lines = vec![
        line(&"plan step ".repeat(30)),
        line(&"detail text ".repeat(25)),
        line("REVIEW-FINAL-LINE"),
    ];
    let area = Rect::new(0, 0, 48, 12);
    let pane = dash.render_review_body(area, &lines, None);
    // The rows above the view and the rows in it are all of the rows, counted as
    // they wrap.
    let mut whole = Dashboard::new();
    let rows = (1..200)
        .find(|&height| {
            whole.render_review_body(Rect::new(0, 0, 48, height + 2), &lines, None).scroll_y == 0
        })
        .expect("a pane that holds it all");
    assert!(rows > 10, "the lines wrap: {rows}");
    assert_eq!(pane.scroll_y + 10, rows as usize, "the last row is the last in view");
}

#[test]
fn render_review_body_clamps_out_of_range_scroll() {
    let mut dash = Dashboard::new();
    // Scroll offset far beyond the content length must be clamped down.
    dash.detail.review_scroll = usize::MAX;
    let lines = vec![line("Line 1"), line("Line 2")];
    dash.render_review_body(Rect::new(0, 0, 80, 10), &lines, None);
    assert!(dash.detail.review_scroll < usize::MAX);
    assert_eq!(dash.detail.review_scroll, 0);
}

#[test]
fn render_review_body_with_pending_req() {
    let mut dash = Dashboard::new();
    let lines = vec![line("Review content")];
    let pending = make_pending_req(InteractionKind::FreeText);
    let pane = dash.render_review_body(Rect::new(0, 0, 80, 10), &lines, Some(&pending));
    assert!(pane.title.contains("Choose wisely"), "{}", pane.title);
    assert_eq!(pane.scroll_y, 0);
}

/// The prompt in the review pane's title is cut to the pane, not to a
/// fixed 50 characters: whole on a wide pane, ellipsis on a narrow one.
#[test]
fn render_review_body_fits_the_prompt_to_the_pane() {
    let prompt = "Review the draft and say whether the executive summary is ready";
    let mut req = make_pending_req(InteractionKind::FreeText);
    req.prompt = prompt.to_string();
    let lines = vec![line("Review content")];
    let mut dash = Dashboard::new();

    let wide = dash.render_review_body(Rect::new(0, 0, 120, 10), &lines, Some(&req)).title;
    assert!(wide.contains(prompt), "{wide}");

    let narrow = dash.render_review_body(Rect::new(0, 0, 40, 10), &lines, Some(&req)).title;
    assert!(!narrow.contains(prompt), "{narrow}");
    // 40 wide, 4 off: 36 columns, 35 of prompt and the ellipsis.
    assert!(narrow.contains("Review the draft and say whether th…"), "{narrow}");
}

// ── The input pane ───────────────────────────────────────────────────────────

/// With the feedback box open under a tool approval, the pane is the
/// response box labelled for the deny, not the choice list.
#[test]
fn render_input_pane_deny_feedback_box() {
    let mut dash = Dashboard::new();
    dash.reply.input_mode = true;
    dash.reply.deny_feedback_open = true;
    let agent = make_test_agent("run-df", AgentDisplayStatus::Waiting);
    let pending = make_pending_req(InteractionKind::ToolApproval);
    let pane = dash.render_input_pane(
        AREA,
        &agent,
        Some(&pending),
        Some(InteractionKind::ToolApproval),
        &options(&["Allow once", "Deny with feedback"]),
    );
    assert!(matches!(pane, InputPane::Editor { focused: true, .. }));
    let buf = shown(&pane);
    assert!(buf.contains("Deny with feedback"), "{buf}");
    assert!(buf.contains("[Esc] back"), "{buf}");
    assert!(send_button().contains("Send"));
    assert!(!buf.contains("[1] Allow once"), "the choice list is gone: {buf}");
}

#[test]
fn render_input_pane_freetext_input_mode() {
    let mut dash = Dashboard::new();
    dash.reply.input_mode = true;
    let agent = make_test_agent("run-ft", AgentDisplayStatus::Waiting);
    let pane = dash.render_input_pane(AREA, &agent, None, Some(InteractionKind::FreeText), &vec![]);
    let buf = shown(&pane);
    assert!(buf.contains("Esc"), "{buf}");
    assert!(buf.contains("[Enter] newline"), "{buf}");
    assert!(matches!(pane, InputPane::Editor { .. }), "the box with the Send button");
}

/// Tab lights the Send button the way it lights the Start button: the
/// box's border goes quiet and the button takes the focus colour.
#[test]
fn the_send_button_lights_when_tab_reaches_it() {
    let agent = make_test_agent("run-ft", AgentDisplayStatus::Waiting);
    let mut styles = vec![];
    for focus_send in [false, true] {
        let mut dash = Dashboard::new();
        dash.reply.input_mode = true;
        dash.reply.focus_send = focus_send;
        let area = Rect::new(0, 0, 80, 12);
        let kind = Some(InteractionKind::FreeText);
        let pane = dash.render_input_pane(area, &agent, None, kind, &vec![]);
        let button = dash
            .mouse
            .click_targets
            .iter()
            .find(|(_, t)| *t == ClickTarget::ResponseSend)
            .map(|(r, _)| *r)
            .expect("the button registered its rect");
        assert_eq!(button.y, 11, "on the pane's last row");
        assert_eq!(button.x + button.width, 80, "right-aligned");
        assert_eq!((button.width as usize, button.height), (send_button().len(), 1));
        match pane {
            InputPane::Editor { focused, rows, .. } => {
                assert_eq!(focused, !focus_send);
                assert_eq!(rows.button, button);
                assert_eq!(rows.editor, Rect::new(0, 0, 80, 11));
            }
            InputPane::Prompt { title, .. } => panic!("{title}"),
        }
        styles.push(button_style(focus_send));
    }
    assert_ne!(styles[0], styles[1], "focus changes the button's look");
    assert_eq!(styles[1].bg, Some(Color::BorderFocus));
}

/// The button is a target wherever it is drawn, and it stays in its pane.
#[test]
fn a_button_stays_in_a_pane_too_small_for_it() {
    for (width, height) in [(0, 0), (3, 1), (3, 0), (0, 4), (8, 1), (200, 1)] {
        let mut dash = Dashboard::new();
        let area = Rect::new(5, 7, width, height);
        let rows = dash.draw_action_button(area, send_button(), ClickTarget::ResponseSend);
        assert_eq!(dash.mouse.click_targets, vec![(rows.button, ClickTarget::ResponseSend)]);
        assert!(rows.button.x >= 5 && rows.button.x + rows.button.width <= 5 + width);
        assert!(rows.button.y >= 7 && rows.button.y + rows.button.height <= 7 + height);
    }
}

/// A prompt that nobody is answering has no button.
#[test]
fn a_prompt_has_no_send_button() {
    let mut dash = Dashboard::new();
    let agent = make_test_agent("run-p", AgentDisplayStatus::Waiting);
    dash.render_input_pane(AREA, &agent, None, Some(InteractionKind::FreeText), &vec![]);
    assert!(dash.mouse.click_targets.is_empty());
}

#[test]
fn render_input_pane_freetext_input_mode_no_kind() {
    let mut dash = Dashboard::new();
    dash.reply.input_mode = true;
    let agent = make_test_agent("run-ft2", AgentDisplayStatus::Waiting);
    let buf = shown(&dash.render_input_pane(AREA, &agent, None, None, &vec![]));
    assert!(buf.contains("Esc"), "{buf}");
}

#[test]
fn render_input_pane_multiple_choice_input_mode() {
    let mut dash = Dashboard::new();
    dash.reply.input_mode = true;
    let agent = make_test_agent("run-mc", AgentDisplayStatus::Waiting);
    let pending = make_pending_req(InteractionKind::MultipleChoice);
    let buf = shown(&dash.render_input_pane(
        AREA,
        &agent,
        Some(&pending),
        Some(InteractionKind::MultipleChoice),
        &options(&["Option A", "Option B"]),
    ));
    assert!(buf.contains("Option A"), "{buf}");
    assert!(buf.contains("Option B"), "{buf}");
}

#[test]
fn render_input_pane_confirm_input_mode() {
    let mut dash = Dashboard::new();
    dash.reply.input_mode = true;
    let agent = make_test_agent("run-conf", AgentDisplayStatus::Waiting);
    let pending = make_pending_req(InteractionKind::Confirm);
    let buf = shown(&dash.render_input_pane(
        AREA,
        &agent,
        Some(&pending),
        Some(InteractionKind::Confirm),
        &options(&["Yes", "No"]),
    ));
    assert!(buf.contains("Yes"), "{buf}");
    assert!(buf.contains("No"), "{buf}");
}

#[test]
fn render_input_pane_not_input_mode_with_prompt() {
    let mut dash = Dashboard::new();
    let agent = make_test_agent("run-noinput", AgentDisplayStatus::Waiting);
    let pending = make_pending_req(InteractionKind::FreeText);
    let buf = shown(&dash.render_input_pane(
        AREA,
        &agent,
        Some(&pending),
        Some(InteractionKind::FreeText),
        &vec![],
    ));
    assert!(buf.contains("[i] respond"), "{buf}");
    assert!(buf.contains("Choose wisely"), "{buf}");
}

#[test]
fn render_input_pane_edit_text_preview_labels_editing() {
    // A pending edit (not yet editing) shows the "Edit Document" title and
    // the edit-the-document hint, not the generic response labels.
    let mut dash = Dashboard::new();
    let agent = make_test_agent("run-edit-preview", AgentDisplayStatus::Waiting);
    let pending = make_pending_req(InteractionKind::EditText);
    let buf = shown(&dash.render_input_pane(
        AREA,
        &agent,
        Some(&pending),
        Some(InteractionKind::EditText),
        &vec![],
    ));
    assert!(buf.contains("Edit Document"), "{buf}");
}

#[test]
fn render_input_pane_preview_with_options() {
    let mut dash = Dashboard::new();
    let agent = make_test_agent("run-preview", AgentDisplayStatus::Waiting);
    let pending = make_pending_req(InteractionKind::MultipleChoice);
    let buf = shown(&dash.render_input_pane(
        AREA,
        &agent,
        Some(&pending),
        Some(InteractionKind::MultipleChoice),
        &options(&["Option A", "Option B", "Option C"]),
    ));
    assert!(buf.contains("Option A"), "{buf}");
    assert!(buf.contains("Option B"), "{buf}");
    assert!(buf.contains("Option C"), "{buf}");
}

#[test]
fn render_input_pane_preview_confirm_with_options() {
    // The preview of a confirmation labels its options "y)"/"n)" rather than
    // "[1]"/"[2]".
    let mut dash = Dashboard::new();
    let agent = make_test_agent("run-preview-confirm", AgentDisplayStatus::Waiting);
    let pending = make_pending_req(InteractionKind::Confirm);
    let buf = shown(&dash.render_input_pane(
        AREA,
        &agent,
        Some(&pending),
        Some(InteractionKind::Confirm),
        &options(&["Yes", "No"]),
    ));
    assert!(buf.contains("Yes"), "{buf}");
    assert!(buf.contains("No"), "{buf}");
    assert!(!buf.contains("[1]"), "{buf}");
}

#[test]
fn render_input_pane_complete_interactive() {
    let mut dash = Dashboard::new();
    let mut agent = make_test_agent("run-ci", AgentDisplayStatus::CompleteInteractive);
    agent.waiting_prompt = Some("Anything else?".to_string());
    let buf = shown(&dash.render_input_pane(AREA, &agent, None, None, &vec![]));
    assert!(buf.contains("Anything else?"), "{buf}");
}
