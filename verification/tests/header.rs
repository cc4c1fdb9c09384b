//! The detail view's header: the breadcrumb and the info strip.

use leviath_dashboard::state::Dashboard;
use leviath_dashboard::style::{Line, Rect};
use leviath_dashboard::types::{
    ActiveClock, AgentDisplayStatus, DashboardAgent, StageRecord, StageRunStatus,
};
use std::sync::Arc;

const HOME: &str = "/home/u";

fn make_test_agent(id: &str, status: AgentDisplayStatus) -> DashboardAgent {
    DashboardAgent {
        id: id.to_string(),
        blueprint_name: "test-agent".to_string(),
        stage: "main".to_string(),
        stage_index: 0,
        num_stages: 2,
        status,
        tokens_in: 100,
        tokens_out: 50,
        cached_tokens: 10,
        iteration: 3,
        broken_scripts: vec![],
        waiting_prompt: None,
        wait_reason: None,
        pending_request: None,
        last_answered_request_id: None,
        context_snapshot: None,
        stages: Arc::new(vec![]),
        workdir: "/tmp/test".to_string(),
        task: "test task".to_string(),
        title: Some("My Test".to_string()),
        model: Some("aurora-4-20250514".to_string()),
        parent_id: None,
        started_at: 940,
        last_progress_at: None,
        runtime_secs: 0,
        clock_now: 0,
        graph: None,
        accepts_messages: true,
    }
}

fn breadcrumb_at(width: u16, agent: &DashboardAgent, elapsed: &str) -> String {
    let dash = Dashboard::new();
    dash.render_header_breadcrumb(Rect::new(0, 0, width, 1), agent, elapsed, "1m").text()
}

fn breadcrumb(agent: &DashboardAgent) -> String {
    breadcrumb_at(120, agent, "0s")
}

fn info_lines(dash: &Dashboard, width: u16, agent: &DashboardAgent) -> String {
    let lines: Vec<Line> = dash.render_info_strip(Rect::new(0, 0, width, 4), agent, HOME);
    lines.iter().map(|l| l.text()).collect::<Vec<String>>().join("\n")
}

fn info_strip_at(width: u16, agent: &DashboardAgent) -> String {
    info_lines(&Dashboard::new(), width, agent)
}

// ── The breadcrumb ───────────────────────────────────────────────────────────

/// A run whose script could not be used looks exactly like a healthy one
/// otherwise, so this badge is the only thing on screen that says the result went
/// unchecked.
#[test]
fn render_header_breadcrumb_flags_a_broken_script() {
    let mut agent = make_test_agent("run-broken", AgentDisplayStatus::Complete);
    agent.broken_scripts = vec!["shape.rhai".to_string()];
    let buf = breadcrumb(&agent);
    assert!(buf.contains("1 broken script"), "{buf}");
    assert!(!buf.contains("scripts"), "singular for one: {buf}");
}

/// Two of them read as two.
#[test]
fn render_header_breadcrumb_pluralises_broken_scripts() {
    let mut agent = make_test_agent("run-broken", AgentDisplayStatus::Complete);
    agent.broken_scripts = vec!["a.rhai".to_string(), "b.rhai".to_string()];
    let buf = breadcrumb(&agent);
    assert!(buf.contains("2 broken scripts"), "{buf}");
}

/// And a healthy run carries no badge at all.
#[test]
fn render_header_breadcrumb_is_quiet_when_nothing_is_broken() {
    let agent = make_test_agent("run-ok", AgentDisplayStatus::Complete);
    assert!(!breadcrumb(&agent).contains("broken"));
}

#[test]
fn render_header_breadcrumb_active() {
    let agent = make_test_agent("run-abc-123", AgentDisplayStatus::Active);
    let buf = breadcrumb(&agent);
    assert!(buf.contains("ACTIVE"), "{buf}");
    assert!(!buf.contains("WAITING"), "{buf}");
    assert!(!buf.contains("COMPLETE"), "{buf}");
    assert!(!buf.contains("CANCEL"), "{buf}");
}

#[test]
fn render_header_breadcrumb_waiting() {
    let agent = make_test_agent("run-w", AgentDisplayStatus::Waiting);
    let buf = breadcrumb(&agent);
    assert!(buf.contains("WAITING"), "{buf}");
    assert!(!buf.contains("ACTIVE"), "{buf}");
    assert!(!buf.contains("COMPLETE"), "{buf}");
    assert!(!buf.contains("CANCEL"), "{buf}");
}

#[test]
fn render_header_breadcrumb_complete() {
    let agent = make_test_agent("run-c", AgentDisplayStatus::Complete);
    let buf = breadcrumb(&agent);
    assert!(buf.contains("COMPLETE"), "{buf}");
    assert!(!buf.contains("ACTIVE"), "{buf}");
    assert!(!buf.contains("WAITING"), "{buf}");
    assert!(!buf.contains("CANCEL"), "{buf}");
}

#[test]
fn render_header_breadcrumb_error() {
    let agent = make_test_agent("run-e", AgentDisplayStatus::Error("boom".to_string()));
    let buf = breadcrumb(&agent);
    assert!(buf.contains("ERROR: boom"), "{buf}");
    assert!(!buf.contains("ACTIVE"), "{buf}");
    assert!(!buf.contains("WAITING"), "{buf}");
    assert!(!buf.contains("COMPLETE"), "{buf}");
}

#[test]
fn render_header_breadcrumb_cancelled() {
    let agent = make_test_agent("run-x", AgentDisplayStatus::Cancelled);
    let buf = breadcrumb(&agent);
    assert!(buf.contains("CANCEL"), "{buf}");
    assert!(!buf.contains("ACTIVE"), "{buf}");
    assert!(!buf.contains("WAITING"), "{buf}");
    assert!(!buf.contains("COMPLETE"), "{buf}");
}

#[test]
fn render_header_breadcrumb_without_title() {
    let mut agent = make_test_agent("run-no-title", AgentDisplayStatus::Active);
    agent.title = None;
    let buf = breadcrumb(&agent);
    assert!(buf.contains("test-agent"), "{buf}");
}

#[test]
fn render_header_breadcrumb_accepts_messages_false() {
    let mut agent = make_test_agent("run-no-msg", AgentDisplayStatus::Active);
    agent.accepts_messages = false;
    let buf = breadcrumb(&agent);
    assert!(buf.contains("ACTIVE"), "{buf}");
}

#[test]
fn render_header_breadcrumb_shows_working_time_not_age() {
    let mut agent = make_test_agent("run-frozen", AgentDisplayStatus::Waiting);
    // Alive for an hour, at work for 30 seconds of it.
    agent.started_at = 1000 - 3600;
    agent.runtime_secs = 30;
    let buf = breadcrumb_at(120, &agent, "30s");
    assert!(buf.contains("WAITING"), "{buf}");
    assert!(buf.contains("30s"), "{buf}");
}

/// The header row: at 200 columns a long title and the run id are both
/// whole; at 80 the title gives way and the id stays.
#[test]
fn render_header_breadcrumb_fits_the_title_to_the_row() {
    let long_title = "Add adversarial and cross-company risk analysis to the blueprint";
    let mut agent = make_test_agent("run-abc-123456", AgentDisplayStatus::Complete);
    agent.title = Some(long_title.to_string());

    let wide = breadcrumb_at(200, &agent, "0s");
    assert!(wide.contains(long_title), "{wide}");
    assert!(wide.contains("run-abc-123456"), "{wide}");
    assert!(!wide.contains('…'), "{wide}");

    let narrow = breadcrumb_at(80, &agent, "0s");
    assert!(!narrow.contains(long_title), "{narrow}");
    assert!(narrow.contains("Add adversarial"), "{narrow}");
    assert!(narrow.contains('…'), "{narrow}");
    assert!(narrow.contains("run-abc-123456"), "{narrow}");
    assert!(narrow.contains("COMPLETE"), "{narrow}");
}

/// A long error status is the second thing to give way, after the title.
#[test]
fn render_header_breadcrumb_cuts_a_long_error_after_the_title() {
    let mut agent = make_test_agent(
        "run-err-1",
        AgentDisplayStatus::Error(
            "provider returned 502 after three attempts and the breaker opened".to_string(),
        ),
    );
    agent.title = Some("Short".to_string());
    let buf = breadcrumb_at(70, &agent, "0s");
    assert!(buf.contains("Short"), "title is already at the floor: {buf}");
    assert!(buf.contains("ERROR: "), "{buf}");
    assert!(!buf.contains("breaker opened"), "{buf}");
    assert!(buf.contains("run-err-1"), "{buf}");
}

// ── The info strip ───────────────────────────────────────────────────────────

#[test]
fn render_info_strip_basic() {
    let agent = make_test_agent("run-info", AgentDisplayStatus::Active);
    let buf = info_strip_at(120, &agent);
    assert!(buf.contains("test task"), "{buf}");
}

#[test]
fn render_info_strip_with_stage_tokens() {
    let mut dash = Dashboard::new();
    let mut agent = make_test_agent("run-stok", AgentDisplayStatus::Active);
    agent.stages = Arc::new(vec![StageRecord {
        name: "main".to_string(),
        status: StageRunStatus::Active,
        prompt_tokens: 200,
        completion_tokens: 80,
        started_at: Some(970),
        ended_at: None,
        clock: ActiveClock { banked_secs: 30, since: None },
    }]);
    dash.detail.selected_stage = 0;
    let buf = info_lines(&dash, 120, &agent);
    assert!(buf.contains("test task"), "{buf}");
    assert!(buf.contains("200↑ 80↓"), "{buf}");
}

#[test]
fn render_info_strip_with_model() {
    let mut agent = make_test_agent("run-model", AgentDisplayStatus::Active);
    agent.model = Some("aurora-4-20250514".to_string());
    let buf = info_strip_at(120, &agent);
    assert!(buf.contains("aurora-4"), "{buf}");
}

#[test]
fn render_info_strip_no_model() {
    let mut agent = make_test_agent("run-nomodel", AgentDisplayStatus::Active);
    agent.model = None;
    let buf = info_strip_at(120, &agent);
    assert!(buf.contains("test task"), "{buf}");
}

#[test]
fn render_info_strip_home_dir_substitution() {
    let mut agent = make_test_agent("run-home", AgentDisplayStatus::Active);
    agent.workdir = format!("{HOME}/projects/test");
    let buf = info_strip_at(120, &agent);
    assert!(buf.contains("~/projects/test"), "{buf}");
    // The point of the substitution: the real home path is gone, not just
    // accompanied by a tilde somewhere on the line.
    assert!(!buf.contains(HOME), "{buf}");
}

#[test]
fn render_info_strip_zero_tokens() {
    let mut agent = make_test_agent("run-zero", AgentDisplayStatus::Active);
    agent.tokens_in = 0;
    agent.tokens_out = 0;
    agent.cached_tokens = 0;
    let buf = info_strip_at(120, &agent);
    assert!(buf.contains("test task"), "{buf}");
    assert!(!buf.contains("total"), "{buf}");
}

#[test]
fn render_info_strip_tokens_present_without_cache() {
    // tokens_in > 0 but cached_tokens == 0: the totals are shown but
    // the cache share must stay empty.
    let mut agent = make_test_agent("run-no-cache", AgentDisplayStatus::Active);
    agent.tokens_in = 100;
    agent.tokens_out = 50;
    agent.cached_tokens = 0;
    let buf = info_strip_at(120, &agent);
    assert!(buf.contains("test task"), "{buf}");
    assert!(buf.contains("total 100↑ 50↓"), "{buf}");
    assert!(!buf.contains("cache"), "{buf}");
}

const LONG_MODEL: &str = "openrouter/z-ai/glm-5.3-preview-long-name";
const LONG_WORKDIR: &str = "/srv/projects/ai/personal/leviath/worktrees/fit-to-width";

fn wide_agent() -> DashboardAgent {
    let mut agent = make_test_agent("run-wide", AgentDisplayStatus::Active);
    agent.model = Some(LONG_MODEL.to_string());
    agent.workdir = LONG_WORKDIR.to_string();
    agent.tokens_in = 1_000_000;
    agent.tokens_out = 25_000;
    agent.cached_tokens = 410_000;
    agent
}

/// `tokens_in` is the fresh input only, so the cache's share is of the whole
/// prompt: fresh and cached together.
#[test]
fn render_info_strip_cache_share_is_a_share_of_the_whole_prompt() {
    let mut agent = wide_agent();
    agent.tokens_in = 555_075;
    agent.tokens_out = 58_267;
    agent.cached_tokens = 909_343;
    let buf = info_strip_at(200, &agent);
    assert!(buf.contains("total 555k↑ 58k↓  cache 62%"), "{buf}");
    assert!(!buf.contains("164%"), "{buf}");
    // Everything cached is the ceiling, not a division by zero.
    agent.tokens_in = 0;
    agent.cached_tokens = 4_000;
    let buf = info_strip_at(200, &agent);
    assert!(buf.contains("total 0↑ 58k↓  cache 100%"), "{buf}");
}

/// A wide row shows the model and the directory whole.
#[test]
fn render_info_strip_wide_shows_the_whole_model_and_workdir() {
    let buf = info_strip_at(200, &wide_agent());
    assert!(buf.contains(LONG_MODEL), "{buf}");
    assert!(buf.contains(LONG_WORKDIR), "{buf}");
    assert!(buf.contains("total 1M↑ 25k↓  cache 29%"), "{buf}");
    assert!(!buf.contains('…'), "{buf}");
}

/// Narrow: the model gives way first, the workdir keeps as much as the
/// model's floor leaves it, and the token figures stay whole.
#[test]
fn render_info_strip_narrow_shrinks_model_before_workdir_and_keeps_tokens() {
    let buf = info_strip_at(70, &wide_agent());
    assert!(buf.contains("total 1M↑ 25k↓  cache 29%"), "{buf}");
    assert!(!buf.contains(LONG_MODEL), "{buf}");
    assert!(!buf.contains(LONG_WORKDIR), "{buf}");
    // The model sits at the floor (seven characters and the ellipsis).
    assert!(buf.contains("·  openrou…"), "{buf}");
    // The workdir gave up the rest and kept its head.
    assert!(buf.contains("dir   /srv/projects/a…  ·  total"), "{buf}");
}

/// Narrower than both floors allow: the model is dropped altogether
/// rather than clipping the token figures, and the workdir takes the
/// room the model's floor was holding.
#[test]
fn render_info_strip_below_the_floors_drops_the_model_and_keeps_the_tokens() {
    // 60 wide: 56 inside, 7 for the label and 30 for the totals leaves
    // the workdir 19 columns.
    let buf = info_strip_at(60, &wide_agent());
    assert!(
        buf.contains("dir   /srv/projects/ai/p…  ·  total 1M↑ 25k↓  cache 29%"),
        "{buf}"
    );
    assert!(!buf.contains("openro"), "{buf}");
    // The mid case, where the model at its floor would have fitted the
    // arithmetic of the parts but not the row: 50 wide drops it too.
    let buf = info_strip_at(50, &wide_agent());
    assert!(buf.contains("total 1M↑ 25k↓  cache 29%"), "{buf}");
    assert!(!buf.contains("openro"), "{buf}");
}

/// With a little less room than the whole line, only the model is cut and
/// the workdir is untouched: the shrink order is model, then workdir.
#[test]
fn render_info_strip_slightly_narrow_cuts_only_the_model() {
    let buf = info_strip_at(120, &wide_agent());
    assert!(buf.contains(LONG_WORKDIR), "{buf}");
    assert!(buf.contains("openrouter/z-ai/g…"), "{buf}");
    assert!(!buf.contains(LONG_MODEL), "{buf}");
}

/// The task line gets the whole inner width too.
#[test]
fn render_info_strip_task_uses_the_row() {
    let mut agent = wide_agent();
    agent.task = "t".repeat(150);
    let buf = info_strip_at(200, &agent);
    assert!(buf.contains(&"t".repeat(150)), "{buf}");
    let narrow = info_strip_at(60, &agent);
    // 60 wide, 4 for border and padding, 7 for the label: 49 columns.
    assert!(narrow.contains(&format!("{}…", "t".repeat(48))), "{narrow}");
    assert!(!narrow.contains(&"t".repeat(49)), "{narrow}");
}
