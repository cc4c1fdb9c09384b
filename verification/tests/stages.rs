//! The stage strip.

use leviath_dashboard::render::stages::StageStrip;
use leviath_dashboard::state::Dashboard;
use leviath_dashboard::style::{Line, Rect};
use leviath_dashboard::types::{
    ActiveClock, AgentDisplayStatus, ClickTarget, DashboardAgent, StageGraph, StageRecord,
    StageRunStatus,
};
use std::sync::Arc;

fn make_test_agent(id: &str, status: AgentDisplayStatus) -> DashboardAgent {
    DashboardAgent {
        id: id.to_string(),
        blueprint_name: "test-agent".to_string(),
        stage: "main".to_string(),
        stage_index: 0,
        num_stages: 2,
        status,
        tokens_in: 100,
        tokens_out: 50,
        cached_tokens: 10,
        iteration: 3,
        broken_scripts: vec![],
        waiting_prompt: None,
        wait_reason: None,
        pending_request: None,
        last_answered_request_id: None,
        context_snapshot: None,
        stages: Arc::new(vec![]),
        workdir: "/tmp/test".to_string(),
        task: "test task".to_string(),
        title: Some("My Test".to_string()),
        model: None,
        parent_id: None,
        started_at: 940,
        last_progress_at: None,
        runtime_secs: 0,
        clock_now: 0,
        graph: None,
        accepts_messages: true,
    }
}

fn make_stage_record(name: &str, status: StageRunStatus) -> StageRecord {
    let ended_at = if status == StageRunStatus::Complete { Some(1000) } else { None };
    StageRecord {
        name: name.to_string(),
        status,
        prompt_tokens: 100,
        completion_tokens: 50,
        started_at: Some(970),
        ended_at,
        clock: ActiveClock { banked_secs: 30, since: None },
    }
}

fn dashboard() -> Dashboard {
    let mut dash = Dashboard::new();
    dash.screens.theme.spinner = ["⠋", "⠙", "⠹"].iter().map(|s| s.to_string()).collect();
    dash.screens.theme.complete = "✔".to_string();
    dash.screens.theme.waiting = "⏸".to_string();
    dash.screens.theme.error = "✘".to_string();
    dash.screens.theme.pending = "○".to_string();
    dash
}

/// A label of working time, as the strip is handed it.
fn time_of(record: &StageRecord) -> String {
    let secs = match (record.started_at, record.ended_at) {
        (Some(from), Some(to)) => to - from,
        _ => record.clock.banked_secs as i64,
    };
    if secs >= 60 { format!("{}m{}s", secs / 60, secs % 60) } else { format!("{secs}s") }
}

fn times(agent: &DashboardAgent) -> Vec<String> {
    agent.stages.iter().map(time_of).collect()
}

fn tabs(strip: &StageStrip) -> String {
    strip.tabs.iter().map(text).collect::<Vec<String>>().join(" │ ")
}

fn text(line: &Line) -> String {
    line.spans.iter().map(|s| s.content.as_str()).collect()
}

fn drawn(dash: &mut Dashboard, area: Rect, agent: &DashboardAgent) -> String {
    let times = times(agent);
    tabs(&dash.draw_linear_tabs(area, agent, &times))
}

fn tab_targets(dash: &Dashboard) -> Vec<Rect> {
    dash.mouse
        .click_targets
        .iter()
        .filter(|(_, t)| matches!(t, ClickTarget::StageTab(_)))
        .map(|(r, _)| *r)
        .collect()
}

#[test]
fn render_stage_tabs_linear_empty_stages() {
    let mut dash = dashboard();
    let agent = make_test_agent("run-s", AgentDisplayStatus::Active);
    let strip = dash
        .render_stage_tabs(Rect::new(0, 0, 120, 3), &agent, &vec![], 7, false)
        .expect("a strip");
    assert!(tabs(&strip).contains("main"), "{}", tabs(&strip));
}

#[test]
fn render_stage_tabs_linear_with_records() {
    let mut dash = dashboard();
    let mut agent = make_test_agent("run-sr", AgentDisplayStatus::Active);
    agent.stages = Arc::new(vec![
        make_stage_record("plan", StageRunStatus::Complete),
        make_stage_record("implement", StageRunStatus::Active),
    ]);
    agent.num_stages = 2;
    let strip = dash
        .render_stage_tabs(Rect::new(0, 0, 120, 3), &agent, &times(&agent), 7, false)
        .expect("a strip");
    assert!(tabs(&strip).contains("plan"), "{}", tabs(&strip));
    assert!(tabs(&strip).contains("implement"), "{}", tabs(&strip));
}

#[test]
fn draw_linear_tabs_various_statuses() {
    let mut dash = dashboard();
    let mut agent = make_test_agent("run-vs", AgentDisplayStatus::Active);
    agent.stages = Arc::new(vec![
        make_stage_record("s1", StageRunStatus::Complete),
        make_stage_record("s2", StageRunStatus::WaitingInput),
        make_stage_record("s3", StageRunStatus::Active),
        make_stage_record("s4", StageRunStatus::Pending),
        make_stage_record("s5", StageRunStatus::Error),
        // A branch the run finished without taking. Drawn like a pending
        // stage, since that is what "never reached" looks like.
        make_stage_record("s6", StageRunStatus::Skipped),
    ]);
    agent.num_stages = 6;
    agent.stage_index = 2;
    let all = times(&agent);
    let strip = dash.draw_linear_tabs(Rect::new(0, 0, 120, 3), &agent, &all);
    for (tab, (name, glyph)) in strip.tabs.iter().zip([
        ("s1", "✔"),
        ("s2", "⏸"),
        ("s3", "⠋"),
        ("s4", "○"),
        ("s5", "✘"),
        ("s6", "○"),
    ]) {
        let tab = text(tab);
        assert!(tab.contains(name), "{tab}");
        assert!(tab.contains(glyph), "{tab}");
    }
}

/// Each tab is registered over the columns it was drawn on, and a strip
/// too narrow to hold them all stops registering rather than putting
/// buttons past the edge.
#[test]
fn the_stage_tabs_register_where_they_were_drawn() {
    let mut dash = dashboard();
    let mut agent = make_test_agent("run-tabs", AgentDisplayStatus::Active);
    agent.stages = Arc::new(vec![
        make_stage_record("plan", StageRunStatus::Complete),
        make_stage_record("implement", StageRunStatus::Active),
        make_stage_record("review", StageRunStatus::Pending),
    ]);
    agent.num_stages = 3;
    let all = times(&agent);
    let strip = dash.draw_linear_tabs(Rect::new(0, 0, 120, 3), &agent, &all);
    let targets = tab_targets(&dash);
    assert_eq!(targets.len(), 3, "one target per tab");
    // Each rect is as wide as the tab and its padding, and they follow one another.
    for (rect, tab) in targets.iter().zip(&strip.tabs) {
        assert!(rect.width as usize >= text(tab).chars().count(), "{rect:?}");
        assert!(rect.x + rect.width <= 120);
    }
    assert!(targets[0].x + targets[0].width <= targets[1].x);
    assert!(targets[1].x + targets[1].width <= targets[2].x);

    // Narrow enough that the later tabs never make it onto the strip.
    dash.mouse.click_targets.clear();
    dash.draw_linear_tabs(Rect::new(0, 0, 14, 3), &agent, &all);
    let narrow = tab_targets(&dash).len();
    assert!(narrow < 3, "the strip ran out of room: {narrow} tabs");
}

#[test]
fn render_stage_tabs_graph_mode() {
    let mut dash = dashboard();
    let mut agent = make_test_agent("run-g", AgentDisplayStatus::Active);
    agent.stages = Arc::new(vec![
        make_stage_record("plan", StageRunStatus::Complete),
        make_stage_record("implement", StageRunStatus::Active),
    ]);
    agent.num_stages = 2;
    agent.graph = Some(Arc::new(StageGraph { is_branching: true, nodes: vec![], edges: vec![] }));
    let area = Rect::new(0, 0, 120, 7);
    // The graph band could not be drawn: the tabs are.
    let strip = dash.render_stage_tabs(area, &agent, &times(&agent), 7, false).expect("a strip");
    assert!(tabs(&strip).contains("plan"), "{}", tabs(&strip));
    assert!(tabs(&strip).contains("implement"), "{}", tabs(&strip));
    // The band was drawn: the tabs are not.
    assert!(dash.render_stage_tabs(area, &agent, &times(&agent), 7, true).is_none());
}

#[test]
fn draw_linear_tabs_fallback_marks_stages_before_current_as_complete() {
    // No stage records at all: the strip is made up from the count, and the
    // stages before the current one are behind it.
    let mut dash = dashboard();
    let mut agent = make_test_agent("run-fallback-idx", AgentDisplayStatus::Active);
    agent.stages = Arc::new(vec![]);
    agent.num_stages = 3;
    agent.stage_index = 2;
    let strip = dash
        .render_stage_tabs(Rect::new(0, 0, 120, 3), &agent, &vec![], 7, false)
        .expect("a strip");
    assert!(text(&strip.tabs[0]).contains("✔"));
    assert!(text(&strip.tabs[1]).contains("✔"));
    assert!(!text(&strip.tabs[2]).contains("✔"));
    assert!(tabs(&strip).contains("main"), "{}", tabs(&strip));
}

#[test]
fn build_stage_tab_title_duration_over_a_minute_shows_minutes() {
    let dash = dashboard();
    let agent = make_test_agent("run-mins", AgentDisplayStatus::Active);
    let mut record = make_stage_record("plan", StageRunStatus::Complete);
    record.started_at = Some(0);
    record.ended_at = Some(125); // 2m5s
    let line = dash.build_stage_tab_title(0, &record, &agent, 10, &time_of(&record));
    assert!(text(&line).contains("2m5s"));
}

/// The live stage tab shows the stage's own working time, so a stage the run
/// is parked in stops counting rather than tracking the wall clock.
#[test]
fn build_stage_tab_title_active_current_tab_reads_the_stage_clock() {
    let dash = dashboard();
    let mut agent = make_test_agent("run-active-until", AgentDisplayStatus::Active);
    agent.stage_index = 0;
    agent.clock_now = 10_000;
    let mut record = make_stage_record("plan", StageRunStatus::Active);
    // Entered an hour ago on the wall clock; 40 seconds of that was work.
    record.started_at = Some(6_400);
    record.ended_at = None;
    record.clock = ActiveClock { banked_secs: 40, since: None };
    assert_eq!(record.clock.active_runtime_secs(agent.clock_now), 40);
    let line = dash.build_stage_tab_title(0, &record, &agent, 10, "40s");
    assert!(text(&line).contains("40s"), "{}", text(&line));
    // While it works, the clock runs on.
    record.clock.since = Some(9_990);
    assert_eq!(record.clock.active_runtime_secs(agent.clock_now), 50);
}

#[test]
fn build_stage_tab_title_complete() {
    let dash = dashboard();
    let agent = make_test_agent("run-t", AgentDisplayStatus::Active);
    let record = make_stage_record("plan", StageRunStatus::Complete);
    let line = dash.build_stage_tab_title(0, &record, &agent, 10, "30s");
    assert!(!line.spans.is_empty());
}

#[test]
fn build_stage_tab_title_active_running() {
    let dash = dashboard();
    let agent = make_test_agent("run-t2", AgentDisplayStatus::Active);
    let record = make_stage_record("implement", StageRunStatus::Active);
    let line = dash.build_stage_tab_title(0, &record, &agent, 10, "30s");
    assert!(!line.spans.is_empty());
}

#[test]
fn build_stage_tab_title_active_run_done() {
    let dash = dashboard();
    let agent = make_test_agent("run-t3", AgentDisplayStatus::Complete);
    let record = make_stage_record("implement", StageRunStatus::Active);
    let line = dash.build_stage_tab_title(0, &record, &agent, 10, "30s");
    assert!(!line.spans.is_empty());
}

/// Only the tab of the stage the run is in shows the spinner: a record left active
/// behind it reads as complete.
#[test]
fn build_stage_tab_title_stale_active_on_non_current_tab_shows_complete() {
    let dash = dashboard();
    let mut agent = make_test_agent("run-stale", AgentDisplayStatus::Active);
    agent.stage_index = 1; // run has moved on to stage 1 ("implement")
    let stale_plan = make_stage_record("plan", StageRunStatus::Active);
    let rendered = text(&dash.build_stage_tab_title(0, &stale_plan, &agent, 10, "30s"));
    assert!(rendered.contains(dash.screens.theme.complete.as_str()));
    for spin in &dash.screens.theme.spinner {
        assert!(!rendered.contains(spin.as_str()));
    }
    assert!(!rendered.contains('*'));

    // The actually-live tab (index == agent.stage_index) should still spin.
    let live_implement = make_stage_record("implement", StageRunStatus::Active);
    let live = text(&dash.build_stage_tab_title(1, &live_implement, &agent, 10, "30s"));
    assert!(dash.screens.theme.spinner.iter().any(|spin| live.contains(spin.as_str())));
}

#[test]
fn a_long_stage_name_is_whole_on_a_wide_strip_and_cut_on_a_narrow_one() {
    let mut dash = dashboard();
    let mut agent = make_test_agent("run-long", AgentDisplayStatus::Active);
    let long = "gather-the-evidence-carefully";
    agent.stages = Arc::new(vec![
        make_stage_record("plan", StageRunStatus::Complete),
        make_stage_record(long, StageRunStatus::Active),
    ]);
    agent.num_stages = 2;
    agent.stage_index = 1;
    agent.stage = long.to_string();

    let wide = drawn(&mut dash, Rect::new(0, 0, 120, 3), &agent);
    assert!(wide.contains(long), "the name fits at 120 columns: {wide}");
    let narrow = drawn(&mut dash, Rect::new(0, 0, 40, 3), &agent);
    assert!(!narrow.contains(long), "{narrow}");
    assert!(narrow.contains("gather-th"), "cut, not dropped: {narrow}");

    // The fallback strip, for a run with no stage records, takes the
    // same width for the live stage's name.
    agent.stages = Arc::new(vec![]);
    let fallback = drawn(&mut dash, Rect::new(0, 0, 120, 3), &agent);
    assert!(fallback.contains(long), "{fallback}");
}
