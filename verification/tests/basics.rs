//! Small pieces: paths, figures, labels and clocks.

use leviath_dashboard::new_run_inputs::NewRunInput;
use leviath_dashboard::numbers::compact_count;
use leviath_dashboard::render::content::shorten_home_path;
use leviath_dashboard::render::context::clock;
use leviath_dashboard::render::graph_view::duration_label;
use leviath_dashboard::render::stages::{stage_label_width, STAGE_LABEL_MAX_W, STAGE_LABEL_MIN_W};
use leviath_dashboard::state::Dashboard;
use leviath_dashboard::text::trim;
use leviath_dashboard::types::{LineEdit, SpawnOutcome, StageVisit};

fn messages(dash: &Dashboard) -> Vec<String> {
    dash.notes.toasts.iter().map(|t| t.message.clone()).collect()
}

#[test]
fn shorten_home_path_replaces_home_prefix_with_tilde() {
    assert_eq!(
        shorten_home_path("/home/u/.leviath/runs/x".to_string(), "/home/u"),
        "~/.leviath/runs/x"
    );
}

#[test]
fn shorten_home_path_keeps_raw_path_when_outside_home() {
    // Path does not start with home -> raw branch.
    assert_eq!(shorten_home_path("/var/other/x".to_string(), "/home/u"), "/var/other/x");
}

#[test]
fn shorten_home_path_keeps_raw_path_when_home_empty() {
    assert_eq!(shorten_home_path("/anything/x".to_string(), ""), "/anything/x");
}

#[test]
fn a_stage_name_gets_the_room_the_strip_has() {
    // 118 inside columns across three tabs: 39 each, 23 for the name.
    assert_eq!(stage_label_width(118, 3), 23);
    // Never below the minimum, never above the cap.
    assert_eq!(stage_label_width(30, 6), STAGE_LABEL_MIN_W);
    assert_eq!(stage_label_width(0, 0), STAGE_LABEL_MIN_W);
    assert_eq!(stage_label_width(400, 1), STAGE_LABEL_MAX_W);
}

#[test]
fn duration_and_clock_formatting() {
    let closed = StageVisit {
        stage: "s".to_string(),
        entered_at: 10,
        left_at: Some(95),
        iterations: 1,
        first_point: 0,
    };
    assert_eq!(duration_label(&closed), "1m25s");
    let quick = StageVisit { left_at: Some(20), ..closed.clone() };
    assert_eq!(duration_label(&quick), "10s");
    let open = StageVisit { left_at: None, ..closed };
    assert_eq!(duration_label(&open), "…");
    assert_eq!(clock(i64::MIN, 0), "", "unrepresentable time is blank");
}

#[test]
fn a_visit_that_ended_before_it_began_took_no_time() {
    let odd = StageVisit {
        stage: "s".to_string(),
        entered_at: i64::MAX,
        left_at: Some(i64::MIN),
        iterations: 1,
        first_point: 0,
    };
    assert_eq!(duration_label(&odd), "0s");
}

#[test]
fn the_clock_reads_the_time_of_day_in_its_zone() {
    assert_eq!(clock(0, 0), "00:00:00");
    assert_eq!(clock(3_600 * 13 + 62, 0), "13:01:02");
    assert_eq!(clock(0, 3_600), "01:00:00");
    assert_eq!(clock(0, -60), "23:59:00");
    // The calendar's first and last seconds, and the ones beyond.
    assert_eq!(clock(-8_334_601_228_800, 0), "00:00:00");
    assert_eq!(clock(-8_334_601_228_800, -1), "23:59:59");
    assert_eq!(clock(-8_334_601_228_801, 0), "");
    assert_eq!(clock(8_210_266_876_799, 0), "23:59:59");
    assert_eq!(clock(8_210_266_876_799, 1), "00:00:00");
    assert_eq!(clock(8_210_266_876_800, 0), "");
    assert_eq!(clock(i64::MAX, 0), "");
}

/// A slot with nothing worth noting (no type, one file, no budget, not
/// required) shows no note at all.
#[test]
fn a_plain_slot_has_no_note() {
    let slot = NewRunInput {
        key: "x".to_string(),
        region: "x".to_string(),
        accepts: Vec::new(),
        required: false,
        max_tokens: 0,
        edit: LineEdit::new(String::new(), false),
        files: Vec::new(),
    };
    assert_eq!(slot.note(), "");
}

/// The token count in a note is shortened: exact under a thousand, one
/// decimal into the thousands, and whole thousands past ten.
#[test]
fn compact_count_shortens_a_token_figure() {
    assert_eq!(compact_count(500), "500");
    assert_eq!(compact_count(1500), "1.5k");
    assert_eq!(compact_count(1000), "1.0k");
    assert_eq!(compact_count(100000), "100k");
    assert_eq!(compact_count(15500), "16k");
}

#[test]
fn matches_are_empty_with_no_popup_open() {
    let dash = Dashboard::new();
    assert!(dash.file_ref_matches().is_empty());
}

#[test]
fn spawn_outcomes_drain_into_toasts() {
    let mut dash = Dashboard::new();
    dash.inject_spawn_outcome_for_test(SpawnOutcome {
        message: "Started run-1".to_string(),
        ok: true,
        run_id: Some("run-1".to_string()),
    });
    dash.inject_spawn_outcome_for_test(SpawnOutcome {
        message: "boom".to_string(),
        ok: false,
        run_id: None,
    });
    dash.drain_spawn_outcomes();
    assert_eq!(messages(&dash), vec!["Started run-1".to_string(), "boom".to_string()]);
}

#[test]
fn draining_with_nothing_pending_is_a_noop() {
    let mut dash = Dashboard::new();
    dash.drain_spawn_outcomes();
    assert!(messages(&dash).is_empty());
}

#[test]
fn the_timeline_says_so_when_there_are_no_visits_yet() {
    let dash = Dashboard::new();
    let timeline = dash.draw_explorer_timeline(
        leviath_dashboard::style::Rect::new(0, 0, 200, 48),
        &vec![],
        &vec![],
        0,
    );
    let text = timeline.lines[0].text();
    assert!(text.contains("No archived visits yet"), "{text}");
}

/// The blanks that are trimmed are those of Unicode, and no others.
#[test]
fn every_blank_is_trimmed() {
    let blanks: Vec<u32> = (0x09..=0x0d)
        .chain([0x20, 0x85, 0xa0, 0x1680])
        .chain(0x2000..=0x200a)
        .chain([0x2028, 0x2029, 0x202f, 0x205f, 0x3000])
        .collect();
    for c in (0..=0x10ffff).filter_map(char::from_u32) {
        let text = c.to_string();
        assert_eq!(trim(&text).is_empty(), blanks.contains(&(c as u32)), "{c:?}");
    }
}
