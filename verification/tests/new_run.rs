//! The new-run screen: its catalog, its keys, its completion, and starting runs.

use leviath_dashboard::file_ref::{EntryStep, WorkdirWalk, FILE_CANDIDATE_CAP};
use leviath_dashboard::new_run::{run_spawn, SpawnReply, OPEN_RUN_TICKS};
use leviath_dashboard::new_run_inputs::{RegionDecl, ResolvedInputs, SlotReading};
use leviath_dashboard::new_run_keys::NewRunAction;
use leviath_dashboard::state::Dashboard;
use leviath_dashboard::types::{
    AgentDisplayStatus, BundledEntry, ConfirmAction, DashboardAgent, InboundPart, InlineParts,
    KeyCode, KeyEvent, NewRunAgent, NewRunPane, SpawnOutcome, ToastLevel, YoloProfile,
};
use std::sync::Arc;

fn key(code: KeyCode) -> KeyEvent {
    KeyEvent { code, control: false }
}

fn ctrl(code: KeyCode) -> KeyEvent {
    KeyEvent { code, control: true }
}

fn agent(name: &str, description: &str) -> NewRunAgent {
    NewRunAgent {
        name: name.to_string(),
        source: "installed".to_string(),
        description: description.to_string(),
        path: format!("/agents/{name}"),
    }
}

fn bundled() -> Vec<BundledEntry> {
    vec![
        BundledEntry { name: "mender".to_string(), version: "1.2.0".to_string() },
        BundledEntry { name: "scribe".to_string(), version: "0.9.1".to_string() },
    ]
}

fn part(name: &str) -> InboundPart {
    InboundPart { name: name.to_string(), region: None, bytes: vec![1, 2, 3] }
}

fn nothing_read(task: &str) -> Result<InlineParts, String> {
    Ok(InlineParts { text: task.to_string(), parts: vec![], unresolved: vec![] })
}

fn no_inputs() -> Result<ResolvedInputs, String> {
    Ok(ResolvedInputs { regions: vec![], parts: vec![], unresolved: vec![] })
}

/// Open the screen on these agents, with agents that take only a task.
fn open(dash: &mut Dashboard, agents: Vec<NewRunAgent>) {
    dash.open_new_run_screen(agents, &bundled(), vec![], vec![]);
}

/// Hand a key to the screen and do what it leaves to do, with a task box that
/// types characters and breaks lines.
fn press(dash: &mut Dashboard, event: KeyEvent) {
    loop {
        match dash.handle_new_run_key(event) {
            NewRunAction::LoadInputs { path, .. } => {
                dash.fill_new_run_inputs(path, &Some(vec![]));
            }
            NewRunAction::TaskKey => {
                match event.code {
                    KeyCode::Char(c) => dash.new_run.task.insert_char(c),
                    KeyCode::Enter => dash.new_run.task.insert_char('\n'),
                    _ => {}
                }
                return;
            }
            NewRunAction::Submit => {
                submit(dash);
                return;
            }
            _ => return,
        }
    }
}

/// Start the run with what the task names read as nothing but text.
fn submit(dash: &mut Dashboard) {
    let task = dash.task_to_read().unwrap_or_default();
    let readings: Vec<SlotReading> =
        dash.inputs.slots.iter().map(|_| SlotReading { files: vec![], typed: None }).collect();
    let inputs = dash.new_run_input_values(&readings);
    dash.submit_new_run(nothing_read(&task), inputs);
}

fn messages(dash: &Dashboard) -> Vec<String> {
    dash.notes.toasts.iter().map(|t| t.message.clone()).collect()
}

fn chosen(dash: &Dashboard) -> Option<String> {
    dash.new_run_selected_agent().map(|a| a.name.clone())
}

fn run(id: &str) -> DashboardAgent {
    DashboardAgent {
        id: id.to_string(),
        blueprint_name: "test-agent".to_string(),
        stage: "main".to_string(),
        stage_index: 0,
        num_stages: 1,
        status: AgentDisplayStatus::Active,
        tokens_in: 0,
        tokens_out: 0,
        cached_tokens: 0,
        iteration: 0,
        broken_scripts: vec![],
        waiting_prompt: None,
        wait_reason: None,
        pending_request: None,
        last_answered_request_id: None,
        context_snapshot: None,
        stages: Arc::new(vec![]),
        workdir: "/tmp".to_string(),
        task: "task".to_string(),
        title: None,
        model: None,
        parent_id: None,
        started_at: 1000,
        last_progress_at: None,
        runtime_secs: 0,
        clock_now: 0,
        graph: None,
        accepts_messages: true,
    }
}

// ── The agent the screen opens on ────────────────────────────────────────────

#[test]
fn the_screen_opens_on_the_agent_last_launched() {
    let mut dash = Dashboard::new();
    let agents = || vec![agent("zulu", "last"), agent("alpha", "first")];
    open(&mut dash, agents());
    assert_eq!(chosen(&dash).as_deref(), Some("alpha"), "with no memory the list opens at the top");

    dash.new_run.last_launched_agent = Some("zulu".to_string());
    open(&mut dash, agents());
    assert_eq!(chosen(&dash).as_deref(), Some("zulu"));

    // An agent that has since been removed is simply not found, and the
    // list opens where it always did rather than on nothing.
    dash.new_run.last_launched_agent = Some("deleted-since".to_string());
    open(&mut dash, agents());
    assert_eq!(chosen(&dash).as_deref(), Some("alpha"));
}

#[test]
fn the_last_agent_is_recorded_when_a_run_actually_starts() {
    let mut dash = Dashboard::new();
    open(&mut dash, vec![agent("alpha", "first"), agent("zulu", "last")]);
    dash.new_run.selected = dash.new_run.agents.iter().position(|a| a.name == "zulu").unwrap();
    assert_eq!(dash.new_run.last_launched_agent, None, "browsing decides nothing");
    dash.new_run.task.insert_str("do the thing");
    submit(&mut dash);
    assert_eq!(dash.new_run.last_launched_agent.as_deref(), Some("zulu"));
    assert!(dash.new_run.ui_state_dirty);
}

// ── The catalog ──────────────────────────────────────────────────────────────

#[test]
fn opening_the_screen_loads_agents_and_files() {
    let mut dash = Dashboard::new();
    dash.open_new_run_screen(
        vec![agent("writer", "writes things")],
        &bundled(),
        vec![],
        vec!["notes.md".to_string()],
    );
    assert!(dash.new_run.open);
    assert_eq!(dash.new_run.focus, NewRunPane::Agents);
    let names: Vec<&str> = dash.new_run.agents.iter().map(|a| a.name.as_str()).collect();
    assert!(names.contains(&"writer"), "installed agent listed: {names:?}");
    assert_eq!(dash.file_ref.files, vec!["notes.md".to_string()]);
}

#[test]
fn the_catalog_includes_bundled_blueprints_once() {
    let mut dash = Dashboard::new();
    dash.refresh_new_run_agents(vec![], &bundled());
    let rows: Vec<&NewRunAgent> =
        dash.new_run.agents.iter().filter(|a| a.source == "bundled").collect();
    assert_eq!(rows.len(), 2);
    assert_eq!(rows[0].description, "v1.2.0 - install with `lev setup`");
    assert_eq!(rows[0].path, "mender");

    // Installing one of them under the same name replaces the bundled row
    // rather than adding a second one.
    dash.refresh_new_run_agents(vec![agent("mender", "installed")], &bundled());
    let same: Vec<&NewRunAgent> =
        dash.new_run.agents.iter().filter(|a| a.name == "mender").collect();
    assert_eq!(same.len(), 1, "one row per name: {same:?}");
    assert_eq!(same[0].source, "installed");
}

#[test]
fn the_catalog_is_sorted_by_name_and_keeps_equal_names_as_they_came() {
    let mut dash = Dashboard::new();
    let mut local = agent("beta", "local");
    local.source = "local".to_string();
    dash.refresh_new_run_agents(
        vec![agent("zulu", ""), agent("beta", "installed"), local, agent("Alpha", ""), agent("é", "")],
        &vec![],
    );
    let rows: Vec<(&str, &str)> =
        dash.new_run.agents.iter().map(|a| (a.name.as_str(), a.source.as_str())).collect();
    assert_eq!(
        rows,
        vec![
            ("Alpha", "installed"),
            ("beta", "installed"),
            ("beta", "local"),
            ("zulu", "installed"),
            ("é", "installed"),
        ]
    );
}

#[test]
fn filtering_narrows_the_list_and_clamps_the_selection() {
    let mut dash = Dashboard::new();
    dash.refresh_new_run_agents(vec![agent("alpha", "first"), agent("beta", "second")], &bundled());
    let all = dash.filtered_new_run_agents().len();
    dash.new_run.selected = all - 1;
    dash.new_run.filter = "alpha".to_string();
    dash.clamp_new_run_selection();
    assert_eq!(dash.filtered_new_run_agents().len(), 1);
    assert_eq!(dash.new_run.selected, 0);
    assert_eq!(chosen(&dash).as_deref(), Some("alpha"));

    // The description matches too, not just the name, and in either case.
    dash.new_run.filter = "SECOND".to_string();
    assert_eq!(chosen(&dash).as_deref(), Some("beta"));
}

#[test]
fn a_filter_matching_nothing_selects_nothing() {
    let mut dash = Dashboard::new();
    dash.refresh_new_run_agents(vec![], &bundled());
    dash.new_run.filter = "no-such-agent-anywhere".to_string();
    dash.clamp_new_run_selection();
    assert!(dash.filtered_new_run_agents().is_empty());
    assert!(dash.new_run_selected_agent().is_none());
}

// ── The walk over the working directory ──────────────────────────────────────

/// Walk a tree given as its files, a directory's entries in name order.
fn walk(files: &[&str], cap: usize) -> Vec<String> {
    let mut walk = WorkdirWalk::new(cap);
    while let Some(prefix) = walk.next_dir() {
        let mut entries: Vec<(String, bool)> = vec![];
        for file in files {
            let rest = if prefix.is_empty() {
                file.to_string()
            } else {
                match file.strip_prefix(&format!("{prefix}/")) {
                    Some(rest) => rest.to_string(),
                    None => continue,
                }
            };
            let entry = match rest.split_once('/') {
                Some((dir, _)) => (dir.to_string(), true),
                None => (rest, false),
            };
            if !entries.contains(&entry) {
                entries.push(entry);
            }
        }
        for (name, is_dir) in entries {
            if walk.offer(&prefix, &name, is_dir) == EntryStep::Full {
                return walk.finish();
            }
        }
    }
    walk.finish()
}

#[test]
fn the_walk_recurses_and_skips_dots_and_target() {
    let files = walk(
        &[
            "src/main.rs",
            "README.md",
            "src/deep/mod.rs",
            ".env",
            ".git/HEAD",
            "target/binary",
        ],
        100,
    );
    assert_eq!(
        files,
        vec!["README.md".to_string(), "src/deep/mod.rs".to_string(), "src/main.rs".to_string()]
    );
}

#[test]
fn the_walk_stops_at_the_cap() {
    let names: Vec<String> = (0..10).map(|i| format!("f{i}")).collect();
    let names: Vec<&str> = names.iter().map(String::as_str).collect();
    assert_eq!(walk(&names, 4).len(), 4);
}

#[test]
fn an_unreadable_root_yields_nothing() {
    assert!(walk(&[], 10).is_empty());
    assert_eq!(FILE_CANDIDATE_CAP, 2_000);
}

/// A walk with room finds every file that no passed over name leads to, once; one
/// without finds as many as it may.
#[test]
fn a_whole_walk_finds_every_file_once() {
    let tree = [
        "a/one", "a/b/two", "a/b/c/three", "d/one", "e/.hidden/x", "e/target/y", "targets", "f.target",
    ];
    let all = ["a/b/c/three", "a/b/two", "a/one", "d/one", "f.target", "targets"];
    assert_eq!(walk(&tree, 7), all);
    assert_eq!(walk(&tree, 6), all);
    for cap in 0..6 {
        let mut found = walk(&tree, cap);
        assert_eq!(found.len(), cap);
        assert!(found.iter().all(|file| all.contains(&file.as_str())), "{found:?}");
        found.dedup();
        assert_eq!(found.len(), cap, "in order, so no two are the same");
    }
}

/// The filter and what it is held against are lower case: the letters of ASCII one
/// by one, any other text as Unicode has it.
#[test]
fn a_filter_matches_in_either_case() {
    let mut dash = Dashboard::new();
    let found = vec![agent("AZ@[`az{", "first"), agent("École ΣΑΣ", "second")];
    dash.refresh_new_run_agents(found, &vec![]);
    for (typed, name) in [
        ("aZ@[`Az{", Some("AZ@[`az{")),
        ("éCOLE", Some("École ΣΑΣ")),
        ("σας", Some("École ΣΑΣ")),
        ("az`[", None),
    ] {
        dash.new_run.filter = typed.to_string();
        assert_eq!(chosen(&dash).as_deref(), name, "{typed}");
    }
}

#[test]
fn the_walk_reads_the_directory_it_met_last_first() {
    let mut walk = WorkdirWalk::new(10);
    assert_eq!(walk.next_dir().as_deref(), Some(""));
    assert_eq!(walk.offer("", "a", true), EntryStep::Descend);
    assert_eq!(walk.offer("", "b", true), EntryStep::Descend);
    assert_eq!(walk.offer("", "target", true), EntryStep::Skipped);
    assert_eq!(walk.next_dir().as_deref(), Some("b"));
    assert_eq!(walk.offer("b", "c", false), EntryStep::Taken);
    assert_eq!(walk.found, vec!["b/c".to_string()]);
    assert_eq!(walk.next_dir().as_deref(), Some("a"));
    assert_eq!(walk.next_dir(), None);
}

// ── Keys: the agent picker ───────────────────────────────────────────────────

#[test]
fn typing_filters_and_backspace_undoes_it() {
    let mut dash = Dashboard::new();
    open(&mut dash, vec![agent("alpha", "first")]);
    press(&mut dash, key(KeyCode::Char('a')));
    press(&mut dash, key(KeyCode::Char('l')));
    assert_eq!(dash.new_run.filter, "al");
    press(&mut dash, key(KeyCode::Backspace));
    assert_eq!(dash.new_run.filter, "a");
}

#[test]
fn escape_clears_the_filter_then_closes() {
    let mut dash = Dashboard::new();
    open(&mut dash, vec![]);
    dash.new_run.filter = "x".to_string();
    press(&mut dash, key(KeyCode::Esc));
    assert!(dash.new_run.filter.is_empty());
    assert!(dash.new_run.open, "the first Esc only clears the filter");
    press(&mut dash, key(KeyCode::Esc));
    assert!(!dash.new_run.open);
}

#[test]
fn arrows_move_within_the_filtered_list_only() {
    let mut dash = Dashboard::new();
    open(&mut dash, vec![agent("alpha", "first"), agent("beta", "second")]);
    let count = dash.filtered_new_run_agents().len();
    press(&mut dash, key(KeyCode::Down));
    assert_eq!(dash.new_run.selected, 1);
    press(&mut dash, key(KeyCode::Up));
    assert_eq!(dash.new_run.selected, 0);
    press(&mut dash, key(KeyCode::Up));
    assert_eq!(dash.new_run.selected, 0, "up at the top stays put");
    for _ in 0..count + 3 {
        press(&mut dash, key(KeyCode::Down));
    }
    assert_eq!(dash.new_run.selected, count - 1, "down stops at the end");
}

fn on_a_plain_agent() -> Dashboard {
    let mut dash = Dashboard::new();
    dash.new_run.last_launched_agent = Some("plain".to_string());
    open(&mut dash, vec![agent("plain", "takes only a task")]);
    dash
}

#[test]
fn tab_and_enter_reach_the_task_editor() {
    for code in [KeyCode::Tab, KeyCode::Enter] {
        let mut dash = on_a_plain_agent();
        press(&mut dash, key(code));
        assert_eq!(dash.new_run.focus, NewRunPane::Task, "{code:?}");
    }
}

/// Tab walks agents, task, Start and round again; Shift+Tab walks the
/// same ring the other way.
#[test]
fn tab_cycles_agents_task_start_and_backtab_reverses() {
    let mut dash = on_a_plain_agent();
    assert_eq!(dash.new_run.focus, NewRunPane::Agents);
    for expected in [NewRunPane::Task, NewRunPane::Start, NewRunPane::Agents, NewRunPane::Task] {
        press(&mut dash, key(KeyCode::Tab));
        assert_eq!(dash.new_run.focus, expected);
    }
    for expected in [NewRunPane::Agents, NewRunPane::Start, NewRunPane::Task, NewRunPane::Agents] {
        press(&mut dash, key(KeyCode::BackTab));
        assert_eq!(dash.new_run.focus, expected);
    }
}

#[test]
fn an_unbound_picker_key_does_nothing() {
    let mut dash = Dashboard::new();
    open(&mut dash, vec![]);
    press(&mut dash, key(KeyCode::F(5)));
    assert!(dash.new_run.open);
    assert!(dash.new_run.filter.is_empty());
}

/// F1 opens the help where `?` is text.
#[test]
fn f1_opens_help_and_a_question_mark_filters() {
    let mut dash = Dashboard::new();
    open(&mut dash, vec![]);
    press(&mut dash, key(KeyCode::F(1)));
    assert!(dash.screens.show_help);
    dash.screens.show_help = false;
    press(&mut dash, key(KeyCode::Char('?')));
    assert!(!dash.screens.show_help);
    assert_eq!(dash.new_run.filter, "?");
}

// ── Keys: the task ───────────────────────────────────────────────────────────

/// Enter breaks the line: with an agent picked and text in the box, it leaves
/// the screen open with nothing dispatched.
#[test]
fn the_task_editor_takes_text_and_enter_breaks_the_line() {
    let mut dash = Dashboard::new();
    open(&mut dash, vec![agent("alpha", "first")]);
    dash.new_run.filter = "alpha".to_string();
    dash.new_run.focus = NewRunPane::Task;
    press(&mut dash, key(KeyCode::Char('h')));
    press(&mut dash, key(KeyCode::Char('i')));
    press(&mut dash, key(KeyCode::Enter));
    press(&mut dash, key(KeyCode::Char('!')));
    press(&mut dash, key(KeyCode::Enter));
    press(&mut dash, key(KeyCode::Char('?')));
    assert_eq!(dash.new_run.task.text(), "hi\n!\n?");
    assert!(dash.new_run.open, "Enter did not start the run");
    assert!(dash.lanes.spawn_commands.is_empty());
}

#[test]
fn escape_and_backtab_hand_focus_back_to_the_picker_and_tab_reaches_start() {
    let mut dash = on_a_plain_agent();
    for code in [KeyCode::Esc, KeyCode::BackTab] {
        dash.new_run.focus = NewRunPane::Task;
        press(&mut dash, key(code));
        assert_eq!(dash.new_run.focus, NewRunPane::Agents, "{code:?}");
    }
    dash.new_run.focus = NewRunPane::Task;
    press(&mut dash, key(KeyCode::Tab));
    assert_eq!(dash.new_run.focus, NewRunPane::Start);
}

/// While the task box has a popup up, the screen's own keys are the popup's.
#[test]
fn the_task_boxs_popup_outranks_the_screens_keys() {
    let mut dash = Dashboard::new();
    open(&mut dash, vec![agent("alpha", "first")]);
    dash.new_run.filter = "alpha".to_string();
    dash.new_run.task_modal = true;
    assert_eq!(dash.handle_new_run_key(ctrl(KeyCode::Enter)), NewRunAction::TaskKey);
    assert_eq!(dash.new_run.focus, NewRunPane::Task);
    assert_eq!(dash.handle_new_run_key(key(KeyCode::F(1))), NewRunAction::TaskKey);
    assert!(!dash.screens.show_help);
    assert!(dash.new_run.open, "still on the screen");
}

// ── Keys: the Start button ───────────────────────────────────────────────────

fn on_the_start_button() -> Dashboard {
    let mut dash = Dashboard::new();
    open(&mut dash, vec![agent("alpha", "first")]);
    dash.new_run.filter = "alpha".to_string();
    dash.new_run.task.insert_str("ship it");
    dash.new_run.focus = NewRunPane::Start;
    dash
}

#[test]
fn enter_and_space_on_the_start_button_start_the_run() {
    for code in [KeyCode::Enter, KeyCode::Char(' ')] {
        let mut dash = on_the_start_button();
        press(&mut dash, key(code));
        assert!(!dash.new_run.open, "{code:?} pressed the button");
        assert_eq!(dash.lanes.spawn_commands[0].task, "ship it");
    }
}

#[test]
fn other_keys_on_the_start_button_move_focus_or_do_nothing() {
    let mut dash = on_the_start_button();
    for (code, expected) in [
        (KeyCode::Esc, NewRunPane::Agents),
        (KeyCode::Tab, NewRunPane::Agents),
        (KeyCode::BackTab, NewRunPane::Task),
    ] {
        dash.new_run.focus = NewRunPane::Start;
        press(&mut dash, key(code));
        assert_eq!(dash.new_run.focus, expected, "{code:?}");
    }
    dash.new_run.focus = NewRunPane::Start;
    press(&mut dash, key(KeyCode::Char('x')));
    assert_eq!(dash.new_run.focus, NewRunPane::Start, "a letter is ignored");
    assert_eq!(dash.new_run.task.text(), "ship it", "and not typed anywhere");
    assert!(dash.new_run.open);
    assert!(dash.lanes.spawn_commands.is_empty());
}

// ── Keys: the `@` completion ─────────────────────────────────────────────────

/// A dashboard sitting in the task editor with three files.
fn ready_to_type() -> Dashboard {
    let mut dash = Dashboard::new();
    dash.open_new_run_screen(
        vec![],
        &bundled(),
        vec![],
        vec!["README.md".to_string(), "src/lib.rs".to_string(), "src/main.rs".to_string()],
    );
    dash.new_run.focus = NewRunPane::Task;
    dash
}

fn type_all(dash: &mut Dashboard, text: &str) {
    for c in text.chars() {
        press(dash, key(KeyCode::Char(c)));
    }
}

#[test]
fn at_opens_the_popup_and_typing_filters_it() {
    let mut dash = ready_to_type();
    press(&mut dash, key(KeyCode::Char('@')));
    assert!(dash.file_ref.open);
    assert_eq!(dash.file_ref_matches().len(), 3, "everything, unfiltered");
    type_all(&mut dash, "li");
    assert_eq!(dash.file_ref.query, "li");
    assert_eq!(dash.file_ref_matches(), vec!["src/lib.rs"]);
    // The typed characters are in the task text too, so an unaccepted
    // reference still reads as what the user wrote.
    assert_eq!(dash.new_run.task.text(), "@li");
}

#[test]
fn accepting_a_completion_replaces_the_query_with_the_path() {
    let mut dash = ready_to_type();
    type_all(&mut dash, "read @ma");
    press(&mut dash, key(KeyCode::Enter));
    assert!(!dash.file_ref.open, "the popup closes");
    assert_eq!(dash.new_run.task.text(), "read @src/main.rs");
}

#[test]
fn tab_accepts_the_highlighted_completion() {
    let mut dash = ready_to_type();
    type_all(&mut dash, "@s");
    press(&mut dash, key(KeyCode::Down));
    assert_eq!(dash.file_ref.selected, 1);
    press(&mut dash, key(KeyCode::Tab));
    assert_eq!(dash.new_run.task.text(), "@src/main.rs");
}

#[test]
fn the_popup_selection_stops_at_both_ends() {
    let mut dash = ready_to_type();
    press(&mut dash, key(KeyCode::Char('@')));
    press(&mut dash, key(KeyCode::Up));
    assert_eq!(dash.file_ref.selected, 0);
    for _ in 0..10 {
        press(&mut dash, key(KeyCode::Down));
    }
    assert_eq!(dash.file_ref.selected, 2);
}

#[test]
fn accepting_with_nothing_matching_leaves_the_text_alone() {
    let mut dash = ready_to_type();
    type_all(&mut dash, "@z");
    assert!(dash.file_ref_matches().is_empty());
    press(&mut dash, key(KeyCode::Enter));
    assert!(!dash.file_ref.open);
    assert_eq!(dash.new_run.task.text(), "@z");
}

#[test]
fn escape_closes_the_popup_without_leaving_the_editor() {
    let mut dash = ready_to_type();
    press(&mut dash, key(KeyCode::Char('@')));
    press(&mut dash, key(KeyCode::Esc));
    assert!(!dash.file_ref.open);
    assert_eq!(dash.new_run.focus, NewRunPane::Task);
    assert!(dash.new_run.open);
}

#[test]
fn backspacing_over_the_at_ends_the_reference() {
    let mut dash = ready_to_type();
    type_all(&mut dash, "@s");
    press(&mut dash, key(KeyCode::Down));
    press(&mut dash, key(KeyCode::Backspace));
    assert_eq!(dash.file_ref.query, "");
    assert_eq!(dash.file_ref.selected, 0, "the match set changed, so the highlight resets");
    press(&mut dash, key(KeyCode::Backspace));
    assert!(!dash.file_ref.open);
    assert_eq!(dash.new_run.task.text(), "");
}

#[test]
fn an_unbound_popup_key_does_nothing() {
    let mut dash = ready_to_type();
    press(&mut dash, key(KeyCode::Char('@')));
    press(&mut dash, key(KeyCode::F(5)));
    assert!(dash.file_ref.open);
}

#[test]
fn the_popup_offers_no_more_than_it_shows_and_matches_in_either_case() {
    let mut dash = ready_to_type();
    dash.file_ref.files = (0..20).map(|i| format!("Dir/File{i}.RS")).collect();
    type_all(&mut dash, "@file1");
    assert_eq!(dash.file_ref_matches().len(), 8);
    type_all(&mut dash, "9");
    assert_eq!(dash.file_ref_matches(), vec!["Dir/File19.RS"]);
}

// ── Starting a run ───────────────────────────────────────────────────────────

#[test]
fn submitting_dispatches_the_run_and_closes_the_screen() {
    let mut dash = Dashboard::new();
    dash.new_run.workdir = "/home/u/work".to_string();
    open(&mut dash, vec![agent("alpha", "first")]);
    dash.new_run.filter = "alpha".to_string();
    dash.new_run.focus = NewRunPane::Task;
    dash.new_run.task.insert_str("  ship it  ");
    press(&mut dash, ctrl(KeyCode::Enter));
    assert!(!dash.new_run.open, "the screen closes on dispatch");
    let cmd = &dash.lanes.spawn_commands[0];
    assert_eq!(cmd.task, "ship it", "the task is trimmed");
    assert!(cmd.agent_path.ends_with("alpha"), "got: {}", cmd.agent_path);
    assert_eq!(cmd.workdir, "/home/u/work");
    assert!(cmd.parts.is_empty());
    assert_eq!(dash.notes.log[0].message, "run requested: alpha");
}

/// A `@path` in the task attaches that file; one that names nothing is a warning
/// and stays text; one that cannot be read stops the start.
#[test]
fn a_task_attaches_the_files_it_names() {
    let mut dash = Dashboard::new();
    let text = "edit @hero.png with @notes.md and @missing.png";
    open(&mut dash, vec![agent("alpha", "first")]);
    dash.new_run.filter = "alpha".to_string();
    dash.new_run.task.insert_str(text);
    assert_eq!(dash.task_to_read().as_deref(), Some(text));
    let read = Ok(InlineParts {
        text: text.to_string(),
        parts: vec![part("hero.png"), part("notes.md")],
        unresolved: vec!["missing.png".to_string()],
    });
    dash.submit_new_run(read, no_inputs());
    let cmd = &dash.lanes.spawn_commands[0];
    assert_eq!(cmd.task, text);
    assert_eq!(cmd.parts.len(), 2);
    assert_eq!(cmd.parts[0].name, "hero.png");
    assert_eq!(
        messages(&dash),
        vec![
            "'@missing.png' names no file in the working directory; sent as text".to_string(),
            "Starting 'alpha' with 2 files…".to_string(),
        ]
    );

    // One file is counted in the singular.
    open(&mut dash, vec![agent("alpha", "first")]);
    dash.new_run.filter = "alpha".to_string();
    dash.new_run.task.insert_str("read @notes.md");
    let read = Ok(InlineParts {
        text: "read @notes.md".to_string(),
        parts: vec![part("notes.md")],
        unresolved: vec![],
    });
    dash.submit_new_run(read, no_inputs());
    assert_eq!(dash.lanes.spawn_commands[1].parts.len(), 1);
    let toasts = messages(&dash);
    assert!(toasts.iter().any(|t| t.contains("with 1 file…")), "{toasts:?}");

    // An empty file is a file the run cannot take.
    open(&mut dash, vec![agent("alpha", "first")]);
    dash.new_run.filter = "alpha".to_string();
    dash.new_run.task.insert_str("see @empty.png");
    dash.submit_new_run(Err("empty.png is empty".to_string()), no_inputs());
    assert!(dash.new_run.open, "the screen stays open");
    assert_eq!(dash.lanes.spawn_commands.len(), 2);
    assert_eq!(
        messages(&dash).last().map(String::as_str),
        Some("Could not attach a file: empty.png is empty")
    );
}

#[test]
fn ctrl_s_submits_like_ctrl_enter() {
    let mut dash = Dashboard::new();
    open(&mut dash, vec![agent("alpha", "first")]);
    dash.new_run.filter = "alpha".to_string();
    dash.new_run.focus = NewRunPane::Task;
    dash.new_run.task.insert_str("ship it");
    press(&mut dash, ctrl(KeyCode::Char('s')));
    assert!(!dash.new_run.open, "the screen closes on dispatch");
    assert_eq!(dash.lanes.spawn_commands[0].task, "ship it");
}

/// A bare `s` is text, not a submit: only the chord dispatches.
#[test]
fn a_plain_s_is_typed_not_submitted() {
    let mut dash = Dashboard::new();
    open(&mut dash, vec![agent("alpha", "first")]);
    dash.new_run.filter = "alpha".to_string();
    dash.new_run.focus = NewRunPane::Task;
    press(&mut dash, key(KeyCode::Char('s')));
    assert!(dash.new_run.open, "still writing the task");
    assert_eq!(dash.new_run.task.text(), "s");
    assert!(dash.lanes.spawn_commands.is_empty());
}

#[test]
fn submitting_without_a_task_is_refused() {
    let mut dash = Dashboard::new();
    open(&mut dash, vec![agent("alpha", "first")]);
    dash.new_run.focus = NewRunPane::Task;
    dash.new_run.task.insert_str("   ");
    press(&mut dash, ctrl(KeyCode::Enter));
    assert!(dash.new_run.open, "the screen stays open to fix it");
    assert!(dash.lanes.spawn_commands.is_empty());
    assert_eq!(messages(&dash), vec!["Write a task first".to_string()]);
}

#[test]
fn submitting_without_an_agent_is_refused() {
    let mut dash = Dashboard::new();
    open(&mut dash, vec![]);
    dash.new_run.filter = "no-such-agent-anywhere".to_string();
    dash.new_run.task.insert_str("do a thing");
    dash.submit_new_run(nothing_read("do a thing"), no_inputs());
    assert!(dash.lanes.spawn_commands.is_empty());
    assert_eq!(messages(&dash), vec!["Pick an agent blueprint first".to_string()]);
}

#[test]
fn a_slot_that_cannot_be_read_stops_the_start() {
    let mut dash = on_the_start_button();
    dash.submit_new_run(nothing_read("ship it"), Err("pictures: no such file".to_string()));
    assert!(dash.new_run.open);
    assert!(dash.lanes.spawn_commands.is_empty());
    assert_eq!(
        messages(&dash),
        vec!["Could not read an input: pictures: no such file".to_string()]
    );
}

// ── What came back ───────────────────────────────────────────────────────────

#[test]
fn every_daemon_answer_is_reported() {
    let started = run_spawn("p", SpawnReply::Spawned("alpha-1".to_string()));
    assert!(started.ok);
    assert_eq!(started.message, "Started alpha-1");
    assert_eq!(started.run_id.as_deref(), Some("alpha-1"));

    let refused = run_spawn("p", SpawnReply::Refused("no such blueprint".to_string()));
    assert!(!refused.ok);
    assert_eq!(refused.message, "The daemon refused the run: no such blueprint");

    let odd = run_spawn("p", SpawnReply::Unexpected("Ok { ok: true }".to_string()));
    assert!(!odd.ok);
    assert!(odd.message.contains("Unexpected"), "{}", odd.message);

    let broken = run_spawn("p", SpawnReply::Unreachable("closed".to_string()));
    assert!(!broken.ok);
    assert_eq!(broken.message, "Could not reach the daemon: closed");
    assert_eq!(broken.run_id, None);
}

#[test]
fn an_unresolvable_agent_never_reaches_the_daemon() {
    let outcome = run_spawn("/nope", SpawnReply::Unresolved("no blueprint".to_string()));
    assert!(!outcome.ok);
    assert_eq!(outcome.message, "Could not start '/nope': no blueprint");
}

#[test]
fn a_started_run_opens_once_it_is_listed() {
    let mut dash = Dashboard::new();
    dash.inject_spawn_outcome_for_test(SpawnOutcome {
        message: "Started run-2".to_string(),
        ok: true,
        run_id: Some("run-2".to_string()),
    });
    dash.drain_spawn_outcomes();
    assert_eq!(dash.lanes.pending_open_run, Some(("run-2".to_string(), OPEN_RUN_TICKS)));
    assert_eq!(dash.notes.log[0].message, "Started run-2");
    // Not listed yet: it waits, a tick at a time.
    dash.open_pending_run();
    assert_eq!(dash.lanes.pending_open_run, Some(("run-2".to_string(), OPEN_RUN_TICKS - 1)));
    dash.runs.agents = vec![run("run-1"), run("run-2")];
    dash.runs.display_indices = vec![0, 1];
    dash.open_pending_run();
    assert_eq!(dash.lanes.pending_open_run, None);
    assert_eq!(dash.runs.selected, 1);
    assert_eq!(dash.runs.table_selected, Some(1));
    assert!(dash.screens.detail_view);
}

#[test]
fn a_run_that_never_appears_is_given_up_on() {
    let mut dash = Dashboard::new();
    dash.lanes.pending_open_run = Some(("gone".to_string(), 0));
    dash.open_pending_run();
    assert_eq!(dash.lanes.pending_open_run, None);
    // Somewhere else means the user went there themselves.
    dash.lanes.pending_open_run = Some(("run-1".to_string(), 9));
    dash.runs.agents = vec![run("run-1")];
    dash.runs.display_indices = vec![0];
    dash.screens.mcp_screen = true;
    dash.open_pending_run();
    assert_eq!(dash.lanes.pending_open_run, None);
    assert!(!dash.screens.detail_view);
}

// ── Unattended runs ──────────────────────────────────────────────────────────

/// Answer the open question, as the dialog's yes or no does.
fn answer(dash: &mut Dashboard, yes: bool) {
    let asked = dash.notes.pending_confirm.take();
    if let (Some((ConfirmAction::EnableYolo, _)), true) = (asked, yes) {
        dash.accept_yolo_warning();
    }
}

/// Ctrl-Y warns rather than arming anything, and the warning has to be
/// accepted before the setting changes.
#[test]
fn the_unattended_toggle_asks_before_it_arms() {
    let mut dash = Dashboard::new();
    dash.new_run.open = true;
    assert!(!dash.unattended.on, "off until somebody says otherwise");
    press(&mut dash, ctrl(KeyCode::Char('y')));
    let (_, dialog) = dash.notes.pending_confirm.as_ref().expect("it asks first");
    assert_eq!(dialog.title, "Run unattended?");
    assert_eq!(dialog.accept, "Run unattended");
    assert_eq!(dialog.decline, "Keep asking me");
    assert!(dialog.danger);
    assert_eq!(dialog.body.len(), 5);
    assert!(!dash.unattended.on, "and arms nothing until answered");

    // Declining leaves it off.
    answer(&mut dash, false);
    assert!(!dash.unattended.on);

    // Accepting turns it on.
    press(&mut dash, ctrl(KeyCode::Char('y')));
    answer(&mut dash, true);
    assert!(dash.unattended.on);

    // Turning it back off never asks.
    press(&mut dash, ctrl(KeyCode::Char('y')));
    assert!(dash.notes.pending_confirm.is_none());
    assert!(!dash.unattended.on);
    assert_eq!(
        messages(&dash),
        vec![
            "Unattended ON: runs approve their own tool calls".to_string(),
            "Unattended OFF: runs will ask you before each tool call".to_string(),
        ]
    );
}

#[test]
fn reopening_the_screen_turns_unattended_off() {
    let mut dash = Dashboard::new();
    dash.new_run.open = true;
    press(&mut dash, ctrl(KeyCode::Char('y')));
    answer(&mut dash, true);
    assert!(dash.unattended.on);
    open(&mut dash, vec![]);
    assert!(!dash.unattended.on);
}

/// Every switch to ON asks. Turning unattended off and on again is the same
/// decision as the first time.
#[test]
fn every_switch_to_on_asks_even_after_the_box_was_ticked() {
    let mut dash = Dashboard::new();
    dash.new_run.open = true;
    press(&mut dash, ctrl(KeyCode::Char('y')));
    assert!(dash.notes.pending_confirm.is_some(), "first on: asks");
    answer(&mut dash, true);
    assert!(dash.unattended.on, "on");
    press(&mut dash, ctrl(KeyCode::Char('y')));
    assert!(dash.notes.pending_confirm.is_none(), "off never asks");
    assert!(!dash.unattended.on, "off");
    press(&mut dash, ctrl(KeyCode::Char('y')));
    assert!(dash.notes.pending_confirm.is_some(), "second on: asks again");
    assert!(!dash.unattended.on, "and arms nothing until answered");
    answer(&mut dash, true);
    assert!(dash.unattended.on);
}

/// The setting reaches the spawn rather than only the screen.
#[test]
fn the_setting_travels_with_the_run() {
    let mut dash = Dashboard::new();
    open(&mut dash, vec![agent("alpha", "first")]);
    dash.new_run.task.insert_str("do the thing");
    dash.unattended.on = true;
    submit(&mut dash);
    let cmd = &dash.lanes.spawn_commands[0];
    assert!(cmd.yolo, "the run carries what the screen was set to");
    assert_eq!(cmd.task, "do the thing");
    let start = dash.notes.toasts.iter().find(|t| t.message.starts_with("Starting")).unwrap();
    assert_eq!(start.message, "Starting 'alpha' unattended…");
    assert_eq!(start.level, ToastLevel::Warning);
}

#[test]
fn an_attended_start_toasts_progress() {
    let mut dash = Dashboard::new();
    open(&mut dash, vec![agent("alpha", "first")]);
    dash.new_run.task.insert_str("do the thing");
    submit(&mut dash);
    let start = dash.notes.toasts.iter().find(|t| t.message.starts_with("Starting")).unwrap();
    assert_eq!(start.message, "Starting 'alpha'…");
    assert_eq!(start.level, ToastLevel::Progress);
}

/// Ctrl-Y steps through the profiles after plain unattended and then off, the
/// help bar names the one showing, and the run carries it.
#[test]
fn the_unattended_toggle_steps_through_the_profiles() {
    let profiles = || {
        vec![
            YoloProfile { name: "careful".to_string(), holds: vec!["everything".to_string()] },
            YoloProfile { name: "loose".to_string(), holds: vec![] },
        ]
    };
    let mut dash = Dashboard::new();
    dash.open_new_run_screen(vec![agent("alpha", "first")], &vec![], profiles(), vec![]);
    assert_eq!(dash.unattended.profiles.len(), 2);
    press(&mut dash, ctrl(KeyCode::Char('y')));
    answer(&mut dash, true);
    assert!(dash.unattended.on);
    assert!(dash.unattended.profile.is_none(), "plain unattended first");

    press(&mut dash, ctrl(KeyCode::Char('y')));
    assert!(dash.notes.pending_confirm.is_none(), "a narrower step never asks");
    assert_eq!(dash.unattended.profile.as_deref(), Some("careful"));
    let help = dash.new_run_help_bar_text("^B", "^R");
    assert!(help.contains("unattended: on (careful)"), "{help}");
    assert_eq!(
        messages(&dash).last().map(String::as_str),
        Some("Unattended under 'careful': keeps for you: everything")
    );

    press(&mut dash, ctrl(KeyCode::Char('y')));
    assert_eq!(dash.unattended.profile.as_deref(), Some("loose"));
    assert_eq!(
        messages(&dash).last().map(String::as_str),
        Some("Unattended under 'loose': keeps nothing for you")
    );

    // The run carries the profile that was showing.
    dash.new_run.task.insert_str("do the thing");
    submit(&mut dash);
    assert!(dash.lanes.spawn_commands[0].yolo);
    assert_eq!(dash.lanes.spawn_commands[0].yolo_profile.as_deref(), Some("loose"));
    let start = dash.notes.toasts.iter().find(|t| t.message.starts_with("Starting")).unwrap();
    assert_eq!(start.message, "Starting 'alpha' unattended under 'loose'…");

    // Past the last profile is off, with nothing remembered.
    press(&mut dash, ctrl(KeyCode::Char('y')));
    assert!(!dash.unattended.on);
    assert!(dash.unattended.profile.is_none());

    // Re-opening forgets the profile with the switch.
    dash.unattended.on = true;
    dash.unattended.profile = Some("careful".to_string());
    dash.open_new_run_screen(vec![], &vec![], profiles(), vec![]);
    assert!(!dash.unattended.on);
    assert!(dash.unattended.profile.is_none());
}

#[test]
fn moving_to_another_agent_asks_for_its_regions_once() {
    let mut dash = Dashboard::new();
    open(&mut dash, vec![agent("alpha", "first")]);
    dash.new_run.filter = "alpha".to_string();
    let asked = dash.handle_new_run_key(key(KeyCode::Tab));
    assert_eq!(
        asked,
        NewRunAction::LoadInputs {
            path: "/agents/alpha".to_string(),
            bundled: false,
            name: "alpha".to_string(),
        }
    );
    assert_eq!(dash.new_run.focus, NewRunPane::Agents, "the key waits for the slots");
    dash.fill_new_run_inputs(
        "/agents/alpha".to_string(),
        &Some(vec![RegionDecl {
            name: "notes".to_string(),
            caller_key: Some("notes".to_string()),
            accepts: vec![],
            required: false,
            max_tokens: 0,
        }]),
    );
    assert_eq!(dash.handle_new_run_key(key(KeyCode::Tab)), NewRunAction::Done);
    assert_eq!(dash.new_run.focus, NewRunPane::Inputs);
}

/// A walk never takes more than it may, nor anything below a name it passes over.
#[test]
fn a_walk_keeps_to_its_cap_and_passes_over_what_it_passes_over() {
    let files = ["a.txt", ".git/config", "src/lib.rs", "target/out", "src/.cache/x", "src/z.rs"];
    assert_eq!(walk(&files, 10), vec!["a.txt", "src/lib.rs", "src/z.rs"]);
    for cap in 0..4 {
        assert!(walk(&files, cap).len() <= cap);
    }
}

/// With nothing typed every agent is listed, and the completion offers the first files.
#[test]
fn nothing_typed_narrows_nothing() {
    let mut dash = Dashboard::new();
    open(&mut dash, vec![agent("a", "one"), agent("b", "two"), agent("c", "three")]);
    assert_eq!(dash.filtered_new_run_agents(), (0..dash.new_run.agents.len()).collect::<Vec<_>>());
    dash.file_ref.files = (0..20).map(|i| format!("f{i:02}")).collect();
    dash.file_ref.open = true;
    let offered: Vec<String> = dash.file_ref_matches().iter().map(|f| f.to_string()).collect();
    assert_eq!(offered, dash.file_ref.files[..8].to_vec());
}
