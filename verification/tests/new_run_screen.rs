//! Drawing the new-run screen.

use leviath_dashboard::render::button::button_style;
use leviath_dashboard::render::new_run::{
    draw_new_run_screen, focus_colour, source_colour, AgentPicker, START_BUTTON,
};
use leviath_dashboard::state::Dashboard;
use leviath_dashboard::style::{Color, Rect, Span};
use leviath_dashboard::types::{ClickTarget, NewRunAgent, NewRunPane};

fn agent(name: &str, source: &str) -> NewRunAgent {
    NewRunAgent {
        name: name.to_string(),
        source: source.to_string(),
        description: format!("does {name} things"),
        path: format!("/agents/{name}"),
    }
}

/// A dashboard on the new-run screen with two agents and three files.
fn screen() -> Dashboard {
    let mut dash = Dashboard::new();
    dash.new_run.open = true;
    dash.new_run.agents = vec![agent("alpha", "installed"), agent("beta", "bundled")];
    dash.file_ref.files =
        vec!["README.md".to_string(), "src/lib.rs".to_string(), "src/main.rs".to_string()];
    dash
}

fn picker(dash: &Dashboard) -> AgentPicker {
    dash.draw_new_run_agents(Rect::new(0, 0, 48, 22))
}

fn cells(row: &[Span]) -> Vec<&str> {
    row.iter().map(|s| s.content.as_str()).collect()
}

/// The task pane on a frame 120 columns by 24 rows.
const TASK: Rect = Rect { x: 54, y: 0, width: 66, height: 23 };

fn task_title(dash: &mut Dashboard) -> String {
    dash.draw_new_run_task(TASK, &vec![]).title.text()
}

fn help(dash: &Dashboard) -> String {
    dash.draw_new_run_help_bar("^B", "^R").text()
}

/// A `@path` the workdir holds shows on the task box's title as you type.
#[test]
fn the_title_names_the_files_the_task_attaches() {
    let mut dash = screen();
    dash.new_run.task.insert_str("edit @hero.png and @nothing.png");
    let out = dash.draw_new_run_task(TASK, &vec!["hero.png".to_string()]).title.text();
    assert!(out.contains("[1 attached: hero.png]"), "{out}");
}

#[test]
fn the_screen_lists_agents_with_their_source() {
    let mut dash = screen();
    let shown = picker(&dash);
    assert!(shown.title.contains("Agent Blueprints (2)"), "{}", shown.title);
    let first = cells(&shown.rows[0]);
    let second = cells(&shown.rows[1]);
    assert!(first.contains(&"alpha"), "{first:?}");
    assert!(first.contains(&"installed"), "{first:?}");
    assert!(second.contains(&"bundled"), "{second:?}");
    let title = task_title(&mut dash);
    assert!(title.contains("Task for alpha"), "{title}");
    let bar = help(&dash);
    assert!(bar.contains("type to filter"), "help bar: {bar}");
}

#[test]
fn the_filter_shows_in_the_title_with_its_counts() {
    let mut dash = screen();
    dash.new_run.filter = "alph".to_string();
    let out = picker(&dash).title;
    assert!(out.contains("/alph"), "{out}");
    assert!(out.contains("1/2"), "{out}");
}

#[test]
fn an_empty_catalog_says_how_to_get_agents() {
    let mut dash = Dashboard::new();
    dash.new_run.open = true;
    let (_, hint) = picker(&dash).hint.expect("a hint");
    let out = hint.text();
    assert!(out.contains("No agent blueprints found"), "{out}");
    assert!(out.contains("lev setup"), "{out}");
    let title = task_title(&mut dash);
    assert!(title.contains("no agent blueprint selected"), "task title: {title}");
}

#[test]
fn a_filter_matching_nothing_says_so() {
    let mut dash = screen();
    dash.new_run.filter = "zzz".to_string();
    let (_, hint) = picker(&dash).hint.expect("a hint");
    let out = hint.text();
    assert!(out.contains("No agent blueprints match"), "{out}");
}

#[test]
fn the_focused_pane_is_the_one_with_the_lit_border() {
    assert_eq!(focus_colour(true), Color::BorderFocus);
    assert_eq!(focus_colour(false), Color::Border);
    assert_eq!(source_colour("bundled"), Color::Warn);
    assert_eq!(source_colour("installed"), Color::Accent);
}

#[test]
fn focusing_the_task_pane_changes_the_help_bar() {
    let mut dash = screen();
    dash.new_run.focus = NewRunPane::Task;
    let out = help(&dash);
    assert!(out.contains("^S start"), "{out}");
    assert!(out.contains("Enter newline"), "{out}");
    assert!(out.contains("@ file"), "{out}");
}

/// The button is on screen whichever part of the form has the keys, and
/// lights up only when Tab has reached it; the help bar then names the
/// two keys that press it.
#[test]
fn the_start_button_sits_under_the_task_and_lights_when_focused() {
    let mut dash = screen();
    assert_eq!(START_BUTTON, "[ Start run ]");
    let column = draw_new_run_screen(Rect::new(0, 0, 120, 24)).column;
    let task = dash.new_run_column(column, 0).task;
    let frame = dash.draw_new_run_task(task, &vec![]);
    let quiet = button_style(frame.start_focused);
    assert_eq!(quiet.fg, Some(Color::Border), "unfocused: {quiet:?}");
    let out = help(&dash);
    assert!(!out.contains("Enter/Space start"), "{out}");

    dash.new_run.focus = NewRunPane::Start;
    dash.mouse.click_targets.clear();
    let frame = dash.draw_new_run_task(task, &vec![]);
    let lit = button_style(frame.start_focused);
    assert_eq!(lit.bg, Some(Color::BorderFocus), "focused: {lit:?}");
    let out = help(&dash);
    assert!(out.contains("Enter/Space start"), "help bar: {out}");
    let button = dash
        .mouse
        .click_targets
        .iter()
        .find(|(_, t)| *t == ClickTarget::NewRunStart)
        .map(|(r, _)| *r)
        .expect("the button registered its rect");
    assert_eq!(button.width as usize, START_BUTTON.chars().count());
    assert_eq!(button.x + button.width, 120, "right-aligned to the pane");
    // Under the task: the pane's last row, over the help bar.
    assert_eq!((button.y, button.height), (22, 1));
    assert_eq!(frame.rows.editor.y + frame.rows.editor.height, button.y);
}

#[test]
fn the_completion_popup_lists_matching_files() {
    let mut dash = screen();
    dash.new_run.focus = NewRunPane::Task;
    dash.file_ref.open = true;
    dash.file_ref.query = "src".to_string();
    dash.file_ref.selected = 1;
    let popup = dash.draw_file_ref_popup(Rect::new(48, 0, 72, 23)).expect("a popup");
    let out: Vec<String> = popup.lines.iter().map(|l| l.text()).collect();
    let out = out.join("\n");
    assert!(out.contains("src/lib.rs"), "{out}");
    assert!(out.contains("src/main.rs"), "{out}");
    assert!(!out.contains("README.md"), "filtered out: {out}");
    let bar = help(&dash);
    assert!(bar.contains("Enter/Tab insert"), "help bar: {bar}");
}

#[test]
fn the_completion_popup_says_when_nothing_matches() {
    let mut dash = screen();
    dash.new_run.focus = NewRunPane::Task;
    dash.file_ref.open = true;
    dash.file_ref.query = "nothing-like-this".to_string();
    let popup = dash.draw_file_ref_popup(Rect::new(48, 0, 72, 23)).expect("a popup");
    assert!(popup.lines[0].text().contains("no matching file"), "{:?}", popup.lines[0].text());
}

/// The popup stays inside its pane, however short that is.
#[test]
fn the_popup_is_clamped_to_a_short_pane() {
    let mut dash = screen();
    dash.new_run.focus = NewRunPane::Task;
    dash.file_ref.open = true;
    for height in [5, 6, 23] {
        let pane = Rect::new(32, 0, 48, height);
        let popup = dash.draw_file_ref_popup(pane).expect("a popup");
        let area = popup.area;
        assert!(area.x >= pane.x && area.x + area.width <= pane.x + pane.width, "{area:?}");
        assert!(area.y >= pane.y && area.y + area.height <= pane.y + pane.height, "{area:?}");
    }
    dash.file_ref.open = false;
    assert!(dash.draw_file_ref_popup(Rect::new(32, 0, 48, 5)).is_none());
}

/// The setting is on the pane you are looking at when you press Enter,
/// and only when it is on.
#[test]
fn the_task_pane_says_when_a_run_will_be_unattended() {
    let mut dash = screen();
    // The help bar names the chord either way, so the assertion is on the
    // marker the title carries only while it is armed.
    let quiet = task_title(&mut dash);
    assert!(!quiet.contains("[ unattended ]"), "{quiet}");
    dash.unattended.on = true;
    let loud = task_title(&mut dash);
    assert!(loud.contains("[ unattended ]"), "{loud}");
}

#[test]
fn the_screen_splits_into_agents_a_column_and_the_help_row() {
    let frame = draw_new_run_screen(Rect::new(0, 0, 120, 24));
    assert_eq!(frame.agents.height, 23);
    assert_eq!(frame.column.height, 23);
    assert_eq!(frame.agents.width + frame.column.width, 120);
    assert_eq!((frame.help.y, frame.help.height, frame.help.width), (23, 1, 120));
}

/// On a screen with a single row the columns have it, and the help bar none.
#[test]
fn a_short_screen_keeps_its_columns() {
    let frame = draw_new_run_screen(Rect::new(3, 5, 100, 1));
    assert_eq!(frame.agents, Rect::new(3, 5, 45, 1));
    assert_eq!(frame.column, Rect::new(48, 5, 55, 1));
    assert_eq!(frame.help, Rect::new(3, 6, 100, 0));
}

/// In a column too short for the preview the task keeps one row, the preview has
/// the rest, and no Inputs pane is drawn.
#[test]
fn a_short_column_keeps_a_row_for_the_task() {
    let dash = screen();
    let parts = dash.new_run_column(Rect::new(48, 2, 72, 6), 9);
    assert_eq!(parts.preview, Some(Rect::new(48, 2, 72, 5)));
    assert_eq!(parts.inputs, None);
    assert_eq!(parts.task, Rect::new(48, 7, 72, 1));
    let parts = dash.new_run_column(Rect::new(48, 2, 72, 6), 6);
    assert_eq!(parts.task, Rect::new(48, 7, 72, 1));
    let parts = dash.new_run_column(Rect::new(48, 2, 72, 6), 4);
    assert_eq!(parts.preview, Some(Rect::new(48, 2, 72, 4)));
    assert_eq!(parts.task, Rect::new(48, 6, 72, 2));
}
