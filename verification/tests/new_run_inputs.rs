//! The new-run screen's Inputs pane.

use leviath_dashboard::new_run_inputs::{
    entry_stage_window, FileReading, InputsStep, NewRunInput, RegionDecl, RegionReading,
    SlotReading, StageModel,
};
use leviath_dashboard::new_run_keys::NewRunAction;
use leviath_dashboard::state::Dashboard;
use leviath_dashboard::style::{Color, Line, Rect, Span, Style};
use leviath_dashboard::text::fit;
use leviath_dashboard::types::{
    ClickTarget, EditOutcome, InboundPart, InlineParts, KeyCode, KeyEvent, LineEdit, NewRunAgent,
    NewRunPane,
};

fn key(code: KeyCode) -> KeyEvent {
    KeyEvent { code, control: false }
}

fn ctrl(code: KeyCode) -> KeyEvent {
    KeyEvent { code, control: true }
}

fn region(name: &str, caller: Option<&str>, accepts: &[&str], required: bool, room: usize) -> RegionDecl {
    RegionDecl {
        name: name.to_string(),
        caller_key: caller.map(str::to_string),
        accepts: accepts.iter().map(|s| s.to_string()).collect(),
        required,
        max_tokens: room,
    }
}

/// An agent with two caller inputs beside its task: a typed picture slot and a
/// plain notes slot.
fn looker() -> Vec<RegionDecl> {
    vec![
        region("task", Some("task"), &[], false, 1000),
        region("pictures", Some("pictures"), &["image/*"], true, 100000),
        region("notes", Some("notes"), &[], false, 1000),
        region("conversation", None, &[], false, 10000),
    ]
}

fn open_on(regions: Vec<RegionDecl>) -> Dashboard {
    let mut dash = Dashboard::new();
    let step = dash.open_new_run_screen(
        vec![NewRunAgent {
            name: "looker".to_string(),
            source: "installed".to_string(),
            description: "looks".to_string(),
            path: "/agents/looker".to_string(),
        }],
        &vec![],
        vec![],
        vec![],
    );
    match step {
        InputsStep::Load { path, bundled, name } => {
            assert!(!bundled);
            assert_eq!(name, "looker");
            dash.fill_new_run_inputs(path, &Some(regions));
        }
        other => panic!("{other:?}"),
    }
    dash
}

/// Hand a key to the screen, with text fields that type characters and commit on
/// Enter, and a picker that closes on Esc.
fn press(dash: &mut Dashboard, event: KeyEvent) {
    match dash.handle_new_run_key(event) {
        NewRunAction::PickerKey => {
            if event.code == KeyCode::Esc {
                dash.inputs.picker = None;
            }
        }
        NewRunAction::EditSlot(index) => {
            let mut value = dash.inputs.slots[index].edit.value.clone();
            let outcome = match event.code {
                KeyCode::Char(c) => {
                    value.push(c);
                    EditOutcome::Pending
                }
                KeyCode::Enter => EditOutcome::Commit,
                _ => EditOutcome::Pending,
            };
            dash.finish_slot_edit(index, value, outcome);
        }
        _ => {}
    }
}

fn field(text: &str) -> Line {
    Line {
        spans: vec![Span {
            content: text.to_string(),
            style: Style { fg: None, bg: None, bold: false, reversed: false },
        }],
    }
}

fn fields(dash: &Dashboard) -> Vec<Line> {
    dash.inputs.slots.iter().map(|s| field(&s.edit.value)).collect()
}

/// The pane's lines as text.
fn drawn(dash: &mut Dashboard) -> Vec<String> {
    let fields = fields(dash);
    let pane = dash.draw_new_run_inputs(Rect::new(60, 10, 80, 4), &fields);
    pane.lines.iter().map(|l| l.text()).collect()
}

fn part(name: &str) -> InboundPart {
    InboundPart { name: name.to_string(), region: None, bytes: vec![7] }
}

fn unread() -> SlotReading {
    SlotReading { files: vec![], typed: None }
}

/// The slots follow the selected agent: one per caller-input region, in the
/// manifest's order, with the task left to the task box.
#[test]
fn the_slots_are_the_blueprints_caller_inputs() {
    let mut dash = open_on(looker());
    let keys: Vec<&str> = dash.inputs.slots.iter().map(|s| s.key.as_str()).collect();
    assert_eq!(keys, ["pictures", "notes"]);
    assert_eq!(dash.inputs.slots[0].region, "pictures");
    assert_eq!(dash.inputs.slots[0].accepts, ["image/*"]);
    assert!(dash.inputs.slots[0].required);
    // The note names the type, the token budget, and that it is required.
    assert_eq!(dash.inputs.slots[0].note(), " (image/*, ≤100k tok, required)");
    assert_eq!(dash.inputs.slots[1].note(), " (≤1.0k tok)");
    assert!(dash.new_run_has_inputs());
    assert_eq!(dash.new_run_inputs_height(), 4);
    // The same agent again keeps the slots; no agent clears them.
    assert_eq!(dash.sync_new_run_inputs(), InputsStep::Kept);
    assert_eq!(dash.inputs.slots.len(), 2);
    dash.new_run.agents.clear();
    assert_eq!(dash.sync_new_run_inputs(), InputsStep::Cleared);
    assert!(!dash.new_run_has_inputs());
    assert_eq!(dash.new_run_inputs_height(), 0);
}

#[test]
fn a_blueprint_that_cannot_be_read_has_no_slots() {
    let mut dash = open_on(looker());
    dash.fill_new_run_inputs("/agents/other".to_string(), &None);
    assert!(dash.inputs.slots.is_empty());
    assert_eq!(dash.inputs.key, "/agents/other");
}

/// Tab walks agents → inputs → task → start and back; Enter in the last slot
/// moves on to the task; Esc goes back to the agents.
#[test]
fn the_keys_walk_the_slots_and_the_panes() {
    let mut dash = open_on(looker());
    press(&mut dash, key(KeyCode::Tab));
    assert_eq!(dash.new_run.focus, NewRunPane::Inputs);
    press(&mut dash, key(KeyCode::Down));
    assert_eq!(dash.inputs.selected, 1);
    press(&mut dash, key(KeyCode::Down));
    assert_eq!(dash.inputs.selected, 1, "stops at the last");
    press(&mut dash, key(KeyCode::Up));
    assert_eq!(dash.inputs.selected, 0);
    // Row 0 (pictures) takes images only: Enter opens the picker, not text.
    press(&mut dash, key(KeyCode::Enter));
    assert_eq!(dash.inputs.picker, Some(0), "a file row opens the picker");
    press(&mut dash, key(KeyCode::Esc));
    assert_eq!(dash.inputs.picker, None);
    // Row 1 (notes) takes text: typing lands there and Enter on the last slot
    // moves on to the task.
    dash.inputs.selected = 1;
    for c in "be brief".chars() {
        press(&mut dash, key(KeyCode::Char(c)));
    }
    assert_eq!(dash.inputs.slots[1].edit.value, "be brief");
    press(&mut dash, key(KeyCode::Enter));
    assert_eq!(dash.new_run.focus, NewRunPane::Task, "and on from the last");
    press(&mut dash, key(KeyCode::BackTab));
    assert_eq!(dash.new_run.focus, NewRunPane::Inputs);
    press(&mut dash, key(KeyCode::Tab));
    assert_eq!(dash.new_run.focus, NewRunPane::Task);
    dash.new_run.focus = NewRunPane::Inputs;
    press(&mut dash, key(KeyCode::Esc));
    assert_eq!(dash.new_run.focus, NewRunPane::Agents);
    dash.new_run.focus = NewRunPane::Inputs;
    press(&mut dash, key(KeyCode::BackTab));
    assert_eq!(dash.new_run.focus, NewRunPane::Agents);
    // A slot's own Esc is the pane's Esc, never a cancel that eats text.
    assert_eq!(dash.inputs.slots[1].edit.value, "be brief");
    // With no slots the pane is skipped both ways.
    dash.new_run.agents.clear();
    dash.new_run.focus = NewRunPane::Agents;
    press(&mut dash, key(KeyCode::Tab));
    assert_eq!(dash.new_run.focus, NewRunPane::Task);
    press(&mut dash, key(KeyCode::BackTab));
    assert_eq!(dash.new_run.focus, NewRunPane::Agents);
    // Keys on an empty Inputs pane do nothing.
    dash.new_run.focus = NewRunPane::Inputs;
    press(&mut dash, key(KeyCode::Char('x')));
    assert!(dash.inputs.slots.is_empty());
}

/// A bare file name attaches the file to its region, `@file` does too, text seeds
/// the region under its caller key, and a path that names nothing is an error
/// naming the slot.
#[test]
fn the_slots_resolve_the_way_the_region_flags_do() {
    let mut dash = open_on(looker());
    // Nothing typed: nothing sent.
    let none = dash.new_run_input_values(&vec![unread(), unread()]).unwrap();
    assert!(none.regions.is_empty() && none.parts.is_empty());

    dash.inputs.slots[0].edit = LineEdit::new("hero.png".to_string(), false);
    dash.inputs.slots[1].edit =
        LineEdit::new("look at @hero.png and @ghost.png".to_string(), false);
    // A bare path that names a file is the file.
    assert_eq!(dash.inputs.slots[0].text_to_read(true).as_deref(), Some("@hero.png"));
    assert_eq!(dash.inputs.slots[0].text_to_read(false).as_deref(), Some("hero.png"));
    let mut in_pictures = part("hero.png");
    in_pictures.region = Some("pictures".to_string());
    let mut in_notes = part("hero.png");
    in_notes.region = Some("notes".to_string());
    let readings = vec![
        SlotReading {
            files: vec![],
            typed: Some(Ok(RegionReading {
                text: String::new(),
                tokens: 0,
                parts: vec![in_pictures],
                unresolved: vec![],
            })),
        },
        SlotReading {
            files: vec![],
            typed: Some(Ok(RegionReading {
                text: "look at @hero.png and @ghost.png".to_string(),
                tokens: 8,
                parts: vec![in_notes],
                unresolved: vec!["ghost.png".to_string()],
            })),
        },
    ];
    let got = dash.new_run_input_values(&readings).unwrap();
    assert_eq!(got.parts.len(), 2);
    assert_eq!(got.parts[0].region.as_deref(), Some("pictures"));
    assert_eq!(got.parts[0].name, "hero.png");
    assert_eq!(got.parts[1].region.as_deref(), Some("notes"));
    assert_eq!(
        got.regions,
        vec![("notes".to_string(), "look at @hero.png and @ghost.png".to_string())]
    );
    assert_eq!(got.unresolved, ["ghost.png"]);

    dash.inputs.slots[0].edit = LineEdit::new("@missing.png".to_string(), false);
    assert_eq!(dash.inputs.slots[0].text_to_read(true).as_deref(), Some("@missing.png"));
    let readings = vec![
        SlotReading { files: vec![], typed: Some(Err("no such file".to_string())) },
        SlotReading { files: vec![], typed: Some(Err("not reached".to_string())) },
    ];
    let err = dash.new_run_input_values(&readings).unwrap_err();
    assert_eq!(err, "pictures: no such file");
    // A blank field is not read.
    dash.inputs.slots[0].edit = LineEdit::new("   ".to_string(), false);
    assert_eq!(dash.inputs.slots[0].text_to_read(true), None);
}

/// Starting the run sends the slots: the picture as a part in its region, the
/// notes as a seed, beside whatever the task named.
#[test]
fn the_run_carries_the_slots() {
    let mut dash = open_on(looker());
    dash.inputs.slots[0].edit = LineEdit::new("hero.png".to_string(), false);
    dash.inputs.slots[1].edit = LineEdit::new("be brief".to_string(), false);
    dash.new_run.task.insert_str("describe it");
    // The working directory holds a `hero.png` and nothing named `be brief`.
    assert_eq!(dash.inputs.slots[0].text_to_read(true).as_deref(), Some("@hero.png"));
    assert_eq!(dash.inputs.slots[1].text_to_read(false).as_deref(), Some("be brief"));
    let mut picture = part("hero.png");
    picture.region = Some("pictures".to_string());
    let readings = vec![
        SlotReading {
            files: vec![],
            typed: Some(Ok(RegionReading {
                text: String::new(),
                tokens: 0,
                parts: vec![picture],
                unresolved: vec![],
            })),
        },
        SlotReading {
            files: vec![],
            typed: Some(Ok(RegionReading {
                text: "be brief".to_string(),
                tokens: 2,
                parts: vec![],
                unresolved: vec![],
            })),
        },
    ];
    let inputs = dash.new_run_input_values(&readings);
    let read = Ok(InlineParts { text: "describe it".to_string(), parts: vec![], unresolved: vec![] });
    dash.submit_new_run(read, inputs);
    let cmd = &dash.lanes.spawn_commands[0];
    assert_eq!(cmd.parts.len(), 1);
    assert_eq!(cmd.parts[0].region.as_deref(), Some("pictures"));
    assert_eq!(cmd.regions, vec![("notes".to_string(), "be brief".to_string())]);
    // A slot that cannot be read stops the start with a toast naming it.
    let mut dash = open_on(looker());
    dash.inputs.slots[0].edit = LineEdit::new("@nope.png".to_string(), false);
    dash.new_run.task.insert_str("describe it");
    assert_eq!(dash.inputs.slots[0].text_to_read(false).as_deref(), Some("@nope.png"));
    let readings = vec![
        SlotReading { files: vec![], typed: Some(Err("no such file".to_string())) },
        unread(),
    ];
    let inputs = dash.new_run_input_values(&readings);
    let read = Ok(InlineParts { text: "describe it".to_string(), parts: vec![], unresolved: vec![] });
    dash.submit_new_run(read, inputs);
    assert!(dash.lanes.spawn_commands.is_empty());
    let toasts: Vec<String> = dash.notes.toasts.iter().map(|t| t.message.clone()).collect();
    assert!(toasts.iter().any(|t| t.contains("pictures:")), "{toasts:?}");
}

/// Files chosen through the picker go to the slot's region, with no typed name.
#[test]
fn the_run_carries_the_chosen_files() {
    let mut dash = open_on(looker());
    dash.inputs.slots[0].files = vec!["hero.png".to_string()];
    let readings = vec![
        SlotReading {
            files: vec![FileReading { part: Ok(part("hero.png")), tokens: 1600 }],
            typed: None,
        },
        unread(),
    ];
    let got = dash.new_run_input_values(&readings).unwrap();
    assert_eq!(got.parts.len(), 1);
    assert_eq!(got.parts[0].region.as_deref(), Some("pictures"));
    assert!(got.regions.is_empty());
}

/// The pane draws a row per slot, says what each takes, and a click on a row picks
/// it.
#[test]
fn the_pane_draws_its_rows_and_takes_a_click() {
    let mut dash = open_on(looker());
    let all = fields(&dash);
    let pane = dash.draw_new_run_inputs(Rect::new(60, 10, 80, 4), &all);
    assert_eq!(pane.title, " Inputs for looker ");
    assert_eq!(pane.color, Color::Border);
    assert_eq!(pane.inner, Rect::new(61, 11, 78, 2));
    let text = pane.lines[0].text();
    assert!(text.contains("pictures (image/*, ≤100k tok, required)"), "{text}");
    // The pictures row takes images only, so it prompts for a file rather than a
    // line of text.
    assert!(text.contains("no files chosen"), "{text}");
    assert_eq!(
        dash.mouse.click_targets,
        vec![
            (Rect::new(61, 11, 78, 1), ClickTarget::NewRunInput(0)),
            (Rect::new(61, 12, 78, 1), ClickTarget::NewRunInput(1)),
        ]
    );
    dash.click_new_run_input(1);
    assert_eq!(dash.new_run.focus, NewRunPane::Inputs);
    assert_eq!(dash.inputs.selected, 1);
    dash.click_new_run_input(9);
    assert_eq!(dash.inputs.selected, 1, "a row that is not there is ignored");
    // A focused slot shows its text where the placeholder was.
    dash.inputs.slots[1].edit = LineEdit::new("be brief".to_string(), false);
    let text = drawn(&mut dash);
    assert!(text[1].starts_with("› notes"), "{text:?}");
    assert!(text[1].ends_with("be brief"), "{text:?}");
    assert_eq!(fit("abcdef", 4), "abc…");
}

/// A file slot shows the files it holds: the names, the count for a many-file
/// slot, and a chip of extra files beside typed text on a slot that takes both.
#[test]
fn a_file_row_shows_its_chosen_files() {
    let mut dash = open_on(looker());
    dash.new_run.focus = NewRunPane::Inputs;
    dash.inputs.selected = 0;
    assert!(drawn(&mut dash)[0].contains("Enter to choose files"));
    // A chosen path with no final component still renders its name.
    dash.inputs.slots[0].files = vec!["..".to_string()];
    assert_eq!(dash.inputs.slots[0].file_summary(), "..");
    // The pictures slot holds one file: the name shows, no count.
    dash.inputs.slots[0].files = vec!["out/hero.png".to_string()];
    assert!(drawn(&mut dash)[0].ends_with("hero.png"));
    // Several files show a count.
    dash.inputs.slots[0].files = vec!["a.png".to_string(), "b.png".to_string()];
    assert!(drawn(&mut dash)[0].ends_with("a.png, b.png (2)"));
    // The notes slot takes anything, so text and a file chip sit together.
    dash.inputs.slots[1].edit = LineEdit::new("look".to_string(), false);
    dash.inputs.slots[1].files = vec!["c.png".to_string()];
    assert!(drawn(&mut dash)[1].ends_with("look  +c.png"));
}

#[test]
fn a_paths_name_is_its_last_part() {
    let mut dash = open_on(looker());
    let slot = &mut dash.inputs.slots[0];
    let named = [
        ("out/hero.png", "hero.png"),
        ("hero.png", "hero.png"),
        ("out/deep/", "deep"),
        ("out/.", "out"),
        ("a//b", "b"),
        ("a/./b", "b"),
        ("./a", "a"),
        ("a/.//", "a"),
        // With no name at the end the whole path is shown.
        ("out/..", "out/.."),
        ("..", ".."),
        (".", "."),
        ("./.", "./."),
        ("", ""),
    ];
    for (path, name) in named {
        slot.files = vec![path.to_string()];
        assert_eq!(slot.file_names(), [name], "{path}");
        assert_eq!(slot.file_summary(), name, "{path}");
    }
    let names = vec!["a".to_string(), "b".to_string(), "c".to_string()];
    assert_eq!(NewRunInput::names_in_short(&names), "a, b, c (3)");
    assert_eq!(NewRunInput::names_in_short(&vec![]), "");
}

/// An empty text slot keeps its hint while it has focus, so it never looks blank.
#[test]
fn an_empty_text_slot_keeps_its_hint_while_focused() {
    let mut dash = open_on(looker());
    dash.new_run.focus = NewRunPane::Inputs;
    dash.inputs.selected = 1;
    assert!(drawn(&mut dash)[1].ends_with(" text, or ^O for files"));
    dash.inputs.slots[1].accepts = vec!["text/markdown".to_string()];
    assert!(drawn(&mut dash)[1].ends_with(" text"));
}

/// A file slot opens the picker by key: Space (or Enter) on a file-only slot, and
/// Ctrl+O on one that also takes text, which still types otherwise.
#[test]
fn a_file_row_opens_the_picker_by_key() {
    let mut dash = open_on(looker());
    dash.new_run.focus = NewRunPane::Inputs;
    dash.inputs.selected = 0;
    press(&mut dash, key(KeyCode::Char(' ')));
    assert_eq!(dash.inputs.picker, Some(0));
    press(&mut dash, key(KeyCode::Esc));
    dash.inputs.selected = 1;
    press(&mut dash, ctrl(KeyCode::Char('o')));
    assert_eq!(dash.inputs.picker, Some(1));
    press(&mut dash, key(KeyCode::Esc));
    press(&mut dash, key(KeyCode::Char('h')));
    assert_eq!(dash.inputs.picker, None);
    assert_eq!(dash.inputs.slots[1].edit.value, "h");
    // On the file-only slot, a control chord that is not Ctrl+O, and a plain
    // letter, both do nothing: no picker, no text.
    dash.inputs.selected = 0;
    press(&mut dash, ctrl(KeyCode::Char('x')));
    assert_eq!(dash.inputs.picker, None);
    press(&mut dash, key(KeyCode::Char('z')));
    assert_eq!(dash.inputs.picker, None);
    assert!(dash.inputs.slots[0].edit.value.is_empty());
}

/// Enter on a text slot that is not the last moves to the next slot.
#[test]
fn enter_advances_between_text_slots() {
    let mut dash = open_on(vec![
        region("one", Some("one"), &["text/*"], false, 1000),
        region("two", Some("two"), &["text/*"], false, 1000),
    ]);
    assert_eq!(dash.inputs.slots.len(), 2);
    dash.new_run.focus = NewRunPane::Inputs;
    dash.inputs.selected = 0;
    press(&mut dash, key(KeyCode::Char('a')));
    press(&mut dash, key(KeyCode::Enter));
    assert_eq!(dash.inputs.selected, 1, "Enter on a non-last text slot advances");
}

/// The entry model's window: from the catalog, from an override, and from the
/// default when the model is unknown or the stage names none.
#[test]
fn the_entry_window_resolves() {
    let stage = |model: Option<(&str, &str)>| {
        vec![StageModel {
            stage: "main".to_string(),
            model: model.map(|(p, m)| (p.to_string(), m.to_string())),
        }]
    };
    let known = stage(Some(("northwind", "aurora-5")));
    let catalog = vec![("northwind".to_string(), "aurora-5".to_string(), 200_000)];
    assert_eq!(entry_stage_window(&known, "main", &vec![], &catalog), 200_000);
    // A stage that names no model falls back to the default window.
    assert_eq!(entry_stage_window(&stage(None), "main", &vec![], &catalog), 8192);
    assert_eq!(entry_stage_window(&known, "other", &vec![], &catalog), 8192);
    // An override for this model wins, under either key.
    let qualified = vec![("northwind/aurora-5".to_string(), Some(4321))];
    assert_eq!(entry_stage_window(&known, "main", &qualified, &catalog), 4321);
    let bare = vec![
        ("northwind/aurora-5".to_string(), None),
        ("aurora-5".to_string(), Some(99)),
    ];
    assert_eq!(entry_stage_window(&known, "main", &bare, &catalog), 99);
    // An unknown model falls past the overrides to the catalog and the default.
    let unknown = stage(Some(("acme", "mystery")));
    assert_eq!(entry_stage_window(&unknown, "main", &qualified, &catalog), 8192);
}

/// A choice that would not fit the region's token budget stops the start with an
/// error naming the region.
#[test]
fn a_slot_over_budget_is_refused() {
    let mut dash = open_on(looker());
    dash.inputs.slots[0].max_tokens = 500;
    dash.inputs.slots[0].files = vec!["big.png".to_string()];
    let readings = || {
        vec![
            SlotReading {
                files: vec![FileReading { part: Ok(part("big.png")), tokens: 1600 }],
                typed: None,
            },
            unread(),
        ]
    };
    let err = dash.new_run_input_values(&readings()).unwrap_err();
    assert_eq!(
        err,
        "pictures: what you chose needs about 1600 tokens, but region 'pictures' holds 500. Remove a file or choose a smaller one."
    );
    // With room, it resolves.
    dash.inputs.slots[0].max_tokens = 100000;
    assert!(dash.new_run_input_values(&readings()).is_ok());
    // A region without a budget takes anything.
    dash.inputs.slots[0].max_tokens = 0;
    assert!(dash.new_run_input_values(&readings()).is_ok());
}

/// A chosen file that has gone missing stops the start with an error naming the
/// slot.
#[test]
fn a_missing_file_slot_is_an_error() {
    let mut dash = open_on(looker());
    dash.inputs.slots[0].files = vec!["gone.png".to_string()];
    let readings = vec![
        SlotReading {
            files: vec![FileReading { part: Err("no such file".to_string()), tokens: 0 }],
            typed: None,
        },
        unread(),
    ];
    let err = dash.new_run_input_values(&readings).unwrap_err();
    assert_eq!(err, "pictures: no such file");
}

#[test]
fn a_later_slot_of_the_same_key_takes_the_place_of_the_earlier() {
    let mut dash = open_on(vec![
        region("a", Some("notes"), &[], false, 0),
        region("b", Some("notes"), &[], false, 0),
    ]);
    for (slot, text) in dash.inputs.slots.iter_mut().zip(["one", "two"]) {
        slot.edit = LineEdit::new(text.to_string(), false);
    }
    let read = |text: &str| SlotReading {
        files: vec![],
        typed: Some(Ok(RegionReading {
            text: text.to_string(),
            tokens: 1,
            parts: vec![],
            unresolved: vec![],
        })),
    };
    let got = dash.new_run_input_values(&vec![read("one"), read("two")]).unwrap();
    assert_eq!(got.regions, vec![("notes".to_string(), "two".to_string())]);
}

#[test]
fn what_a_slot_takes_is_in_its_patterns() {
    let slot = |accepts: &[&str]| NewRunInput {
        key: "k".to_string(),
        region: "r".to_string(),
        accepts: accepts.iter().map(|s| s.to_string()).collect(),
        required: false,
        max_tokens: 0,
        edit: LineEdit::new(String::new(), false),
        files: vec![],
    };
    for (accepts, text, files) in [
        (&[][..], true, true),
        (&["*/*"][..], true, true),
        (&["text/plain"][..], true, false),
        (&["image/png"][..], false, true),
        (&["image/png", "text/*"][..], true, true),
    ] {
        let slot = slot(accepts);
        assert_eq!(slot.takes_text(), text, "{accepts:?}");
        assert_eq!(slot.takes_files(), files, "{accepts:?}");
    }
}

/// Whatever its patterns are, a slot takes text, files, or both.
#[test]
fn a_slot_takes_text_or_files() {
    for accepts in [&[][..], &["*/*"], &["text/plain"], &["image/*"], &["text/plain", "image/*"]] {
        let dash = open_on(vec![region("r", Some("r"), accepts, false, 0)]);
        let slot = &dash.inputs.slots[0];
        assert!(slot.takes_text() || slot.takes_files(), "{accepts:?}");
    }
}

/// A pane of the height its slots ask for has a row inside its border for each.
#[test]
fn the_pane_has_a_row_for_every_slot() {
    let slots = (0..5).map(|i| region(&format!("r{i}"), Some(&format!("k{i}")), &[], false, 0));
    let mut dash = open_on(slots.collect());
    let height = dash.new_run_inputs_height();
    assert_eq!(height, 7);
    let all = fields(&dash);
    dash.mouse.click_targets.clear();
    let pane = dash.draw_new_run_inputs(Rect::new(3, 4, 60, height), &all);
    assert_eq!(dash.mouse.click_targets.len(), 5);
    for (row, _) in &dash.mouse.click_targets {
        assert!(pane.inner.contains(row.x, row.y), "{row:?}");
    }
}
