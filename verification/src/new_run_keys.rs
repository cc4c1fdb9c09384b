//! The keys of the new-run screen: which pane a key belongs to, and what it does
//! there.

use crate::file_ref::{file_ref_keyed, retyped};
use crate::new_run::closed_screen;
use crate::new_run_inputs::{after_inputs_key, focused_on, follows, InputsStep, SlotAction};
use crate::state::{Dashboard, FileRef, Inputs, NewRun, Screens};
use crate::types::{KeyCode, KeyEvent, NewRunPane};
use crate::unattended::toggled;
use vstd::prelude::*;

verus! {

/// What is left to do after a key on the new-run screen.
#[derive(Clone, Debug, PartialEq, Eq)]
pub enum NewRunAction {
    Done,
    /// The key is the file picker's.
    PickerKey,
    /// The key goes to the task box.
    TaskKey,
    /// The run is to start: the files it names are read, then `submit_new_run`
    /// is called.
    Submit,
    /// The selected agent's regions are wanted for the Inputs pane. Once they
    /// are filled in, the key is to be handed over again.
    LoadInputs { path: String, bundled: bool, name: String },
    /// The file picker opens on this slot.
    OpenPicker(usize),
    /// The key goes to this slot's text field.
    EditSlot(usize),
}

/// The pane after the agent list: the Inputs pane when there are slots, else
/// straight to the task.
pub open spec fn pane_after_agents(dash: Dashboard) -> NewRunPane {
    if dash.inputs.slots@.len() > 0 {
        NewRunPane::Inputs
    } else {
        NewRunPane::Task
    }
}

/// The agent list with another filter, and the cursor at its top.
pub open spec fn refiltered(before: Dashboard, after: Dashboard) -> Dashboard {
    Dashboard {
        new_run: NewRun { filter: after.new_run.filter, selected: 0, ..before.new_run },
        ..before
    }
}

/// The cursor on another agent.
pub open spec fn on_agent(dash: Dashboard, selected: usize) -> Dashboard {
    Dashboard { new_run: NewRun { selected, ..dash.new_run }, ..dash }
}

/// What a key does on the agent list. Every printable character filters.
pub open spec fn agents_keyed(before: Dashboard, after: Dashboard, code: KeyCode) -> bool {
    let selected = before.new_run.selected;
    match code {
        KeyCode::Esc => if before.new_run.filter@.len() == 0 {
            after == closed_screen(before, after) && after.file_ref.query@ == Seq::<char>::empty()
        } else {
            after == refiltered(before, after) && after.new_run.filter@ == Seq::<char>::empty()
        },
        KeyCode::Tab | KeyCode::Enter => after == focused_on(before, pane_after_agents(before)),
        KeyCode::BackTab => after == focused_on(before, NewRunPane::Start),
        KeyCode::Up => after == on_agent(
            before,
            if selected == 0 {
                0
            } else {
                (selected - 1) as usize
            },
        ),
        KeyCode::Down => after == on_agent(
            before,
            if selected + 1 < before.matching_agents().len() {
                (selected + 1) as usize
            } else {
                selected
            },
        ),
        KeyCode::Backspace => after == refiltered(before, after) && after.new_run.filter@
            == if before.new_run.filter@.len() > 0 {
            before.new_run.filter@.drop_last()
        } else {
            before.new_run.filter@
        },
        KeyCode::Char(c) => after == refiltered(before, after) && after.new_run.filter@
            == before.new_run.filter@.push(c),
        _ => after == before,
    }
}

/// What a key does on the task. Enter breaks the line; with Control, it or `s`
/// starts the run.
pub open spec fn task_keyed(
    before: Dashboard,
    after: Dashboard,
    key: KeyEvent,
    action: NewRunAction,
) -> bool {
    if key.code == KeyCode::Esc {
        after == focused_on(before, NewRunPane::Agents) && action is Done
    } else if key.code == KeyCode::Tab {
        after == focused_on(before, NewRunPane::Start) && action is Done
    } else if key.code == KeyCode::BackTab {
        after == focused_on(
            before,
            if before.inputs.slots@.len() > 0 {
                NewRunPane::Inputs
            } else {
                NewRunPane::Agents
            },
        ) && action is Done
    } else if key.control && (key.code == KeyCode::Enter || key.code == KeyCode::Char('s')) {
        after == before && action is Submit
    } else if key.code == KeyCode::Char('@') {
        &&& after == (Dashboard {
            file_ref: FileRef { open: true, ..before.file_ref },
            ..retyped(before, after)
        })
        &&& after.new_run.task.before@ == before.new_run.task.before@.push('@')
        &&& action is Done
    } else {
        after == before && action is TaskKey
    }
}

/// What a key does on the Start button, and what it leaves to do.
pub open spec fn after_start_key(dash: Dashboard, code: KeyCode) -> (Dashboard, NewRunAction) {
    match code {
        KeyCode::Enter => (dash, NewRunAction::Submit),
        KeyCode::Char(c) => (
            dash,
            if c == ' ' {
                NewRunAction::Submit
            } else {
                NewRunAction::Done
            },
        ),
        KeyCode::Tab | KeyCode::Esc => (focused_on(dash, NewRunPane::Agents), NewRunAction::Done),
        KeyCode::BackTab => (focused_on(dash, NewRunPane::Task), NewRunAction::Done),
        _ => (dash, NewRunAction::Done),
    }
}

/// What is left to do after a key on the Inputs pane.
pub open spec fn slot_action(action: SlotAction) -> NewRunAction {
    match action {
        SlotAction::Done => NewRunAction::Done,
        SlotAction::OpenPicker(index) => NewRunAction::OpenPicker(index),
        SlotAction::EditSlot(index) => NewRunAction::EditSlot(index),
    }
}

/// What a key does once the slots follow the selected agent: help and the
/// unattended switch belong to the screen, everything else to the pane with the
/// keys.
pub open spec fn pane_keyed(
    before: Dashboard,
    after: Dashboard,
    key: KeyEvent,
    action: NewRunAction,
) -> bool {
    if key.code == KeyCode::F(1) {
        after == (Dashboard {
            screens: Screens { show_help: true, ..before.screens },
            ..before
        }) && action is Done
    } else if key.control && key.code == KeyCode::Char('y') {
        toggled(before, after) && action is Done
    } else {
        match before.new_run.focus {
            NewRunPane::Agents => agents_keyed(before, after, key.code) && action is Done,
            NewRunPane::Inputs => after == after_inputs_key(before, key).0 && action
                == slot_action(after_inputs_key(before, key).1),
            NewRunPane::Task => task_keyed(before, after, key, action),
            NewRunPane::Start => (after, action) == after_start_key(before, key.code),
        }
    }
}

/// The screen with the slots it has now.
pub open spec fn with_slots_of(before: Dashboard, after: Dashboard) -> Dashboard {
    Dashboard {
        inputs: Inputs { slots: after.inputs.slots, key: after.inputs.key, ..before.inputs },
        ..before
    }
}

/// What a key does on the new-run screen. The file picker comes first, then the
/// completion, then a popup of the task box; after those the slots follow the
/// selected agent.
pub open spec fn screen_keyed(
    before: Dashboard,
    after: Dashboard,
    key: KeyEvent,
    action: NewRunAction,
) -> bool {
    if before.inputs.picker is Some {
        after == before && action is PickerKey
    } else if before.file_ref.open {
        file_ref_keyed(before, after, key) && action is Done
    } else if before.new_run.task_modal {
        after == focused_on(before, NewRunPane::Task) && action is TaskKey
    } else {
        match before.chosen_agent() {
            None => {
                &&& after.inputs.slots@.len() == 0
                &&& after.inputs.key@.len() == 0
                &&& pane_keyed(with_slots_of(before, after), after, key, action)
            },
            Some(agent) => if before.inputs.key@ == agent.path@ {
                pane_keyed(before, after, key, action)
            } else {
                &&& after == before
                &&& action matches NewRunAction::LoadInputs { path, bundled, name }
                &&& follows(before, InputsStep::Load { path, bundled, name })
            },
        }
    }
}

impl Dashboard {
    /// A key while the new-run screen is open.
    pub fn handle_new_run_key(&mut self, key: KeyEvent) -> (action: NewRunAction)
        ensures
            screen_keyed(*old(self), *final(self), key, action),
    {
        if self.inputs.picker.is_some() {
            return NewRunAction::PickerKey;
        }
        if self.file_ref.open {
            self.handle_file_ref_key(key);
            return NewRunAction::Done;
        }
        if self.new_run.task_modal {
            self.new_run.focus = NewRunPane::Task;
            return NewRunAction::TaskKey;
        }
        match self.sync_new_run_inputs() {
            InputsStep::Load { path, bundled, name } => {
                return NewRunAction::LoadInputs { path, bundled, name };
            },
            InputsStep::Cleared | InputsStep::Kept => {},
        }
        if key.code == KeyCode::F(1) {
            self.screens.show_help = true;
            return NewRunAction::Done;
        }
        if key.control && key.code == KeyCode::Char('y') {
            self.toggle_new_run_yolo();
            return NewRunAction::Done;
        }
        match self.new_run.focus {
            NewRunPane::Agents => {
                self.handle_new_run_agents_key(key.code);
                NewRunAction::Done
            },
            NewRunPane::Inputs => match self.handle_new_run_inputs_key(key) {
                SlotAction::Done => NewRunAction::Done,
                SlotAction::OpenPicker(index) => NewRunAction::OpenPicker(index),
                SlotAction::EditSlot(index) => NewRunAction::EditSlot(index),
            },
            NewRunPane::Task => self.handle_new_run_task_key(key),
            NewRunPane::Start => self.handle_new_run_start_key(key.code),
        }
    }

    /// The pane after the agent list.
    pub fn new_run_pane_after_agents(&self) -> (pane: NewRunPane)
        ensures
            pane == pane_after_agents(*self),
    {
        if self.new_run_has_inputs() {
            NewRunPane::Inputs
        } else {
            NewRunPane::Task
        }
    }

    /// A key on the agent list.
    pub fn handle_new_run_agents_key(&mut self, code: KeyCode)
        ensures
            agents_keyed(*old(self), *final(self), code),
    {
        match code {
            KeyCode::Esc => {
                if self.new_run.filter.as_str().is_empty() {
                    self.close_new_run_screen();
                } else {
                    self.new_run.filter.clear();
                    self.new_run.selected = 0;
                }
            },
            KeyCode::Tab | KeyCode::Enter => {
                self.new_run.focus = self.new_run_pane_after_agents();
            },
            KeyCode::BackTab => {
                self.new_run.focus = NewRunPane::Start;
            },
            KeyCode::Up => {
                self.new_run.selected = self.new_run.selected.saturating_sub(1);
            },
            KeyCode::Down => {
                let len: usize = self.filtered_new_run_agents().len();
                if self.new_run.selected.saturating_add(1) < len {
                    self.new_run.selected = self.new_run.selected + 1;
                }
            },
            KeyCode::Backspace => {
                let _ = self.new_run.filter.pop();
                self.new_run.selected = 0;
            },
            KeyCode::Char(c) => {
                self.new_run.filter.push(c);
                self.new_run.selected = 0;
            },
            _ => {},
        }
    }

    /// A key on the task.
    pub fn handle_new_run_task_key(&mut self, key: KeyEvent) -> (action: NewRunAction)
        ensures
            task_keyed(*old(self), *final(self), key, action),
    {
        match key.code {
            KeyCode::Esc => {
                self.new_run.focus = NewRunPane::Agents;
                NewRunAction::Done
            },
            KeyCode::Tab => {
                self.new_run.focus = NewRunPane::Start;
                NewRunAction::Done
            },
            KeyCode::BackTab => {
                self.new_run.focus = if self.new_run_has_inputs() {
                    NewRunPane::Inputs
                } else {
                    NewRunPane::Agents
                };
                NewRunAction::Done
            },
            _ => {
                if key.control && (key.code == KeyCode::Enter || key.code == KeyCode::Char('s')) {
                    NewRunAction::Submit
                } else if key.code == KeyCode::Char('@') {
                    self.new_run.task.insert_char('@');
                    self.file_ref.open = true;
                    NewRunAction::Done
                } else {
                    NewRunAction::TaskKey
                }
            },
        }
    }

    /// A key on the Start button: Enter or Space presses it.
    pub fn handle_new_run_start_key(&mut self, code: KeyCode) -> (action: NewRunAction)
        ensures
            (*final(self), action) == after_start_key(*old(self), code),
    {
        match code {
            KeyCode::Enter => NewRunAction::Submit,
            KeyCode::Char(c) => if c == ' ' {
                NewRunAction::Submit
            } else {
                NewRunAction::Done
            },
            KeyCode::Tab | KeyCode::Esc => {
                self.new_run.focus = NewRunPane::Agents;
                NewRunAction::Done
            },
            KeyCode::BackTab => {
                self.new_run.focus = NewRunPane::Task;
                NewRunAction::Done
            },
            _ => NewRunAction::Done,
        }
    }
}

} // verus!
