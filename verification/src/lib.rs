//! The logic of an agent-run dashboard: the run list, the new-run screen, text
//! selection, and everything the terminal panes show.

pub mod file_ref;
pub mod file_ref_laws;
pub mod fit;
pub mod new_run;
pub mod new_run_input_laws;
pub mod new_run_inputs;
pub mod new_run_keys;
pub mod new_run_laws;
pub mod numbers;
pub mod operation_laws;
pub mod order;
pub mod outside;
pub mod parts;
pub mod render;
pub mod run_actions;
pub mod run_loader;
pub mod selection;
pub mod selection_laws;
pub mod state;
pub mod state_laws;
pub mod style;
pub mod sync;
pub mod text;
pub mod types;
pub mod unattended;
pub mod views;
pub mod walk;
