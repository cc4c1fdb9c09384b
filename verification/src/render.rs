//! What each pane of the dashboard shows, as styled lines, titles and targets
//! for the mouse.

pub mod button;
pub mod content;
pub mod content_laws;
pub mod context;
pub mod context_laws;
pub mod help_bar;
pub mod table;
pub mod table_laws;
pub mod stages;
pub mod stages_laws;
pub mod header;
pub mod header_laws;
pub mod input;
pub mod input_laws;
pub mod graph_laws;
pub mod graph_view;
pub mod overlay_laws;
pub mod overlays;
pub mod new_run;
