//! The new-run screen: the agent picker, the task editor's frame, and the `@`
//! completion drawn over it.

use crate::new_run_inputs::pane_height;
use crate::outside::{asked, least, lengths, shares, split_area, takers};
use crate::render::button::{button_put, EditorRows};
use crate::state::Dashboard;
use crate::style::{
    bold_ink, ink, line1, line3, minus, plain, row_after, sp, span, strong, styled, within, Color,
    Constraint, Direction, Line, Rect, Span, SpanView, Style,
};
use crate::text::{cat3, cat5, copy_of, count_text, decimal, join, joined, opt_text, same};
use crate::types::{ClickTarget, NewAgentView, NewRunPane};
use crate::views::{group_views, views};
use vstd::prelude::*;

verus! {

broadcast use group_views;

/// The Start button's face.
pub const START_BUTTON: &'static str = "[ Start run ]";

/// The colour of a pane's border and title, lit when it has the keys.
pub open spec fn focus_ink(focused: bool) -> Color {
    if focused {
        Color::BorderFocus
    } else {
        Color::Border
    }
}

/// The colour of a pane's border and title, lit when it has the keys.
pub fn focus_colour(focused: bool) -> (color: Color)
    ensures
        color == focus_ink(focused),
{
    if focused {
        Color::BorderFocus
    } else {
        Color::Border
    }
}

/// The colour of an agent's source: a bundled one needs a step before it runs.
pub open spec fn source_ink(source: Seq<char>) -> Color {
    if source == "bundled"@ {
        Color::Warn
    } else {
        Color::Accent
    }
}

/// The colour of an agent's source.
pub fn source_colour(source: &str) -> (color: Color)
    ensures
        color == source_ink(source@),
{
    if same(source, "bundled") {
        Color::Warn
    } else {
        Color::Accent
    }
}

// ── Layout ───────────────────────────────────────────────────────────────────

/// Where the screen's two columns and its help bar stand.
#[derive(Clone, Copy, Debug, PartialEq, Eq)]
pub struct NewRunFrame {
    pub agents: Rect,
    pub column: Rect,
    pub help: Rect,
}

/// Where the parts of the right column stand: the blueprint's preview and the
/// Inputs pane, where they are drawn, and the task.
#[derive(Clone, Copy, Debug, PartialEq, Eq)]
pub struct NewRunColumn {
    pub preview: Option<Rect>,
    pub inputs: Option<Rect>,
    pub task: Rect,
}

/// How wide the agents' column is on a screen of `width` columns: forty-five
/// hundredths, to the nearest column.
pub open spec fn agents_width(width: u16) -> int {
    (45 * width + 50) / 100
}

/// Where the screen's two columns and its help bar stand. A single row is the
/// columns'.
pub fn draw_new_run_screen(area: Rect) -> (frame: NewRunFrame)
    ensures
        within(frame.agents, area),
        within(frame.column, area),
        within(frame.help, area),
        area.y + area.height <= u16::MAX && area.x + area.width <= u16::MAX ==> ({
            let help = row_after(area.height, 1);
            &&& frame.help == (Rect {
                y: (area.y + area.height - help) as u16,
                height: help,
                ..area
            })
            &&& frame.agents == (Rect {
                width: agents_width(area.width) as u16,
                height: (area.height - help) as u16,
                ..area
            })
            &&& frame.column == (Rect {
                x: (area.x + agents_width(area.width)) as u16,
                width: (area.width - agents_width(area.width)) as u16,
                height: (area.height - help) as u16,
                ..area
            })
        }),
{
    let mut constraints: Vec<Constraint> = Vec::new();
    constraints.push(Constraint::Min(1));
    constraints.push(Constraint::Length(1));
    proof {
        reveal_with_fuel(asked, 3);
        reveal_with_fuel(takers, 3);
        reveal_with_fuel(least, 3);
        reveal_with_fuel(lengths, 3);
    }
    let rows = split_area(Direction::Vertical, &constraints, 0, area);
    let mut columns: Vec<Constraint> = Vec::new();
    columns.push(Constraint::Percentage(45));
    columns.push(Constraint::Percentage(55));
    proof {
        reveal_with_fuel(shares, 3);
        let width = rows@[0].width as int;
        assert(shares(columns@, 1) * width == 45 * width) by (nonlinear_arith)
            requires
                shares(columns@, 1) == 45,
        ;
        assert(shares(columns@, 2) * width == 100 * width) by (nonlinear_arith)
            requires
                shares(columns@, 2) == 100,
        ;
    }
    let panes = split_area(Direction::Horizontal, &columns, 0, rows[0]);
    NewRunFrame { agents: panes[0], column: panes[1], help: rows[1] }
}

/// The rows the Inputs pane gets in a column of `height` rows under a preview of
/// `preview` rows: all it wants where the task keeps its own, else none.
pub open spec fn inputs_rows(slots: nat, height: u16, preview: u16) -> u16 {
    if minus(height, preview) > pane_height(slots) + 8 {
        pane_height(slots)
    } else {
        0
    }
}

/// The rows the blueprint's preview gets in a column of `height` rows: all it wants,
/// but for a row that the task keeps.
pub open spec fn preview_rows(height: u16, preview: u16) -> u16 {
    if preview < height {
        preview
    } else {
        minus(height, 1)
    }
}

impl Dashboard {
    /// Where the parts of the right column stand, with `preview` rows for the
    /// blueprint's preview.
    pub fn new_run_column(&self, column: Rect, preview: u16) -> (parts: NewRunColumn)
        ensures
            parts.preview is Some <==> preview > 0,
            parts.inputs is Some <==> inputs_rows(
                self.inputs.slots@.len(),
                column.height,
                preview,
            ) > 0,
            within(parts.task, column),
            parts.preview matches Some(rect) ==> within(rect, column),
            parts.inputs matches Some(rect) ==> within(rect, column),
            column.y + column.height <= u16::MAX ==> ({
                let inputs = inputs_rows(self.inputs.slots@.len(), column.height, preview);
                let above = preview_rows(column.height, preview);
                &&& parts.task == (Rect {
                    y: (column.y + above + inputs) as u16,
                    height: (column.height - above - inputs) as u16,
                    ..column
                })
                &&& preview > 0 ==> parts.preview == Some(Rect { height: above, ..column })
                &&& inputs > 0 ==> parts.inputs == Some(
                    Rect { y: (column.y + above) as u16, height: inputs, ..column },
                )
            }),
    {
        let wanted: u16 = self.new_run_inputs_height();
        let inputs: u16 = if column.height.saturating_sub(preview) as u32 > wanted as u32 + 8 {
            wanted
        } else {
            0
        };
        let mut constraints: Vec<Constraint> = Vec::new();
        constraints.push(Constraint::Length(preview));
        constraints.push(Constraint::Length(inputs));
        constraints.push(Constraint::Min(1));
        proof {
            reveal_with_fuel(asked, 4);
            reveal_with_fuel(takers, 4);
            reveal_with_fuel(least, 4);
            reveal_with_fuel(lengths, 4);
        }
        let right = split_area(Direction::Vertical, &constraints, 0, column);
        NewRunColumn {
            preview: if preview > 0 {
                Some(right[0])
            } else {
                None
            },
            inputs: if inputs > 0 {
                Some(right[1])
            } else {
                None
            },
            task: right[2],
        }
    }
}

// ── The agents ───────────────────────────────────────────────────────────────

/// The agent table: its title, header and rows, the row under the cursor, the
/// colour of its border, and what is said where it is empty.
#[derive(Debug)]
pub struct AgentPicker {
    pub title: String,
    pub color: Color,
    pub header: Vec<Span>,
    pub rows: Vec<Vec<Span>>,
    pub selected: Option<usize>,
    pub hint: Option<(Rect, Line)>,
}

/// The row of an agent: its name, its source, its description.
pub open spec fn picker_row(agent: NewAgentView) -> Seq<SpanView> {
    seq![
        sp(agent.name, plain()),
        sp(agent.source, ink(source_ink(agent.source))),
        sp(agent.description, ink(Color::Dim)),
    ]
}

/// The title of the agent table. The filter reads as part of it.
pub open spec fn picker_title(filter: Seq<char>, visible: nat, all: nat) -> Seq<char> {
    if filter.len() == 0 {
        " Agent Blueprints ("@ + decimal(visible) + ") "@
    } else {
        " Agent Blueprints  /"@ + filter + "▌  "@ + decimal(visible) + "/"@ + decimal(all) + " "@
    }
}

/// What is said where no agent is listed.
pub open spec fn picker_hint(filter: Seq<char>) -> Seq<char> {
    if filter.len() == 0 {
        "No agent blueprints found. `lev setup` installs the bundled ones."@
    } else {
        "No agent blueprints match \""@ + filter + "\"."@
    }
}

impl Dashboard {
    /// The agent table in `area`.
    pub fn draw_new_run_agents(&self, area: Rect) -> (picker: AgentPicker)
        requires
            self.matching_agents().len() == 0 ==> area.x + 2 <= u16::MAX && area.y + 2 <= u16::MAX,
        ensures
            picker.title@ == picker_title(
                self.new_run.filter@,
                self.matching_agents().len(),
                self.new_run.agents@.len(),
            ),
            picker.color == focus_ink(self.new_run.focus == NewRunPane::Agents),
            views(picker.header@) == seq![
                sp("Blueprint"@, strong()),
                sp("Source"@, strong()),
                sp("Description"@, strong()),
            ],
            picker.rows@.len() == self.matching_agents().len(),
            forall|k: int|
                0 <= k < picker.rows@.len() ==> views((#[trigger] picker.rows@[k])@) == picker_row(
                    self.new_run.agents@[self.matching_agents()[k] as int]@,
                ),
            picker.selected == if self.matching_agents().len() == 0 {
                None
            } else {
                Some(
                    if self.new_run.selected < self.matching_agents().len() {
                        self.new_run.selected
                    } else {
                        (self.matching_agents().len() - 1) as usize
                    },
                )
            },
            picker.hint is Some <==> self.matching_agents().len() == 0,
            picker.hint matches Some((rect, line)) ==> rect == (Rect {
                x: (area.x + 2) as u16,
                y: (area.y + 2) as u16,
                width: minus(area.width, 4),
                height: 1,
            }) && line@ == seq![sp(picker_hint(self.new_run.filter@), ink(Color::Dim))],
    {
        let visible = self.filtered_new_run_agents();
        let total: usize = self.new_run.agents.len();
        proof {
            crate::new_run::matches_are_agents(
                views(self.new_run.agents@),
                self.new_run.filter@,
                self.new_run.agents@.len() as int,
            );
        }
        let mut header: Vec<Span> = Vec::new();
        header.push(span("Blueprint", Style::strong()));
        header.push(span("Source", Style::strong()));
        header.push(span("Description", Style::strong()));
        assert(views(header@) =~= seq![
            sp("Blueprint"@, strong()),
            sp("Source"@, strong()),
            sp("Description"@, strong()),
        ]);
        let mut rows: Vec<Vec<Span>> = Vec::new();
        let mut k: usize = 0;
        while k < visible.len()
            invariant
                k <= visible@.len(),
                visible@ == self.matching_agents(),
                rows@.len() == k,
                forall|j: int|
                    0 <= j < visible@.len() ==> (#[trigger] visible@[j])
                        < self.new_run.agents@.len(),
                forall|j: int|
                    0 <= j < k ==> views((#[trigger] rows@[j])@) == picker_row(
                        self.new_run.agents@[visible@[j] as int]@,
                    ),
            decreases visible.len() - k,
        {
            let agent = &self.new_run.agents[visible[k]];
            let mut cells: Vec<Span> = Vec::new();
            cells.push(span(agent.name.as_str(), Style::plain()));
            cells.push(
                span(agent.source.as_str(), Style::ink(source_colour(agent.source.as_str()))),
            );
            cells.push(span(agent.description.as_str(), Style::ink(Color::Dim)));
            assert(views(cells@) =~= picker_row(agent@));
            rows.push(cells);
            k = k + 1;
        }
        let shown = count_text(visible.len());
        let filter = self.new_run.filter.as_str();
        let title = if filter.is_empty() {
            cat3(" Agent Blueprints (", shown.as_str(), ") ")
        } else {
            let all = count_text(total);
            let mut title = cat5(" Agent Blueprints  /", filter, "▌  ", shown.as_str(), "/");
            title.append(all.as_str());
            title.append(" ");
            title
        };
        let selected: Option<usize> = if visible.len() == 0 {
            None
        } else if self.new_run.selected < visible.len() {
            Some(self.new_run.selected)
        } else {
            Some(visible.len() - 1)
        };
        let hint = if visible.len() == 0 {
            let text = if filter.is_empty() {
                copy_of("No agent blueprints found. `lev setup` installs the bundled ones.")
            } else {
                cat3("No agent blueprints match \"", filter, "\".")
            };
            Some(
                (
                    Rect {
                        x: area.x + 2,
                        y: area.y + 2,
                        width: area.width.saturating_sub(4),
                        height: 1,
                    },
                    line1(styled(text, Style::ink(Color::Dim))),
                ),
            )
        } else {
            None
        };
        AgentPicker {
            title,
            color: focus_colour(self.new_run.focus == NewRunPane::Agents),
            header,
            rows,
            selected,
            hint,
        }
    }
}

// ── The task ─────────────────────────────────────────────────────────────────

/// The title chip that names the files the task attaches; nothing where it
/// attaches none.
pub open spec fn attached(names: Seq<Seq<char>>) -> SpanView {
    if names.len() == 0 {
        sp(Seq::empty(), plain())
    } else {
        sp(
            "["@ + decimal(names.len()) + " attached: "@ + joined(names, ", "@) + "] "@,
            bold_ink(Color::Success),
        )
    }
}

/// The task box's title. A setting as consequential as unattended stands on it.
pub open spec fn task_title(dash: Dashboard, names: Seq<Seq<char>>) -> Seq<SpanView> {
    let agent = match dash.chosen_agent() {
        Some(agent) => agent.name@,
        None => "no agent blueprint selected"@,
    };
    seq![
        sp(
            " Task for "@ + agent + " "@,
            bold_ink(focus_ink(dash.new_run.focus == NewRunPane::Task)),
        ),
        if dash.unattended.on {
            sp("[ unattended ] "@, bold_ink(Color::Warn))
        } else {
            sp(Seq::empty(), plain())
        },
        attached(names),
    ]
}

/// The task box's frame: its title, its colour, whether it and the Start button
/// have the keys, and where the two stand.
#[derive(Debug)]
pub struct TaskFrame {
    pub title: Line,
    pub color: Color,
    pub focused: bool,
    pub start_focused: bool,
    pub rows: EditorRows,
}

impl Dashboard {
    /// The title chip that names the files the task attaches.
    pub fn attached_chip(names: &Vec<String>) -> (chip: Span)
        ensures
            chip@ == attached(views(names@)),
    {
        if names.len() == 0 {
            Span { content: String::new(), style: Style::plain() }
        } else {
            let count = count_text(names.len());
            let all = join(names, ", ");
            let text = cat5("[", count.as_str(), " attached: ", all.as_str(), "] ");
            styled(text, Style::bold_ink(Color::Success))
        }
    }

    /// The task box's frame over `area`, with the Start button under it;
    /// `attached` are the files the task names.
    pub fn draw_new_run_task(&mut self, area: Rect, attached: &Vec<String>) -> (frame: TaskFrame)
        ensures
            frame.title@ == task_title(*old(self), views(attached@)),
            frame.color == focus_ink(old(self).new_run.focus == NewRunPane::Task),
            frame.focused == (old(self).new_run.focus == NewRunPane::Task),
            frame.start_focused == (old(self).new_run.focus == NewRunPane::Start),
            button_put(
                *old(self),
                *final(self),
                area,
                START_BUTTON@,
                ClickTarget::NewRunStart,
                frame.rows,
            ),
    {
        let focused = self.new_run.focus == NewRunPane::Task;
        let color = focus_colour(focused);
        let heading = match self.new_run_selected_agent() {
            Some(agent) => cat3(" Task for ", agent.name.as_str(), " "),
            None => cat3(" Task for ", "no agent blueprint selected", " "),
        };
        let chip = if self.unattended.on {
            span("[ unattended ] ", Style::bold_ink(Color::Warn))
        } else {
            Span { content: String::new(), style: Style::plain() }
        };
        let title = line3(
            styled(heading, Style::bold_ink(color)),
            chip,
            Self::attached_chip(attached),
        );
        let start_focused = self.new_run.focus == NewRunPane::Start;
        let rows = self.draw_action_button(area, START_BUTTON, ClickTarget::NewRunStart);
        TaskFrame { title, color, focused, start_focused, rows }
    }
}

// ── The completion ───────────────────────────────────────────────────────────

/// The `@` completion: where it stands and its lines.
#[derive(Debug)]
pub struct FilePopup {
    pub area: Rect,
    pub lines: Vec<Line>,
}

/// A path that the completion offers.
pub open spec fn path_line(path: Seq<char>, selected: bool) -> Seq<SpanView> {
    seq![
        sp(
            " "@ + path + " "@,
            if selected {
                bold_ink(Color::Accent)
            } else {
                ink(Color::Muted)
            },
        ),
    ]
}

/// The completion's lines.
pub open spec fn popup_lines(paths: Seq<Seq<char>>, selected: usize) -> Seq<Seq<SpanView>> {
    if paths.len() == 0 {
        seq![seq![sp(" no matching file "@, ink(Color::Dim))]]
    } else {
        Seq::new(paths.len(), |i: int| path_line(paths[i], i == selected))
    }
}

/// Where the completion stands: at the bottom of the pane, never over its title,
/// and inside it.
pub open spec fn popup_area(area: Rect, lines: nat) -> Rect {
    let height = if lines + 2 < area.height {
        (lines + 2) as u16
    } else {
        area.height
    };
    Rect {
        x: (area.x + 1) as u16,
        y: (area.y + area.height - height) as u16,
        width: minus(area.width, 2),
        height,
    }
}

impl Dashboard {
    /// The `@` completion over the task pane, where it is open.
    pub fn draw_file_ref_popup(&self, area: Rect) -> (popup: Option<FilePopup>)
        requires
            self.file_ref.open ==> area.x + 1 <= u16::MAX && area.y + area.height <= u16::MAX,
        ensures
            popup is Some <==> self.file_ref.open,
            popup matches Some(drawn) ==> views(drawn.lines@) == popup_lines(
                self.offered(),
                self.file_ref.selected,
            ) && drawn.area == popup_area(area, drawn.lines@.len()),
    {
        if !self.file_ref.open {
            return None;
        }
        let matches = self.file_ref_matches();
        proof {
            crate::file_ref::offered_files_match(
                views(self.file_ref.files@),
                self.file_ref.query@,
                crate::file_ref::FILE_REF_VISIBLE as nat,
                self.file_ref.files@.len() as int,
            );
        }
        let mut lines: Vec<Line> = Vec::new();
        if matches.len() == 0 {
            lines.push(line1(span(" no matching file ", Style::ink(Color::Dim))));
            assert(views(lines@) =~= popup_lines(self.offered(), self.file_ref.selected));
        } else {
            let mut i: usize = 0;
            while i < matches.len()
                invariant
                    i <= matches@.len(),
                    views(matches@) == self.offered(),
                    lines@.len() == i,
                    forall|j: int|
                        0 <= j < i ==> (#[trigger] lines@[j])@ == path_line(
                            self.offered()[j],
                            j == self.file_ref.selected,
                        ),
                decreases matches.len() - i,
            {
                let style = if i == self.file_ref.selected {
                    Style::bold_ink(Color::Accent)
                } else {
                    Style::ink(Color::Muted)
                };
                assert(views(matches@)[i as int] == matches@[i as int]@);
                let text = cat3(" ", matches[i], " ");
                lines.push(line1(styled(text, style)));
                i = i + 1;
            }
            assert(views(lines@) =~= popup_lines(self.offered(), self.file_ref.selected));
        }
        let wanted: u16 = lines.len() as u16 + 2;
        let height: u16 = if wanted < area.height {
            wanted
        } else {
            area.height
        };
        Some(
            FilePopup {
                area: Rect {
                    x: area.x + 1,
                    y: area.y + (area.height - height),
                    width: area.width.saturating_sub(2),
                    height,
                },
                lines,
            },
        )
    }
}

/// The completion stays inside its pane: it ends where the pane ends, and begins
/// no higher.
pub proof fn the_popup_stays_in_its_pane(area: Rect, lines: nat)
    requires
        area.x + 1 <= u16::MAX,
        area.y + area.height <= u16::MAX,
    ensures
        popup_area(area, lines).y >= area.y,
        popup_area(area, lines).y + popup_area(area, lines).height == area.y + area.height,
{
}

// ── The help bar ─────────────────────────────────────────────────────────────

/// How the unattended setting stands, in words.
pub open spec fn unattended_state(on: bool, profile: Option<Seq<char>>) -> Seq<char> {
    if on {
        match profile {
            Some(name) => "unattended: on ("@ + name + ")"@,
            None => "unattended: on"@,
        }
    } else {
        "unattended: off"@
    }
}

/// The help bar's text: what the keys do now, and how the unattended setting
/// stands. `bold` and `mode` are the task box's chords.
pub open spec fn help_text(dash: Dashboard, bold: Seq<char>, mode: Seq<char>) -> Seq<char> {
    let state = unattended_state(dash.unattended.on, opt_text(dash.unattended.profile));
    if dash.inputs.picker is Some {
        " ↑↓ move · Space select · Enter done · Esc cancel · type to filter "@
    } else if dash.file_ref.open {
        " ↑↓ choose · Enter/Tab insert · Esc dismiss "@
    } else {
        match dash.new_run.focus {
            NewRunPane::Agents => " ↑↓ select · type to filter · Tab "@ + (
            if dash.inputs.slots@.len() > 0 {
                "inputs"@
            } else {
                "write task"@
            }) + " · ^Y "@ + state + " · F1 help · Esc back "@,
            NewRunPane::Inputs => " ↑↓ slot · Enter/^O choose files · type for text · Tab write task · Shift+Tab agents · ^Y "@
                + state + " · F1 help "@,
            NewRunPane::Task => " ^S start · Enter newline · Tab Start button · @ file · "@ + bold
                + " bold · "@ + mode + " preview · ^Y "@ + state + " · F1 help · Esc back "@,
            NewRunPane::Start => " Enter/Space start the run · Shift+Tab task · Tab agents · ^Y "@
                + state + " · F1 help · Esc back "@,
        }
    }
}

impl Dashboard {
    /// The help bar's text for what has the keys.
    pub fn new_run_help_bar_text(&self, bold: &str, mode: &str) -> (text: String)
        ensures
            text@ == help_text(*self, bold@, mode@),
    {
        if self.inputs.picker.is_some() {
            return copy_of(" ↑↓ move · Space select · Enter done · Esc cancel · type to filter ");
        }
        if self.file_ref.open {
            return copy_of(" ↑↓ choose · Enter/Tab insert · Esc dismiss ");
        }
        let state = if self.unattended.on {
            match &self.unattended.profile {
                Some(profile) => cat3("unattended: on (", profile.as_str(), ")"),
                None => copy_of("unattended: on"),
            }
        } else {
            copy_of("unattended: off")
        };
        match self.new_run.focus {
            NewRunPane::Agents => {
                let next: &str = if self.new_run_has_inputs() {
                    "inputs"
                } else {
                    "write task"
                };
                cat5(
                    " ↑↓ select · type to filter · Tab ",
                    next,
                    " · ^Y ",
                    state.as_str(),
                    " · F1 help · Esc back ",
                )
            },
            NewRunPane::Inputs => cat3(
                " ↑↓ slot · Enter/^O choose files · type for text · Tab write task · Shift+Tab agents · ^Y ",
                state.as_str(),
                " · F1 help ",
            ),
            NewRunPane::Task => {
                let mut text = cat5(
                    " ^S start · Enter newline · Tab Start button · @ file · ",
                    bold,
                    " bold · ",
                    mode,
                    " preview · ^Y ",
                );
                text.append(state.as_str());
                text.append(" · F1 help · Esc back ");
                text
            },
            NewRunPane::Start => cat3(
                " Enter/Space start the run · Shift+Tab task · Tab agents · ^Y ",
                state.as_str(),
                " · F1 help · Esc back ",
            ),
        }
    }

    /// The help bar.
    pub fn draw_new_run_help_bar(&self, bold: &str, mode: &str) -> (line: Line)
        ensures
            line@ == seq![sp(help_text(*self, bold@, mode@), ink(Color::Dim))],
    {
        let hint = self.new_run_help_bar_text(bold, mode);
        line1(styled(hint, Style::ink(Color::Dim)))
    }
}

} // verus!
