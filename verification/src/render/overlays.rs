//! Toasts over the screen, and the pages of key help.

use crate::state::Dashboard;
use crate::style::{bold_ink, ink, line2, minus, sp, styled, Color, Line, Rect, SpanView, Style};
use crate::text::{cat3, truncate, truncated};
use crate::types::{MainPane, ToastLevel, ToastView};
use crate::views::{group_views, views};
use vstd::prelude::*;

verus! {

broadcast use group_views;

// ── Toasts ───────────────────────────────────────────────────────────────────

/// The widest a toast gets.
pub const TOAST_MAX_W: u16 = 40;

/// The narrowest toast worth drawing: a glyph, its padding and a few characters
/// of message.
pub const TOAST_MIN_W: u16 = 12;

/// How wide a toast is on a frame: one column of margin each side, at most
/// `TOAST_MAX_W`, and zero where the frame is too narrow for `TOAST_MIN_W`.
pub open spec fn toast_columns(frame_width: u16) -> u16 {
    let room = minus(frame_width, 2);
    if room < TOAST_MIN_W {
        0
    } else if room > TOAST_MAX_W {
        TOAST_MAX_W
    } else {
        room
    }
}

/// How wide a toast is on a frame `frame_width` columns across.
pub fn toast_width(frame_width: u16) -> (width: u16)
    ensures
        width == toast_columns(frame_width),
{
    let room: u16 = frame_width.saturating_sub(2);
    let width: u16 = if room > TOAST_MAX_W {
        TOAST_MAX_W
    } else {
        room
    };
    if width < TOAST_MIN_W {
        0
    } else {
        width
    }
}

/// A toast is never wider than its frame with a margin on each side, nor than
/// `TOAST_MAX_W`, and one that is drawn has room for its glyph and a word.
pub proof fn a_toast_fits_its_frame(frame_width: u16)
    ensures
        toast_columns(frame_width) <= TOAST_MAX_W,
        toast_columns(frame_width) == 0 || TOAST_MIN_W <= toast_columns(frame_width) <= frame_width
            - 2,
        toast_columns(frame_width) == 0 <==> frame_width < TOAST_MIN_W + 2,
{
}

/// The glyph a toast wears, and its colour.
pub open spec fn glyph_of(level: ToastLevel) -> (&'static str, Color) {
    match level {
        ToastLevel::Info => ("✓", Color::Success),
        ToastLevel::Warning => ("!", Color::Warn),
        ToastLevel::Error => ("✗", Color::Error),
        ToastLevel::Progress => ("◌", Color::Active),
    }
}

/// The glyph a toast wears, and its colour.
pub fn toast_glyph(level: ToastLevel) -> (glyph: (&'static str, Color))
    ensures
        glyph == glyph_of(level),
{
    match level {
        ToastLevel::Info => ("✓", Color::Success),
        ToastLevel::Warning => ("!", Color::Warn),
        ToastLevel::Error => ("✗", Color::Error),
        ToastLevel::Progress => ("◌", Color::Active),
    }
}

/// Toasts over a frame: the area they clear, and each with its row.
#[derive(Debug)]
pub struct ToastStack {
    pub area: Rect,
    pub rows: Vec<(Rect, Line)>,
}

/// One toast.
pub open spec fn toast_line(toast: ToastView, width: u16) -> Seq<SpanView> {
    seq![
        sp(" "@ + glyph_of(toast.level).0@ + " "@, bold_ink(glyph_of(toast.level).1)),
        sp(truncated(toast.message, (width - 4) as nat), ink(Color::White)),
    ]
}

/// How many toasts are drawn: each takes a row below the first row of the frame.
/// Toasts are counted in sixteen bits.
pub open spec fn toast_rows(toasts: nat, height: u16) -> int {
    if toasts % 65_536 > height - 1 {
        height - 1
    } else {
        (toasts % 65_536) as int
    }
}

/// Where the toasts stand: the right edge of the frame, below its first row.
pub open spec fn toast_area(frame: Rect, toasts: nat) -> Rect {
    let width = toast_columns(frame.width);
    Rect {
        x: minus(frame.width, (width + 1) as u16),
        y: 1,
        width,
        height: toast_rows(toasts, frame.height) as u16,
    }
}

/// Whether any toast is drawn.
pub open spec fn toasts_show(frame: Rect, toasts: nat) -> bool {
    toasts > 0 && toast_columns(frame.width) > 0 && frame.height >= 2
}

impl Dashboard {
    /// The toasts over a frame, sized to it; nothing where a toast could not hold
    /// its glyph and a word.
    pub fn draw_toasts(&self, frame: Rect) -> (stack: Option<ToastStack>)
        ensures
            stack is Some <==> toasts_show(frame, self.notes.toasts@.len()),
            stack matches Some(drawn) ==> {
                let area = toast_area(frame, self.notes.toasts@.len());
                &&& drawn.area == area
                &&& drawn.rows@.len() == area.height
                &&& forall|i: int|
                    0 <= i < drawn.rows@.len() ==> (#[trigger] drawn.rows@[i]).0 == (Rect {
                        y: (1 + i) as u16,
                        height: 1,
                        ..area
                    }) && drawn.rows@[i].1@ == toast_line(self.notes.toasts@[i]@, area.width)
            },
    {
        if self.notes.toasts.len() == 0 {
            return None;
        }
        let width: u16 = toast_width(frame.width);
        if width == 0 || frame.height < 2 {
            return None;
        }
        let count: u16 = (self.notes.toasts.len() % 65_536) as u16;
        let height: u16 = if count > frame.height - 1 {
            frame.height - 1
        } else {
            count
        };
        let x: u16 = frame.width.saturating_sub(width + 1);
        let area = Rect { x, y: 1, width, height };
        let mut rows: Vec<(Rect, Line)> = Vec::new();
        let mut i: u16 = 0;
        while i < height
            invariant
                i <= height,
                height < u16::MAX,
                height <= self.notes.toasts@.len(),
                12 <= width <= 40,
                area == (Rect { x, y: 1, width, height }),
                rows@.len() == i,
                forall|j: int|
                    0 <= j < rows@.len() ==> (#[trigger] rows@[j]).0 == (Rect {
                        y: (1 + j) as u16,
                        height: 1,
                        ..area
                    }) && rows@[j].1@ == toast_line(self.notes.toasts@[j]@, width),
            decreases height - i,
        {
            let toast = &self.notes.toasts[i as usize];
            let (icon, color) = toast_glyph(toast.level);
            let mark = cat3(" ", icon, " ");
            let message = truncate(toast.message.as_str(), (width - 4) as usize);
            let line = line2(
                styled(mark, Style::bold_ink(color)),
                styled(message, Style::ink(Color::White)),
            );
            rows.push((Rect { x, y: 1 + i, width, height: 1 }, line));
            i = i + 1;
        }
        Some(ToastStack { area, rows })
    }
}

// ── Help ─────────────────────────────────────────────────────────────────────

/// One section of the key help.
#[derive(Debug)]
pub struct HelpSection {
    pub title: &'static str,
    pub entries: Vec<(&'static str, &'static str)>,
}

/// One section of the key help.
#[verifier::ext_equal]
pub struct HelpView {
    pub title: &'static str,
    pub entries: Seq<(&'static str, &'static str)>,
}

impl View for HelpSection {
    type V = HelpView;

    open spec fn view(&self) -> HelpView {
        HelpView { title: self.title, entries: self.entries@ }
    }
}

/// The chords of the long-form box: the one that switches how it shows, and
/// those that format.
#[derive(Debug)]
pub struct FormattingKeys {
    pub mode_chord: &'static str,
    pub shortcuts: Vec<(&'static str, &'static str)>,
}

/// The long-form box's formatting chords.
pub open spec fn formatting_help(keys: FormattingKeys) -> HelpView {
    HelpView {
        title: "Formatting a long-form box",
        entries: seq![
            (keys.mode_chord, "switch between the markdown you write and how it will read"),
        ] + keys.shortcuts@ + seq![
            ("click", "the same actions, from the button row along the top of the box"),
            ("hover", "the bottom border names the button under the pointer"),
            ("shift + ← →", "select first, to wrap text that is already written"),
            ("ctrl-z", "undo; ctrl-shift-z or ctrl-r redoes"),
        ],
    }
}

/// The long-form box's formatting chords, on every screen that has such a box.
pub fn formatting_section(keys: &FormattingKeys) -> (section: HelpSection)
    ensures
        section@ == formatting_help(*keys),
{
    let mut entries: Vec<(&'static str, &'static str)> = Vec::new();
    entries.push(
        (keys.mode_chord, "switch between the markdown you write and how it will read"),
    );
    let mut i: usize = 0;
    while i < keys.shortcuts.len()
        invariant
            i <= keys.shortcuts@.len(),
            entries@ == seq![
                (keys.mode_chord, "switch between the markdown you write and how it will read"),
            ] + keys.shortcuts@.take(i as int),
        decreases keys.shortcuts.len() - i,
    {
        entries.push(keys.shortcuts[i]);
        i = i + 1;
        assert(keys.shortcuts@.take(i as int) =~= keys.shortcuts@.take(i - 1).push(
            keys.shortcuts@[i - 1],
        ));
    }
    entries.push(("click", "the same actions, from the button row along the top of the box"));
    entries.push(("hover", "the bottom border names the button under the pointer"));
    entries.push(("shift + ← →", "select first, to wrap text that is already written"));
    entries.push(("ctrl-z", "undo; ctrl-shift-z or ctrl-r redoes"));
    let section = HelpSection { title: "Formatting a long-form box", entries };
    assert(section@ =~= formatting_help(*keys));
    section
}

/// The Agents screen's catalog.
pub open spec fn agents_help() -> Seq<HelpView> {
    seq![
        HelpView {
            title: "Agents (a)",
            entries: seq![
                ("↑ ↓ / k j", "select an agent"),
                ("home / end, pgup / pgdn", "first / last, a page at a time"),
                ("wheel", "over the list: move; over the preview: zoom"),
                ("enter / e", "edit it (a bundled one installs when saved)"),
                ("n", "new agent: start simple, or clone one"),
                ("l", "launch it: the new-run screen with it picked"),
                ("r", "rename an installed agent: its directory and its manifest's name"),
                ("d", "delete an installed agent (asks first)"),
                ("R", "reset an edited bundled agent to the bundled copy (asks first)"),
                ("/", "filter by name or description; enter keeps it, esc clears it"),
                ("esc / q", "back to the run list"),
                ("? / F1", "this help"),
            ],
        },
        HelpView {
            title: "New agent (n)",
            entries: seq![
                ("↑ ↓", "pick the template; the name follows until you type one"),
                ("enter", "open the editor on it (not saved until you save)"),
                ("esc", "back to the catalog"),
            ],
        },
    ]
}

/// The Agents screen's catalog.
pub fn agents_sections() -> (sections: Vec<HelpSection>)
    ensures
        views(sections@) == agents_help(),
{
    let mut sections: Vec<HelpSection> = Vec::new();
    sections.push(
        HelpSection {
            title: "Agents (a)",
            entries: vec![
                ("↑ ↓ / k j", "select an agent"),
                ("home / end, pgup / pgdn", "first / last, a page at a time"),
                ("wheel", "over the list: move; over the preview: zoom"),
                ("enter / e", "edit it (a bundled one installs when saved)"),
                ("n", "new agent: start simple, or clone one"),
                ("l", "launch it: the new-run screen with it picked"),
                ("r", "rename an installed agent: its directory and its manifest's name"),
                ("d", "delete an installed agent (asks first)"),
                ("R", "reset an edited bundled agent to the bundled copy (asks first)"),
                ("/", "filter by name or description; enter keeps it, esc clears it"),
                ("esc / q", "back to the run list"),
                ("? / F1", "this help"),
            ],
        },
    );
    sections.push(
        HelpSection {
            title: "New agent (n)",
            entries: vec![
                ("↑ ↓", "pick the template; the name follows until you type one"),
                ("enter", "open the editor on it (not saved until you save)"),
                ("esc", "back to the catalog"),
            ],
        },
    );
    assert(views(sections@) =~~= agents_help());
    sections
}

/// The agent editor.
pub open spec fn agent_editor_help(keys: FormattingKeys) -> Seq<HelpView> {
    seq![
        HelpView {
            title: "Agent editor: everywhere",
            entries: seq![
                ("ctrl-s", "save (checks first; errors block it and open the problems)"),
                (
                    "tab",
                    "from the canvas: the inspector; on a stage's inspector: the next tab (shift-tab the one before); elsewhere: the canvas",
                ),
                ("ctrl-z / ctrl-y", "undo / redo an edit (ctrl-shift-z redoes too)"),
                ("v", "the definition: the exact file that will be saved (y copies it)"),
                ("p", "open / close the problems list under the canvas"),
                ("esc", "on the canvas: close (asks when there are unsaved edits)"),
            ],
        },
        HelpView {
            title: "Agent editor: canvas",
            entries: seq![
                ("↑ ↓ ← → / h j k l", "select a stage in that direction"),
                ("[ / ]", "previous / next stage in file order"),
                ("enter", "edit the selected stage or path in the inspector"),
                ("a", "add a stage after the selected one (asks its name)"),
                ("c", "connect the selected stage to another (or to itself)"),
                ("x / delete", "delete the selected stage (asks) or path"),
                ("+ / - / 0, f, r", "zoom, fit, turn the graph"),
                ("drag a box", "move it (the arrangement is kept per agent)"),
                ("drag a ●", "connect two stages with the mouse"),
                ("click", "select a stage or a path; on empty canvas, select nothing"),
                ("right-click", "a menu for the stage, path or canvas under the pointer"),
            ],
        },
        HelpView {
            title: "Agent editor: inspector",
            entries: seq![
                ("↑ ↓ / k j, home / end", "move between rows"),
                ("enter", "edit the row: type, choose, flip, open, or press the button"),
                (
                    "← → / h l",
                    "change the row in place: cycle a choice, step a number, flip a toggle, move a model in its chain",
                ),
                (
                    "1 2 3 4",
                    "a stage's tabs: behaviour, inputs & outputs, models & tools, context & tools",
                ),
                (
                    "x / backspace",
                    "remove the row: a model from the chain, a routing rule, a file declaration, a list of types",
                ),
                (
                    "enter on a region, a file or a loop",
                    "opens it in a window over the editor; esc closes the window",
                ),
                ("h / l on a model", "move it earlier or later in the chain"),
                (
                    "drag ⠿",
                    "pick a model up by its grip and drop it anywhere in the chain; the rest of the row still selects text",
                ),
                ("esc", "close the window, or move the keys to the canvas"),
                ("click", "pick a row (again to open it); click a tab to switch"),
            ],
        },
        HelpView {
            title: "Agent editor: choosers and the definition",
            entries: seq![
                ("type", "search the list; ↑ ↓ move; enter chooses, esc cancels"),
                ("space", "in the tools chooser: pick or drop a row; enter keeps the picks"),
                ("↑ ↓, y", "in the definition: scroll, copy it"),
            ],
        },
        HelpView {
            title: "Agent editor: prompts",
            entries: seq![
                ("tab", "move between the system prompt and the transition prompt"),
                ("ctrl-s / esc", "apply both and close"),
                ("ctrl-q", "close without applying"),
                ("F2", "open the focused prompt in $EDITOR (the dashboard waits for it)"),
                ("F1", "this help (? types a question mark in a prompt)"),
            ],
        },
        formatting_help(keys),
    ]
}

/// The agent editor.
pub fn agent_editor_sections(keys: &FormattingKeys) -> (sections: Vec<HelpSection>)
    ensures
        views(sections@) == agent_editor_help(*keys),
{
    let mut sections: Vec<HelpSection> = Vec::new();
    sections.push(
        HelpSection {
            title: "Agent editor: everywhere",
            entries: vec![
                ("ctrl-s", "save (checks first; errors block it and open the problems)"),
                (
                    "tab",
                    "from the canvas: the inspector; on a stage's inspector: the next tab (shift-tab the one before); elsewhere: the canvas",
                ),
                ("ctrl-z / ctrl-y", "undo / redo an edit (ctrl-shift-z redoes too)"),
                ("v", "the definition: the exact file that will be saved (y copies it)"),
                ("p", "open / close the problems list under the canvas"),
                ("esc", "on the canvas: close (asks when there are unsaved edits)"),
            ],
        },
    );
    sections.push(
        HelpSection {
            title: "Agent editor: canvas",
            entries: vec![
                ("↑ ↓ ← → / h j k l", "select a stage in that direction"),
                ("[ / ]", "previous / next stage in file order"),
                ("enter", "edit the selected stage or path in the inspector"),
                ("a", "add a stage after the selected one (asks its name)"),
                ("c", "connect the selected stage to another (or to itself)"),
                ("x / delete", "delete the selected stage (asks) or path"),
                ("+ / - / 0, f, r", "zoom, fit, turn the graph"),
                ("drag a box", "move it (the arrangement is kept per agent)"),
                ("drag a ●", "connect two stages with the mouse"),
                ("click", "select a stage or a path; on empty canvas, select nothing"),
                ("right-click", "a menu for the stage, path or canvas under the pointer"),
            ],
        },
    );
    sections.push(
        HelpSection {
            title: "Agent editor: inspector",
            entries: vec![
                ("↑ ↓ / k j, home / end", "move between rows"),
                ("enter", "edit the row: type, choose, flip, open, or press the button"),
                (
                    "← → / h l",
                    "change the row in place: cycle a choice, step a number, flip a toggle, move a model in its chain",
                ),
                (
                    "1 2 3 4",
                    "a stage's tabs: behaviour, inputs & outputs, models & tools, context & tools",
                ),
                (
                    "x / backspace",
                    "remove the row: a model from the chain, a routing rule, a file declaration, a list of types",
                ),
                (
                    "enter on a region, a file or a loop",
                    "opens it in a window over the editor; esc closes the window",
                ),
                ("h / l on a model", "move it earlier or later in the chain"),
                (
                    "drag ⠿",
                    "pick a model up by its grip and drop it anywhere in the chain; the rest of the row still selects text",
                ),
                ("esc", "close the window, or move the keys to the canvas"),
                ("click", "pick a row (again to open it); click a tab to switch"),
            ],
        },
    );
    sections.push(
        HelpSection {
            title: "Agent editor: choosers and the definition",
            entries: vec![
                ("type", "search the list; ↑ ↓ move; enter chooses, esc cancels"),
                ("space", "in the tools chooser: pick or drop a row; enter keeps the picks"),
                ("↑ ↓, y", "in the definition: scroll, copy it"),
            ],
        },
    );
    sections.push(
        HelpSection {
            title: "Agent editor: prompts",
            entries: vec![
                ("tab", "move between the system prompt and the transition prompt"),
                ("ctrl-s / esc", "apply both and close"),
                ("ctrl-q", "close without applying"),
                ("F2", "open the focused prompt in $EDITOR (the dashboard waits for it)"),
                ("F1", "this help (? types a question mark in a prompt)"),
            ],
        },
    );
    sections.push(formatting_section(keys));
    assert(views(sections@) =~~= agent_editor_help(*keys));
    sections
}

/// The run list: the screen the dashboard opens on.
pub open spec fn run_list_help() -> Seq<HelpView> {
    seq![
        HelpView {
            title: "Agent run list",
            entries: seq![
                ("↑ ↓ / k j", "select a run"),
                ("home / end (g / G)", "first / last run"),
                ("enter", "open the detail view"),
                ("← →", "fold / unfold a run's sub-agents (the ▸ ▾ arrow is clickable too)"),
                ("", "on a run with none: ← goes up to the parent, → down to the first child"),
                ("n", "start a new run"),
                ("tab / shift-tab", "focus the log panel"),
                ("/", "filter runs; enter keeps it, esc clears it"),
                ("s", "cycle sort: started / activity / status"),
                ("p / r", "pause / resume the selected run"),
                ("x", "kill the run (asks first)"),
                ("d", "delete the run and its files (asks first)"),
                (
                    "space",
                    "mark/unmark the run, then move down (marked runs are killed/deleted together)",
                ),
                ("m", "manage MCP servers"),
                ("a", "agents: the catalog and the editor"),
                ("esc", "clear the filter, then the marks"),
                ("q", "quit"),
            ],
        },
    ]
}

/// The run list: the screen the dashboard opens on.
pub fn run_list_sections() -> (sections: Vec<HelpSection>)
    ensures
        views(sections@) == run_list_help(),
{
    let mut sections: Vec<HelpSection> = Vec::new();
    sections.push(
        HelpSection {
            title: "Agent run list",
            entries: vec![
                ("↑ ↓ / k j", "select a run"),
                ("home / end (g / G)", "first / last run"),
                ("enter", "open the detail view"),
                ("← →", "fold / unfold a run's sub-agents (the ▸ ▾ arrow is clickable too)"),
                ("", "on a run with none: ← goes up to the parent, → down to the first child"),
                ("n", "start a new run"),
                ("tab / shift-tab", "focus the log panel"),
                ("/", "filter runs; enter keeps it, esc clears it"),
                ("s", "cycle sort: started / activity / status"),
                ("p / r", "pause / resume the selected run"),
                ("x", "kill the run (asks first)"),
                ("d", "delete the run and its files (asks first)"),
                (
                    "space",
                    "mark/unmark the run, then move down (marked runs are killed/deleted together)",
                ),
                ("m", "manage MCP servers"),
                ("a", "agents: the catalog and the editor"),
                ("esc", "clear the filter, then the marks"),
                ("q", "quit"),
            ],
        },
    );
    assert(views(sections@) =~~= run_list_help());
    sections
}

/// The log panel, once it has the keys.
pub open spec fn log_pane_help() -> Seq<HelpView> {
    seq![
        HelpView {
            title: "Log panel",
            entries: seq![
                ("↑ ↓ / k j", "scroll a line"),
                ("pgup / pgdn", "scroll a screen"),
                ("home / g", "oldest line"),
                ("end / G", "newest line, and follow again"),
                ("tab / shift-tab / esc", "back to the run list"),
                ("q", "quit"),
            ],
        },
    ]
}

/// The log panel, once it has the keys.
pub fn log_pane_sections() -> (sections: Vec<HelpSection>)
    ensures
        views(sections@) == log_pane_help(),
{
    let mut sections: Vec<HelpSection> = Vec::new();
    sections.push(
        HelpSection {
            title: "Log panel",
            entries: vec![
                ("↑ ↓ / k j", "scroll a line"),
                ("pgup / pgdn", "scroll a screen"),
                ("home / g", "oldest line"),
                ("end / G", "newest line, and follow again"),
                ("tab / shift-tab / esc", "back to the run list"),
                ("q", "quit"),
            ],
        },
    );
    assert(views(sections@) =~~= log_pane_help());
    sections
}

/// The detail view, its Context sub-view, and the response editor it opens.
pub open spec fn detail_help(keys: FormattingKeys) -> Seq<HelpView> {
    seq![
        HelpView {
            title: "Detail view",
            entries: seq![
                ("← →", "switch stage tab"),
                ("1-9", "jump to a stage by number"),
                ("l / o / c", "logs / output / context"),
                ("f", "the submitted answer, when the run has one"),
                ("↑ ↓ / k j", "scroll a line"),
                ("pgup / pgdn", "scroll ten lines"),
                ("home / end (b / e)", "top / bottom"),
                ("/", "search; n / N step through matches"),
                ("y", "copy this pane to the clipboard"),
                ("i", "respond, or send a message to a running agent run"),
                (
                    "enter on Deny with feedback",
                    "open a box for what the run should do instead; ^S or the Send button sends it with the deny, esc goes back to the prompt",
                ),
                ("g", "the stage graph explorer"),
                ("t", "the band: the run's path, or the whole blueprint"),
                ("R", "snake the path again, undoing boxes you moved"),
                (", / .", "older / newer context point; opens Context"),
                ("x", "kill the run (asks first)"),
                ("p / r", "pause / resume"),
                ("esc", "clear the search, then back to the list"),
                ("ctrl-c", "quit; q does nothing here"),
            ],
        },
        HelpView {
            title: "Context view (c)",
            entries: seq![
                ("↑ ↓ / k j", "move the tree cursor, not the scroll"),
                ("enter / space", "fold or unfold a row"),
                ("click", "the same, on the row under the pointer"),
                ("[ / ]", "previous / next region"),
                ("v", "open the stored part under the cursor with the OS"),
                ("w", "write it into the run's working directory"),
            ],
        },
        HelpView {
            title: "Stage explorer (g)",
            entries: seq![
                ("tab / shift-tab", "graph / timeline"),
                ("← → ↑ ↓ / h j k l", "graph: select a stage in that direction"),
                ("[ / ]", "graph: previous / next stage in blueprint order"),
                ("enter", "graph: open the stage's tab; timeline: open the visit's context"),
                ("+ / - / 0", "zoom in / out / back to 100%"),
                ("f", "fit the whole graph on screen"),
                ("r", "turn the graph: left to right / top to bottom"),
                ("t", "the whole graph, or only the path taken and what comes next"),
                ("e", "show or hide the escape edges (error, dead_end, ...)"),
                ("↑ ↓ / k j", "timeline: step through visits"),
                ("drag", "move a box; on empty canvas, pan"),
                ("wheel / click", "zoom / select on the canvas"),
                ("esc / g", "close the explorer"),
                ("", "the detail view's keys are off while it is open (e, c, l, o, b included)"),
            ],
        },
        HelpView {
            title: "Writing a response (i)",
            entries: seq![
                ("ctrl+s", "send"),
                ("ctrl+enter", "also sends (needs the kitty keyboard protocol)"),
                ("enter", "insert a newline; so does alt+enter"),
                ("tab", "move to the Send button; enter or space there sends"),
                ("pgup / pgdn", "scroll the document above the prompt"),
                ("esc", "cancel"),
                ("/quit or /exit", "end the conversation without answering"),
            ],
        },
        HelpView {
            title: "Choosing an option (i)",
            entries: seq![
                ("↑ ↓", "choose"),
                ("enter", "send the highlighted choice"),
                ("pgup / pgdn / home / end", "scroll the document"),
                ("esc", "cancel"),
            ],
        },
        formatting_help(keys),
    ]
}

/// The detail view, its Context sub-view, and the response editor it opens.
pub fn detail_sections(keys: &FormattingKeys) -> (sections: Vec<HelpSection>)
    ensures
        views(sections@) == detail_help(*keys),
{
    let mut sections: Vec<HelpSection> = Vec::new();
    sections.push(
        HelpSection {
            title: "Detail view",
            entries: vec![
                ("← →", "switch stage tab"),
                ("1-9", "jump to a stage by number"),
                ("l / o / c", "logs / output / context"),
                ("f", "the submitted answer, when the run has one"),
                ("↑ ↓ / k j", "scroll a line"),
                ("pgup / pgdn", "scroll ten lines"),
                ("home / end (b / e)", "top / bottom"),
                ("/", "search; n / N step through matches"),
                ("y", "copy this pane to the clipboard"),
                ("i", "respond, or send a message to a running agent run"),
                (
                    "enter on Deny with feedback",
                    "open a box for what the run should do instead; ^S or the Send button sends it with the deny, esc goes back to the prompt",
                ),
                ("g", "the stage graph explorer"),
                ("t", "the band: the run's path, or the whole blueprint"),
                ("R", "snake the path again, undoing boxes you moved"),
                (", / .", "older / newer context point; opens Context"),
                ("x", "kill the run (asks first)"),
                ("p / r", "pause / resume"),
                ("esc", "clear the search, then back to the list"),
                ("ctrl-c", "quit; q does nothing here"),
            ],
        },
    );
    sections.push(
        HelpSection {
            title: "Context view (c)",
            entries: vec![
                ("↑ ↓ / k j", "move the tree cursor, not the scroll"),
                ("enter / space", "fold or unfold a row"),
                ("click", "the same, on the row under the pointer"),
                ("[ / ]", "previous / next region"),
                ("v", "open the stored part under the cursor with the OS"),
                ("w", "write it into the run's working directory"),
            ],
        },
    );
    sections.push(
        HelpSection {
            title: "Stage explorer (g)",
            entries: vec![
                ("tab / shift-tab", "graph / timeline"),
                ("← → ↑ ↓ / h j k l", "graph: select a stage in that direction"),
                ("[ / ]", "graph: previous / next stage in blueprint order"),
                ("enter", "graph: open the stage's tab; timeline: open the visit's context"),
                ("+ / - / 0", "zoom in / out / back to 100%"),
                ("f", "fit the whole graph on screen"),
                ("r", "turn the graph: left to right / top to bottom"),
                ("t", "the whole graph, or only the path taken and what comes next"),
                ("e", "show or hide the escape edges (error, dead_end, ...)"),
                ("↑ ↓ / k j", "timeline: step through visits"),
                ("drag", "move a box; on empty canvas, pan"),
                ("wheel / click", "zoom / select on the canvas"),
                ("esc / g", "close the explorer"),
                ("", "the detail view's keys are off while it is open (e, c, l, o, b included)"),
            ],
        },
    );
    sections.push(
        HelpSection {
            title: "Writing a response (i)",
            entries: vec![
                ("ctrl+s", "send"),
                ("ctrl+enter", "also sends (needs the kitty keyboard protocol)"),
                ("enter", "insert a newline; so does alt+enter"),
                ("tab", "move to the Send button; enter or space there sends"),
                ("pgup / pgdn", "scroll the document above the prompt"),
                ("esc", "cancel"),
                ("/quit or /exit", "end the conversation without answering"),
            ],
        },
    );
    sections.push(
        HelpSection {
            title: "Choosing an option (i)",
            entries: vec![
                ("↑ ↓", "choose"),
                ("enter", "send the highlighted choice"),
                ("pgup / pgdn / home / end", "scroll the document"),
                ("esc", "cancel"),
            ],
        },
    );
    sections.push(formatting_section(keys));
    assert(views(sections@) =~~= detail_help(*keys));
    sections
}

/// The new-run screen: its panes and its completion menu.
pub open spec fn new_run_help(keys: FormattingKeys) -> Seq<HelpView> {
    seq![
        HelpView {
            title: "New run: agent blueprints",
            entries: seq![
                ("↑ ↓", "select an agent"),
                ("any letter", "filter the list"),
                ("backspace", "shorten the filter"),
                ("tab / enter", "move to the inputs, when the agent has any, else to the task"),
                ("esc", "clear the filter, then close"),
                ("F1", "this help (? types a question mark here)"),
            ],
        },
        HelpView {
            title: "New run: inputs",
            entries: seq![
                ("↑ ↓", "choose a slot: one per region the agent takes from the caller"),
                (
                    "enter / ^O",
                    "on a file slot, open the picker to choose files from the working directory",
                ),
                ("type", "text, on a slot that takes it"),
                ("enter", "on a text slot, the next slot; after the last, the task"),
                ("tab", "the task"),
                ("shift-tab / esc", "back to the agent list"),
            ],
        },
        HelpView {
            title: "New run: file picker",
            entries: seq![
                ("↑ ↓", "move through the files the region takes"),
                ("type", "filter the list by name"),
                (
                    "space",
                    "select or deselect the highlighted file (a one-file region swaps instead)",
                ),
                (
                    "enter",
                    "confirm the selection (it never selects on its own, so a slot can be left empty)",
                ),
                ("esc", "cancel without changing the slot"),
            ],
        },
        HelpView {
            title: "New run: task",
            entries: seq![
                ("ctrl+s", "start the run"),
                ("ctrl+enter", "also starts it (needs the kitty keyboard protocol)"),
                ("enter", "insert a newline; so does alt+enter"),
                ("@", "reference a file from the working directory"),
                ("tab", "the Start button: enter or space there starts the run"),
                ("shift-tab / esc", "back to the agent list"),
            ],
        },
        HelpView {
            title: "New run: @ files",
            entries: seq![
                ("↑ ↓", "choose a path"),
                ("enter / tab", "insert it"),
                ("backspace", "shorten; over the @ it ends the reference"),
                ("esc", "dismiss, keeping what you typed"),
            ],
        },
        HelpView {
            title: "New run: unattended",
            entries: seq![
                ("ctrl-y", "run without being asked to approve tool calls"),
                ("", "off every time this screen opens; warns before the first"),
                ("", "it does not skip checkpoints a blueprint asks a person for"),
            ],
        },
        formatting_help(keys),
    ]
}

/// The new-run screen: its panes and its completion menu.
pub fn new_run_sections(keys: &FormattingKeys) -> (sections: Vec<HelpSection>)
    ensures
        views(sections@) == new_run_help(*keys),
{
    let mut sections: Vec<HelpSection> = Vec::new();
    sections.push(
        HelpSection {
            title: "New run: agent blueprints",
            entries: vec![
                ("↑ ↓", "select an agent"),
                ("any letter", "filter the list"),
                ("backspace", "shorten the filter"),
                ("tab / enter", "move to the inputs, when the agent has any, else to the task"),
                ("esc", "clear the filter, then close"),
                ("F1", "this help (? types a question mark here)"),
            ],
        },
    );
    sections.push(
        HelpSection {
            title: "New run: inputs",
            entries: vec![
                ("↑ ↓", "choose a slot: one per region the agent takes from the caller"),
                (
                    "enter / ^O",
                    "on a file slot, open the picker to choose files from the working directory",
                ),
                ("type", "text, on a slot that takes it"),
                ("enter", "on a text slot, the next slot; after the last, the task"),
                ("tab", "the task"),
                ("shift-tab / esc", "back to the agent list"),
            ],
        },
    );
    sections.push(
        HelpSection {
            title: "New run: file picker",
            entries: vec![
                ("↑ ↓", "move through the files the region takes"),
                ("type", "filter the list by name"),
                (
                    "space",
                    "select or deselect the highlighted file (a one-file region swaps instead)",
                ),
                (
                    "enter",
                    "confirm the selection (it never selects on its own, so a slot can be left empty)",
                ),
                ("esc", "cancel without changing the slot"),
            ],
        },
    );
    sections.push(
        HelpSection {
            title: "New run: task",
            entries: vec![
                ("ctrl+s", "start the run"),
                ("ctrl+enter", "also starts it (needs the kitty keyboard protocol)"),
                ("enter", "insert a newline; so does alt+enter"),
                ("@", "reference a file from the working directory"),
                ("tab", "the Start button: enter or space there starts the run"),
                ("shift-tab / esc", "back to the agent list"),
            ],
        },
    );
    sections.push(
        HelpSection {
            title: "New run: @ files",
            entries: vec![
                ("↑ ↓", "choose a path"),
                ("enter / tab", "insert it"),
                ("backspace", "shorten; over the @ it ends the reference"),
                ("esc", "dismiss, keeping what you typed"),
            ],
        },
    );
    sections.push(
        HelpSection {
            title: "New run: unattended",
            entries: vec![
                ("ctrl-y", "run without being asked to approve tool calls"),
                ("", "off every time this screen opens; warns before the first"),
                ("", "it does not skip checkpoints a blueprint asks a person for"),
            ],
        },
    );
    sections.push(formatting_section(keys));
    assert(views(sections@) =~~= new_run_help(*keys));
    sections
}

/// The MCP screen and its add form.
pub open spec fn mcp_help() -> Seq<HelpView> {
    seq![
        HelpView {
            title: "MCP servers",
            entries: seq![
                ("↑ ↓ / k j", "move"),
                ("a", "add a server"),
                ("d", "remove (asks first)"),
                ("l", "browser login"),
                ("t", "test the connection"),
                ("r", "refresh the list"),
                ("esc", "back to the run list"),
                ("q", "quit"),
            ],
        },
        HelpView {
            title: "Adding a server (a)",
            entries: seq![
                ("", "type: <name> <url-or-command> [args…]"),
                ("enter", "add it"),
                ("backspace", "delete a character"),
                ("esc", "cancel"),
                ("F1", "this help (? types a question mark here)"),
            ],
        },
    ]
}

/// The MCP screen and its add form.
pub fn mcp_sections() -> (sections: Vec<HelpSection>)
    ensures
        views(sections@) == mcp_help(),
{
    let mut sections: Vec<HelpSection> = Vec::new();
    sections.push(
        HelpSection {
            title: "MCP servers",
            entries: vec![
                ("↑ ↓ / k j", "move"),
                ("a", "add a server"),
                ("d", "remove (asks first)"),
                ("l", "browser login"),
                ("t", "test the connection"),
                ("r", "refresh the list"),
                ("esc", "back to the run list"),
                ("q", "quit"),
            ],
        },
    );
    sections.push(
        HelpSection {
            title: "Adding a server (a)",
            entries: vec![
                ("", "type: <name> <url-or-command> [args…]"),
                ("enter", "add it"),
                ("backspace", "delete a character"),
                ("esc", "cancel"),
                ("F1", "this help (? types a question mark here)"),
            ],
        },
    );
    assert(views(sections@) =~~= mcp_help());
    sections
}

/// What every page of help ends with.
pub open spec fn shared_help() -> Seq<HelpView> {
    seq![
        HelpView {
            title: "Questions",
            entries: seq![
                ("← → / tab", "choose a button"),
                ("enter", "the focused button; it starts on the safe one"),
                ("y / n", "answer without moving first"),
                ("esc", "decline"),
            ],
        },
        HelpView {
            title: "Mouse",
            entries: seq![
                ("wheel", "scrolls whichever pane is under the pointer"),
                ("wheel on the run list", "moves the selection"),
                ("drag", "select text; releasing copies it"),
                ("click a run", "select it; the ▸ ▾ arrow folds its sub-agents"),
                ("double click a run", "open its detail view"),
                ("click the log panel", "move the keyboard there, like tab"),
                ("click a stage tab", "open that stage"),
                ("click [l] [o] [c]", "switch the content pane, like the letter"),
                ("click a context row", "fold or unfold it"),
            ],
        },
        HelpView {
            title: "Everywhere",
            entries: seq![
                ("ctrl-c", "quit, from any screen including dialogs"),
                ("? or F1", "this help (F1 where ? types text)"),
            ],
        },
    ]
}

/// What every page of help ends with.
pub fn shared_sections() -> (sections: Vec<HelpSection>)
    ensures
        views(sections@) == shared_help(),
{
    let mut sections: Vec<HelpSection> = Vec::new();
    sections.push(
        HelpSection {
            title: "Questions",
            entries: vec![
                ("← → / tab", "choose a button"),
                ("enter", "the focused button; it starts on the safe one"),
                ("y / n", "answer without moving first"),
                ("esc", "decline"),
            ],
        },
    );
    sections.push(
        HelpSection {
            title: "Mouse",
            entries: vec![
                ("wheel", "scrolls whichever pane is under the pointer"),
                ("wheel on the run list", "moves the selection"),
                ("drag", "select text; releasing copies it"),
                ("click a run", "select it; the ▸ ▾ arrow folds its sub-agents"),
                ("double click a run", "open its detail view"),
                ("click the log panel", "move the keyboard there, like tab"),
                ("click a stage tab", "open that stage"),
                ("click [l] [o] [c]", "switch the content pane, like the letter"),
                ("click a context row", "fold or unfold it"),
            ],
        },
    );
    sections.push(
        HelpSection {
            title: "Everywhere",
            entries: vec![
                ("ctrl-c", "quit, from any screen including dialogs"),
                ("? or F1", "this help (F1 where ? types text)"),
            ],
        },
    );
    assert(views(sections@) =~~= shared_help());
    sections
}

/// Whether the Agents screen is up, and whether its editor is.
#[derive(Clone, Copy, Debug, PartialEq, Eq, Structural)]
pub enum AgentsScreen {
    Closed,
    Catalog,
    Editor,
}

/// The help of the page on screen, without what every page ends with.
pub open spec fn page_help(dash: Dashboard, builder: AgentsScreen, keys: FormattingKeys) -> Seq<
    HelpView,
> {
    if builder == AgentsScreen::Editor {
        agent_editor_help(keys)
    } else if builder == AgentsScreen::Catalog {
        agents_help()
    } else if dash.new_run.open {
        new_run_help(keys)
    } else if dash.screens.mcp_screen {
        mcp_help()
    } else if dash.screens.detail_view {
        detail_help(keys)
    } else if dash.screens.main_focus == MainPane::LogPane {
        log_pane_help()
    } else {
        run_list_help()
    }
}

impl Dashboard {
    /// The help of the page on screen: its own sections, then the shared ones.
    pub fn draw_help_overlay(&self, builder: AgentsScreen, keys: &FormattingKeys) -> (sections: Vec<
        HelpSection,
    >)
        ensures
            views(sections@) == page_help(*self, builder, *keys) + shared_help(),
    {
        let mut sections = if builder == AgentsScreen::Editor {
            agent_editor_sections(keys)
        } else if builder == AgentsScreen::Catalog {
            agents_sections()
        } else if self.new_run.open {
            new_run_sections(keys)
        } else if self.screens.mcp_screen {
            mcp_sections()
        } else if self.screens.detail_view {
            detail_sections(keys)
        } else if self.screens.main_focus == MainPane::LogPane {
            log_pane_sections()
        } else {
            run_list_sections()
        };
        let mut shared = shared_sections();
        sections.append(&mut shared);
        sections
    }
}

/// Every page of help ends with the same sections, and the last of them names the
/// key that quits from anywhere.
pub proof fn every_help_page_ends_alike(
    dash: Dashboard,
    builder: AgentsScreen,
    keys: FormattingKeys,
)
    ensures
        ({
            let page = page_help(dash, builder, keys) + shared_help();
            let shared = shared_help().len() as int;
            &&& page.skip(page.len() - shared) == shared_help()
            &&& page.last().entries[0] == ("ctrl-c", "quit, from any screen including dialogs")
        }),
{
    let page = page_help(dash, builder, keys) + shared_help();
    assert(page.skip(page.len() - shared_help().len()) =~= shared_help());
    assert(page.last() == shared_help().last());
}

} // verus!
