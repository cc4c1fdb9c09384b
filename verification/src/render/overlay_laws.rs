//! What stands over the panes: toasts, pages of help, and what the new-run screen says around
//! its own.

use crate::render::button::button_ink;
use crate::render::new_run::{
    agents_width, attached, focus_ink, help_text, inputs_rows, picker_hint, picker_row,
    picker_title, popup_area, popup_lines, preview_rows, task_title, unattended_state,
};
use crate::render::overlays::{
    page_help, toast_area, toast_line, toasts_show, AgentsScreen, FormattingKeys,
};
use crate::state::Dashboard;
use crate::style::{Color, Rect};
use crate::text::{decimal, joined, opt_text, truncated};
use crate::types::{MainPane, NewAgentView, NewRunPane, Toast};
use crate::views::group_views;
use vstd::prelude::*;

verus! {

broadcast use group_views;

// ── Toasts ───────────────────────────────────────────────────────────────────

/// A toast wears the mark of its level in its colour, and says its message, cut to the room
/// beside that.
pub proof fn a_toast_wears_its_level(toast: Toast, width: u16)
    requires
        width >= 4,
    ensures
        ({
            let line = toast_line(toast@, width);
            &&& line.len() == 2
            &&& line[1].content == truncated(toast.message@, (width - 4) as nat)
            &&& (toast.level is Info ==> line[0].content == " "@ + "✓"@ + " "@ && line[0].style.fg
                == Some(Color::Success))
            &&& (toast.level is Warning ==> line[0].content == " "@ + "!"@ + " "@
                && line[0].style.fg == Some(Color::Warn))
            &&& (toast.level is Error ==> line[0].content == " "@ + "✗"@ + " "@ && line[0].style.fg
                == Some(Color::Error))
            &&& (toast.level is Progress ==> line[0].content == " "@ + "◌"@ + " "@
                && line[0].style.fg == Some(Color::Active))
        }),
{
}

/// Toasts stand inside the frame, one column from its right edge and below its first row, one row
/// for each as far as there is room; on a frame too narrow for one there are none.
pub proof fn toasts_stand_at_the_right(frame: Rect, toasts: nat)
    requires
        toasts_show(frame, toasts),
        toasts < 65_536,
    ensures
        ({
            let area = toast_area(frame, toasts);
            &&& 12 <= area.width <= 40
            &&& area.x + area.width + 1 == frame.width
            &&& area.x >= 1
            &&& area.y == 1
            &&& area.y + area.height <= frame.height
            &&& (toasts <= frame.height - 1 ==> area.height == toasts)
            &&& (toasts > frame.height - 1 ==> area.height == frame.height - 1)
        }),
{
}

/// Toasts show if and only if there are some and the frame has fourteen columns and a second row.
pub proof fn toasts_show_where_there_is_room(frame: Rect, toasts: nat)
    ensures
        toasts_show(frame, toasts) <==> toasts > 0 && frame.width >= 14 && frame.height >= 2,
{
}

// ── Help ─────────────────────────────────────────────────────────────────────

/// Help is of the page on screen: the editor before the catalog, that before the new-run screen,
/// then the servers, a run's detail, the log, and last the list of runs.
pub proof fn help_is_of_the_page_on_screen(
    dash: Dashboard,
    builder: AgentsScreen,
    keys: FormattingKeys,
)
    ensures
        ({
            let first = page_help(dash, builder, keys)[0].title;
            let away = builder != AgentsScreen::Editor && builder != AgentsScreen::Catalog;
            &&& (builder == AgentsScreen::Editor ==> first == "Agent editor: everywhere")
            &&& (builder == AgentsScreen::Catalog ==> first == "Agents (a)")
            &&& (away && dash.new_run.open ==> first == "New run: agent blueprints")
            &&& (away && !dash.new_run.open && dash.screens.mcp_screen ==> first == "MCP servers")
            &&& (away && !dash.new_run.open && !dash.screens.mcp_screen && dash.screens.detail_view
                ==> first == "Detail view")
            &&& (away && !dash.new_run.open && !dash.screens.mcp_screen && !dash.screens.detail_view
                && dash.screens.main_focus == MainPane::LogPane ==> first == "Log panel")
            &&& (away && !dash.new_run.open && !dash.screens.mcp_screen && !dash.screens.detail_view
                && dash.screens.main_focus != MainPane::LogPane ==> first == "Agent run list")
        }),
{
}

// ── The new-run screen ───────────────────────────────────────────────────────

/// An agent's row says its name, where it comes from and what it is for, and one that still has
/// to be installed stands out.
pub proof fn a_row_says_where_an_agent_comes_from(agent: NewAgentView)
    ensures
        picker_row(agent).len() == 3,
        picker_row(agent)[0].content == agent.name,
        picker_row(agent)[1].content == agent.source,
        picker_row(agent)[2].content == agent.description,
        picker_row(agent)[1].style.fg == Some(Color::Warn) <==> agent.source == "bundled"@,
{
}

/// The list's title counts the agents, and while a filter is on says it and how many it leaves.
pub proof fn the_list_counts_its_agents(filter: Seq<char>, visible: nat, all: nat)
    ensures
        filter.len() == 0 ==> picker_title(filter, visible, all) == " Agent Blueprints ("@
            + decimal(visible) + ") "@,
        filter.len() > 0 ==> picker_title(filter, visible, all) == " Agent Blueprints  /"@ + filter
            + "▌  "@ + decimal(visible) + "/"@ + decimal(all) + " "@,
        filter.len() > 0 ==> picker_hint(filter) == "No agent blueprints match \""@ + filter
            + "\"."@,
{
}

/// The task's title names the chosen agent, warns while runs are unattended, and counts and names
/// the files that go along.
pub proof fn the_task_says_what_it_starts(dash: Dashboard, names: Seq<Seq<char>>)
    ensures
        ({
            let title = task_title(dash, names);
            &&& title.len() == 3
            &&& (dash.chosen_agent() matches Some(agent) ==> title[0].content == " Task for "@
                + agent.name@ + " "@)
            &&& (dash.chosen_agent() is None ==> title[0].content == " Task for "@
                + "no agent blueprint selected"@ + " "@)
            &&& (dash.unattended.on ==> title[1].content == "[ unattended ] "@
                && title[1].style.fg == Some(Color::Warn))
            &&& (!dash.unattended.on ==> title[1].content.len() == 0)
            &&& (names.len() == 0 ==> title[2].content.len() == 0)
            &&& (names.len() > 0 ==> title[2].content == "["@ + decimal(names.len())
                + " attached: "@ + joined(names, ", "@) + "] "@)
        }),
{
}

/// The completion shows every path it offers, in order, with the highlighted one in bold, and says
/// so where it offers none.
pub proof fn the_completion_shows_what_it_offers(paths: Seq<Seq<char>>, selected: usize, at: int)
    ensures
        paths.len() == 0 ==> popup_lines(paths, selected).len() == 1 && popup_lines(
            paths,
            selected,
        )[0][0].content == " no matching file "@,
        paths.len() > 0 ==> popup_lines(paths, selected).len() == paths.len(),
        0 <= at < paths.len() ==> popup_lines(paths, selected)[at][0].content == " "@ + paths[at]
            + " "@ && (popup_lines(paths, selected)[at][0].style.bold <==> at == selected),
{
}

/// The completion stands at the bottom of its pane, a row for each line and a border, as far as
/// the pane is high.
pub proof fn the_completion_stands_at_the_bottom(area: Rect, lines: nat)
    requires
        area.x < u16::MAX,
        area.y + area.height <= u16::MAX,
    ensures
        popup_area(area, lines).x == area.x + 1,
        popup_area(area, lines).y + popup_area(area, lines).height == area.y + area.height,
        lines + 2 <= area.height ==> popup_area(area, lines).height == lines + 2,
        lines + 2 > area.height ==> popup_area(area, lines).height == area.height,
        area.width >= 2 ==> popup_area(area, lines).width == area.width - 2,
{
}

/// The switch is said to be on if and only if it is, and with its profile where it has one.
pub proof fn the_bar_says_how_the_switch_stands(dash: Dashboard, bold: Seq<char>, mode: Seq<char>)
    ensures
        unattended_state(false, opt_text(dash.unattended.profile)) == "unattended: off"@,
        unattended_state(true, None) == "unattended: on"@,
        dash.unattended.profile is Some ==> unattended_state(
            true,
            opt_text(dash.unattended.profile),
        ) == "unattended: on ("@ + dash.unattended.profile->0@ + ")"@,
        dash.inputs.picker is None && !dash.file_ref.open && dash.new_run.focus
            == NewRunPane::Start ==> help_text(dash, bold, mode)
            == " Enter/Space start the run · Shift+Tab task · Tab agents · ^Y "@ + unattended_state(
            dash.unattended.on,
            opt_text(dash.unattended.profile),
        ) + " · F1 help · Esc back "@,
        dash.inputs.picker is Some ==> help_text(dash, bold, mode)
            == " ↑↓ move · Space select · Enter done · Esc cancel · type to filter "@,
        dash.inputs.picker is None && dash.file_ref.open ==> help_text(dash, bold, mode)
            == " ↑↓ choose · Enter/Tab insert · Esc dismiss "@,
{
}

/// The agents have forty-five hundredths of the screen, to the nearest column; a preview leaves
/// the task a row, and the slots are shown all or not at all, with more than eight rows left for
/// the task.
pub proof fn the_screen_is_shared(width: u16, height: u16, preview: u16, slots: nat)
    requires
        slots + 2 <= u16::MAX,
    ensures
        90 * width - 100 <= 200 * agents_width(width) <= 90 * width + 100,
        agents_width(width) <= width,
        height > 0 ==> preview_rows(height, preview) < height,
        preview < height ==> preview_rows(height, preview) == preview,
        inputs_rows(slots, height, preview) == 0 || (inputs_rows(slots, height, preview) == slots
            + 2 && slots + 2 + 8 + preview < height),
        slots > 0 && slots + 2 + 8 + preview < height ==> inputs_rows(slots, height, preview)
            == slots + 2,
{
}

/// A pane that has the keys has a lit border, and no other.
pub proof fn the_pane_with_the_keys_is_lit()
    ensures
        focus_ink(true) != focus_ink(false),
        focus_ink(true) is BorderFocus,
{
}

/// The pages say of the keys that end something what they end: on the list of runs and in a run's
/// detail a kill asks first, on the list so does a delete, and on the servers' page a removal.
pub proof fn help_says_what_ends_something(dash: Dashboard, keys: FormattingKeys)
    ensures
        ({
            let page = page_help(dash, AgentsScreen::Closed, keys)[0].entries;
            let list = !dash.new_run.open && !dash.screens.mcp_screen && !dash.screens.detail_view
                && dash.screens.main_focus != MainPane::LogPane;
            let detail = !dash.new_run.open && !dash.screens.mcp_screen && dash.screens.detail_view;
            let servers = !dash.new_run.open && dash.screens.mcp_screen;
            &&& (list ==> page.contains(("x", "kill the run (asks first)")) && page.contains(
                ("d", "delete the run and its files (asks first)"),
            ) && page.contains(("n", "start a new run")) && page.contains(("q", "quit")))
            &&& (detail ==> page.contains(("x", "kill the run (asks first)")) && page.contains(
                ("p / r", "pause / resume"),
            ) && page.contains(("esc", "clear the search, then back to the list")))
            &&& (servers ==> page.contains(("d", "remove (asks first)")) && page.contains(
                ("esc", "back to the run list"),
            ))
            &&& (dash.new_run.open ==> page.contains(("any letter", "filter the list"))
                && page.contains(("esc", "clear the filter, then close")))
        }),
{
    let page = page_help(dash, AgentsScreen::Closed, keys)[0].entries;
    if dash.new_run.open {
        assert(page[1] == ("any letter", "filter the list"));
        assert(page[4] == ("esc", "clear the filter, then close"));
    } else if dash.screens.mcp_screen {
        assert(page[2] == ("d", "remove (asks first)"));
        assert(page[6] == ("esc", "back to the run list"));
    } else if dash.screens.detail_view {
        assert(page[15] == ("x", "kill the run (asks first)"));
        assert(page[16] == ("p / r", "pause / resume"));
        assert(page[17] == ("esc", "clear the search, then back to the list"));
    } else if dash.screens.main_focus != MainPane::LogPane {
        assert(page[5] == ("n", "start a new run"));
        assert(page[10] == ("x", "kill the run (asks first)"));
        assert(page[11] == ("d", "delete the run and its files (asks first)"));
        assert(page[16] == ("q", "quit"));
    }
}

/// A button that has the keys is lit, and one that has not is quiet.
pub proof fn a_button_with_the_keys_is_lit()
    ensures
        button_ink(true).bg == Some(Color::BorderFocus) && button_ink(true).bold,
        button_ink(false).bg is None && !button_ink(false).bold,
{
}

} // verus!
