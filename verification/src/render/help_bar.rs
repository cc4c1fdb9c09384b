//! The bar under the main screen: the keys that work where the keyboard is.

use crate::state::Dashboard;
use crate::style::{bold_ink, ink, plain, sp, span, strong, styled, Color, Line, Span, SpanView, Style};
use crate::text::{cat3, cat5, count_text, decimal};
use crate::types::{
    AgentDisplayStatus, DashboardAgent, InteractionKind, MainPane, StatusView, TreeShape,
};
use crate::views::{group_views, views};
use vstd::prelude::*;

verus! {

broadcast use group_views;

/// How many keys at the end of the bar stay on a narrow row: help, and the way out.
pub const LAST_KEPT: usize = 2;

/// The help bar: its keys, and how many of the last stay where there is no room for
/// all of them.
#[derive(Debug)]
pub struct HelpBar {
    pub line: Line,
    pub last_kept: usize,
}

/// A key and what it does.
pub open spec fn hint(key: Seq<char>, style: Style, text: Seq<char>) -> Seq<SpanView> {
    seq![sp(key, style), sp(text, plain())]
}

/// A bar that begins with a key and what it does.
fn bar(key: &str, style: Style, text: &str) -> (spans: Vec<Span>)
    ensures
        views(spans@) == hint(key@, style, text@),
{
    let mut spans: Vec<Span> = Vec::new();
    spans.push(span(key, style));
    spans.push(span(text, Style::plain()));
    assert(views(spans@) =~= hint(key@, style, text@));
    spans
}

/// Add a key and what it does.
fn push_hint(spans: &mut Vec<Span>, key: &str, style: Style, text: &str)
    ensures
        views(final(spans)@) == views(old(spans)@) + hint(key@, style, text@),
{
    let ghost before = views(spans@);
    spans.push(span(key, style));
    spans.push(span(text, Style::plain()));
    assert(views(spans@) =~= before + hint(key@, style, text@));
}

/// The bar of an open question.
pub open spec fn confirm_bar() -> Seq<SpanView> {
    hint("[←/→]"@, bold_ink(Color::Accent), " choose  "@) + hint(
        "[Enter]"@,
        bold_ink(Color::Accent),
        " confirm  "@,
    ) + hint("[Esc]"@, strong(), " cancel"@)
}

/// The bar of the log pane.
pub open spec fn log_bar() -> Seq<SpanView> {
    hint("[↑↓]"@, bold_ink(Color::Accent), " scroll log  "@) + hint(
        "[PgUp/PgDn]"@,
        strong(),
        " screen  "@,
    ) + hint("[End/G]"@, strong(), " newest  "@) + hint("[Home/g]"@, strong(), " oldest  "@)
        + hint("[Tab/Esc]"@, bold_ink(Color::Accent), " back to list  "@) + hint(
        "[?]"@,
        bold_ink(Color::Dim),
        " help  "@,
    ) + hint("[q]"@, bold_ink(Color::Dim), " quit"@)
}

/// The bar of the box for what a denied run should do instead.
pub open spec fn deny_bar() -> Seq<SpanView> {
    hint("[^S]"@, bold_ink(Color::Accent), " send with the deny  "@) + hint(
        "[Enter]"@,
        strong(),
        " newline  "@,
    ) + hint("[Tab]"@, strong(), " Send button  "@) + hint(
        "[Esc]"@,
        strong(),
        " back to the prompt"@,
    )
}

/// The bar of the response box.
pub open spec fn response_bar() -> Seq<SpanView> {
    hint("[^S]"@, bold_ink(Color::Accent), " send  "@) + hint("[Enter]"@, strong(), " newline  "@)
        + hint("[Tab]"@, strong(), " Send button  "@) + hint(
        "[PgUp/PgDn]"@,
        strong(),
        " scroll document  "@,
    ) + hint("[Esc]"@, strong(), " cancel"@)
}

/// The bar of a list of choices.
pub open spec fn choice_bar() -> Seq<SpanView> {
    hint("[↑↓]"@, bold_ink(Color::Accent), " select  "@) + hint(
        "[Enter]"@,
        bold_ink(Color::Accent),
        " confirm  "@,
    ) + hint("[PgUp/PgDn]"@, strong(), " scroll document  "@) + hint(
        "[Esc]"@,
        strong(),
        " cancel"@,
    )
}

/// A query being typed: what it is for, the query, and the cursor.
pub open spec fn typing(label: Seq<char>, query: Seq<char>) -> Seq<SpanView> {
    seq![
        sp(label, ink(Color::Accent)),
        sp(query, plain()),
        sp("▌"@, ink(Color::Accent)),
        sp("  "@, plain()),
    ]
}

/// The bar of a search being typed.
pub open spec fn search_bar(query: Seq<char>) -> Seq<SpanView> {
    typing(" Search: /"@, query) + hint("[Enter]"@, bold_ink(Color::Accent), " confirm  "@) + hint(
        "[Esc]"@,
        strong(),
        " cancel"@,
    )
}

/// The bar of a search that is on.
pub open spec fn found_bar(query: Seq<char>) -> Seq<SpanView> {
    hint(" /"@ + query + "/"@, ink(Color::Accent), "  "@) + hint(
        "[n]"@,
        bold_ink(Color::Accent),
        " next  "@,
    ) + hint("[N]"@, strong(), " prev  "@) + hint("[Esc]"@, strong(), " clear search  "@) + hint(
        "[y]"@,
        strong(),
        " yank  "@,
    ) + hint("[?]"@, bold_ink(Color::Dim), " help"@)
}

/// The bar of a filter being typed.
pub open spec fn filter_bar(query: Seq<char>) -> Seq<SpanView> {
    typing(" Filter: /"@, query) + hint("[Enter]"@, bold_ink(Color::Accent), " confirm  "@) + hint(
        "[Esc]"@,
        strong(),
        " clear"@,
    )
}

/// The bar of a filter that is on.
pub open spec fn filtered_bar(query: Seq<char>, shown: nat, total: nat) -> Seq<SpanView> {
    seq![
        sp(
            " /"@ + query + "/  "@ + decimal(shown) + "/"@ + decimal(total) + " "@,
            ink(Color::Accent),
        ),
    ] + hint("[/]"@, strong(), " refine  "@) + hint("[Esc]"@, strong(), " clear  "@) + hint(
        "[Enter]"@,
        bold_ink(Color::Accent),
        " detail  "@,
    ) + hint("[?]"@, bold_ink(Color::Dim), " help"@)
}

/// The keys that pause or resume, as the selected run's state allows them.
pub open spec fn pause_hints(status: Option<StatusView>) -> Seq<SpanView> {
    match status {
        Some(StatusView::Active) | Some(StatusView::Stale) => hint(
            "[p]"@,
            strong(),
            " pause  "@,
        ),
        Some(StatusView::Paused) => hint("[r]"@, bold_ink(Color::Warn), " resume  "@),
        _ => Seq::empty(),
    }
}

/// The key that kills, while the selected run is going.
pub open spec fn kill_hints(status: Option<StatusView>) -> Seq<SpanView> {
    match status {
        Some(StatusView::Active) | Some(StatusView::Waiting) => hint(
            "[x]"@,
            bold_ink(Color::Error),
            " kill  "@,
        ),
        _ => Seq::empty(),
    }
}

/// The key that answers or sends a message.
pub open spec fn input_hints(can_respond: bool, accepts_messages: bool) -> Seq<SpanView> {
    if can_respond {
        hint("[i]"@, bold_ink(Color::Warn), " respond  "@)
    } else if accepts_messages {
        hint("[i]"@, bold_ink(Color::Warn), " input  "@)
    } else {
        Seq::empty()
    }
}

/// The bar of the detail view.
pub open spec fn detail_bar(
    status: Option<StatusView>,
    can_respond: bool,
    accepts_messages: bool,
) -> Seq<SpanView> {
    hint("[←/→]"@, bold_ink(Color::Accent), " stage  "@) + hint("[1-9]"@, strong(), " jump  "@)
        + hint("[g]"@, bold_ink(Color::Accent), " graph  "@) + hint(
        "[↑/↓]"@,
        strong(),
        " scroll  "@,
    ) + hint("[/]"@, strong(), " search  "@) + hint("[y]"@, strong(), " yank  "@) + hint(
        "[l/o/c]"@,
        strong(),
        " logs/out/ctx  "@,
    ) + input_hints(can_respond, accepts_messages) + kill_hints(status) + pause_hints(status)
        + hint("[?]"@, bold_ink(Color::Dim), " help  "@) + hint("[Esc]"@, strong(), " back"@)
}

/// The key that folds, where there is something to fold.
pub open spec fn fold_hints(rows: Seq<TreeShape>) -> Seq<SpanView> {
    if exists|i: int| 0 <= i < rows.len() && (#[trigger] rows[i]).expandable {
        hint("[←/→]"@, bold_ink(Color::Accent), " fold sub-agents  "@)
    } else {
        Seq::empty()
    }
}

/// The bar of the run list.
pub open spec fn list_bar(status: Option<StatusView>, rows: Seq<TreeShape>) -> Seq<SpanView> {
    hint("[↑↓]"@, bold_ink(Color::Accent), " select  "@) + hint(
        "[Enter]"@,
        bold_ink(Color::Accent),
        " detail  "@,
    ) + fold_hints(rows) + hint("[n]"@, bold_ink(Color::Success), " new run  "@) + hint(
        "[a]"@,
        bold_ink(Color::Success),
        " agents  "@,
    ) + hint("[Tab]"@, bold_ink(Color::Accent), " log  "@) + hint(
        "[/]"@,
        bold_ink(Color::Accent),
        " filter  "@,
    ) + hint("[s]"@, strong(), " sort  "@) + hint("[d]"@, strong(), " delete  "@) + hint(
        "[space]"@,
        strong(),
        " mark  "@,
    ) + hint("[m]"@, strong(), " mcp  "@) + kill_hints(status) + pause_hints(status) + hint(
        "[?]"@,
        bold_ink(Color::Dim),
        " help  "@,
    ) + hint("[q]"@, strong(), " quit"@)
}

/// How the run the cursor is on stands.
pub open spec fn current_status(dash: Dashboard) -> Option<StatusView> {
    match dash.current() {
        Some(agent) => Some(agent.status@),
        None => None,
    }
}

/// What kind of prompt the run the cursor is on is blocked on.
pub open spec fn current_kind(dash: Dashboard) -> Option<InteractionKind> {
    match dash.current() {
        Some(agent) => match agent.pending_request {
            Some(request) => Some(request.kind),
            None => None,
        },
        None => None,
    }
}

/// The bar of a response being given.
pub open spec fn answer_bar(deny_open: bool, kind: Option<InteractionKind>) -> Seq<SpanView> {
    if deny_open {
        deny_bar()
    } else {
        match kind {
            Some(InteractionKind::FreeText) | Some(InteractionKind::EditText) | None => {
                response_bar()
            },
            _ => choice_bar(),
        }
    }
}

/// The keys that work where the keyboard is.
pub open spec fn help_line(dash: Dashboard, can_respond: bool, accepts_messages: bool) -> Seq<
    SpanView,
> {
    if dash.notes.pending_confirm is Some {
        confirm_bar()
    } else if dash.screens.main_focus == MainPane::LogPane && !dash.screens.detail_view
        && !dash.screens.mcp_screen {
        log_bar()
    } else if dash.screens.detail_view && dash.reply.input_mode {
        answer_bar(dash.reply.deny_feedback_open, current_kind(dash))
    } else if dash.screens.detail_view && dash.detail.search_mode {
        search_bar(dash.detail.search_query@)
    } else if dash.screens.detail_view && dash.detail.search_query@.len() > 0 {
        found_bar(dash.detail.search_query@)
    } else if dash.screens.detail_view {
        detail_bar(current_status(dash), can_respond, accepts_messages)
    } else if dash.runs.search_mode {
        filter_bar(dash.runs.search_query@)
    } else if dash.runs.search_query@.len() > 0 {
        filtered_bar(
            dash.runs.search_query@,
            dash.runs.display_indices@.len(),
            dash.runs.agents@.len(),
        )
    } else {
        list_bar(current_status(dash), dash.runs.tree_rows@)
    }
}

/// The bar of an open question.
fn show_confirm_bar() -> (spans: Vec<Span>)
    ensures
        views(spans@) == confirm_bar(),
{
    let mut spans = bar("[←/→]", Style::bold_ink(Color::Accent), " choose  ");
    push_hint(&mut spans, "[Enter]", Style::bold_ink(Color::Accent), " confirm  ");
    push_hint(&mut spans, "[Esc]", Style::strong(), " cancel");
    spans
}

/// The bar of the log pane.
fn show_log_bar() -> (spans: Vec<Span>)
    ensures
        views(spans@) == log_bar(),
{
    let mut spans = bar("[↑↓]", Style::bold_ink(Color::Accent), " scroll log  ");
    push_hint(&mut spans, "[PgUp/PgDn]", Style::strong(), " screen  ");
    push_hint(&mut spans, "[End/G]", Style::strong(), " newest  ");
    push_hint(&mut spans, "[Home/g]", Style::strong(), " oldest  ");
    push_hint(&mut spans, "[Tab/Esc]", Style::bold_ink(Color::Accent), " back to list  ");
    push_hint(&mut spans, "[?]", Style::bold_ink(Color::Dim), " help  ");
    push_hint(&mut spans, "[q]", Style::bold_ink(Color::Dim), " quit");
    spans
}

/// The bar of a response being given.
fn show_answer_bar(deny_open: bool, kind: Option<InteractionKind>) -> (spans: Vec<Span>)
    ensures
        views(spans@) == answer_bar(deny_open, kind),
{
    if deny_open {
        let mut spans = bar("[^S]", Style::bold_ink(Color::Accent), " send with the deny  ");
        push_hint(&mut spans, "[Enter]", Style::strong(), " newline  ");
        push_hint(&mut spans, "[Tab]", Style::strong(), " Send button  ");
        push_hint(&mut spans, "[Esc]", Style::strong(), " back to the prompt");
        return spans;
    }
    match kind {
        Some(InteractionKind::FreeText) | Some(InteractionKind::EditText) | None => {
            let mut spans = bar("[^S]", Style::bold_ink(Color::Accent), " send  ");
            push_hint(&mut spans, "[Enter]", Style::strong(), " newline  ");
            push_hint(&mut spans, "[Tab]", Style::strong(), " Send button  ");
            push_hint(&mut spans, "[PgUp/PgDn]", Style::strong(), " scroll document  ");
            push_hint(&mut spans, "[Esc]", Style::strong(), " cancel");
            spans
        },
        _ => {
            let mut spans = bar("[↑↓]", Style::bold_ink(Color::Accent), " select  ");
            push_hint(&mut spans, "[Enter]", Style::bold_ink(Color::Accent), " confirm  ");
            push_hint(&mut spans, "[PgUp/PgDn]", Style::strong(), " scroll document  ");
            push_hint(&mut spans, "[Esc]", Style::strong(), " cancel");
            spans
        },
    }
}

/// A query being typed.
fn show_typing(label: &str, query: &str) -> (spans: Vec<Span>)
    ensures
        views(spans@) == typing(label@, query@),
{
    let mut spans: Vec<Span> = Vec::new();
    spans.push(span(label, Style::ink(Color::Accent)));
    spans.push(span(query, Style::plain()));
    spans.push(span("▌", Style::ink(Color::Accent)));
    spans.push(span("  ", Style::plain()));
    assert(views(spans@) =~= typing(label@, query@));
    spans
}

/// The bar of a search that is on.
fn show_found_bar(query: &str) -> (spans: Vec<Span>)
    ensures
        views(spans@) == found_bar(query@),
{
    let label = cat3(" /", query, "/");
    let mut spans = bar(label.as_str(), Style::ink(Color::Accent), "  ");
    push_hint(&mut spans, "[n]", Style::bold_ink(Color::Accent), " next  ");
    push_hint(&mut spans, "[N]", Style::strong(), " prev  ");
    push_hint(&mut spans, "[Esc]", Style::strong(), " clear search  ");
    push_hint(&mut spans, "[y]", Style::strong(), " yank  ");
    push_hint(&mut spans, "[?]", Style::bold_ink(Color::Dim), " help");
    spans
}

/// The bar of a filter that is on.
fn show_filtered_bar(query: &str, shown: usize, total: usize) -> (spans: Vec<Span>)
    ensures
        views(spans@) == filtered_bar(query@, shown as nat, total as nat),
{
    let some = count_text(shown);
    let all = count_text(total);
    let mut label = cat5(" /", query, "/  ", some.as_str(), "/");
    label.append(all.as_str());
    label.append(" ");
    let mut spans: Vec<Span> = Vec::new();
    spans.push(styled(label, Style::ink(Color::Accent)));
    push_hint(&mut spans, "[/]", Style::strong(), " refine  ");
    push_hint(&mut spans, "[Esc]", Style::strong(), " clear  ");
    push_hint(&mut spans, "[Enter]", Style::bold_ink(Color::Accent), " detail  ");
    push_hint(&mut spans, "[?]", Style::bold_ink(Color::Dim), " help");
    spans
}

/// Add the key that kills, while the selected run is going.
fn push_kill_spans(spans: &mut Vec<Span>, agent: Option<&DashboardAgent>)
    ensures
        views(final(spans)@) == views(old(spans)@) + kill_hints(
            match agent {
                Some(a) => Some(a.status@),
                None => None,
            },
        ),
{
    let ghost before = views(spans@);
    let going = match agent {
        Some(a) => match a.status {
            AgentDisplayStatus::Active | AgentDisplayStatus::Waiting => true,
            _ => false,
        },
        None => false,
    };
    if going {
        push_hint(spans, "[x]", Style::bold_ink(Color::Error), " kill  ");
    } else {
        assert(views(spans@) =~= before + Seq::<SpanView>::empty());
    }
}

impl Dashboard {
    /// Add the key that pauses or resumes, as the selected run's state allows.
    pub fn push_pause_resume_spans(&self, spans: &mut Vec<Span>)
        ensures
            views(final(spans)@) == views(old(spans)@) + pause_hints(current_status(*self)),
    {
        let ghost before = views(spans@);
        match self.selected_agent() {
            Some(agent) => match agent.status {
                AgentDisplayStatus::Active | AgentDisplayStatus::Stale => {
                    push_hint(spans, "[p]", Style::strong(), " pause  ");
                },
                AgentDisplayStatus::Paused => {
                    push_hint(spans, "[r]", Style::bold_ink(Color::Warn), " resume  ");
                },
                _ => {
                    assert(views(spans@) =~= before + Seq::<SpanView>::empty());
                },
            },
            None => {
                assert(views(spans@) =~= before + Seq::<SpanView>::empty());
            },
        }
    }

    /// The bar of the detail view.
    pub fn build_detail_help_bar(&self, can_respond: bool, accepts_messages: bool) -> (line: Line)
        ensures
            line@ == detail_bar(current_status(*self), can_respond, accepts_messages),
    {
        let mut spans = bar("[←/→]", Style::bold_ink(Color::Accent), " stage  ");
        push_hint(&mut spans, "[1-9]", Style::strong(), " jump  ");
        push_hint(&mut spans, "[g]", Style::bold_ink(Color::Accent), " graph  ");
        push_hint(&mut spans, "[↑/↓]", Style::strong(), " scroll  ");
        push_hint(&mut spans, "[/]", Style::strong(), " search  ");
        push_hint(&mut spans, "[y]", Style::strong(), " yank  ");
        push_hint(&mut spans, "[l/o/c]", Style::strong(), " logs/out/ctx  ");
        let ghost so_far = views(spans@);
        if can_respond {
            push_hint(&mut spans, "[i]", Style::bold_ink(Color::Warn), " respond  ");
        } else if accepts_messages {
            push_hint(&mut spans, "[i]", Style::bold_ink(Color::Warn), " input  ");
        }
        assert(views(spans@) =~= so_far + input_hints(can_respond, accepts_messages));
        push_kill_spans(&mut spans, self.selected_agent());
        self.push_pause_resume_spans(&mut spans);
        push_hint(&mut spans, "[?]", Style::bold_ink(Color::Dim), " help  ");
        push_hint(&mut spans, "[Esc]", Style::strong(), " back");
        Line { spans }
    }

    /// The bar of the run list.
    pub fn build_main_list_help_bar(&self) -> (line: Line)
        ensures
            line@ == list_bar(current_status(*self), self.runs.tree_rows@),
    {
        let mut spans = bar("[↑↓]", Style::bold_ink(Color::Accent), " select  ");
        push_hint(&mut spans, "[Enter]", Style::bold_ink(Color::Accent), " detail  ");
        let ghost so_far = views(spans@);
        if has_fold(&self.runs.tree_rows) {
            push_hint(&mut spans, "[←/→]", Style::bold_ink(Color::Accent), " fold sub-agents  ");
        }
        assert(views(spans@) =~= so_far + fold_hints(self.runs.tree_rows@));
        push_hint(&mut spans, "[n]", Style::bold_ink(Color::Success), " new run  ");
        push_hint(&mut spans, "[a]", Style::bold_ink(Color::Success), " agents  ");
        push_hint(&mut spans, "[Tab]", Style::bold_ink(Color::Accent), " log  ");
        push_hint(&mut spans, "[/]", Style::bold_ink(Color::Accent), " filter  ");
        push_hint(&mut spans, "[s]", Style::strong(), " sort  ");
        push_hint(&mut spans, "[d]", Style::strong(), " delete  ");
        push_hint(&mut spans, "[space]", Style::strong(), " mark  ");
        push_hint(&mut spans, "[m]", Style::strong(), " mcp  ");
        push_kill_spans(&mut spans, self.selected_agent());
        self.push_pause_resume_spans(&mut spans);
        push_hint(&mut spans, "[?]", Style::bold_ink(Color::Dim), " help  ");
        push_hint(&mut spans, "[q]", Style::strong(), " quit");
        Line { spans }
    }

    /// The keys that work where the keyboard is. Whether the selected stage can
    /// be answered, and whether its run takes messages, is for the caller to
    /// say.
    fn help_keys(&self, can_respond: bool, accepts_messages: bool) -> (line: Line)
        ensures
            line@ == help_line(*self, can_respond, accepts_messages),
    {
        if self.notes.pending_confirm.is_some() {
            return Line { spans: show_confirm_bar() };
        }
        if self.screens.main_focus == MainPane::LogPane && !self.screens.detail_view
            && !self.screens.mcp_screen {
            return Line { spans: show_log_bar() };
        }
        if self.screens.detail_view {
            if self.reply.input_mode {
                let kind = match self.selected_agent() {
                    Some(agent) => match &agent.pending_request {
                        Some(request) => Some(request.kind),
                        None => None,
                    },
                    None => None,
                };
                return Line { spans: show_answer_bar(self.reply.deny_feedback_open, kind) };
            }
            if self.detail.search_mode {
                let mut spans = show_typing(" Search: /", self.detail.search_query.as_str());
                push_hint(&mut spans, "[Enter]", Style::bold_ink(Color::Accent), " confirm  ");
                push_hint(&mut spans, "[Esc]", Style::strong(), " cancel");
                return Line { spans };
            }
            if !self.detail.search_query.as_str().is_empty() {
                return Line { spans: show_found_bar(self.detail.search_query.as_str()) };
            }
            return self.build_detail_help_bar(can_respond, accepts_messages);
        }
        if self.runs.search_mode {
            let mut spans = show_typing(" Filter: /", self.runs.search_query.as_str());
            push_hint(&mut spans, "[Enter]", Style::bold_ink(Color::Accent), " confirm  ");
            push_hint(&mut spans, "[Esc]", Style::strong(), " clear");
            return Line { spans };
        }
        if !self.runs.search_query.as_str().is_empty() {
            return Line {
                spans: show_filtered_bar(
                    self.runs.search_query.as_str(),
                    self.runs.display_indices.len(),
                    self.runs.agents.len(),
                ),
            };
        }
        self.build_main_list_help_bar()
    }

    /// The help bar: the keys that work where the keyboard is, and how many at its
    /// end stay where the row is too narrow for all of them. The row itself, and what
    /// of the middle gives way on it, is the terminal's.
    pub fn draw_help_bar(&self, can_respond: bool, accepts_messages: bool) -> (bar: HelpBar)
        ensures
            bar.line@ == help_line(*self, can_respond, accepts_messages),
            bar.last_kept == 2,
    {
        HelpBar { line: self.help_keys(can_respond, accepts_messages), last_kept: LAST_KEPT }
    }
}

/// Whether any row can be folded.
fn has_fold(rows: &Vec<TreeShape>) -> (there: bool)
    ensures
        there == exists|i: int| 0 <= i < rows@.len() && (#[trigger] rows@[i]).expandable,
{
    let mut i: usize = 0;
    while i < rows.len()
        invariant
            i <= rows@.len(),
            forall|j: int| 0 <= j < i ==> !(#[trigger] rows@[j]).expandable,
        decreases rows.len() - i,
    {
        if rows[i].expandable {
            return true;
        }
        i = i + 1;
    }
    false
}

} // verus!
