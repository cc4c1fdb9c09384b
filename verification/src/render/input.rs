//! The prompt under the detail view, the response box, and the document that is
//! up for review.

use crate::outside::{rows_of, wrapped_rows, WIDEST};
use crate::render::button::{button_put, EditorRows};
use crate::render::content::{
    inner_columns, inner_rows, percent_scrolled, scroll_limit, scroll_percent, settle_scroll,
    settled_scroll,
};
use crate::state::{Dashboard, Detail};
use crate::style::{
    bold_ink, ink, line1, raw, raw_line, sp, span, styled, Color, Line, Rect, SpanView, Style,
};
use crate::text::{
    cat2, cat3, cat4, cat5, copy_of, count_text, decimal, number, truncate, truncated,
};
use crate::types::{
    AgentDisplayStatus, AgentView, ClickTarget, DashboardAgent, InteractionKind,
    InteractionRequest, RequestView, StatusView,
};
use crate::views::{group_views, views};
use vstd::prelude::*;

verus! {

broadcast use group_views;

// ── The document up for review ───────────────────────────────────────────────

/// The review pane: its title, what its lower border says, and how far it is
/// scrolled.
#[derive(Debug)]
pub struct ReviewPane {
    pub title: String,
    pub scroll_info: String,
    /// Rows hidden above the pane.
    pub scroll_y: usize,
    /// The furthest it can be scrolled, where there is more than fits.
    pub scrollbar: Option<usize>,
}

/// The review pane's title: the prompt, cut to the border.
pub open spec fn review_title(prompt: Option<Seq<char>>, area: Rect) -> Seq<char> {
    match prompt {
        Some(text) => " "@ + truncated(
            text,
            if area.width < 4 {
                0
            } else {
                (area.width - 4) as nat
            },
        ) + " "@,
        None => " Review "@,
    }
}

/// How far through the document the pane is.
pub open spec fn review_note(scroll: nat, rows: nat, height: nat) -> Seq<char> {
    if rows > height {
        " "@ + decimal(scroll_percent(scroll, scroll_limit(rows, height))) + "% "@
    } else {
        Seq::empty()
    }
}

/// The review pane for a document of `rows` rows, from where it was scrolled to.
pub open spec fn is_review(
    pane: ReviewPane,
    prompt: Option<Seq<char>>,
    area: Rect,
    rows: nat,
    scroll: nat,
) -> bool {
    let height = inner_rows(area);
    let limit = scroll_limit(rows, height);
    &&& pane.title@ == review_title(prompt, area)
    &&& pane.scroll_info@ == review_note(scroll, rows, height)
    &&& pane.scroll_y == limit - scroll
    &&& pane.scrollbar == if rows > height {
        Some(limit as usize)
    } else {
        None
    }
}

/// The review pane for a document of `rows` rows, scrolled back `scroll` rows.
pub fn review_pane(prompt: Option<&str>, area: Rect, rows: usize, scroll: usize) -> (pane:
    ReviewPane)
    requires
        scroll <= scroll_limit(rows as nat, inner_rows(area)),
    ensures
        is_review(
            pane,
            match prompt {
                Some(text) => Some(text@),
                None => None,
            },
            area,
            rows as nat,
            scroll as nat,
        ),
{
    let height: usize = area.height.saturating_sub(2) as usize;
    let limit: usize = rows.saturating_sub(height);
    let title = match prompt {
        Some(text) => {
            let cut = truncate(text, area.width.saturating_sub(4) as usize);
            cat3(" ", cut.as_str(), " ")
        },
        None => copy_of(" Review "),
    };
    let info = if rows > height {
        let percent = number(percent_scrolled(scroll, limit));
        cat3(" ", percent.as_str(), "% ")
    } else {
        String::new()
    };
    ReviewPane {
        title,
        scroll_info: info,
        scroll_y: limit - scroll,
        scrollbar: if rows > height {
            Some(limit)
        } else {
            None
        },
    }
}

impl Dashboard {
    /// The document that is up for review over `area`. It scrolls in display
    /// rows and stays within its text.
    pub fn render_review_body(
        &mut self,
        area: Rect,
        lines: &Vec<Line>,
        request: Option<&InteractionRequest>,
    ) -> (pane: ReviewPane)
        requires
            inner_columns(area) <= WIDEST,
        ensures
            ({
                let rows = rows_of(views(lines@), inner_columns(area));
                let scroll = settled_scroll(
                    old(self).detail.review_scroll as nat,
                    rows,
                    inner_rows(area),
                    None,
                );
                &&& *final(self) == (Dashboard {
                    detail: Detail { review_scroll: scroll as usize, ..old(self).detail },
                    ..*old(self)
                })
                &&& scroll <= scroll_limit(rows, inner_rows(area))
                &&& is_review(
                    pane,
                    match request {
                        Some(req) => Some(req.prompt@),
                        None => None,
                    },
                    area,
                    rows,
                    scroll,
                )
            }),
    {
        let width: u16 = area.width.saturating_sub(2);
        let height: usize = area.height.saturating_sub(2) as usize;
        let rows: usize = wrapped_rows(lines, 0, lines.len(), width);
        assert(views(lines@).subrange(0, lines@.len() as int) =~= views(lines@));
        let scroll: usize = settle_scroll(self.detail.review_scroll, rows, height, None);
        self.detail.review_scroll = scroll;
        match request {
            Some(req) => review_pane(Some(req.prompt.as_str()), area, rows, scroll),
            None => review_pane(None, area, rows, scroll),
        }
    }
}

// ── The prompt ───────────────────────────────────────────────────────────────

/// The Send button's face.
pub fn send_button() -> (face: &'static str)
    ensures
        face@ == "[ Send ]"@,
{
    "[ Send ]"
}

/// The Save button's face, under an in-place document edit.
pub fn save_button() -> (face: &'static str)
    ensures
        face@ == "[ Save document ]"@,
{
    "[ Save document ]"
}

/// The title of a document that is edited in place.
pub fn edit_title() -> (title: &'static str)
    ensures
        title@
            == " ✎ Editing this document - your changes replace it  ·  [^S] save  [Enter] newline  [Tab] Save button  [Esc] cancel "@,
{
    " ✎ Editing this document - your changes replace it  ·  [^S] save  [Enter] newline  [Tab] Save button  [Esc] cancel "
}

/// What the prompt pane shows: the response box under its title, with the keys
/// in it or on its button, and where the two stand; or the prompt with its
/// choices.
#[derive(Debug)]
pub enum InputPane {
    Editor { title: String, focused: bool, rows: EditorRows },
    Prompt { title: String, lines: Vec<Line>, answering: bool },
}

/// What the prompt pane shows.
#[verifier::ext_equal]
pub enum InputView {
    Editor { title: Seq<char>, focused: bool },
    Prompt { title: Seq<char>, lines: Seq<Seq<SpanView>>, answering: bool },
}

impl View for InputPane {
    type V = InputView;

    open spec fn view(&self) -> InputView {
        match self {
            InputPane::Editor { title, focused, .. } => InputView::Editor {
                title: title@,
                focused: *focused,
            },
            InputPane::Prompt { title, lines, answering } => InputView::Prompt {
                title: title@,
                lines: views(lines@),
                answering: *answering,
            },
        }
    }
}

/// Whether an answer is typed rather than chosen.
pub open spec fn typed_answer(deny_open: bool, kind: Option<InteractionKind>) -> bool {
    deny_open || kind is None || kind == Some(InteractionKind::FreeText) || kind == Some(
        InteractionKind::EditText,
    )
}

/// The response box's title. With no prompt open it is a message to a running
/// run.
pub open spec fn editor_title(deny_open: bool, is_message: bool) -> Seq<char> {
    if deny_open {
        " Deny with feedback: what should it do instead?  [^S] send  [Enter] newline  [Tab] Send  [Esc] back "@
    } else if is_message {
        " Provide input while this is running  [^S] send  [Enter] newline  [Tab] Send button  [Esc] cancel "@
    } else {
        " Response  [^S] send  [Enter] newline  [Tab] Send button  [Esc] cancel "@
    }
}

/// A choice as it reads: its letter for a yes or no, else its number.
pub open spec fn choice_text(
    prefix: Seq<char>,
    kind: Option<InteractionKind>,
    option: Seq<char>,
    i: int,
) -> Seq<char> {
    if kind == Some(InteractionKind::Confirm) {
        prefix + (if i == 0 {
            "y"@
        } else {
            "n"@
        }) + ") "@ + option
    } else {
        prefix + "["@ + decimal((i + 1) as nat) + "] "@ + option
    }
}

/// A choice as it reads.
fn show_choice(prefix: &str, kind: Option<InteractionKind>, option: &str, i: usize) -> (text:
    String)
    requires
        i < usize::MAX,
    ensures
        text@ == choice_text(prefix@, kind, option@, i as int),
{
    let yes_no = match kind {
        Some(InteractionKind::Confirm) => true,
        _ => false,
    };
    if yes_no {
        cat4(
            prefix,
            if i == 0 {
                "y"
            } else {
                "n"
            },
            ") ",
            option,
        )
    } else {
        let place = count_text(i + 1);
        cat5(prefix, "[", place.as_str(), "] ", option)
    }
}

/// The first `count` choices while one is being made.
pub open spec fn open_choices(
    options: Seq<Seq<char>>,
    kind: Option<InteractionKind>,
    selected: int,
    count: int,
) -> Seq<Seq<SpanView>>
    decreases count,
{
    if count <= 0 {
        Seq::empty()
    } else {
        let i = count - 1;
        open_choices(options, kind, selected, i).push(
            seq![
                if i == selected {
                    sp(choice_text(" > "@, kind, options[i], i), bold_ink(Color::Warn))
                } else {
                    sp(choice_text("   "@, kind, options[i], i), ink(Color::Muted))
                },
            ],
        )
    }
}

/// The first `count` choices while none is being made.
pub open spec fn shut_choices(
    options: Seq<Seq<char>>,
    kind: Option<InteractionKind>,
    count: int,
) -> Seq<Seq<SpanView>>
    decreases count,
{
    if count <= 0 {
        Seq::empty()
    } else {
        let i = count - 1;
        shut_choices(options, kind, i).push(
            seq![sp(choice_text("   "@, kind, options[i], i), ink(Color::Muted))],
        )
    }
}

/// The lines of a choice being made.
pub open spec fn choosing_lines(
    options: Seq<Seq<char>>,
    kind: Option<InteractionKind>,
    selected: int,
) -> Seq<Seq<SpanView>> {
    open_choices(options, kind, selected, options.len() as int) + seq![
        raw_line(""@),
        seq![sp(" [↑↓] select  [Enter] confirm  [Esc] cancel"@, ink(Color::Dim))],
    ]
}

/// What is being asked.
pub open spec fn asked_text(request: Option<RequestView>, waiting: Option<Seq<char>>) -> Seq<
    char,
> {
    match (request, waiting) {
        (Some(req), _) => req.prompt,
        (None, Some(text)) => text,
        (None, None) => "Waiting for input"@,
    }
}

/// The keys that answer a prompt.
pub open spec fn prompt_keys(kind: Option<InteractionKind>, status: StatusView) -> Seq<char> {
    if kind == Some(InteractionKind::EditText) {
        " [i] edit the document above  [k] kill"@
    } else if status is CompleteInteractive {
        " [i] respond"@
    } else {
        " [i] respond  [k] kill"@
    }
}

/// The title of a prompt.
pub open spec fn prompt_title(kind: Option<InteractionKind>, status: StatusView) -> Seq<char> {
    if kind == Some(InteractionKind::EditText) {
        " Edit Document "@
    } else if status is CompleteInteractive {
        " Input Allowed "@
    } else {
        " Input Required "@
    }
}

/// The lines of a prompt that nobody is answering.
pub open spec fn prompt_lines(
    agent: AgentView,
    request: Option<RequestView>,
    kind: Option<InteractionKind>,
    options: Seq<Seq<char>>,
) -> Seq<Seq<SpanView>> {
    let asked = seq![
        seq![sp(" "@ + asked_text(request, agent.waiting_prompt), ink(Color::Warn))],
    ];
    let choices = if options.len() == 0 {
        Seq::empty()
    } else {
        seq![raw_line(""@)] + shut_choices(options, kind, options.len() as int)
    };
    asked + choices + seq![
        raw_line(""@),
        seq![sp(prompt_keys(kind, agent.status), ink(Color::Dim))],
    ]
}

/// What the prompt pane shows.
pub open spec fn input_view(
    dash: Dashboard,
    agent: AgentView,
    request: Option<RequestView>,
    kind: Option<InteractionKind>,
    options: Seq<Seq<char>>,
) -> InputView {
    if dash.reply.input_mode && typed_answer(dash.reply.deny_feedback_open, kind) {
        InputView::Editor {
            title: editor_title(
                dash.reply.deny_feedback_open,
                request is None && agent.waiting_prompt is None,
            ),
            focused: !dash.reply.focus_send,
        }
    } else if dash.reply.input_mode {
        InputView::Prompt {
            title: " Response "@,
            lines: choosing_lines(options, kind, dash.reply.choice_selected as int),
            answering: true,
        }
    } else {
        InputView::Prompt {
            title: prompt_title(kind, agent.status),
            lines: prompt_lines(agent, request, kind, options),
            answering: false,
        }
    }
}

/// The lines of a choice being made.
fn show_choosing(options: &Vec<String>, kind: Option<InteractionKind>, selected: usize) -> (lines:
    Vec<Line>)
    ensures
        views(lines@) == choosing_lines(views(options@), kind, selected as int),
{
    let mut lines: Vec<Line> = Vec::new();
    let mut i: usize = 0;
    while i < options.len()
        invariant
            i <= options@.len(),
            views(lines@) == open_choices(views(options@), kind, selected as int, i as int),
        decreases options.len() - i,
    {
        proof {
            assert(views(options@)[i as int] == options@[i as int]@);
        }
        let line = if i == selected {
            let text = show_choice(" > ", kind, options[i].as_str(), i);
            line1(styled(text, Style::bold_ink(Color::Warn)))
        } else {
            let text = show_choice("   ", kind, options[i].as_str(), i);
            line1(styled(text, Style::ink(Color::Muted)))
        };
        lines.push(line);
        i = i + 1;
    }
    let ghost choices = views(lines@);
    lines.push(raw(""));
    lines.push(
        line1(span(" [↑↓] select  [Enter] confirm  [Esc] cancel", Style::ink(Color::Dim))),
    );
    assert(views(lines@) =~= choosing_lines(views(options@), kind, selected as int));
    lines
}

/// The choices while none is being made.
fn show_shut_choices(options: &Vec<String>, kind: Option<InteractionKind>) -> (lines: Vec<Line>)
    ensures
        views(lines@) == shut_choices(views(options@), kind, options@.len() as int),
{
    let mut lines: Vec<Line> = Vec::new();
    let mut i: usize = 0;
    while i < options.len()
        invariant
            i <= options@.len(),
            views(lines@) == shut_choices(views(options@), kind, i as int),
        decreases options.len() - i,
    {
        proof {
            assert(views(options@)[i as int] == options@[i as int]@);
        }
        let text = show_choice("   ", kind, options[i].as_str(), i);
        lines.push(line1(styled(text, Style::ink(Color::Muted))));
        i = i + 1;
    }
    lines
}

/// Whether a prompt asks for an edit.
fn is_edit(kind: Option<InteractionKind>) -> (edit: bool)
    ensures
        edit == (kind == Some(InteractionKind::EditText)),
{
    match kind {
        Some(InteractionKind::EditText) => true,
        _ => false,
    }
}

/// Whether a run has completed and still takes messages.
fn is_open_ended(status: &AgentDisplayStatus) -> (open: bool)
    ensures
        open == (status@ is CompleteInteractive),
{
    match status {
        AgentDisplayStatus::CompleteInteractive => true,
        _ => false,
    }
}

/// The lines of a prompt that nobody is answering.
fn show_prompt(
    agent: &DashboardAgent,
    request: Option<&InteractionRequest>,
    kind: Option<InteractionKind>,
    options: &Vec<String>,
) -> (lines: Vec<Line>)
    ensures
        views(lines@) == prompt_lines(
            agent@,
            match request {
                Some(req) => Some(req@),
                None => None,
            },
            kind,
            views(options@),
        ),
{
    let asked: &str = match (request, &agent.waiting_prompt) {
        (Some(req), _) => req.prompt.as_str(),
        (None, Some(text)) => text.as_str(),
        (None, None) => "Waiting for input",
    };
    let text = cat2(" ", asked);
    let mut lines: Vec<Line> = Vec::new();
    lines.push(line1(styled(text, Style::ink(Color::Warn))));
    let ghost head = views(lines@);
    if options.len() > 0 {
        lines.push(raw(""));
        let mut choices = show_shut_choices(options, kind);
        lines.append(&mut choices);
    }
    let ghost so_far = views(lines@);
    let keys: &str = if is_edit(kind) {
        " [i] edit the document above  [k] kill"
    } else if is_open_ended(&agent.status) {
        " [i] respond"
    } else {
        " [i] respond  [k] kill"
    };
    lines.push(raw(""));
    lines.push(line1(span(keys, Style::ink(Color::Dim))));
    proof {
        let view = match request {
            Some(req) => Some(req@),
            None => None,
        };
        assert(views(lines@) =~= prompt_lines(agent@, view, kind, views(options@)));
    }
    lines
}

impl Dashboard {
    /// The pane under the detail view, over `area`: the response box while an
    /// answer is typed, with its Send button under it, the choices while one is
    /// made, else the prompt.
    pub fn render_input_pane(
        &mut self,
        area: Rect,
        agent: &DashboardAgent,
        request: Option<&InteractionRequest>,
        kind: Option<InteractionKind>,
        options: &Vec<String>,
    ) -> (pane: InputPane)
        ensures
            pane@ == input_view(
                *old(self),
                agent@,
                match request {
                    Some(req) => Some(req@),
                    None => None,
                },
                kind,
                views(options@),
            ),
            match pane {
                InputPane::Editor { rows, .. } => button_put(
                    *old(self),
                    *final(self),
                    area,
                    "[ Send ]"@,
                    ClickTarget::ResponseSend,
                    rows,
                ),
                InputPane::Prompt { .. } => *final(self) == *old(self),
            },
    {
        let typed = self.reply.deny_feedback_open || match kind {
            None | Some(InteractionKind::FreeText) | Some(InteractionKind::EditText) => true,
            _ => false,
        };
        if self.reply.input_mode && typed {
            let is_message = request.is_none() && agent.waiting_prompt.is_none();
            let title = if self.reply.deny_feedback_open {
                copy_of(
                    " Deny with feedback: what should it do instead?  [^S] send  [Enter] newline  [Tab] Send  [Esc] back ",
                )
            } else if is_message {
                copy_of(
                    " Provide input while this is running  [^S] send  [Enter] newline  [Tab] Send button  [Esc] cancel ",
                )
            } else {
                copy_of(" Response  [^S] send  [Enter] newline  [Tab] Send button  [Esc] cancel ")
            };
            let focused = !self.reply.focus_send;
            let rows = self.draw_action_button(area, send_button(), ClickTarget::ResponseSend);
            return InputPane::Editor { title, focused, rows };
        }
        if self.reply.input_mode {
            return InputPane::Prompt {
                title: copy_of(" Response "),
                lines: show_choosing(options, kind, self.reply.choice_selected),
                answering: true,
            };
        }
        let title: &str = if is_edit(kind) {
            " Edit Document "
        } else if is_open_ended(&agent.status) {
            " Input Allowed "
        } else {
            " Input Required "
        };
        InputPane::Prompt {
            title: copy_of(title),
            lines: show_prompt(agent, request, kind, options),
            answering: false,
        }
    }
}

} // verus!
