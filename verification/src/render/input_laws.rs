//! What the prompt pane and the help bar offer a person who is asked something.

use crate::render::content::{scroll_limit, scroll_percent};
use crate::render::help_bar::{
    answer_bar, choice_bar, confirm_bar, current_kind, current_status, deny_bar, detail_bar,
    filter_bar, filtered_bar, fold_hints, found_bar, help_line, input_hints, kill_hints, list_bar,
    log_bar, pause_hints, response_bar, search_bar,
};
use crate::render::input::{
    choice_text, editor_title, input_view, is_review, open_choices, prompt_keys, prompt_lines,
    prompt_title, review_note, review_title, shut_choices, typed_answer, InputView, ReviewPane,
};
use crate::state::Dashboard;
use crate::style::Rect;
use crate::text::{decimal, truncated};
use crate::types::{
    AgentDisplayStatus, DashboardAgent, InteractionKind, MainPane, RequestView, TreeShape,
};
use crate::views::group_views;
use vstd::prelude::*;

verus! {

broadcast use group_views;

// ── The prompt pane ──────────────────────────────────────────────────────────

/// A choice being made shows every option in its order, and points at the selected one and at no
/// other.
pub proof fn every_option_is_offered(
    options: Seq<Seq<char>>,
    kind: Option<InteractionKind>,
    selected: int,
    count: int,
    at: int,
)
    requires
        0 <= at < count <= options.len(),
    ensures
        ({
            let open = open_choices(options, kind, selected, count);
            let shut = shut_choices(options, kind, count);
            &&& open.len() == count
            &&& shut.len() == count
            &&& open[at].len() == 1 && shut[at].len() == 1
            &&& open[at][0].content == choice_text(
                if at == selected {
                    " > "@
                } else {
                    "   "@
                },
                kind,
                options[at],
                at,
            )
            &&& (open[at][0].style.bold <==> at == selected)
            &&& shut[at][0].content == choice_text("   "@, kind, options[at], at)
            &&& !shut[at][0].style.bold
        }),
    decreases count,
{
    options_are_counted(options, kind, selected, count);
    options_are_counted(options, kind, selected, count - 1);
    if at < count - 1 {
        every_option_is_offered(options, kind, selected, count - 1, at);
    }
}

proof fn options_are_counted(
    options: Seq<Seq<char>>,
    kind: Option<InteractionKind>,
    selected: int,
    count: int,
)
    requires
        0 <= count,
    ensures
        open_choices(options, kind, selected, count).len() == count,
        shut_choices(options, kind, count).len() == count,
    decreases count,
{
    if count > 0 {
        options_are_counted(options, kind, selected, count - 1);
    }
}

/// A choice ends with its option, behind its number from one; a yes or no has its letter instead.
pub proof fn a_choice_has_its_number(
    prefix: Seq<char>,
    kind: Option<InteractionKind>,
    option: Seq<char>,
    at: int,
)
    requires
        0 <= at,
    ensures
        option.is_suffix_of(choice_text(prefix, kind, option, at)),
        prefix.is_prefix_of(choice_text(prefix, kind, option, at)),
        kind != Some(InteractionKind::Confirm) ==> choice_text(prefix, kind, option, at) == prefix
            + "["@ + decimal((at + 1) as nat) + "] "@ + option,
        kind == Some(InteractionKind::Confirm) && at == 0 ==> choice_text(prefix, kind, option, at)
            == prefix + "y"@ + ") "@ + option,
        kind == Some(InteractionKind::Confirm) && at > 0 ==> choice_text(prefix, kind, option, at)
            == prefix + "n"@ + ") "@ + option,
{
    let text = choice_text(prefix, kind, option, at);
    assert(text.skip(text.len() - option.len()) =~= option);
    assert(text.take(prefix.len() as int) =~= prefix);
}

/// A prompt says what is asked before anything else, then the options, and last the keys.
pub proof fn a_prompt_says_what_is_asked(
    run: DashboardAgent,
    request: Option<RequestView>,
    kind: Option<InteractionKind>,
    options: Seq<Seq<char>>,
)
    ensures
        ({
            let lines = prompt_lines(run@, request, kind, options);
            let asked = match request {
                Some(open) => open.prompt,
                None => match run.waiting_prompt {
                    Some(text) => text@,
                    None => "Waiting for input"@,
                },
            };
            &&& lines[0][0].content == " "@ + asked
            &&& lines.last()[0].content == prompt_keys(kind, run.status@)
            &&& (options.len() == 0 ==> lines.len() == 3)
            &&& (options.len() > 0 ==> lines.len() == 4 + options.len() && lines.subrange(
                2,
                2 + options.len() as int,
            ) == shut_choices(options, kind, options.len() as int))
        }),
{
    let lines = prompt_lines(run@, request, kind, options);
    options_are_counted(options, kind, 0, options.len() as int);
    if options.len() > 0 {
        assert(lines.subrange(2, 2 + options.len() as int) =~= shut_choices(
            options,
            kind,
            options.len() as int,
        ));
    }
}

/// A run that has to be answered says so, one that may be says that, and a document to edit says
/// that; a run can be killed from its prompt unless it is complete.
pub proof fn a_prompt_says_whether_it_must_be_answered(
    kind: Option<InteractionKind>,
    status: AgentDisplayStatus,
)
    ensures
        kind == Some(InteractionKind::EditText) ==> prompt_title(kind, status@)
            == " Edit Document "@,
        kind != Some(InteractionKind::EditText) && status is CompleteInteractive ==> prompt_title(
            kind,
            status@,
        ) == " Input Allowed "@ && prompt_keys(kind, status@) == " [i] respond"@,
        kind != Some(InteractionKind::EditText) && !(status is CompleteInteractive)
            ==> prompt_title(kind, status@) == " Input Required "@ && prompt_keys(kind, status@)
            == " [i] respond  [k] kill"@,
{
}

/// An answer is typed where words are asked for, where nothing is asked, and where a denial is
/// explained; everything else is chosen.
pub proof fn words_are_typed_and_the_rest_is_chosen(deny_open: bool, kind: InteractionKind)
    ensures
        typed_answer(true, Some(kind)),
        typed_answer(deny_open, None),
        typed_answer(false, Some(kind)) <==> kind is FreeText || kind is EditText,
{
}

/// The pane is an editor if and only if an answer is being typed; its title is that of a denial,
/// of a message where nothing is asked, or of a response.
pub proof fn the_pane_is_what_the_answer_needs(
    dash: Dashboard,
    run: DashboardAgent,
    request: Option<RequestView>,
    kind: Option<InteractionKind>,
    options: Seq<Seq<char>>,
)
    ensures
        ({
            let pane = input_view(dash, run@, request, kind, options);
            &&& (pane is Editor <==> dash.reply.input_mode && (dash.reply.deny_feedback_open
                || kind is None || kind == Some(InteractionKind::FreeText) || kind == Some(
                InteractionKind::EditText,
            )))
            &&& (pane matches InputView::Editor { title, focused } ==> focused
                == !dash.reply.focus_send && title == editor_title(
                dash.reply.deny_feedback_open,
                request is None && run.waiting_prompt is None,
            ))
            &&& (pane matches InputView::Prompt { title, lines, answering } ==> answering
                == dash.reply.input_mode && (answering ==> lines.len() == options.len() + 2
                && title == " Response "@) && (!answering ==> lines == prompt_lines(
                run@,
                request,
                kind,
                options,
            )))
        }),
{
    options_are_counted(
        options,
        kind,
        dash.reply.choice_selected as int,
        options.len() as int,
    );
}

/// A document to review is under its prompt, cut to the border, and says how far through it the
/// pane is where it does not fit.
pub proof fn a_document_says_how_far_it_is(
    prompt: Seq<char>,
    area: Rect,
    scroll: nat,
    rows: nat,
    height: nat,
)
    requires
        area.width >= 4,
    ensures
        review_title(Some(prompt), area) == " "@ + truncated(prompt, (area.width - 4) as nat) + " "@,
        review_title(None, area) == " Review "@,
        rows <= height ==> review_note(scroll, rows, height).len() == 0,
        rows > height ==> review_note(scroll, rows, height) == " "@ + decimal(
            scroll_percent(scroll, scroll_limit(rows, height)),
        ) + "% "@,
{
}

// ── The help bar ─────────────────────────────────────────────────────────────

/// The key that kills is offered for a run that is going or waits, the one that pauses for a run
/// that is going or stalls, and the one that resumes for a paused one; for no other run any of
/// them.
pub proof fn only_keys_that_work_are_offered(status: AgentDisplayStatus)
    ensures
        status is Active || status is Waiting <==> kill_hints(Some(status@)).len() > 0,
        status is Active || status is Waiting ==> kill_hints(Some(status@))[0].content == "[x]"@,
        status is Active || status is Stale ==> pause_hints(Some(status@))[0].content == "[p]"@,
        status is Paused ==> pause_hints(Some(status@))[0].content == "[r]"@,
        status is Active || status is Stale || status is Paused <==> pause_hints(
            Some(status@),
        ).len() > 0,
        kill_hints(None).len() == 0 && pause_hints(None).len() == 0,
{
}

/// The key for input is offered where the run waits for an answer, and then as one to respond, or
/// where it takes messages, and nowhere else.
pub proof fn input_is_offered_where_it_is_taken(can_respond: bool, accepts_messages: bool)
    ensures
        can_respond || accepts_messages <==> input_hints(can_respond, accepts_messages).len() > 0,
        can_respond ==> input_hints(can_respond, accepts_messages)[1].content == " respond  "@,
        !can_respond && accepts_messages ==> input_hints(can_respond, accepts_messages)[1].content
            == " input  "@,
        can_respond || accepts_messages ==> input_hints(can_respond, accepts_messages)[0].content
            == "[i]"@,
{
}

/// The detail view's bar offers input, killing and pausing between its own keys and help, and
/// ends with the way back.
pub proof fn the_detail_bar_offers_what_the_run_takes(
    status: AgentDisplayStatus,
    can_respond: bool,
    accepts_messages: bool,
)
    ensures
        ({
            let bar = detail_bar(Some(status@), can_respond, accepts_messages);
            let offered = input_hints(can_respond, accepts_messages) + kill_hints(Some(status@))
                + pause_hints(Some(status@));
            &&& bar.len() == 18 + offered.len()
            &&& bar.subrange(14, 14 + offered.len() as int) == offered
            &&& bar[0].content == "[←/→]"@
            &&& bar[bar.len() - 2].content == "[Esc]"@
            &&& bar.last().content == " back"@
        }),
{
    let bar = detail_bar(Some(status@), can_respond, accepts_messages);
    let offered = input_hints(can_respond, accepts_messages) + kill_hints(Some(status@))
        + pause_hints(Some(status@));
    assert(bar.subrange(14, 14 + offered.len() as int) =~= offered);
}

/// The run list's bar offers folding where there is something to fold, and killing and pausing as
/// the run under the cursor allows them.
pub proof fn the_list_bar_offers_what_the_run_allows(
    status: AgentDisplayStatus,
    rows: Seq<TreeShape>,
)
    ensures
        ({
            let bar = list_bar(Some(status@), rows);
            let folding = fold_hints(rows).len() as int;
            let offered = kill_hints(Some(status@)) + pause_hints(Some(status@));
            &&& (folding > 0 <==> exists|i: int|
                0 <= i < rows.len() && (#[trigger] rows[i]).expandable)
            &&& bar.len() == 24 + folding + offered.len()
            &&& bar.subrange(20 + folding, 20 + folding + offered.len() as int) == offered
            &&& bar.last().content == " quit"@
        }),
{
    let bar = list_bar(Some(status@), rows);
    let folding = fold_hints(rows).len() as int;
    let offered = kill_hints(Some(status@)) + pause_hints(Some(status@));
    assert(bar.subrange(20 + folding, 20 + folding + offered.len() as int) =~= offered);
}

/// The bar is of where the keys go: an open question comes before everything, the log pane before
/// the list, and in the detail view an answer before a search, a search being typed before one
/// that is on.
pub proof fn the_bar_is_of_where_the_keys_go(
    dash: Dashboard,
    can_respond: bool,
    accepts_messages: bool,
)
    ensures
        ({
            let bar = help_line(dash, can_respond, accepts_messages);
            let asked = dash.notes.pending_confirm is Some;
            let log = dash.screens.main_focus == MainPane::LogPane && !dash.screens.detail_view
                && !dash.screens.mcp_screen;
            let detail = !asked && dash.screens.detail_view;
            let list = !asked && !log && !dash.screens.detail_view;
            &&& (asked ==> bar == confirm_bar())
            &&& (!asked && log ==> bar == log_bar())
            &&& (detail && dash.reply.input_mode ==> bar == answer_bar(
                dash.reply.deny_feedback_open,
                current_kind(dash),
            ))
            &&& (detail && !dash.reply.input_mode && dash.detail.search_mode ==> bar == search_bar(
                dash.detail.search_query@,
            ))
            &&& (detail && !dash.reply.input_mode && !dash.detail.search_mode
                && dash.detail.search_query@.len() > 0 ==> bar == found_bar(
                dash.detail.search_query@,
            ))
            &&& (detail && !dash.reply.input_mode && !dash.detail.search_mode
                && dash.detail.search_query@.len() == 0 ==> bar == detail_bar(
                current_status(dash),
                can_respond,
                accepts_messages,
            ))
            &&& (list && dash.runs.search_mode ==> bar == filter_bar(dash.runs.search_query@))
            &&& (list && !dash.runs.search_mode && dash.runs.search_query@.len() > 0 ==> bar
                == filtered_bar(
                dash.runs.search_query@,
                dash.runs.display_indices@.len(),
                dash.runs.agents@.len(),
            ))
            &&& (list && !dash.runs.search_mode && dash.runs.search_query@.len() == 0 ==> bar
                == list_bar(current_status(dash), dash.runs.tree_rows@))
        }),
{
}

/// What is being typed stands in the bar, with the cursor behind it, and a filter that is on says
/// how many runs it leaves of how many.
pub proof fn the_bar_shows_what_is_typed(query: Seq<char>, shown: nat, total: nat)
    ensures
        search_bar(query)[1].content == query,
        search_bar(query)[2].content == "▌"@,
        filter_bar(query)[1].content == query,
        filter_bar(query)[2].content == "▌"@,
        found_bar(query)[0].content == " /"@ + query + "/"@,
        filtered_bar(query, shown, total)[0].content == " /"@ + query + "/  "@ + decimal(shown)
            + "/"@ + decimal(total) + " "@,
{
}

/// The bar of an answer is that of a denial while one is explained, else of typing or of choosing,
/// as the prompt asks for.
pub proof fn the_bar_goes_with_the_answer(deny_open: bool, kind: Option<InteractionKind>)
    ensures
        deny_open ==> answer_bar(deny_open, kind) == deny_bar(),
        !deny_open && typed_answer(false, kind) ==> answer_bar(deny_open, kind) == response_bar(),
        !deny_open && !typed_answer(false, kind) ==> answer_bar(deny_open, kind) == choice_bar(),
        deny_bar()[1].content == " send with the deny  "@,
        response_bar()[1].content == " send  "@,
        choice_bar()[1].content == " select  "@,
        confirm_bar()[3].content == " confirm  "@,
        log_bar()[1].content == " scroll log  "@,
{
}

/// What the bar knows of the run under the cursor is that run's own.
pub proof fn the_bar_knows_the_run_under_the_cursor(dash: Dashboard)
    ensures
        dash.current() is None ==> current_status(dash) is None && current_kind(dash) is None,
        dash.current() matches Some(run) ==> current_status(dash) == Some(run.status@)
            && (run.pending_request matches Some(request) ==> current_kind(dash) == Some(
            request.kind,
        )) && (run.pending_request is None ==> current_kind(dash) is None),
{
}

/// A document under review is scrolled by what is hidden above it and below it: together with what
/// is in view they are all of its rows, and the scrollbar is there if and only if some are hidden.
pub proof fn a_reviewed_document_is_all_there(
    pane: ReviewPane,
    prompt: Option<Seq<char>>,
    area: Rect,
    rows: nat,
    scroll: nat,
)
    requires
        is_review(pane, prompt, area, rows, scroll),
        area.height >= 2,
        scroll + (area.height - 2) <= rows <= usize::MAX,
    ensures
        pane.scroll_y + (area.height - 2) + scroll == rows,
        pane.scrollbar is Some <==> rows > area.height - 2,
        pane.scrollbar is Some ==> pane.scrollbar->0 == rows - (area.height - 2),
{
}

} // verus!
