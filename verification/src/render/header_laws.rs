//! What the detail view's header says of a run.

use crate::fit::{a_row_with_room_stays, total_columns, unnamed_parts_stay};
use crate::numbers::{a_share_is_the_nearest_percent, share, token_figure};
use crate::render::header::{
    breadcrumb, breadcrumb_parts, broken_note, header_title, info_lines, info_parts, info_width,
    stage_tokens, status_text, total_tokens, whole_prompt,
};
use crate::style::{Color, Rect};
use crate::text::{decimal, trimmed, truncated, without_leading};
use crate::types::DashboardAgent;
use crate::views::group_views;
use vstd::prelude::*;

verus! {

broadcast use group_views;

/// The breadcrumb names the run by its title or its blueprint, says how it stands in its own
/// tone, what it took in before what it gave out, how long it worked before how old it is,
/// whether it takes messages, and its id; only the first two give way, and only where there is
/// no room.
pub proof fn the_breadcrumb_says_how_a_run_stands(
    run: DashboardAgent,
    spin: Seq<char>,
    elapsed: Seq<char>,
    age: Seq<char>,
    width: nat,
)
    ensures
        ({
            let crumb = breadcrumb(run@, spin, elapsed, age, width);
            &&& crumb.len() == 13
            &&& crumb[5].content == token_figure(run.tokens_in as nat) + "↑"@
            &&& crumb[6].content == " "@ + token_figure(run.tokens_out as nat) + "↓"@
            &&& crumb[7].content == " · "@ + elapsed + " work"@
            &&& crumb[8].content == " · "@ + age + " old "@
            &&& (crumb[9].content == "💬 "@ <==> run.accepts_messages)
            &&& crumb[11].content == run.id@
            &&& crumb[12].content == broken_note(run.broken_scripts@.len())
            &&& crumb[3].style.fg == Some(Color::Status(run.status@.tone()))
            &&& (total_columns(breadcrumb_parts(run@, spin, elapsed, age)) <= width
                ==> crumb[1].content == header_title(run@) && crumb[3].content == status_text(
                run.status@,
                spin,
            ))
        }),
{
    let parts = breadcrumb_parts(run@, spin, elapsed, age);
    let order = seq![1usize, 3usize];
    unnamed_parts_stay(parts, width, order, 2, 5);
    unnamed_parts_stay(parts, width, order, 2, 6);
    unnamed_parts_stay(parts, width, order, 2, 7);
    unnamed_parts_stay(parts, width, order, 2, 8);
    unnamed_parts_stay(parts, width, order, 2, 9);
    unnamed_parts_stay(parts, width, order, 2, 11);
    unnamed_parts_stay(parts, width, order, 2, 12);
    reveal_strlit("💬 ");
    reveal_strlit("🔇 ");
    assert("💬 "@[0] != "🔇 "@[0]);
    if total_columns(parts) <= width {
        a_row_with_room_stays(parts, width, order, 2);
    }
}

/// A run is called by its title, and by its blueprint where it has none, without heading marks;
/// and how it stands moves while it is going.
pub proof fn a_run_is_called_by_its_title(run: DashboardAgent, spin: Seq<char>)
    ensures
        run.title is Some ==> header_title(run@) == trimmed(without_leading(run.title->0@, '#')),
        run.title is None ==> header_title(run@) == trimmed(
            without_leading(run.blueprint_name@, '#'),
        ),
        run.status is Active ==> status_text(run.status@, spin) == spin + " "@ + "ACTIVE"@,
        !(run.status is Active) ==> status_text(run.status@, spin) == run.status@.label(),
{
}

/// Scripts that could not be used are counted, in the singular where there is one, and not
/// mentioned where there is none.
pub proof fn broken_scripts_are_counted(broken: nat)
    ensures
        broken == 0 <==> broken_note(broken).len() == 0,
        broken == 1 ==> broken_note(broken) == " · ⚠ "@ + decimal(1) + " broken script"@,
        broken > 1 ==> broken_note(broken) == " · ⚠ "@ + decimal(broken) + " broken script"@ + "s"@,
{
    reveal_strlit(" · ⚠ ");
    reveal_strlit("");
    if broken == 1 {
        assert(" · ⚠ "@ + decimal(1) + " broken script"@ + ""@ =~= " · ⚠ "@ + decimal(1)
            + " broken script"@);
    }
}

/// The share of a prompt that came from the cache is that of the whole prompt, fresh and
/// cached together, to the nearest percent: none fresh is all of it.
pub proof fn the_cache_is_a_share_of_the_whole(run: DashboardAgent)
    requires
        run.cached_tokens > 0,
        run.tokens_in + run.cached_tokens <= 0x1_0000_0000,
        run.tokens_in > 0 || run.tokens_out > 0,
        run.tokens_in + run.cached_tokens <= usize::MAX,
    ensures
        ({
            let whole = (run.tokens_in + run.cached_tokens) as nat;
            let percent = share(run.cached_tokens as nat, whole);
            &&& total_tokens(run@) == "  ·  total "@ + token_figure(run.tokens_in as nat) + "↑ "@
                + token_figure(run.tokens_out as nat) + "↓"@ + ("  cache "@ + decimal(percent)
                + "%"@)
            &&& 2 * (percent * whole) <= 200 * run.cached_tokens + whole
            &&& 200 * run.cached_tokens <= 2 * (percent * whole) + whole
            &&& (run.tokens_in == 0 ==> percent == 100)
        }),
{
    let whole = (run.tokens_in + run.cached_tokens) as nat;
    a_share_is_the_nearest_percent(run.cached_tokens as nat, whole);
    assert(whole_prompt(run.tokens_in, run.cached_tokens) == whole);
}

/// A run or a stage that took nothing and gave nothing shows no figures, and one that did shows
/// what it took before what it gave.
pub proof fn figures_are_shown_where_there_are_any(run: DashboardAgent, at: int)
    requires
        0 <= at < run.stages@.len(),
    ensures
        run.tokens_in == 0 && run.tokens_out == 0 ==> total_tokens(run@).len() == 0,
        run.stages@[at].prompt_tokens == 0 && run.stages@[at].completion_tokens == 0
            ==> stage_tokens(run.stages@, at).len() == 0,
        run.stages@[at].prompt_tokens > 0 || run.stages@[at].completion_tokens > 0 ==> stage_tokens(
            run.stages@,
            at,
        ) == "  ·  stage "@ + token_figure(run.stages@[at].prompt_tokens as nat) + "↑ "@
            + token_figure(run.stages@[at].completion_tokens as nat) + "↓"@,
{
}

/// The strip has the task on its first line, cut to the room behind its label, and on its second
/// the working directory, the figures and the model, whole where there is room.
pub proof fn the_strip_says_task_and_directory(
    run: DashboardAgent,
    home: Seq<char>,
    at: int,
    area: Rect,
)
    requires
        area.width >= 11,
    ensures
        ({
            let lines = info_lines(run@, home, at, area);
            &&& lines.len() == 2
            &&& lines[0].len() == 2
            &&& lines[0][0].content == " task  "@
            &&& lines[0][1].content == truncated(run.task@, (area.width - 11) as nat)
            &&& lines[1].len() == 6
            &&& lines[1][0].content == " dir   "@
            &&& lines[1][2].content == stage_tokens(run.stages@, at)
            &&& lines[1][3].content == total_tokens(run@)
            &&& (total_columns(info_parts(run@, home, at, true)) <= area.width - 4
                ==> lines[1][1].content == crate::render::content::shortened(run.workdir@, home)
                && (run.model is Some ==> lines[1][5].content == run.model->0@))
        }),
{
    let width = info_width(area);
    let with = info_parts(run@, home, at, true);
    let without = info_parts(run@, home, at, false);
    let order = seq![5usize, 1usize];
    unnamed_parts_stay(with, width, order, 2, 0);
    unnamed_parts_stay(with, width, order, 2, 2);
    unnamed_parts_stay(with, width, order, 2, 3);
    unnamed_parts_stay(without, width, seq![1usize], 1, 0);
    unnamed_parts_stay(without, width, seq![1usize], 1, 2);
    unnamed_parts_stay(without, width, seq![1usize], 1, 3);
    if total_columns(with) <= width {
        a_row_with_room_stays(with, width, order, 2);
    }
}

} // verus!
