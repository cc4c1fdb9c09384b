//! What the stage strip shows of a run: a tab for each stage, with how it stands.

use crate::render::stages::{
    glyphs_of, label_width, plain_tab, selected_tab, stage_tab, strip_drawn, strip_title, tab_count,
    tab_lines, tab_targets, tab_time, tab_width, Glyphs, StageStrip,
};
use crate::state::Dashboard;
use crate::style::{line_columns, Color, Rect, SpanView};
use crate::text::{decimal, truncated};
use crate::types::{AgentView, ClickTarget, DashboardAgent, StageRecord};
use crate::views::views;
use vstd::prelude::*;

verus! {

/// Names on the strip have ten to thirty-two columns, and where they have more than the least,
/// all the tabs fit together with what each costs besides.
pub proof fn names_share_the_strip(inner_width: int, tabs: int)
    requires
        0 <= inner_width,
        0 < tabs,
    ensures
        10 <= label_width(inner_width, tabs) <= 32,
        label_width(inner_width, tabs) > 10 ==> tabs * (label_width(inner_width, tabs) + 16)
            <= inner_width,
        label_width(inner_width, tabs) < 32 ==> inner_width < tabs * (label_width(
            inner_width,
            tabs,
        ) + 17),
{
    let share = inner_width / tabs;
    let width = label_width(inner_width, tabs);
    assert(tabs * share <= inner_width < tabs * (share + 1)) by (nonlinear_arith)
        requires
            share == inner_width / tabs,
            0 < tabs,
            0 <= inner_width,
    ;
    if width > 10 {
        assert(width + 16 <= share);
        assert(tabs * (width + 16) <= tabs * share) by (nonlinear_arith)
            requires
                0 < tabs,
                width + 16 <= share,
        ;
    }
    if width < 32 {
        assert(share + 1 <= width + 17);
        assert(tabs * (share + 1) <= tabs * (width + 17)) by (nonlinear_arith)
            requires
                0 < tabs,
                share + 1 <= width + 17,
        ;
    }
}

/// There is a tab for every recorded stage; before there is a record, one for each stage the run
/// says it has, and never none.
pub proof fn every_stage_has_a_tab(run: DashboardAgent)
    ensures
        tab_count(run@) > 0,
        run.stages@.len() > 0 ==> tab_count(run@) == run.stages@.len(),
        run.stages@.len() == 0 && run.num_stages > 0 ==> tab_count(run@) == run.num_stages,
{
}

/// Each tab is of the stage in its place.
pub proof fn each_tab_is_of_its_stage(
    glyphs: Glyphs,
    agent: AgentView,
    times: Seq<String>,
    width: nat,
    count: int,
    at: int,
)
    requires
        0 <= at < count,
    ensures
        tab_lines(glyphs, agent, times, width, count).len() == count,
        agent.stages@.len() > 0 ==> tab_lines(glyphs, agent, times, width, count)[at] == stage_tab(
            glyphs,
            agent,
            agent.stages@[at],
            at,
            width,
            times[at]@,
        ),
        agent.stages@.len() == 0 ==> tab_lines(glyphs, agent, times, width, count)[at] == plain_tab(
            glyphs,
            agent,
            at,
            width,
        ),
    decreases count,
{
    tabs_are_counted(glyphs, agent, times, width, count);
    if at < count - 1 {
        each_tab_is_of_its_stage(glyphs, agent, times, width, count - 1, at);
    } else {
        tabs_are_counted(glyphs, agent, times, width, count - 1);
    }
}

proof fn tabs_are_counted(
    glyphs: Glyphs,
    agent: AgentView,
    times: Seq<String>,
    width: nat,
    count: int,
)
    requires
        0 <= count,
    ensures
        tab_lines(glyphs, agent, times, width, count).len() == count,
    decreases count,
{
    if count > 0 {
        tabs_are_counted(glyphs, agent, times, width, count - 1);
    }
}

/// A recorded stage's tab has its mark, its name and its time: a stage that is going on moves and
/// has a star, one that waits, failed or has not begun has the mark of that, and one that is
/// done, or was left active when the run went on or ended, is drawn as complete.
pub proof fn a_tab_shows_how_its_stage_stands(
    glyphs: Glyphs,
    run: DashboardAgent,
    at: int,
    width: nat,
    time: Seq<char>,
)
    requires
        0 <= at < run.stages@.len(),
    ensures
        ({
            let stage = run.stages@[at];
            let tab = stage_tab(glyphs, run@, stage, at, width, time);
            let going = at == run.stage_index && run.status@.killable() && stage.status is Active;
            &&& tab[1].content == truncated(stage.name@, width)
            &&& tab.last().content == tab_time(stage, at == run.stage_index, time)
            &&& (going <==> tab.len() == 4)
            &&& (going ==> tab[0].content == glyphs.spin + " "@ && tab[0].style.fg == Some(
                Color::Active,
            ) && tab[2].content == "*"@)
            &&& (!going ==> tab.len() == 3)
            &&& (!going && (stage.status is Complete || stage.status is Active)
                ==> tab[0].content == glyphs.complete + " "@ && tab[0].style.fg == Some(
                Color::Success,
            ))
            &&& (stage.status is WaitingInput ==> tab[0].content == glyphs.waiting + " "@
                && tab[0].style.fg == Some(Color::Warn))
            &&& (stage.status is Error ==> tab[0].content == glyphs.error + " "@
                && tab[0].style.fg == Some(Color::Error))
            &&& (stage.status is Pending || stage.status is Skipped ==> tab[0].content
                == glyphs.pending + " "@ && tab[0].style.fg == Some(Color::Dim))
            &&& (tab[1].style.bold <==> at == run.stage_index && run.status@.killable())
        }),
{
}

/// A stage's time is shown once it has ended, and while it is the one that runs; one that has not
/// begun has none.
pub proof fn a_time_is_shown_where_there_is_one(
    stage: StageRecord,
    current: bool,
    time: Seq<char>,
)
    ensures
        stage.started_at is None ==> tab_time(stage, current, time).len() == 0,
        stage.started_at is Some && stage.ended_at is Some ==> tab_time(stage, current, time)
            == " "@ + time,
        stage.started_at is Some && stage.ended_at is None ==> (tab_time(stage, current, time)
            == if stage.status is Active && current {
            " "@ + time
        } else {
            Seq::empty()
        }),
{
}

/// Without a record the stages before the current one are complete, those behind it have not
/// begun, each by its number from one, and the current one has the run's name for it and the mark
/// of how the run stands.
pub proof fn a_plain_tab_goes_by_its_number(
    glyphs: Glyphs,
    run: DashboardAgent,
    at: int,
    width: nat,
)
    requires
        0 <= at,
    ensures
        ({
            let tab = plain_tab(glyphs, run@, at, width);
            &&& tab.len() == 3
            &&& (at < run.stage_index ==> tab[0].content == glyphs.complete + " "@
                && tab[0].style.fg == Some(Color::Success))
            &&& (at > run.stage_index ==> tab[0].content == glyphs.pending + " "@
                && tab[0].style.fg == Some(Color::Dim))
            &&& (at != run.stage_index ==> tab[1].content == "stage "@ + decimal((at + 1) as nat)
                && tab[2].content.len() == 0)
            &&& (at == run.stage_index ==> tab[1].content == truncated(run.stage@, width))
            &&& (at == run.stage_index && run.status is Active ==> tab[0].content == glyphs.spin
                + " "@)
            &&& (at == run.stage_index && run.status is Waiting ==> tab[0].content
                == glyphs.waiting + " "@)
            &&& (at == run.stage_index && run.status is Error ==> tab[0].content == glyphs.error
                + " "@)
            &&& (tab[2].content == "*"@ <==> at == run.stage_index && run.status@.killable())
        }),
{
    reveal_strlit("");
    reveal_strlit("*");
    assert(run@.status == run.status@);
    assert(""@.len() == 0 && "*"@.len() == 1);
    let tab = plain_tab(glyphs, run@, at, width);
    assert(tab[2].content == "*"@ || tab[2].content == ""@);
    assert(tab[0] == crate::render::stages::plain_mark(glyphs, run@, at));
}

/// The marks are the theme's, each its own.
pub proof fn the_marks_are_the_themes(dash: Dashboard)
    ensures
        glyphs_of(dash).complete == dash.screens.theme.complete@,
        glyphs_of(dash).waiting == dash.screens.theme.waiting@,
        glyphs_of(dash).error == dash.screens.theme.error@,
        glyphs_of(dash).pending == dash.screens.theme.pending@,
        glyphs_of(dash).spin == dash.spin(),
{
}

/// The selected tab is one of the tabs: the one that is wanted, or the last.
pub proof fn the_selected_tab_is_there(at: usize, tabs: nat)
    requires
        tabs > 0,
    ensures
        0 <= selected_tab(at, tabs) < tabs,
        at < tabs ==> selected_tab(at, tabs) == at,
        at >= tabs ==> selected_tab(at, tabs) == tabs - 1,
{
}

/// The strip's title counts the selected stage from one, and points to the graph if and only if
/// there is one.
pub proof fn the_strip_counts_from_one(tabs: nat, selected: nat)
    ensures
        tabs > 1 ==> strip_title(tabs, selected, false) == " Stages"@
            + (" ←/→ to switch  stage "@ + decimal(selected + 1) + "/"@ + decimal(tabs)),
        tabs <= 1 ==> strip_title(tabs, selected, false) == " Stages"@ + " stage 1/1"@,
        strip_title(tabs, selected, true) == strip_title(tabs, selected, false)
            + "  ·  [g] graph"@,
{
    let place = if tabs > 1 {
        " ←/→ to switch  stage "@ + decimal(selected + 1) + "/"@ + decimal(tabs)
    } else {
        " stage 1/1"@
    };
    assert(" Stages"@ + (place + "  ·  [g] graph"@) =~= " Stages"@ + place + "  ·  [g] graph"@);
}

/// A tab can be clicked over its whole width, its padding with it, and the next begins three
/// columns behind.
pub proof fn a_tab_can_be_clicked_where_it_is(
    lines: Seq<Seq<SpanView>>,
    area: Rect,
    from: int,
    column: u16,
)
    requires
        0 <= from < lines.len(),
        column + line_columns(lines[from]) + 5 <= area.x + area.width <= u16::MAX,
        area.y < u16::MAX,
    ensures
        ({
            let targets = tab_targets(lines, area, from, column);
            let wide = line_columns(lines[from]) + 2;
            &&& targets.len() > 0
            &&& targets[0].0.x == column
            &&& targets[0].0.y == area.y + 1
            &&& targets[0].0.width == wide
            &&& targets[0].0.height == 1
            &&& targets[0].1 == ClickTarget::StageTab(from as usize)
            &&& targets.skip(1) == tab_targets(
                lines,
                area,
                from + 1,
                (column + wide + 3) as u16,
            )
        }),
{
    let rest = tab_targets(
        lines,
        area,
        from + 1,
        crate::style::plus(crate::style::plus(column, tab_width(lines[from])), 3),
    );
    assert(tab_targets(lines, area, from, column).skip(1) =~= rest);
}

/// Drawing the strip shows a tab for each stage, lights the one that the view is on, and adds their
/// targets behind those there are; nothing else changes.
pub proof fn a_drawn_strip_is_of_its_run(
    before: Dashboard,
    after: Dashboard,
    strip: StageStrip,
    area: Rect,
    run: DashboardAgent,
    times: Seq<String>,
    at: int,
)
    requires
        strip_drawn(before, after, strip, area, run@, times),
        area.width >= 2,
        0 <= at < run.stages@.len(),
    ensures
        strip.tabs@.len() == run.stages@.len(),
        strip.tabs@[at]@[1].content == truncated(
            run.stages@[at].name@,
            label_width(area.width - 2, run.stages@.len() as int) as nat,
        ),
        before.detail.selected_stage < run.stages@.len() ==> strip.selected
            == before.detail.selected_stage,
        before.detail.selected_stage >= run.stages@.len() ==> strip.selected == run.stages@.len()
            - 1,
        before.mouse.click_targets@.is_prefix_of(after.mouse.click_targets@),
        after.detail == before.detail && after.runs == before.runs && after.notes == before.notes,
{
    let count = run.stages@.len() as int;
    let width = label_width(area.width - 2, count) as nat;
    names_share_the_strip(area.width - 2, count);
    each_tab_is_of_its_stage(glyphs_of(before), run@, times, width, count, at);
    assert(views(strip.tabs@).len() == strip.tabs@.len());
    assert(views(strip.tabs@)[at] == strip.tabs@[at]@);
    assert(after.mouse.click_targets@.take(before.mouse.click_targets@.len() as int)
        =~= before.mouse.click_targets@);
}

} // verus!
