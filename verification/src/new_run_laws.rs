//! What the new-run screen comes to: which agents it offers, what a start sends, what is said
//! of it, and where its keys lead.

use crate::file_ref::file_ref_keyed;
use crate::new_run::{
    agent_matches, bundled_names_are_added_once, catalog_rows, closed_screen, files_counted,
    matches_are_agents, matching, offers, opened, outcome_log, outcome_toasts, reopened_at,
    reply_text, row_on_screen, run_to_open, start_notice, start_refused, started,
    the_catalog_is_in_name_order, token_warnings, with_bundled, SpawnReply, OPEN_RUN_TICKS,
};
use crate::new_run_inputs::ResolvedInputs;
use crate::new_run_input_laws::says_something;
use crate::new_run_keys::{agents_keyed, pane_keyed, screen_keyed, task_keyed, NewRunAction};
use crate::outside::{is_basic, lowercase, small};
use crate::run_actions::open_question;
use crate::state::{Dashboard, RunList};
use crate::text::{a_trimmed_text_loses_only_blanks, occurs, opt_text, stands_at, text_le, trimmed};
use crate::types::{
    ActionView, BundledEntry, ConfirmView, InlineParts, KeyCode, KeyEvent, NewAgentView,
    NewRunAgent, NewRunPane, SpawnOutcome, Toast, YoloProfile,
};
use crate::unattended::{next_profile, profile_notice, toggled, warning};
use crate::views::{group_views, views};
use vstd::prelude::*;

verus! {

broadcast use group_views;

// ── The agents on offer ──────────────────────────────────────────────────────

/// Whether a row is that of a bundled blueprint.
pub open spec fn is_bundled_row(row: NewAgentView, entry: BundledEntry) -> bool {
    &&& row.name == entry.name@
    &&& row.path == entry.name@
    &&& row.source == "bundled"@
    &&& row.description == "v"@ + entry.version@ + " - install with `lev setup`"@
}

/// Every row is an agent that was found or a bundled blueprint that none found is named like.
proof fn rows_are_found_or_bundled(
    found: Seq<NewAgentView>,
    bundled: Seq<BundledEntry>,
    count: int,
    at: int,
)
    requires
        0 <= count <= bundled.len(),
        0 <= at < with_bundled(found, bundled, count).len(),
    ensures
        at < found.len() ==> with_bundled(found, bundled, count)[at] == found[at],
        at >= found.len() ==> (exists|b: int|
            0 <= b < bundled.len() && is_bundled_row(
                with_bundled(found, bundled, count)[at],
                #[trigger] bundled[b],
            )),
        at >= found.len() ==> forall|f: int|
            0 <= f < found.len() ==> (#[trigger] found[f]).name != with_bundled(
                found,
                bundled,
                count,
            )[at].name,
    decreases count,
{
    bundled_names_are_added_once(found, bundled, count);
    let rows = with_bundled(found, bundled, count);
    if at < found.len() {
        assert(rows.take(found.len() as int)[at] == rows[at]);
    } else {
        assert forall|f: int| 0 <= f < found.len() implies (#[trigger] found[f]).name
            != rows[at].name by {
            assert(rows.take(found.len() as int)[f] == rows[f]);
        }
        let before = with_bundled(found, bundled, count - 1);
        if at < before.len() {
            rows_are_found_or_bundled(found, bundled, count - 1, at);
        } else {
            assert(is_bundled_row(rows[at], bundled[count - 1]));
        }
    }
}

/// The list offers every agent that was found and every bundled blueprint by its name, an
/// installed agent in the place of a bundled one of its name, nothing else, in name order.
pub proof fn the_list_offers_every_agent(found: Seq<NewAgentView>, bundled: Seq<BundledEntry>)
    ensures
        ({
            let rows = catalog_rows(found, bundled);
            &&& forall|f: int| 0 <= f < found.len() ==> rows.contains(#[trigger] found[f])
            &&& forall|b: int|
                0 <= b < bundled.len() ==> offers(rows, (#[trigger] bundled[b]).name@)
            &&& forall|r: int|
                #![trigger rows[r]]
                0 <= r < rows.len() ==> found.contains(rows[r]) || ((exists|b: int|
                    0 <= b < bundled.len() && is_bundled_row(rows[r], #[trigger] bundled[b]))
                    && forall|f: int|
                    0 <= f < found.len() ==> (#[trigger] found[f]).name != rows[r].name)
            &&& forall|i: int, j: int|
                0 <= i < j < rows.len() ==> text_le(
                    (#[trigger] rows[i]).name,
                    (#[trigger] rows[j]).name,
                )
            &&& rows.len() >= found.len()
        }),
{
    broadcast use vstd::seq_lib::group_to_multiset_ensures;

    let all = with_bundled(found, bundled, bundled.len() as int);
    let rows = catalog_rows(found, bundled);
    bundled_names_are_added_once(found, bundled, bundled.len() as int);
    the_catalog_is_in_name_order(all, all.len() as int);
    assert(all.take(all.len() as int) =~= all);
    assert forall|row: NewAgentView| rows.contains(row) <==> #[trigger] all.contains(row) by {
        assert(rows.to_multiset().count(row) == all.to_multiset().count(row));
    }
    assert forall|f: int| 0 <= f < found.len() implies rows.contains(#[trigger] found[f]) by {
        assert(all.take(found.len() as int)[f] == all[f]);
        assert(all.contains(found[f]));
    }
    assert forall|b: int| 0 <= b < bundled.len() implies offers(
        rows,
        (#[trigger] bundled[b]).name@,
    ) by {
        assert(offers(all, bundled[b].name@));
        let i = choose|i: int|
            0 <= i < all.len() && (#[trigger] all[i]).name == bundled[b].name@;
        assert(all.contains(all[i]));
        let r = choose|r: int| 0 <= r < rows.len() && rows[r] == all[i];
        assert(rows[r].name == bundled[b].name@);
    }
    assert forall|r: int|
        #![trigger rows[r]]
        0 <= r < rows.len() implies found.contains(rows[r]) || ((exists|b: int|
        0 <= b < bundled.len() && is_bundled_row(rows[r], #[trigger] bundled[b])) && forall|f: int|
        0 <= f < found.len() ==> (#[trigger] found[f]).name != rows[r].name) by {
        assert(rows.contains(rows[r]));
        assert(all.contains(rows[r]));
        let i = choose|i: int| 0 <= i < all.len() && all[i] == rows[r];
        rows_are_found_or_bundled(found, bundled, bundled.len() as int, i);
    }
}

/// Whether two characters of ASCII are one letter in either case, or the same.
pub open spec fn same_letter(a: char, b: char) -> bool {
    ||| a == b
    ||| 'A' <= a <= 'Z' && b as u32 == a as u32 + 32
    ||| 'A' <= b <= 'Z' && a as u32 == b as u32 + 32
}

/// Whether what was typed stands somewhere in a text, in either case.
pub open spec fn is_found_in(text: Seq<char>, typed: Seq<char>) -> bool {
    exists|at: int| #[trigger] is_found_at(text, typed, at)
}

/// Whether what was typed stands at a place of a text, in either case.
pub open spec fn is_found_at(text: Seq<char>, typed: Seq<char>, at: int) -> bool {
    &&& 0 <= at <= text.len() - typed.len()
    &&& forall|k: int| 0 <= k < typed.len() ==> same_letter(text[at + k], #[trigger] typed[k])
}

/// In texts of ASCII, what stands in a lowercase text stands in the text in either case.
pub proof fn lowercase_finds_either_case(text: Seq<char>, typed: Seq<char>)
    requires
        is_basic(text),
        is_basic(typed),
    ensures
        occurs(lowercase(text), lowercase(typed)) <==> is_found_in(text, typed),
{
    let low = lowercase(text);
    let wanted = lowercase(typed);
    if occurs(low, wanted) {
        let at = choose|at: int| stands_at(low, wanted, at);
        assert forall|k: int| 0 <= k < typed.len() implies same_letter(
            text[at + k],
            #[trigger] typed[k],
        ) by {
            assert(low.subrange(at, at + wanted.len())[k] == wanted[k]);
            assert(low[at + k] == small(text[at + k]));
            assert(wanted[k] == small(typed[k]));
            assert(text[at + k] <= '\u{7f}');
        }
        assert(is_found_at(text, typed, at));
    }
    if is_found_in(text, typed) {
        let at = choose|at: int| is_found_at(text, typed, at);
        assert forall|k: int| 0 <= k < wanted.len() implies low[at + k] == #[trigger] wanted[k] by {
            assert(same_letter(text[at + k], typed[k]));
        }
        assert(low.subrange(at, at + wanted.len()) =~= wanted);
        assert(stands_at(low, wanted, at));
    }
}

/// What is typed picks the agents that have it in their name or in their description, in
/// either case: all of those, and no others.
pub proof fn a_filter_picks_by_name_or_description(
    agents: Seq<NewAgentView>,
    typed: Seq<char>,
    at: int,
)
    requires
        0 <= at < agents.len() <= usize::MAX,
        is_basic(agents[at].name),
        is_basic(agents[at].description),
        is_basic(typed),
        typed.len() > 0,
    ensures
        matching(agents, typed, agents.len() as int).contains(at as usize) <==> (is_found_in(
            agents[at].name,
            typed,
        ) || is_found_in(agents[at].description, typed)),
{
    lowercase_finds_either_case(agents[at].name, typed);
    lowercase_finds_either_case(agents[at].description, typed);
    every_match_is_listed(agents, typed, agents.len() as int, at);
    assert(lowercase(typed).len() == typed.len());
}

/// A listed agent is one that matches, and one that matches is listed.
proof fn every_match_is_listed(agents: Seq<NewAgentView>, typed: Seq<char>, count: int, at: int)
    requires
        0 <= at < agents.len() <= usize::MAX,
        0 <= count <= agents.len(),
    ensures
        matching(agents, typed, count).contains(at as usize) <==> at < count && agent_matches(
            agents[at],
            typed,
        ),
    decreases count,
{
    if count > 0 {
        every_match_is_listed(agents, typed, count - 1, at);
        let before = matching(agents, typed, count - 1);
        let after = matching(agents, typed, count);
        if agent_matches(agents[count - 1], typed) {
            assert(after == before.push((count - 1) as usize));
            if before.contains(at as usize) {
                let i = choose|i: int| 0 <= i < before.len() && before[i] == at as usize;
                assert(after[i] == at as usize);
            }
            if at == count - 1 {
                assert(after.last() == at as usize);
            }
            if after.contains(at as usize) && at != count - 1 {
                let i = choose|i: int| 0 <= i < after.len() && after[i] == at as usize;
                assert(before[i] == at as usize);
            }
        }
    }
}

/// The agent that is chosen is the one on the picker's row among those that match.
pub proof fn the_chosen_agent_is_on_its_row(dash: Dashboard, row: int)
    requires
        dash.new_run.agents@.len() <= usize::MAX,
        row == dash.new_run.selected,
    ensures
        dash.chosen_agent() is Some <==> row < dash.matching_agents().len(),
        dash.chosen_agent() is Some ==> dash.new_run.agents@.contains(dash.chosen_agent()->0)
            && agent_matches(dash.chosen_agent()->0@, dash.new_run.filter@)
            && dash.chosen_name() == dash.chosen_agent()->0.name@,
        dash.chosen_agent() is None ==> dash.chosen_name().len() == 0,
{
    let agents = dash.new_run.agents@;
    matches_are_agents(views(agents), dash.new_run.filter@, agents.len() as int);
    if row < dash.matching_agents().len() {
        let at = dash.matching_agents()[row] as int;
        assert(agents[at] == dash.chosen_agent()->0);
        assert(views(agents)[at] == agents[at]@);
    }
}

/// A screen that opens again is on the agent launched last, where it is still offered.
pub proof fn the_last_agent_is_found_again(
    agents: Seq<NewAgentView>,
    last: Seq<char>,
    otherwise: usize,
    from: int,
)
    requires
        0 <= from <= agents.len() <= usize::MAX,
    ensures
        reopened_at(agents, None, otherwise, from) == otherwise,
        ({
            let at = reopened_at(agents, Some(last), otherwise, from);
            ||| from <= at < agents.len() && agents[at as int].name == last && forall|j: int|
                from <= j < at ==> (#[trigger] agents[j]).name != last
            ||| at == otherwise && forall|j: int|
                from <= j < agents.len() ==> (#[trigger] agents[j]).name != last
        }),
    decreases agents.len() - from,
{
    if from < agents.len() && agents[from].name != last {
        the_last_agent_is_found_again(agents, last, otherwise, from + 1);
    }
}

// ── A start ──────────────────────────────────────────────────────────────────

/// A run starts if and only if an agent is chosen, the task says something, and the files and
/// inputs that it names were read.
pub proof fn what_a_start_needs(
    dash: Dashboard,
    read: Result<InlineParts, String>,
    inputs: Result<ResolvedInputs, String>,
)
    ensures
        start_refused(dash, read, inputs) is None <==> dash.chosen_agent() is Some
            && says_something(dash.new_run.task.before@ + dash.new_run.task.after@) && read is Ok
            && inputs is Ok,
        dash.chosen_agent() is Some && says_something(
            dash.new_run.task.before@ + dash.new_run.task.after@,
        ) && read is Err ==> start_refused(dash, read, inputs) == Some(
            "Could not attach a file: "@ + read->Err_0@,
        ),
        dash.chosen_agent() is Some && says_something(
            dash.new_run.task.before@ + dash.new_run.task.after@,
        ) && read is Ok && inputs is Err ==> start_refused(dash, read, inputs) == Some(
            "Could not read an input: "@ + inputs->Err_0@,
        ),
{
    let task = dash.new_run.task.before@ + dash.new_run.task.after@;
    let at = a_trimmed_text_loses_only_blanks(task);
    if trimmed(task).len() > 0 {
        assert(task[at] == trimmed(task)[0]);
    }
}

/// A start hands over one run: of the chosen agent, with the task as it was read, in the
/// working directory, unattended if and only if the switch is on, with the files of the task
/// before those of the slots, and the slots' seeds.
pub proof fn a_start_sends_what_is_on_screen(
    before: Dashboard,
    after: Dashboard,
    agent: NewRunAgent,
    read: InlineParts,
    inputs: ResolvedInputs,
)
    requires
        started(before, after, agent, read, inputs),
    ensures
        ({
            let sent = after.lanes.spawn_commands@;
            let run = sent.last();
            &&& sent.len() == before.lanes.spawn_commands@.len() + 1
            &&& run.agent_path@ == agent.path@
            &&& run.task@ == read.text@
            &&& run.workdir@ == before.new_run.workdir@
            &&& run.yolo == before.unattended.on
            &&& opt_text(run.yolo_profile) == opt_text(before.unattended.profile)
            &&& run.parts@.len() == read.parts@.len() + inputs.parts@.len()
            &&& forall|i: int|
                0 <= i < read.parts@.len() ==> run.parts@[i]@ == (#[trigger] read.parts@[i])@
            &&& forall|i: int|
                0 <= i < inputs.parts@.len() ==> run.parts@[read.parts@.len() + i]@ == (
                #[trigger] inputs.parts@[i])@
            &&& run.regions@.len() == inputs.regions@.len()
            &&& forall|i: int|
                0 <= i < inputs.regions@.len() ==> run.regions@[i].0@ == (
                #[trigger] inputs.regions@[i]).0@ && run.regions@[i].1@ == inputs.regions@[i].1@
            &&& forall|i: int|
                0 <= i < before.lanes.spawn_commands@.len() ==> sent[i]@ == (
                #[trigger] before.lanes.spawn_commands@[i])@
        }),
{
    let sent = after.lanes.spawn_commands@;
    let run = sent.last();
    let old_sent = before.lanes.spawn_commands@;
    assert(views(sent).len() == old_sent.len() + 1);
    assert(views(sent)[sent.len() - 1] == run@);
    assert(run@.parts == views(run.parts@));
    assert(views(run.parts@).len() == run.parts@.len());
    assert(views(run.regions@).len() == run.regions@.len());
    assert forall|i: int| 0 <= i < read.parts@.len() implies run.parts@[i]@ == (
    #[trigger] read.parts@[i])@ by {
        assert(views(run.parts@)[i] == views(read.parts@)[i]);
    }
    assert forall|i: int| 0 <= i < inputs.parts@.len() implies run.parts@[read.parts@.len() + i]@
        == (#[trigger] inputs.parts@[i])@ by {
        assert(views(run.parts@)[read.parts@.len() + i] == views(inputs.parts@)[i]);
    }
    assert forall|i: int| 0 <= i < inputs.regions@.len() implies run.regions@[i].0@ == (
    #[trigger] inputs.regions@[i]).0@ && run.regions@[i].1@ == inputs.regions@[i].1@ by {
        assert(views(run.regions@)[i] == views(inputs.regions@)[i]);
        assert(run.regions@[i]@ == (run.regions@[i].0@, run.regions@[i].1@));
        assert(inputs.regions@[i]@ == (inputs.regions@[i].0@, inputs.regions@[i].1@));
    }
    assert forall|i: int| 0 <= i < old_sent.len() implies sent[i]@ == (#[trigger] old_sent[i])@ by {
        assert(views(sent)[i] == views(old_sent)[i]);
    }
}

/// Whether a toast warns that a name was no file.
pub open spec fn warns_of(toast: Toast, name: Seq<char>) -> bool {
    &&& toast.message@ == "'@"@ + name + "' names no file in the working directory; sent as text"@
    &&& toast.level is Warning
}

/// A start closes the screen, remembers its agent, and says of each name that was no file that
/// it went as text and, last of all, what is starting.
pub proof fn a_start_is_told(
    before: Dashboard,
    after: Dashboard,
    agent: NewRunAgent,
    read: InlineParts,
    inputs: ResolvedInputs,
)
    requires
        started(before, after, agent, read, inputs),
    ensures
        !after.new_run.open,
        !after.file_ref.open,
        after.new_run.last_launched_agent is Some,
        after.new_run.last_launched_agent->0@ == agent.name@,
        ({
            let said = after.notes.toasts@;
            let named = read.unresolved@.len() + inputs.unresolved@.len();
            &&& said.len() == before.notes.toasts@.len() + named + 1
            &&& ("Starting '"@ + agent.name@ + "'"@).is_prefix_of(said.last().message@)
            &&& (said.last().level is Warning <==> before.unattended.on)
            &&& (said.last().level is Progress <==> !before.unattended.on)
            &&& forall|i: int|
                #![trigger read.unresolved@[i]]
                0 <= i < read.unresolved@.len() ==> warns_of(
                    said[before.notes.toasts@.len() + i],
                    read.unresolved@[i]@,
                )
        }),
        after.notes.log@.len() == before.notes.log@.len() + 1,
        after.notes.log@.last().message@ == "run requested: "@ + agent.name@,
{
    let said = after.notes.toasts@;
    let unresolved = views(read.unresolved@) + views(inputs.unresolved@);
    every_name_is_warned_of(unresolved, unresolved.len() as int);
    let warned = token_warnings(unresolved, unresolved.len() as int);
    let told = views(before.notes.toasts@) + warned;
    assert(views(said).len() == said.len());
    assert(views(said)[said.len() - 1] == said.last()@);
    assert(told.len() == before.notes.toasts@.len() + unresolved.len());
    let files = read.parts@.len() + inputs.parts@.len();
    assert(said.last()@ == start_notice(before, agent.name@, files));
    assert(said.last().level == said.last()@.level);
    let head = "Starting '"@ + agent.name@ + "'"@;
    assert(said.last().message@.take(head.len() as int) =~= head);
    assert forall|i: int|
        #![trigger read.unresolved@[i]]
        0 <= i < read.unresolved@.len() implies warns_of(
        said[before.notes.toasts@.len() + i],
        read.unresolved@[i]@,
    ) by {
        assert(views(said)[before.notes.toasts@.len() + i] == warned[i]);
        assert(unresolved[i] == read.unresolved@[i]@);
    }
    assert(views(after.notes.log@).len() == after.notes.log@.len());
    assert(views(after.notes.log@).last() == after.notes.log@.last()@);
}

/// Each name has its warning, in its place.
proof fn every_name_is_warned_of(tokens: Seq<Seq<char>>, count: int)
    requires
        0 <= count <= tokens.len(),
    ensures
        token_warnings(tokens, count).len() == count,
        forall|i: int|
            0 <= i < count ==> (#[trigger] token_warnings(tokens, count)[i]).message == "'@"@
                + tokens[i] + "' names no file in the working directory; sent as text"@
                && token_warnings(tokens, count)[i].level is Warning,
    decreases count,
{
    if count > 0 {
        every_name_is_warned_of(tokens, count - 1);
    }
}

/// Files are counted in words that differ with their number, and not at all where there are
/// none.
pub proof fn files_are_counted(count: nat)
    ensures
        count == 0 <==> files_counted(count).len() == 0,
        count == 1 ==> files_counted(count) == " with 1 file"@,
        count > 1 ==> files_counted(count) == " with "@ + crate::text::decimal(count) + " files"@,
{
    reveal_strlit(" with 1 file");
    reveal_strlit(" with ");
}

/// Every outcome is told and logged, in its order and in its own words: as an error if and only
/// if the run did not start.
pub proof fn every_outcome_is_told(outcomes: Seq<SpawnOutcome>, stamp: Seq<char>, at: int)
    requires
        0 <= at < outcomes.len(),
    ensures
        outcome_toasts(outcomes).len() == outcomes.len(),
        outcome_toasts(outcomes)[at].message == outcomes[at].message@,
        outcome_toasts(outcomes)[at].level is Error <==> !outcomes[at].ok,
        outcome_toasts(outcomes)[at].level is Info <==> outcomes[at].ok,
        outcome_log(outcomes, stamp).len() == outcomes.len(),
        outcome_log(outcomes, stamp)[at].message == outcomes[at].message@,
        outcome_log(outcomes, stamp)[at].timestamp == stamp,
{
}

/// The run that is opened is the last that started; where none did, the one that was waited for
/// before.
pub proof fn the_last_started_run_is_opened(
    outcomes: Seq<SpawnOutcome>,
    waiting: Option<(Seq<char>, u32)>,
    at: int,
)
    requires
        0 <= at < outcomes.len(),
    ensures
        outcomes[at].run_id is Some && (forall|j: int|
            at < j < outcomes.len() ==> (#[trigger] outcomes[j]).run_id is None) ==> run_to_open(
            outcomes,
            waiting,
            outcomes.len() as int,
        ) == Some((outcomes[at].run_id->0@, OPEN_RUN_TICKS)),
        (forall|j: int| 0 <= j < outcomes.len() ==> (#[trigger] outcomes[j]).run_id is None)
            ==> run_to_open(outcomes, waiting, outcomes.len() as int) == waiting,
{
    the_run_to_open(outcomes, waiting, at, outcomes.len() as int);
}

proof fn the_run_to_open(
    outcomes: Seq<SpawnOutcome>,
    waiting: Option<(Seq<char>, u32)>,
    at: int,
    count: int,
)
    requires
        0 <= at < outcomes.len(),
        0 <= count <= outcomes.len(),
    ensures
        outcomes[at].run_id is Some && at < count && (forall|j: int|
            at < j < count ==> (#[trigger] outcomes[j]).run_id is None) ==> run_to_open(
            outcomes,
            waiting,
            count,
        ) == Some((outcomes[at].run_id->0@, OPEN_RUN_TICKS)),
        (forall|j: int| 0 <= j < count ==> (#[trigger] outcomes[j]).run_id is None)
            ==> run_to_open(outcomes, waiting, count) == waiting,
    decreases count,
{
    if count > 0 {
        the_run_to_open(outcomes, waiting, at, count - 1);
        if outcomes[count - 1].run_id is None {
            assert(run_to_open(outcomes, waiting, count) == run_to_open(
                outcomes,
                waiting,
                count - 1,
            ));
        }
    }
}

/// A run's row on screen is the first row that shows it.
pub proof fn a_run_is_found_on_screen(runs: RunList, id: Seq<char>, from: int)
    requires
        0 <= from <= runs.display_indices@.len(),
    ensures
        match row_on_screen(runs, id, from) {
            Some(row) => {
                let agent = runs.display_indices@[row];
                &&& from <= row < runs.display_indices@.len()
                &&& agent < runs.agents@.len()
                &&& runs.agents@[agent as int].id@ == id
                &&& forall|j: int|
                    from <= j < row && runs.display_indices@[j] < runs.agents@.len() ==> (
                    #[trigger] runs.agents@[runs.display_indices@[j] as int]).id@ != id
            },
            None => forall|j: int|
                from <= j < runs.display_indices@.len() && runs.display_indices@[j]
                    < runs.agents@.len() ==> (
                #[trigger] runs.agents@[runs.display_indices@[j] as int]).id@ != id,
        },
    decreases runs.display_indices@.len() - from,
{
    let rows = runs.display_indices@;
    if from < rows.len() && !(rows[from] < runs.agents@.len() && runs.agents@[rows[from] as int].id@
        == id) {
        a_run_is_found_on_screen(runs, id, from + 1);
    }
}

/// A reply says what the daemon said: a started run by its id, a refusal by its reason.
pub proof fn a_reply_says_what_came_back(path: Seq<char>, reply: SpawnReply)
    ensures
        reply matches SpawnReply::Spawned(id) ==> id@.is_suffix_of(reply_text(path, reply)),
        reply matches SpawnReply::Refused(said) ==> said@.is_suffix_of(reply_text(path, reply)),
        reply matches SpawnReply::Unexpected(said) ==> said@.is_suffix_of(reply_text(path, reply)),
        reply matches SpawnReply::Unreachable(said) ==> said@.is_suffix_of(
            reply_text(path, reply),
        ),
        reply matches SpawnReply::Unresolved(said) ==> said@.is_suffix_of(reply_text(path, reply))
            && ("Could not start '"@ + path).is_prefix_of(reply_text(path, reply)),
        "Started "@.is_prefix_of(reply_text(path, reply)) <==> reply is Spawned,
{
    let text = reply_text(path, reply);
    reveal_strlit("Started ");
    reveal_strlit("Could not start '");
    reveal_strlit("The daemon refused the run: ");
    reveal_strlit("Unexpected daemon response to spawn: ");
    reveal_strlit("Could not reach the daemon: ");
    match reply {
        SpawnReply::Spawned(said) => {
            assert(text.skip(text.len() - said@.len()) =~= said@);
            assert(text.take(8) =~= "Started "@);
        },
        SpawnReply::Refused(said) => {
            assert(text.skip(text.len() - said@.len()) =~= said@);
            assert(text[0] == 'T');
        },
        SpawnReply::Unexpected(said) => {
            assert(text.skip(text.len() - said@.len()) =~= said@);
            assert(text[0] == 'U');
        },
        SpawnReply::Unreachable(said) => {
            assert(text.skip(text.len() - said@.len()) =~= said@);
            assert(text[0] == 'C');
        },
        SpawnReply::Unresolved(said) => {
            assert(text.skip(text.len() - said@.len()) =~= said@);
            let head = "Could not start '"@ + path;
            assert(text.take(head.len() as int) =~= head);
            assert(text[0] == 'C');
        },
    }
    if "Started "@.is_prefix_of(text) {
        assert(text[0] == "Started "@[0]);
    }
}

// ── Keys ─────────────────────────────────────────────────────────────────────

/// A run is started from the keyboard in two ways only: with Enter or Space on the Start
/// button, and with Control and Enter or `s` in the task. Both always do.
pub proof fn only_these_keys_start_a_run(
    before: Dashboard,
    after: Dashboard,
    key: KeyEvent,
    action: NewRunAction,
)
    requires
        pane_keyed(before, after, key, action),
    ensures
        action is Submit <==> {
            ||| before.new_run.focus is Start && (key.code == KeyCode::Enter || key.code
                == KeyCode::Char(' '))
            ||| before.new_run.focus is Task && key.control && (key.code == KeyCode::Enter
                || key.code == KeyCode::Char('s'))
        },
        action is Submit ==> after == before,
{
}

/// Tab goes round the panes and its reverse goes back: agents, inputs where there are any, the
/// task, the Start button, and the agents again.
pub proof fn back_tab_undoes_tab(
    before: Dashboard,
    on: Dashboard,
    back: Dashboard,
    tab: KeyEvent,
    back_tab: KeyEvent,
    first: NewRunAction,
    second: NewRunAction,
)
    requires
        tab.code == KeyCode::Tab,
        back_tab.code == KeyCode::BackTab,
        pane_keyed(before, on, tab, first),
        pane_keyed(on, back, back_tab, second),
        before.new_run.focus is Inputs ==> before.inputs.slots@.len() > 0,
    ensures
        back.new_run.focus == before.new_run.focus,
        on.new_run.focus == match before.new_run.focus {
            NewRunPane::Agents => if before.inputs.slots@.len() > 0 {
                NewRunPane::Inputs
            } else {
                NewRunPane::Task
            },
            NewRunPane::Inputs => NewRunPane::Task,
            NewRunPane::Task => NewRunPane::Start,
            NewRunPane::Start => NewRunPane::Agents,
        },
{
}

/// In the agent list a character is added to what was typed and Backspace takes the last one
/// off again; either way the cursor goes to the top, and no key but Escape closes the screen,
/// and that only where nothing was typed.
pub proof fn the_agent_list_is_typed_into(
    before: Dashboard,
    after: Dashboard,
    undone: Dashboard,
    c: char,
)
    requires
        agents_keyed(before, after, KeyCode::Char(c)),
        agents_keyed(after, undone, KeyCode::Backspace),
    ensures
        after.new_run.filter@ == before.new_run.filter@ + seq![c],
        after.new_run.selected == 0,
        undone.new_run.filter@ == before.new_run.filter@,
        undone.new_run.open == before.new_run.open,
{
    assert(before.new_run.filter@.push(c).drop_last() =~= before.new_run.filter@);
}

/// Escape in the agent list clears what was typed, and closes the screen where nothing was.
pub proof fn escape_clears_before_it_closes(before: Dashboard, after: Dashboard, code: KeyCode)
    requires
        agents_keyed(before, after, code),
        before.new_run.open,
    ensures
        !after.new_run.open <==> code is Esc && before.new_run.filter@.len() == 0,
        code is Esc ==> after.new_run.filter@.len() == 0,
        code is Up || code is Down ==> after.new_run.filter@ == before.new_run.filter@,
        before.new_run.selected < before.matching_agents().len() && (code is Up || code is Down)
            ==> after.new_run.selected < before.matching_agents().len(),
        code is Up && before.new_run.selected > 0 ==> after.new_run.selected
            == before.new_run.selected - 1,
        code is Down && before.new_run.selected + 1 < before.matching_agents().len()
            && before.new_run.selected < usize::MAX ==> after.new_run.selected
            == before.new_run.selected + 1,
{
}

/// A key of the task that the screen takes leaves the text as it is, but for an `@`, which goes
/// in at the cursor and opens the completion.
pub proof fn the_task_is_typed_into(
    before: Dashboard,
    after: Dashboard,
    key: KeyEvent,
    action: NewRunAction,
)
    requires
        task_keyed(before, after, key, action),
    ensures
        key.code != KeyCode::Char('@') ==> after.new_run.task == before.new_run.task
            && after.file_ref == before.file_ref,
        key.code == KeyCode::Char('@') ==> after.new_run.task.whole() == before.new_run.task.before@
            + seq!['@'] + before.new_run.task.after@ && after.file_ref.open && action is Done,
        key.code is Char && key.code != KeyCode::Char('@') && !key.control ==> action is TaskKey
            && after == before,
        key.code == KeyCode::Enter && !key.control ==> action is TaskKey,
{
    assert(before.new_run.task.before@.push('@') =~= before.new_run.task.before@ + seq!['@']);
}

/// While the file picker is open every key is its own, while a completion is open every key is
/// that, and with neither a popup of the task box comes before the panes.
pub proof fn what_is_on_top_takes_the_key(
    before: Dashboard,
    after: Dashboard,
    key: KeyEvent,
    action: NewRunAction,
)
    requires
        screen_keyed(before, after, key, action),
    ensures
        before.inputs.picker is Some ==> action is PickerKey && after == before,
        before.inputs.picker is None && before.file_ref.open ==> action is Done && file_ref_keyed(
            before,
            after,
            key,
        ),
        before.inputs.picker is None && !before.file_ref.open && before.new_run.task_modal
            ==> action is TaskKey && after.new_run.focus is Task && after.new_run.task
            == before.new_run.task,
        action is Submit ==> before.inputs.picker is None && !before.file_ref.open
            && !before.new_run.task_modal,
        action matches NewRunAction::LoadInputs { path, bundled, name } ==> after == before
            && before.chosen_agent() is Some && path@ == before.chosen_agent()->0.path@ && name@
            == before.chosen_agent()->0.name@ && (bundled <==> before.chosen_agent()->0.source@
            == "bundled"@) && before.inputs.key@ != path@,
{
}

// ── Unattended ───────────────────────────────────────────────────────────────

/// The switch never turns unattended on by itself: from off it asks, with a warning that is
/// marked as a danger, and stays off.
pub proof fn unattended_is_asked_for(before: Dashboard, after: Dashboard)
    requires
        toggled(before, after),
        !before.unattended.on,
    ensures
        !after.unattended.on,
        after.unattended == before.unattended,
        after.notes.toasts == before.notes.toasts,
        open_question(after) matches Some((action, question)) && action == ActionView::EnableYolo
            && question.danger && question.title == "Run unattended?"@ && question.accept
            == "Run unattended"@ && question.decline == "Keep asking me"@,
{
}

/// From on, the switch steps to a profile of the list or turns unattended off, and says which:
/// off as information, a profile by its name as a warning.
pub proof fn a_step_is_told(before: Dashboard, after: Dashboard)
    requires
        toggled(before, after),
        before.unattended.on,
    ensures
        ({
            let said = after.notes.toasts@;
            &&& said.len() == before.notes.toasts@.len() + 1
            &&& (after.unattended.on <==> after.unattended.profile is Some)
            &&& (after.unattended.on ==> exists|i: int|
                0 <= i < before.unattended.profiles@.len() && (
                #[trigger] before.unattended.profiles@[i]).name@
                    == after.unattended.profile->0@)
            &&& (after.unattended.on ==> said.last().level is Warning && (
            "Unattended under '"@ + after.unattended.profile->0@ + "': "@).is_prefix_of(
                said.last().message@,
            ))
            &&& (!after.unattended.on ==> said.last().level is Info && said.last().message@
                == "Unattended OFF: runs will ask you before each tool call"@)
            &&& after.notes.pending_confirm == before.notes.pending_confirm
        }),
{
    let said = after.notes.toasts@;
    let profiles = before.unattended.profiles@;
    let next = next_profile(profiles, opt_text(before.unattended.profile), 0);
    a_next_profile_is_in_the_list(profiles, opt_text(before.unattended.profile), 0);
    assert(views(said).len() == said.len());
    assert(views(said)[said.len() - 1] == said.last()@);
    if next < profiles.len() {
        assert(profiles[next].name@ == after.unattended.profile->0@);
        let head = "Unattended under '"@ + after.unattended.profile->0@ + "': "@;
        assert(said.last().message@.take(head.len() as int) =~= head);
    }
}

/// The next profile is the first, or the one behind that in use.
proof fn a_next_profile_is_in_the_list(
    profiles: Seq<YoloProfile>,
    current: Option<Seq<char>>,
    from: int,
)
    requires
        0 <= from <= profiles.len(),
    ensures
        0 <= next_profile(profiles, current, from) <= profiles.len(),
    decreases profiles.len() - from,
{
    match current {
        Some(name) => if from < profiles.len() && profiles[from].name@ != name {
            a_next_profile_is_in_the_list(profiles, current, from + 1);
        },
        None => {},
    }
}

/// Unattended is off every time the screen opens, whatever it was; the keys are on the agents, no
/// completion is open, and the rest of the dashboard stays as it is.
pub proof fn the_screen_opens_attended(
    before: Dashboard,
    after: Dashboard,
    profiles: Vec<YoloProfile>,
    files: Vec<String>,
)
    requires
        after == opened(before, after, profiles, files),
    ensures
        after.new_run.open,
        after.new_run.focus is Agents,
        !after.unattended.on,
        after.unattended.profile is None,
        after.unattended.profiles == profiles,
        after.file_ref.files == files,
        !after.file_ref.open,
        after.runs == before.runs && after.notes == before.notes && after.lanes == before.lanes,
{
}

/// A screen that closes keeps what was filled in: it is closed, with its preview and its
/// completion, and nothing else changes.
pub proof fn a_closed_screen_keeps_its_task(before: Dashboard, after: Dashboard)
    requires
        after == closed_screen(before, after),
    ensures
        !after.new_run.open,
        !after.new_run.preview,
        !after.file_ref.open,
        after.new_run.task == before.new_run.task,
        after.new_run.filter == before.new_run.filter,
        after.new_run.selected == before.new_run.selected,
        after.inputs == before.inputs,
        after.unattended == before.unattended,
        after.runs == before.runs && after.notes == before.notes && after.lanes == before.lanes,
{
}

/// What is said of a start names the agent, says that it is unattended and under which profile where
/// it is, and how many files go along where any do.
pub proof fn a_start_says_how_it_runs(dash: Dashboard, name: Seq<char>, files: nat)
    ensures
        ({
            let said = start_notice(dash, name, files).message;
            let head = "Starting '"@ + name + "'"@;
            let counted = files_counted(files) + "…"@;
            &&& (!dash.unattended.on ==> said == head + counted)
            &&& (dash.unattended.on && dash.unattended.profile is None ==> said == head
                + " unattended"@ + counted)
            &&& (dash.unattended.on && dash.unattended.profile is Some ==> said == head
                + " unattended under '"@ + dash.unattended.profile->0@ + "'"@ + counted)
        }),
{
    let said = start_notice(dash, name, files).message;
    let head = "Starting '"@ + name + "'"@;
    let counted = files_counted(files) + "…"@;
    if !dash.unattended.on {
        assert(said =~= head + counted);
    } else if dash.unattended.profile is None {
        assert(said =~= head + " unattended"@ + counted);
    } else {
        assert(said =~= head + " unattended under '"@ + dash.unattended.profile->0@ + "'"@
            + counted);
    }
}

/// A profile that comes into use says by its name what it still keeps for the person: the first of
/// what it holds, or nothing.
pub proof fn a_profile_says_what_it_keeps(profile: YoloProfile)
    ensures
        profile.holds@.len() > 0 ==> profile_notice(profile).message == "Unattended under '"@
            + profile.name@ + "': "@ + ("keeps for you: "@ + profile.holds@[0]@),
        profile.holds@.len() == 0 ==> profile_notice(profile).message == "Unattended under '"@
            + profile.name@ + "': "@ + "keeps nothing for you"@,
        profile_notice(profile).level is Warning,
{
}

/// The warning says what runs will do by themselves, what still stops them, and how to turn it off,
/// with a blank line between each.
pub proof fn the_warning_says_what_it_does_and_does_not(question: ConfirmView)
    requires
        question == warning(),
    ensures
        question.danger,
        question.body.len() == 5,
        question.body[1][0].content.len() == 0 && question.body[3][0].content.len() == 0,
        question.body[0][0].content
            == "Agent runs started from this screen will approve their own tool calls: editing files, running shell commands, fetching URLs, whatever the agent's permissions allow, without stopping to ask you."@,
        question.body[2][0].content
            == "It does not skip checkpoints a blueprint asks a person for. Those still stop, and one nobody answers ends the run when the interaction timeout expires."@,
{
    reveal_strlit("");
}

/// On the Inputs pane a key does what it does to the slots: the picker that opens and the field that
/// takes the key are those of the slot under the cursor.
pub proof fn a_key_of_the_inputs_reaches_its_slot(
    before: Dashboard,
    after: Dashboard,
    key: KeyEvent,
    action: NewRunAction,
)
    requires
        pane_keyed(before, after, key, action),
        before.new_run.focus is Inputs,
        before.inputs.selected < before.inputs.slots@.len() <= usize::MAX,
        key.code is Char && !key.control,
        key.code != KeyCode::Char(' '),
    ensures
        before.inputs.slots@[before.inputs.selected as int]@.text_goes() ==> action
            == NewRunAction::EditSlot(before.inputs.selected),
        !before.inputs.slots@[before.inputs.selected as int]@.text_goes() ==> action is Done,
        after == before,
{
}

/// The picker opens on the slot under the cursor with `^O`, where that takes files.
pub proof fn the_picker_opens_on_the_slot_under_the_cursor(
    before: Dashboard,
    after: Dashboard,
    key: KeyEvent,
    action: NewRunAction,
)
    requires
        pane_keyed(before, after, key, action),
        before.new_run.focus is Inputs,
        before.inputs.selected < before.inputs.slots@.len() <= usize::MAX,
        before.inputs.slots@[before.inputs.selected as int]@.files_go(),
        key.code == KeyCode::Char('o') && key.control,
    ensures
        action == NewRunAction::OpenPicker(before.inputs.selected),
        after.inputs.picker == Some(before.inputs.selected),
{
}

} // verus!
