//! What the completion of file references comes to: which files it offers, what its keys do to
//! the task, and how paths are written.

use crate::file_ref::{
    file_ref_keyed, offered_files, passed_over, path_of, without_tail, FILE_REF_VISIBLE,
};
use crate::new_run_laws::{is_found_in, lowercase_finds_either_case};
use crate::outside::{is_basic, lowercase};
use crate::state::Dashboard;
use crate::text::{joined, occurs};
use crate::types::{KeyCode, KeyEvent};
use crate::views::{group_views, views};
use vstd::prelude::*;

verus! {

broadcast use group_views;

/// Whether a file goes with what was typed.
spec fn goes_with(file: Seq<char>, query: Seq<char>) -> bool {
    query.len() == 0 || occurs(lowercase(file), lowercase(query))
}

/// What is offered is the first of those that match, as many as there is room for.
proof fn the_first_matches_are_offered(
    files: Seq<Seq<char>>,
    query: Seq<char>,
    room: nat,
    count: int,
)
    requires
        0 <= count <= files.len(),
    ensures
        ({
            let all = files.take(count).filter(|file: Seq<char>| goes_with(file, query));
            offered_files(files, query, room, count) == all.take(
                if all.len() < room {
                    all.len() as int
                } else {
                    room as int
                },
            )
        }),
    decreases count,
{
    let matches = |file: Seq<char>| goes_with(file, query);
    let all = files.take(count).filter(matches);
    if count > 0 {
        the_first_matches_are_offered(files, query, room, count - 1);
        let fewer = files.take(count - 1);
        let file = files[count - 1];
        assert(files.take(count) =~= fewer.push(file));
        fewer.lemma_filter_push(file, matches);
        let before = fewer.filter(matches);
        if matches(file) {
            if before.len() < room {
                assert(before.take(before.len() as int) =~= before);
                assert(all.take(all.len() as int) =~= all);
            } else {
                assert(all.take(room as int) =~= before.take(room as int));
            }
        }
    } else {
        assert(files.take(0) =~= Seq::empty());
        reveal_with_fuel(Seq::filter, 1);
        assert(all.take(0) =~= Seq::empty());
    }
}

/// The completion offers, of the files that hold what was typed in either case, the first ones,
/// in their order, and no other.
pub proof fn files_are_offered_by_what_was_typed(
    files: Seq<Seq<char>>,
    query: Seq<char>,
    room: nat,
    at: int,
)
    requires
        0 <= at < files.len(),
        is_basic(files[at]),
        is_basic(query),
        query.len() > 0,
    ensures
        ({
            let offered = offered_files(files, query, room, files.len() as int);
            &&& offered.len() <= room
            &&& (offered.contains(files[at]) ==> is_found_in(files[at], query))
            &&& (is_found_in(files[at], query) && offered.len() < room ==> offered.contains(
                files[at],
            ))
        }),
{
    let matches = |file: Seq<char>| goes_with(file, query);
    let all = files.filter(matches);
    let offered = offered_files(files, query, room, files.len() as int);
    the_first_matches_are_offered(files, query, room, files.len() as int);
    assert(files.take(files.len() as int) =~= files);
    lowercase_finds_either_case(files[at], query);
    assert(files.contains(files[at]));
    if offered.contains(files[at]) {
        let k = choose|k: int| 0 <= k < offered.len() && offered[k] == files[at];
        assert(all[k] == files[at]);
        assert(all.contains(files[at]));
        files.lemma_filter_contains_rev(matches, files[at]);
        broadcast use vstd::seq_lib::group_filter_ensures;

        assert(matches(all[k]));
    }
    if is_found_in(files[at], query) && offered.len() < room {
        broadcast use vstd::seq_lib::group_filter_ensures;

        assert(matches(files[at]));
        assert(all.contains(files[at]));
        let k = choose|k: int| 0 <= k < all.len() && all[k] == files[at];
        assert(offered =~= all);
    }
}

/// Nothing is offered while the completion is closed, and never more than it shows.
pub proof fn a_closed_completion_offers_nothing(dash: Dashboard)
    ensures
        !dash.file_ref.open ==> dash.offered().len() == 0,
        dash.offered().len() <= 8,
{
    crate::file_ref::offered_files_match(
        views(dash.file_ref.files@),
        dash.file_ref.query@,
        FILE_REF_VISIBLE as nat,
        dash.file_ref.files@.len() as int,
    );
}

/// What is typed goes into the task and the query alike, and Backspace takes it off both again.
pub proof fn backspace_undoes_a_character(
    before: Dashboard,
    typed: Dashboard,
    undone: Dashboard,
    key: KeyEvent,
    back: KeyEvent,
    c: char,
)
    requires
        key.code == KeyCode::Char(c),
        back.code == KeyCode::Backspace,
        file_ref_keyed(before, typed, key),
        file_ref_keyed(typed, undone, back),
    ensures
        typed.new_run.task.before@ == before.new_run.task.before@ + seq![c],
        typed.file_ref.query@ == before.file_ref.query@ + seq![c],
        typed.file_ref.open == before.file_ref.open,
        undone.new_run.task.before@ == before.new_run.task.before@,
        undone.file_ref.query@ == before.file_ref.query@,
        undone.file_ref.open == before.file_ref.open,
        undone.new_run.task.after == before.new_run.task.after,
{
    assert(before.new_run.task.before@.push(c) =~= before.new_run.task.before@ + seq![c]);
    assert(before.file_ref.query@.push(c) =~= before.file_ref.query@ + seq![c]);
    assert(without_tail(before.new_run.task.before@.push(c), 1) =~= before.new_run.task.before@);
    assert(without_tail(before.file_ref.query@.push(c), 1) =~= before.file_ref.query@);
}

/// Enter and Tab put the chosen path in the place of what was typed behind the `@`; Escape
/// leaves the task as typed. Both close the completion, and so does Backspace over the `@`.
pub proof fn a_choice_goes_into_the_task(
    before: Dashboard,
    after: Dashboard,
    key: KeyEvent,
    head: Seq<char>,
)
    requires
        file_ref_keyed(before, after, key),
        before.new_run.task.before@ == head + before.file_ref.query@,
    ensures
        after.new_run.task.after == before.new_run.task.after,
        (key.code is Enter || key.code is Tab) && before.file_ref.selected < before.offered().len()
            ==> after.new_run.task.before@ == head
            + before.offered()[before.file_ref.selected as int],
        (key.code is Enter || key.code is Tab) && before.file_ref.selected >= before.offered().len()
            ==> after.new_run.task.before@ == before.new_run.task.before@,
        key.code is Esc ==> after.new_run.task == before.new_run.task,
        key.code is Enter || key.code is Tab || key.code is Esc ==> !after.file_ref.open
            && after.file_ref.query@.len() == 0,
        key.code is Backspace && before.file_ref.query@.len() == 0 ==> !after.file_ref.open,
        key.code is Up || key.code is Down ==> after.new_run.task == before.new_run.task
            && after.file_ref.query == before.file_ref.query,
        (key.code is Up || key.code is Down) && before.file_ref.selected < before.offered().len()
            ==> after.file_ref.selected < before.offered().len(),
{
    assert(without_tail(head + before.file_ref.query@, before.file_ref.query@.len()) =~= head);
}

/// Up and down move the highlight by one, as far as there are matches.
pub proof fn the_highlight_moves_by_one(before: Dashboard, after: Dashboard, key: KeyEvent)
    requires
        file_ref_keyed(before, after, key),
        before.file_ref.selected < before.offered().len(),
        before.file_ref.selected < usize::MAX,
    ensures
        key.code is Up && before.file_ref.selected > 0 ==> after.file_ref.selected
            == before.file_ref.selected - 1,
        key.code is Up && before.file_ref.selected == 0 ==> after.file_ref.selected == 0,
        key.code is Down && before.file_ref.selected + 1 < before.offered().len()
            ==> after.file_ref.selected == before.file_ref.selected + 1,
        key.code is Down && before.file_ref.selected + 1 == before.offered().len()
            ==> after.file_ref.selected == before.file_ref.selected,
        key.code is Char || key.code is Backspace ==> after.file_ref.selected == 0,
{
}

/// A path is its names with a slash between each two.
pub proof fn a_path_is_its_names_with_slashes(names: Seq<Seq<char>>)
    requires
        forall|i: int| 0 <= i < names.len() ==> (#[trigger] names[i]).len() > 0,
    ensures
        path_of(names) == joined(names, "/"@),
        names.len() > 0 ==> path_of(names).len() > 0,
    decreases names.len(),
{
    if names.len() > 0 {
        let head = names.drop_last();
        assert(names.last() == names[names.len() - 1]);
        assert forall|i: int| 0 <= i < head.len() implies (#[trigger] head[i]).len() > 0 by {
            assert(head[i] == names[i]);
        }
        a_path_is_its_names_with_slashes(head);
        if names.len() == 1 {
            assert(path_of(head).len() == 0);
        }
    }
}

/// Only what begins with a dot, and what is named `target`, is passed over.
pub proof fn only_hidden_names_and_build_output_are_passed_over(name: Seq<char>)
    ensures
        passed_over(name) <==> (name.len() > 0 && name[0] == '.') || name == seq![
            't',
            'a',
            'r',
            'g',
            'e',
            't',
        ],
{
    reveal_strlit(".");
    reveal_strlit("target");
    assert("."@ =~= seq!['.']);
    assert("target"@ =~= seq!['t', 'a', 'r', 'g', 'e', 't']);
    if name.len() > 0 {
        assert(name.subrange(0, 1) =~= seq![name[0]]);
        assert(seq![name[0]][0] == name[0] && "."@[0] == '.');
    }
}

} // verus!
