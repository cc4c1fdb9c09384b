//! The `@` completion of the task box: which files it offers, and how a choice
//! replaces what was typed.

use crate::order::{order_by, ordered_items_are_in_order, place_by};
use crate::outside::{lowercase, to_lowercase};
use crate::state::{Dashboard, FileRef, NewRun};
use crate::text::{
    at_most, begins, cat3, contains, copy_of, length_of, occurs, same, stands_at, starts_with,
    text_le,
};
use crate::types::{KeyCode, KeyEvent, TextArea};
use crate::views::{group_views, views};
use vstd::prelude::*;

verus! {

broadcast use group_views;

/// How many files of the working directory the completion offers. Typing more of
/// the path is what narrows the list, not a longer one.
pub const FILE_CANDIDATE_CAP: usize = 2_000;

/// How many completions are shown at once.
pub const FILE_REF_VISIBLE: usize = 8;

/// The first of the `count` files that match what was typed, at most `room`. With
/// nothing typed every file matches.
pub open spec fn offered_files(
    files: Seq<Seq<char>>,
    query: Seq<char>,
    room: nat,
    count: int,
) -> Seq<Seq<char>>
    decreases count,
{
    if count <= 0 {
        Seq::empty()
    } else {
        let before = offered_files(files, query, room, count - 1);
        if before.len() < room && (query.len() == 0 || occurs(
            lowercase(files[count - 1]),
            lowercase(query),
        )) {
            before.push(files[count - 1])
        } else {
            before
        }
    }
}

/// A text without its last characters, as many as there are of them.
pub open spec fn without_tail(text: Seq<char>, count: nat) -> Seq<char> {
    if count >= text.len() {
        Seq::empty()
    } else {
        text.take(text.len() - count)
    }
}

impl Dashboard {
    /// The paths that the completion offers.
    pub open spec fn offered(self) -> Seq<Seq<char>> {
        if self.file_ref.open {
            offered_files(
                views(self.file_ref.files@),
                self.file_ref.query@,
                FILE_REF_VISIBLE as nat,
                self.file_ref.files@.len() as int,
            )
        } else {
            Seq::empty()
        }
    }

    /// The paths of the working directory that match what was typed after the
    /// `@`, as many as the popup shows.
    pub fn file_ref_matches(&self) -> (matches: Vec<&str>)
        ensures
            views(matches@) == self.offered(),
    {
        let mut matches: Vec<&str> = Vec::new();
        if !self.file_ref.open {
            return matches;
        }
        let query = to_lowercase(self.file_ref.query.as_str());
        let mut i: usize = 0;
        while i < self.file_ref.files.len()
            invariant
                i <= self.file_ref.files@.len(),
                query@ == lowercase(self.file_ref.query@),
                self.file_ref.query@.len() == 0 ==> query@.len() == 0,
                views(matches@) == offered_files(
                    views(self.file_ref.files@),
                    self.file_ref.query@,
                    FILE_REF_VISIBLE as nat,
                    i as int,
                ),
            decreases self.file_ref.files.len() - i,
        {
            let path = self.file_ref.files[i].as_str();
            assert(views(self.file_ref.files@)[i as int] == path@);
            let lower = to_lowercase(path);
            assert(query@.len() == 0 ==> lower@.subrange(0, 0) =~= query@);
            assert(query@.len() == 0 ==> stands_at(lower@, query@, 0));
            if matches.len() < FILE_REF_VISIBLE && contains(lower.as_str(), query.as_str()) {
                matches.push(path);
            }
            i = i + 1;
        }
        matches
    }
}

/// The completion dismissed.
pub open spec fn dismissed(before: Dashboard, after: Dashboard) -> Dashboard {
    Dashboard {
        file_ref: FileRef {
            open: false,
            query: after.file_ref.query,
            selected: 0,
            ..before.file_ref
        },
        ..before
    }
}

/// The task box with another text before its cursor.
pub open spec fn retyped(before: Dashboard, after: Dashboard) -> Dashboard {
    Dashboard {
        new_run: NewRun {
            task: TextArea { before: after.new_run.task.before, ..before.new_run.task },
            ..before.new_run
        },
        ..before
    }
}

impl Dashboard {
    /// Dismiss the completion, leaving the task exactly as typed.
    pub fn close_file_ref(&mut self)
        ensures
            *final(self) == dismissed(*old(self), *final(self)),
            final(self).file_ref.query@ == Seq::<char>::empty(),
    {
        self.file_ref.open = false;
        self.file_ref.query.clear();
        self.file_ref.selected = 0;
    }

    /// Replace what was typed after the `@` with the highlighted path and dismiss
    /// the completion. With nothing to insert the text stands as typed.
    pub fn accept_file_ref(&mut self)
        ensures
            *final(self) == dismissed(retyped(*old(self), *final(self)), *final(self)),
            final(self).file_ref.query@ == Seq::<char>::empty(),
            final(self).new_run.task.before@ == if old(self).file_ref.selected
                < old(self).offered().len() {
                without_tail(old(self).new_run.task.before@, old(self).file_ref.query@.len())
                    + old(self).offered()[old(self).file_ref.selected as int]
            } else {
                old(self).new_run.task.before@
            },
    {
        let chosen = {
            let matches = self.file_ref_matches();
            if self.file_ref.selected < matches.len() {
                let path = matches[self.file_ref.selected];
                assert(views(matches@)[self.file_ref.selected as int] == path@);
                Some(copy_of(path))
            } else {
                None
            }
        };
        match chosen {
            Some(path) => {
                let typed: usize = length_of(self.file_ref.query.as_str());
                erase(&mut self.new_run.task, typed);
                self.new_run.task.insert_str(path.as_str());
            },
            None => {},
        }
        self.close_file_ref();
    }

    /// A key while the completion is open: the arrows choose, Enter and Tab
    /// accept, Esc dismisses, and typing narrows the list.
    pub fn handle_file_ref_key(&mut self, key: KeyEvent)
        ensures
            file_ref_keyed(*old(self), *final(self), key),
    {
        match key.code {
            KeyCode::Esc => self.close_file_ref(),
            KeyCode::Enter | KeyCode::Tab => self.accept_file_ref(),
            KeyCode::Up => {
                self.file_ref.selected = self.file_ref.selected.saturating_sub(1);
            },
            KeyCode::Down => {
                let matches: usize = self.file_ref_matches().len();
                if self.file_ref.selected.saturating_add(1) < matches {
                    self.file_ref.selected = self.file_ref.selected + 1;
                }
            },
            KeyCode::Backspace => {
                self.new_run.task.delete_char();
                match self.file_ref.query.pop() {
                    Some(_) => {
                        self.file_ref.selected = 0;
                    },
                    None => self.close_file_ref(),
                }
                assert(self.new_run.task.before@ =~= without_tail(
                    old(self).new_run.task.before@,
                    1,
                ));
                assert(self.file_ref.query@ =~= without_tail(old(self).file_ref.query@, 1));
            },
            KeyCode::Char(c) => {
                self.new_run.task.insert_char(c);
                self.file_ref.query.push(c);
                self.file_ref.selected = 0;
            },
            _ => {},
        }
    }
}

/// What a key does while the completion is open.
pub open spec fn file_ref_keyed(before: Dashboard, after: Dashboard, key: KeyEvent) -> bool {
    let selected = before.file_ref.selected;
    match key.code {
        KeyCode::Esc => after == dismissed(before, after) && after.file_ref.query@ == Seq::<
            char,
        >::empty(),
        KeyCode::Enter | KeyCode::Tab => {
            &&& after == dismissed(retyped(before, after), after)
            &&& after.file_ref.query@ == Seq::<char>::empty()
            &&& after.new_run.task.before@ == if selected < before.offered().len() {
                without_tail(before.new_run.task.before@, before.file_ref.query@.len())
                    + before.offered()[selected as int]
            } else {
                before.new_run.task.before@
            }
        },
        KeyCode::Up => after == on_match(
            before,
            if selected == 0 {
                0
            } else {
                (selected - 1) as usize
            },
        ),
        KeyCode::Down => after == on_match(
            before,
            if selected + 1 < before.offered().len() {
                (selected + 1) as usize
            } else {
                selected
            },
        ),
        // Backspacing over the `@` itself ends the reference.
        KeyCode::Backspace => {
            &&& after == (Dashboard {
                file_ref: FileRef {
                    open: before.file_ref.query@.len() > 0 && before.file_ref.open,
                    query: after.file_ref.query,
                    selected: 0,
                    ..before.file_ref
                },
                ..retyped(before, after)
            })
            &&& after.new_run.task.before@ == without_tail(before.new_run.task.before@, 1)
            &&& after.file_ref.query@ == without_tail(before.file_ref.query@, 1)
        },
        KeyCode::Char(c) => {
            &&& after == (Dashboard {
                file_ref: FileRef {
                    query: after.file_ref.query,
                    selected: 0,
                    ..before.file_ref
                },
                ..retyped(before, after)
            })
            &&& after.new_run.task.before@ == before.new_run.task.before@.push(c)
            &&& after.file_ref.query@ == before.file_ref.query@.push(c)
        },
        _ => after == before,
    }
}

/// The highlight goes to another match.
pub open spec fn on_match(dash: Dashboard, selected: usize) -> Dashboard {
    Dashboard { file_ref: FileRef { selected, ..dash.file_ref }, ..dash }
}

/// Delete the last characters before the cursor.
fn erase(task: &mut TextArea, count: usize)
    ensures
        final(task).before@ == without_tail(old(task).before@, count as nat),
        final(task).after == old(task).after,
{
    let mut done: usize = 0;
    assert(without_tail(task.before@, 0) =~= task.before@);
    while done < count
        invariant
            done <= count,
            task.before@ == without_tail(old(task).before@, done as nat),
            task.after == old(task).after,
        decreases count - done,
    {
        task.delete_char();
        done = done + 1;
        assert(task.before@ =~= without_tail(old(task).before@, done as nat));
    }
}

/// Accepting a path replaces what was typed after the `@` and nothing else: a
/// task that ends, before its cursor, with an `@` and the query ends with that `@`
/// and the path instead.
pub proof fn a_choice_replaces_the_query(head: Seq<char>, query: Seq<char>, path: Seq<char>)
    ensures
        without_tail(head + "@"@ + query, query.len()) + path == head + "@"@ + path,
{
    reveal_strlit("@");
    assert(without_tail(head + "@"@ + query, query.len()) =~= head + "@"@);
}

/// With nothing typed the completion offers the first files, as many as it shows.
pub proof fn nothing_typed_offers_the_first_files(files: Seq<Seq<char>>, room: nat, count: int)
    requires
        0 <= count <= files.len(),
    ensures
        offered_files(files, Seq::empty(), room, count) == files.take(
            if count < room {
                count
            } else {
                room as int
            },
        ),
    decreases count,
{
    if count > 0 {
        nothing_typed_offers_the_first_files(files, room, count - 1);
        assert(files.take(count - 1).push(files[count - 1]) =~= files.take(count));
    } else {
        assert(files.take(0) =~= Seq::empty());
    }
}

/// The completion offers files of the working directory that match, no more than
/// it shows.
pub proof fn offered_files_match(
    files: Seq<Seq<char>>,
    query: Seq<char>,
    room: nat,
    count: int,
)
    requires
        0 <= count <= files.len(),
    ensures
        offered_files(files, query, room, count).len() <= room,
        forall|k: int|
            0 <= k < offered_files(files, query, room, count).len() ==> {
                &&& query.len() == 0 || occurs(
                    lowercase(#[trigger] offered_files(files, query, room, count)[k]),
                    lowercase(query),
                )
                &&& files.contains(offered_files(files, query, room, count)[k])
            },
    decreases count,
{
    if count > 0 {
        offered_files_match(files, query, room, count - 1);
        assert(files.contains(files[count - 1]));
    }
}

// ── The working directory ────────────────────────────────────────────────────

/// What paths are in the order of.
pub open spec fn by_text() -> spec_fn(Seq<char>) -> Seq<char> {
    |text: Seq<char>| text
}

/// The first `count` texts in order.
pub open spec fn text_order(texts: Seq<Seq<char>>, count: int) -> Seq<Seq<char>> {
    order_by(texts, by_text(), count)
}

/// The files are in order, and each is there as often as it was found.
pub proof fn the_files_are_in_order(texts: Seq<Seq<char>>, count: int)
    requires
        0 <= count <= texts.len(),
    ensures
        forall|i: int, j: int|
            0 <= i <= j < text_order(texts, count).len() ==> text_le(
                #[trigger] text_order(texts, count)[i],
                #[trigger] text_order(texts, count)[j],
            ),
        text_order(texts, count).to_multiset() == texts.take(count).to_multiset(),
        text_order(texts, count).len() == count,
{
    ordered_items_are_in_order(texts, by_text(), count);
    let sorted = text_order(texts, count);
    assert forall|i: int, j: int| 0 <= i <= j < sorted.len() implies text_le(
        #[trigger] sorted[i],
        #[trigger] sorted[j],
    ) by {
        assert(text_le(by_text()(sorted[i]), by_text()(sorted[j])));
    }
}

/// The texts in order.
fn sort_texts(texts: &Vec<String>) -> (sorted: Vec<String>)
    ensures
        views(sorted@) == text_order(views(texts@), texts@.len() as int),
{
    let mut sorted: Vec<String> = Vec::new();
    let mut i: usize = 0;
    while i < texts.len()
        invariant
            i <= texts@.len(),
            views(sorted@) == text_order(views(texts@), i as int),
        decreases texts.len() - i,
    {
        let text = copy_of(texts[i].as_str());
        let ghost before = views(sorted@);
        assert(views(texts@)[i as int] == text@);
        let mut place: usize = sorted.len();
        assert(before.take(place as int) =~= before);
        while place > 0 && !at_most(sorted[place - 1].as_str(), text.as_str())
            invariant
                place <= sorted@.len(),
                before == views(sorted@),
                place_by(before, by_text(), text@) == place_by(
                    before.take(place as int),
                    by_text(),
                    text@,
                ),
            decreases place,
        {
            proof {
                assert(before.take(place as int).drop_last() =~= before.take(place - 1));
                assert(before.take(place as int).last() == sorted@[place - 1]@);
            }
            place = place - 1;
        }
        proof {
            assert(place > 0 ==> before.take(place as int).last() == sorted@[place - 1]@);
            assert(place_by(before, by_text(), text@) == place);
        }
        sorted.insert(place, text);
        assert(views(sorted@) =~= before.insert(place as int, text@));
        i = i + 1;
    }
    sorted
}

/// A walk over the working directory for the files that the completion offers:
/// the files found so far, and the directories still to be read, both relative to
/// the root. The root's own name is empty.
#[derive(Clone, Debug, PartialEq, Eq)]
pub struct WorkdirWalk {
    pub cap: usize,
    pub found: Vec<String>,
    pub ahead: Vec<String>,
}

/// What the walk does with a directory entry.
#[derive(Clone, Copy, Debug, PartialEq, Eq, Structural)]
pub enum EntryStep {
    /// Enough was found: the walk is over.
    Full,
    /// The entry is passed over.
    Skipped,
    /// The entry is a directory, to be read later.
    Descend,
    /// The entry is a file, and was taken.
    Taken,
}

/// Whether the walk passes an entry over: dot-entries and `target`, what an
/// ignore file would almost always cover.
pub open spec fn passed_over(name: Seq<char>) -> bool {
    begins(name, "."@) || name == "target"@
}

/// An entry's path relative to the root.
pub open spec fn below(prefix: Seq<char>, name: Seq<char>) -> Seq<char> {
    if prefix.len() == 0 {
        name
    } else {
        prefix + "/"@ + name
    }
}

/// The path of an entry, by the names on the way to it from the root.
pub open spec fn path_of(names: Seq<Seq<char>>) -> Seq<char>
    decreases names.len(),
{
    if names.len() == 0 {
        Seq::empty()
    } else {
        below(path_of(names.drop_last()), names.last())
    }
}

/// Whether none of these names is passed over.
pub open spec fn none_passed_over(names: Seq<Seq<char>>) -> bool {
    forall|i: int| 0 <= i < names.len() ==> !passed_over(#[trigger] names[i])
}

/// Whether a path leads through names that are not passed over.
pub open spec fn is_kept(path: Seq<char>) -> bool {
    exists|names: Seq<Seq<char>>| path == #[trigger] path_of(names) && none_passed_over(names)
}

/// Whether each of these paths leads through names that are not passed over.
pub open spec fn all_kept(paths: Seq<Seq<char>>) -> bool {
    forall|i: int| 0 <= i < paths.len() ==> is_kept(#[trigger] paths[i])
}

/// An entry that is not passed over, below a path that is kept, is kept.
proof fn below_a_kept_path(prefix: Seq<char>, name: Seq<char>)
    requires
        is_kept(prefix),
        !passed_over(name),
    ensures
        is_kept(below(prefix, name)),
{
    let names = choose|names: Seq<Seq<char>>|
        prefix == #[trigger] path_of(names) && none_passed_over(names);
    let longer = names.push(name);
    assert(longer.drop_last() =~= names);
    assert(path_of(longer) == below(prefix, name));
}

/// A walk as it stands.
#[verifier::ext_equal]
pub struct WalkView {
    pub cap: nat,
    pub found: Seq<Seq<char>>,
    pub ahead: Seq<Seq<char>>,
}

impl View for WorkdirWalk {
    type V = WalkView;

    open spec fn view(&self) -> WalkView {
        WalkView { cap: self.cap as nat, found: views(self.found@), ahead: views(self.ahead@) }
    }
}

impl WalkView {
    /// A walk that takes at most `cap` files, with the root ahead of it.
    pub open spec fn start(cap: nat) -> WalkView {
        WalkView { cap, found: Seq::empty(), ahead: seq![Seq::<char>::empty()] }
    }

    /// The walk with the directory that was met last taken up.
    pub open spec fn taken_up(self) -> WalkView {
        WalkView { ahead: self.ahead.drop_last(), ..self }
    }

    /// What the walk does with an entry.
    pub open spec fn step(self, name: Seq<char>, is_dir: bool) -> EntryStep {
        if self.found.len() >= self.cap {
            EntryStep::Full
        } else if passed_over(name) {
            EntryStep::Skipped
        } else if is_dir {
            EntryStep::Descend
        } else {
            EntryStep::Taken
        }
    }

    /// The walk after an entry of the directory at `prefix`.
    pub open spec fn offered(self, prefix: Seq<char>, name: Seq<char>, is_dir: bool) -> WalkView {
        match self.step(name, is_dir) {
            EntryStep::Descend => WalkView {
                ahead: self.ahead.push(below(prefix, name)),
                ..self
            },
            EntryStep::Taken => WalkView { found: self.found.push(below(prefix, name)), ..self },
            _ => self,
        }
    }

    /// Whether the walk has taken no more than it may, and nothing that is passed
    /// over: what every walk from its start keeps.
    pub open spec fn is_sound(self) -> bool {
        &&& self.found.len() <= self.cap
        &&& all_kept(self.found)
        &&& all_kept(self.ahead)
    }
}

impl WorkdirWalk {
    /// A walk that takes at most `cap` files, with the root ahead of it.
    pub fn new(cap: usize) -> (walk: WorkdirWalk)
        ensures
            walk@ == WalkView::start(cap as nat),
            walk@.is_sound(),
    {
        let mut ahead: Vec<String> = Vec::new();
        ahead.push(String::new());
        let walk = WorkdirWalk { cap, found: Vec::new(), ahead };
        assert(walk@ =~= WalkView::start(cap as nat));
        proof {
            let root = Seq::<Seq<char>>::empty();
            assert(path_of(root) == Seq::<char>::empty() && none_passed_over(root));
        }
        walk
    }

    /// The directory to read next: the one that was met last.
    pub fn next_dir(&mut self) -> (dir: Option<String>)
        ensures
            match dir {
                Some(prefix) => old(self)@.ahead.len() > 0 && prefix@ == old(self)@.ahead.last()
                    && final(self)@ == old(self)@.taken_up(),
                None => old(self)@.ahead.len() == 0 && final(self)@ == old(self)@,
            },
            old(self)@.is_sound() ==> final(self)@.is_sound() && (dir matches Some(prefix)
                ==> is_kept(prefix@)),
    {
        let ghost before = self@;
        let dir = self.ahead.pop();
        proof {
            if dir is Some {
                assert(before.ahead[before.ahead.len() - 1] == dir->0@);
                assert(self@ =~= before.taken_up());
            }
        }
        dir
    }

    /// An entry of the directory at `prefix`.
    pub fn offer(&mut self, prefix: &str, name: &str, is_dir: bool) -> (step: EntryStep)
        ensures
            step == old(self)@.step(name@, is_dir),
            final(self)@ == old(self)@.offered(prefix@, name@, is_dir),
            old(self)@.is_sound() && is_kept(prefix@) ==> final(self)@.is_sound(),
    {
        let ghost before = self@;
        if self.found.len() >= self.cap {
            return EntryStep::Full;
        }
        if starts_with(name, ".") || same(name, "target") {
            return EntryStep::Skipped;
        }
        let relative = if prefix.is_empty() {
            copy_of(name)
        } else {
            cat3(prefix, "/", name)
        };
        proof {
            if is_kept(prefix@) {
                below_a_kept_path(prefix@, name@);
            }
        }
        let step = if is_dir {
            self.ahead.push(relative);
            EntryStep::Descend
        } else {
            self.found.push(relative);
            EntryStep::Taken
        };
        assert(self@ =~= before.offered(prefix@, name@, is_dir));
        step
    }

    /// The files found, in order.
    pub fn finish(&self) -> (files: Vec<String>)
        ensures
            views(files@) == text_order(self@.found, self@.found.len() as int),
            self@.is_sound() ==> files@.len() <= self.cap && all_kept(views(files@)),
    {
        let files = sort_texts(&self.found);
        proof {
            if self@.is_sound() {
                what_a_walk_finds(self@);
            }
        }
        files
    }
}

/// What a whole walk finds is at most as many paths as it may take, in order, and none
/// of them leads through a name that is passed over.
pub proof fn what_a_walk_finds(walk: WalkView)
    requires
        walk.is_sound(),
    ensures
        ({
            let files = text_order(walk.found, walk.found.len() as int);
            &&& files.len() <= walk.cap
            &&& all_kept(files)
            &&& forall|i: int, j: int|
                0 <= i <= j < files.len() ==> text_le(#[trigger] files[i], #[trigger] files[j])
        }),
{
    broadcast use vstd::seq_lib::group_to_multiset_ensures;

    let found = walk.found;
    let count = found.len() as int;
    let files = text_order(found, count);
    the_files_are_in_order(found, count);
    assert(found.take(count) =~= found);
    assert forall|i: int| 0 <= i < files.len() implies is_kept(#[trigger] files[i]) by {
        assert(files.contains(files[i]));
        assert(files.to_multiset().count(files[i]) > 0);
        assert(found.contains(files[i]));
    }
}

} // verus!
