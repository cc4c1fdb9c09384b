//! What a whole walk over a directory tree finds: every file that is not passed
//! over, once, or as many as the walk may take.

use crate::file_ref::{below, passed_over, WalkView};
use vstd::prelude::*;

verus! {

/// An entry of a directory.
#[verifier::ext_equal]
pub struct Entry {
    pub name: Seq<char>,
    pub is_dir: bool,
}

/// The walk after the first `count` entries of the directory at `dir`.
pub open spec fn entries_offered(
    walk: WalkView,
    dir: Seq<char>,
    entries: Seq<Entry>,
    count: int,
) -> WalkView
    decreases count,
{
    if count <= 0 {
        walk
    } else {
        let entry = entries[count - 1];
        entries_offered(walk, dir, entries, count - 1).offered(dir, entry.name, entry.is_dir)
    }
}

/// A walk of so many steps over a tree, which gives the entries of each directory:
/// a step takes up the directory that was met last and is offered its entries in
/// turn. A walk that has taken all it may goes on without taking anything.
pub open spec fn walked(
    start: WalkView,
    tree: spec_fn(Seq<char>) -> Seq<Entry>,
    steps: nat,
) -> WalkView
    decreases steps,
{
    if steps == 0 {
        start
    } else {
        let before = walked(start, tree, (steps - 1) as nat);
        if before.ahead.len() == 0 {
            before
        } else {
            let dir = before.ahead.last();
            entries_offered(before.taken_up(), dir, tree(dir), tree(dir).len() as int)
        }
    }
}

/// Whether a name can be that of an entry: it is not empty and holds no `/`.
pub open spec fn is_entry_name(name: Seq<char>) -> bool {
    name.len() > 0 && forall|k: int| 0 <= k < name.len() ==> (#[trigger] name[k]) != '/'
}

/// Whether a tree is one: its entries have names, and no two of one directory have
/// the same.
pub open spec fn is_tree(tree: spec_fn(Seq<char>) -> Seq<Entry>) -> bool {
    &&& forall|dir: Seq<char>, i: int|
        0 <= i < tree(dir).len() ==> is_entry_name((#[trigger] tree(dir)[i]).name)
    &&& forall|dir: Seq<char>, i: int, j: int|
        0 <= i < j < tree(dir).len() ==> (#[trigger] tree(dir)[i]).name != (#[trigger] tree(
            dir,
        )[j]).name
}

/// Whether a directory's entry at `i` is of this sort and not passed over.
pub open spec fn lists(
    tree: spec_fn(Seq<char>) -> Seq<Entry>,
    dir: Seq<char>,
    i: int,
    is_dir: bool,
) -> bool {
    &&& 0 <= i < tree(dir).len()
    &&& tree(dir)[i].is_dir == is_dir
    &&& !passed_over(tree(dir)[i].name)
}

/// The path of a directory's entry.
pub open spec fn entry_path(
    tree: spec_fn(Seq<char>) -> Seq<Entry>,
    dir: Seq<char>,
    i: int,
) -> Seq<char> {
    below(dir, tree(dir)[i].name)
}

/// Whether this is the path of a directory so many directories below the root,
/// none of them passed over.
pub open spec fn is_dir_at_depth(
    tree: spec_fn(Seq<char>) -> Seq<Entry>,
    path: Seq<char>,
    depth: nat,
) -> bool
    decreases depth,
{
    if depth == 0 {
        path.len() == 0
    } else {
        exists|dir: Seq<char>, i: int| #[trigger]
            lists(tree, dir, i, true) && is_dir_at_depth(tree, dir, (depth - 1) as nat) && path
                == entry_path(tree, dir, i)
    }
}

/// Whether this is the path of a directory of the tree that no passed over name
/// leads to.
pub open spec fn is_dir_of(tree: spec_fn(Seq<char>) -> Seq<Entry>, path: Seq<char>) -> bool {
    exists|depth: nat| is_dir_at_depth(tree, path, depth)
}

/// Whether this is the path of a file of the tree that no passed over name leads
/// to.
pub open spec fn is_file_of(tree: spec_fn(Seq<char>) -> Seq<Entry>, path: Seq<char>) -> bool {
    exists|dir: Seq<char>, i: int| #[trigger]
        lists(tree, dir, i, false) && is_dir_of(tree, dir) && path == entry_path(tree, dir, i)
}

// ── The way there ────────────────────────────────────────────────────────────

/// An entry's path says which directory it is in and what its name is.
proof fn paths_tell_their_parts(a: Seq<char>, m: Seq<char>, b: Seq<char>, n: Seq<char>)
    requires
        is_entry_name(m),
        is_entry_name(n),
        below(a, m) == below(b, n),
    ensures
        a == b,
        m == n,
{
    reveal_strlit("/");
    let path = below(a, m);
    if a.len() == 0 || b.len() == 0 {
        if a.len() > 0 {
            assert(path[a.len() as int] == '/');
            assert(n[a.len() as int] == '/');
        }
        if b.len() > 0 {
            assert(path[b.len() as int] == '/');
            assert(m[b.len() as int] == '/');
        }
        assert(a =~= b);
    } else {
        assert(path == a + "/"@ + m && path == b + "/"@ + n);
        assert(path.len() == a.len() + 1 + m.len() && path.len() == b.len() + 1 + n.len());
        assert(path[a.len() as int] == '/');
        assert(path[b.len() as int] == '/');
        if a.len() < b.len() {
            assert(m[b.len() - a.len() - 1] == path[b.len() as int]);
        }
        if b.len() < a.len() {
            assert(n[a.len() - b.len() - 1] == path[a.len() as int]);
        }
        assert(a =~= path.take(a.len() as int));
        assert(b =~= path.take(b.len() as int));
        assert(m =~= path.skip(a.len() as int + 1));
        assert(n =~= path.skip(b.len() as int + 1));
    }
}

/// How far the walk has come: the directories it has taken up, the last of them,
/// and how many of that one's entries it was offered. Of the others it was offered
/// all.
#[verifier::ext_equal]
struct Progress {
    done: Set<Seq<char>>,
    dir: Seq<char>,
    count: int,
}

/// Whether the walk was offered a directory's entry at `i`.
spec fn met(
    tree: spec_fn(Seq<char>) -> Seq<Entry>,
    at: Progress,
    dir: Seq<char>,
    i: int,
) -> bool {
    &&& at.done.contains(dir)
    &&& 0 <= i < if dir == at.dir {
        at.count
    } else {
        tree(dir).len() as int
    }
}

/// Whether this is the path of an entry that the walk was offered and did not pass
/// over.
spec fn is_met(
    tree: spec_fn(Seq<char>) -> Seq<Entry>,
    at: Progress,
    path: Seq<char>,
    is_dir: bool,
) -> bool {
    exists|dir: Seq<char>, i: int| #[trigger]
        met(tree, at, dir, i) && lists(tree, dir, i, is_dir) && path == entry_path(tree, dir, i)
}

/// Whether the walk has met a directory.
spec fn knows(walk: WalkView, at: Progress, path: Seq<char>) -> bool {
    at.done.contains(path) || walk.ahead.contains(path)
}

/// What holds of a walk all the way.
spec fn on_its_way(
    tree: spec_fn(Seq<char>) -> Seq<Entry>,
    walk: WalkView,
    at: Progress,
) -> bool {
    &&& 0 <= at.count <= tree(at.dir).len()
    &&& walk.found.len() <= walk.cap
    &&& walk.found.no_duplicates()
    &&& walk.ahead.no_duplicates()
    &&& forall|path: Seq<char>| #[trigger]
        walk.ahead.contains(path) ==> !at.done.contains(path)
    &&& knows(walk, at, Seq::empty())
    &&& forall|path: Seq<char>| #[trigger]
        knows(walk, at, path) ==> is_dir_of(tree, path) && (path.len() == 0 || is_met(
            tree,
            at,
            path,
            true,
        ))
    &&& forall|path: Seq<char>| #[trigger]
        walk.found.contains(path) ==> is_met(tree, at, path, false)
    &&& walk.found.len() < walk.cap ==> forall|dir: Seq<char>, i: int| #[trigger]
        met(tree, at, dir, i) && !passed_over(tree(dir)[i].name) ==> if tree(dir)[i].is_dir {
            knows(walk, at, entry_path(tree, dir, i))
        } else {
            walk.found.contains(entry_path(tree, dir, i))
        }
}

/// What was met with fewer entries offered is still met with one more.
proof fn what_is_met_stays_met(
    tree: spec_fn(Seq<char>) -> Seq<Entry>,
    at: Progress,
    path: Seq<char>,
    is_dir: bool,
)
    requires
        is_met(tree, at, path, is_dir),
    ensures
        is_met(tree, Progress { count: at.count + 1, ..at }, path, is_dir),
{
    let (dir, i) = choose|dir: Seq<char>, i: int| #[trigger]
        met(tree, at, dir, i) && lists(tree, dir, i, is_dir) && path == entry_path(tree, dir, i);
    assert(met(tree, Progress { count: at.count + 1, ..at }, dir, i));
}

/// The next entry of the directory that is read has a path that no earlier entry
/// has.
proof fn the_next_entry_is_new(
    tree: spec_fn(Seq<char>) -> Seq<Entry>,
    at: Progress,
    is_dir: bool,
)
    requires
        is_tree(tree),
        0 <= at.count < tree(at.dir).len(),
    ensures
        !is_met(tree, at, entry_path(tree, at.dir, at.count), is_dir),
        entry_path(tree, at.dir, at.count).len() > 0,
{
    let entry = tree(at.dir)[at.count];
    let path = entry_path(tree, at.dir, at.count);
    if is_met(tree, at, path, is_dir) {
        let (dir, i) = choose|dir: Seq<char>, i: int| #[trigger]
            met(tree, at, dir, i) && lists(tree, dir, i, is_dir) && path == entry_path(
                tree,
                dir,
                i,
            );
        paths_tell_their_parts(dir, tree(dir)[i].name, at.dir, entry.name);
    }
    reveal_strlit("/");
}

/// One more entry leaves a walk on its way.
proof fn an_entry_leaves_it_on_its_way(
    tree: spec_fn(Seq<char>) -> Seq<Entry>,
    walk: WalkView,
    at: Progress,
)
    requires
        is_tree(tree),
        on_its_way(tree, walk, at),
        at.done.contains(at.dir),
        at.count < tree(at.dir).len(),
    ensures
        on_its_way(
            tree,
            walk.offered(at.dir, tree(at.dir)[at.count].name, tree(at.dir)[at.count].is_dir),
            Progress { count: at.count + 1, ..at },
        ),
{
    let entry = tree(at.dir)[at.count];
    let path = entry_path(tree, at.dir, at.count);
    let next = walk.offered(at.dir, entry.name, entry.is_dir);
    let then = Progress { count: at.count + 1, ..at };
    let step = walk.step(entry.name, entry.is_dir);
    the_next_entry_is_new(tree, at, true);
    the_next_entry_is_new(tree, at, false);
    assert(met(tree, then, at.dir, at.count));
    assert(knows(walk, at, at.dir));
    assert forall|p: Seq<char>| knows(walk, at, p) implies knows(next, then, p) by {
        if walk.ahead.contains(p) {
            let k = choose|k: int| 0 <= k < walk.ahead.len() && walk.ahead[k] == p;
            assert(next.ahead[k] == p);
        }
    }
    assert forall|p: Seq<char>| walk.found.contains(p) implies next.found.contains(p) by {
        let k = choose|k: int| 0 <= k < walk.found.len() && walk.found[k] == p;
        assert(next.found[k] == p);
    }
    if step is Descend {
        assert(!knows(walk, at, path));
        assert(lists(tree, at.dir, at.count, true));
        let depth = choose|depth: nat| is_dir_at_depth(tree, at.dir, depth);
        assert(is_dir_at_depth(tree, path, depth + 1));
        assert(next.ahead[next.ahead.len() - 1] == path);
    }
    if step is Taken {
        assert(!walk.found.contains(path));
        assert(lists(tree, at.dir, at.count, false));
        assert(next.found[next.found.len() - 1] == path);
    }
    assert forall|p: Seq<char>| #[trigger] next.ahead.contains(p) implies !then.done.contains(
        p,
    ) by {
        if p != path || step !is Descend {
            let k = choose|k: int| 0 <= k < next.ahead.len() && next.ahead[k] == p;
            assert(walk.ahead[k] == p);
            assert(walk.ahead.contains(p));
        }
    }
    assert forall|p: Seq<char>| #[trigger] knows(next, then, p) implies is_dir_of(tree, p) && (
    p.len() == 0 || is_met(tree, then, p, true)) by {
        if p != path || step !is Descend {
            if next.ahead.contains(p) {
                let k = choose|k: int| 0 <= k < next.ahead.len() && next.ahead[k] == p;
                assert(walk.ahead[k] == p);
                assert(walk.ahead.contains(p));
            }
            assert(knows(walk, at, p));
            if p.len() > 0 {
                what_is_met_stays_met(tree, at, p, true);
            }
        }
    }
    assert forall|p: Seq<char>| #[trigger] next.found.contains(p) implies is_met(
        tree,
        then,
        p,
        false,
    ) by {
        if p != path || step !is Taken {
            let k = choose|k: int| 0 <= k < next.found.len() && next.found[k] == p;
            assert(walk.found[k] == p);
            assert(walk.found.contains(p));
            what_is_met_stays_met(tree, at, p, false);
        }
    }
    if next.found.len() < next.cap {
        assert forall|dir: Seq<char>, i: int| #[trigger]
            met(tree, then, dir, i) && !passed_over(tree(dir)[i].name) implies if tree(
            dir,
        )[i].is_dir {
            knows(next, then, entry_path(tree, dir, i))
        } else {
            next.found.contains(entry_path(tree, dir, i))
        } by {
            if dir != at.dir || i != at.count {
                assert(met(tree, at, dir, i));
            }
        }
    }
}

/// The entries of a directory leave a walk on its way.
proof fn a_directory_leaves_it_on_its_way(
    tree: spec_fn(Seq<char>) -> Seq<Entry>,
    walk: WalkView,
    done: Set<Seq<char>>,
    dir: Seq<char>,
    count: int,
)
    requires
        is_tree(tree),
        on_its_way(tree, walk, Progress { done, dir, count: 0 }),
        done.contains(dir),
        0 <= count <= tree(dir).len(),
    ensures
        on_its_way(
            tree,
            entries_offered(walk, dir, tree(dir), count),
            Progress { done, dir, count },
        ),
        entries_offered(walk, dir, tree(dir), count).cap == walk.cap,
    decreases count,
{
    if count > 0 {
        a_directory_leaves_it_on_its_way(tree, walk, done, dir, count - 1);
        an_entry_leaves_it_on_its_way(
            tree,
            entries_offered(walk, dir, tree(dir), count - 1),
            Progress { done, dir, count: count - 1 },
        );
    }
}

/// Taking up a directory leaves a walk on its way.
proof fn taking_up_leaves_it_on_its_way(
    tree: spec_fn(Seq<char>) -> Seq<Entry>,
    walk: WalkView,
    at: Progress,
)
    requires
        on_its_way(tree, walk, at),
        at.done.contains(at.dir) ==> at.count == tree(at.dir).len(),
        walk.ahead.len() > 0,
    ensures
        on_its_way(
            tree,
            walk.taken_up(),
            Progress { done: at.done.insert(walk.ahead.last()), dir: walk.ahead.last(), count: 0 },
        ),
{
    let dir = walk.ahead.last();
    let up = walk.taken_up();
    let then = Progress { done: at.done.insert(dir), dir, count: 0 };
    assert(walk.ahead.contains(dir));
    assert forall|d: Seq<char>, i: int| met(tree, at, d, i) == met(tree, then, d, i) by {}
    assert forall|p: Seq<char>| up.ahead.contains(p) implies p != dir && walk.ahead.contains(
        p,
    ) by {
        let k = choose|k: int| 0 <= k < up.ahead.len() && up.ahead[k] == p;
        assert(walk.ahead[k] == p);
    }
    assert forall|p: Seq<char>| knows(walk, at, p) == #[trigger] knows(up, then, p) by {
        if walk.ahead.contains(p) && p != dir {
            let k = choose|k: int| 0 <= k < walk.ahead.len() && walk.ahead[k] == p;
            assert(up.ahead[k] == p);
        }
    }
    assert forall|p: Seq<char>, is_dir: bool| is_met(tree, at, p, is_dir) implies is_met(
        tree,
        then,
        p,
        is_dir,
    ) by {
        let (d, i) = choose|d: Seq<char>, i: int| #[trigger]
            met(tree, at, d, i) && lists(tree, d, i, is_dir) && p == entry_path(tree, d, i);
        assert(met(tree, then, d, i));
    }
    assert forall|p: Seq<char>| #[trigger] knows(up, then, p) implies is_dir_of(tree, p) && (
    p.len() == 0 || is_met(tree, then, p, true)) by {
        assert(knows(walk, at, p));
    }
    if up.found.len() < up.cap {
        assert forall|d: Seq<char>, i: int| #[trigger]
            met(tree, then, d, i) && !passed_over(tree(d)[i].name) implies if tree(d)[i].is_dir {
            knows(up, then, entry_path(tree, d, i))
        } else {
            up.found.contains(entry_path(tree, d, i))
        } by {
            assert(met(tree, at, d, i));
            if tree(d)[i].is_dir {
                assert(knows(walk, at, entry_path(tree, d, i)));
            }
        }
    }
}

/// Every walk from its start is on its way.
proof fn a_walk_stays_on_its_way(
    tree: spec_fn(Seq<char>) -> Seq<Entry>,
    cap: nat,
    steps: nat,
) -> (at: Progress)
    requires
        is_tree(tree),
    ensures
        on_its_way(tree, walked(WalkView::start(cap), tree, steps), at),
        at.done.contains(at.dir) ==> at.count == tree(at.dir).len(),
        walked(WalkView::start(cap), tree, steps).cap == cap,
    decreases steps,
{
    let start = WalkView::start(cap);
    if steps == 0 {
        let at = Progress { done: Set::empty(), dir: Seq::empty(), count: 0 };
        assert(start.ahead[0] == Seq::<char>::empty());
        assert(is_dir_at_depth(tree, Seq::empty(), 0));
        assert forall|path: Seq<char>| #[trigger] knows(start, at, path) implies path.len() == 0
            && is_dir_of(tree, path) by {
            assert(path =~= Seq::empty());
        }
        at
    } else {
        let at = a_walk_stays_on_its_way(tree, cap, (steps - 1) as nat);
        let before = walked(start, tree, (steps - 1) as nat);
        if before.ahead.len() == 0 {
            at
        } else {
            let dir = before.ahead.last();
            let up = before.taken_up();
            let then = Progress { done: at.done.insert(dir), dir, count: 0 };
            taking_up_leaves_it_on_its_way(tree, before, at);
            a_directory_leaves_it_on_its_way(tree, up, then.done, dir, tree(dir).len() as int);
            Progress { count: tree(dir).len() as int, ..then }
        }
    }
}

/// A walk that has nothing left ahead and did not fill up has taken up every
/// directory.
proof fn every_directory_was_taken_up(
    tree: spec_fn(Seq<char>) -> Seq<Entry>,
    walk: WalkView,
    at: Progress,
    path: Seq<char>,
    depth: nat,
)
    requires
        on_its_way(tree, walk, at),
        at.done.contains(at.dir) ==> at.count == tree(at.dir).len(),
        walk.ahead.len() == 0,
        walk.found.len() < walk.cap,
        is_dir_at_depth(tree, path, depth),
    ensures
        at.done.contains(path),
    decreases depth,
{
    if depth == 0 {
        assert(path =~= Seq::empty());
        assert(knows(walk, at, path));
    } else {
        let (dir, i) = choose|dir: Seq<char>, i: int| #[trigger]
            lists(tree, dir, i, true) && is_dir_at_depth(tree, dir, (depth - 1) as nat) && path
                == entry_path(tree, dir, i);
        every_directory_was_taken_up(tree, walk, at, dir, (depth - 1) as nat);
        assert(met(tree, at, dir, i));
        assert(knows(walk, at, path));
    }
}

/// A whole walk over the working directory, one that ends with nothing ahead of it,
/// finds files of the tree that no passed over name leads to, each once and no more
/// than it may take; and where it finds fewer than it may take, it has found them
/// all.
pub proof fn a_whole_walk_finds_every_file(
    tree: spec_fn(Seq<char>) -> Seq<Entry>,
    cap: nat,
    steps: nat,
)
    requires
        is_tree(tree),
        walked(WalkView::start(cap), tree, steps).ahead.len() == 0,
    ensures
        ({
            let found = walked(WalkView::start(cap), tree, steps).found;
            &&& found.no_duplicates()
            &&& found.len() <= cap
            &&& forall|path: Seq<char>| #[trigger]
                found.contains(path) ==> is_file_of(tree, path)
            &&& found.len() < cap ==> forall|path: Seq<char>| #[trigger]
                is_file_of(tree, path) ==> found.contains(path)
        }),
{
    let walk = walked(WalkView::start(cap), tree, steps);
    let at = a_walk_stays_on_its_way(tree, cap, steps);
    assert forall|path: Seq<char>| #[trigger] walk.found.contains(path) implies is_file_of(
        tree,
        path,
    ) by {
        let (dir, i) = choose|dir: Seq<char>, i: int| #[trigger]
            met(tree, at, dir, i) && lists(tree, dir, i, false) && path == entry_path(
                tree,
                dir,
                i,
            );
        assert(knows(walk, at, dir));
        assert(lists(tree, dir, i, false));
    }
    if walk.found.len() < cap {
        assert forall|path: Seq<char>| #[trigger] is_file_of(
            tree,
            path,
        ) implies walk.found.contains(path) by {
            let (dir, i) = choose|dir: Seq<char>, i: int| #[trigger]
                lists(tree, dir, i, false) && is_dir_of(tree, dir) && path == entry_path(
                    tree,
                    dir,
                    i,
                );
            let depth = choose|depth: nat| is_dir_at_depth(tree, dir, depth);
            every_directory_was_taken_up(tree, walk, at, dir, depth);
            assert(met(tree, at, dir, i));
        }
    }
}

} // verus!
