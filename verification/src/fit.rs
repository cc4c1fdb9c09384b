//! Fitting a row of texts to the columns it has.

use crate::outside::{columns, display_width};
use crate::text::{copy_all, truncate, truncated};
use crate::views::{group_views, views};
use vstd::prelude::*;

verus! {

broadcast use group_views;

/// The fewest columns a part that gives way is cut to.
pub const PART_FLOOR: usize = 8;

/// The columns the first `count` parts take together.
pub open spec fn columns_before(parts: Seq<Seq<char>>, count: int) -> nat
    decreases count,
{
    if count <= 0 {
        0
    } else {
        columns_before(parts, count - 1) + columns(parts[count - 1])
    }
}

/// The columns the parts take together.
pub open spec fn total_columns(parts: Seq<Seq<char>>) -> nat {
    columns_before(parts, parts.len() as int)
}

/// The columns a part is left with when a row is `over` columns too long: its
/// own less those, but no fewer than the floor.
pub open spec fn share_left(part: nat, over: nat) -> nat {
    let floor = if part < PART_FLOOR {
        part
    } else {
        PART_FLOOR as nat
    };
    if part >= over + floor {
        (part - over) as nat
    } else {
        floor
    }
}

/// The parts once the one at `at` has given way.
pub open spec fn yielded(parts: Seq<Seq<char>>, width: nat, at: int) -> Seq<Seq<char>> {
    let total = total_columns(parts);
    if total <= width || at < 0 || at >= parts.len() {
        parts
    } else {
        parts.update(
            at,
            truncated(parts[at], share_left(columns(parts[at]), (total - width) as nat)),
        )
    }
}

/// The parts once the first `count` of `order` have given way in turn.
pub open spec fn fitted_parts(parts: Seq<Seq<char>>, width: nat, order: Seq<usize>, count: int) -> Seq<
    Seq<char>,
>
    decreases count,
{
    if count <= 0 {
        parts
    } else {
        yielded(fitted_parts(parts, width, order, count - 1), width, order[count - 1] as int)
    }
}

/// The parts of a row `width` columns wide: those that `order` names give way in
/// turn, as far as the row is too long.
pub open spec fn fitted_row(parts: Seq<Seq<char>>, width: nat, order: Seq<usize>) -> Seq<
    Seq<char>,
> {
    fitted_parts(parts, width, order, order.len() as int)
}

/// The columns the parts take together, in a count wide enough for them.
pub fn count_columns(parts: &Vec<String>) -> (total: u128)
    ensures
        total == total_columns(views(parts@)),
        total <= parts@.len() * 0xffff_ffff_ffff_ffff,
{
    let mut total: u128 = 0;
    let mut i: usize = 0;
    while i < parts.len()
        invariant
            i <= parts@.len(),
            total == columns_before(views(parts@), i as int),
            total <= i * 0xffff_ffff_ffff_ffff,
        decreases parts.len() - i,
    {
        let next: usize = display_width(parts[i].as_str());
        proof {
            assert(views(parts@)[i as int] == parts@[i as int]@);
        }
        total = total + next as u128;
        i = i + 1;
    }
    total
}

/// Let the part at `at` give way.
fn yield_part(parts: &mut Vec<String>, width: usize, at: usize)
    ensures
        views(final(parts)@) == yielded(views(old(parts)@), width as nat, at as int),
        final(parts)@.len() == old(parts)@.len(),
{
    let total: u128 = count_columns(parts);
    if total <= width as u128 || at >= parts.len() {
        return ;
    }
    let ghost before = views(parts@);
    let over: u128 = total - width as u128;
    let part: usize = display_width(parts[at].as_str());
    let floor: usize = if part < PART_FLOOR {
        part
    } else {
        PART_FLOOR
    };
    let left: usize = if part as u128 >= over + floor as u128 {
        (part as u128 - over) as usize
    } else {
        floor
    };
    let cut = truncate(parts[at].as_str(), left);
    parts.set(at, cut);
    proof {
        assert(before[at as int] == old(parts)@[at as int]@);
        assert(views(parts@) =~= before.update(at as int, cut@));
    }
}

/// The parts of a row `width` columns wide.
pub fn fit_parts(parts: &Vec<String>, width: usize, order: &Vec<usize>) -> (fitted: Vec<String>)
    ensures
        views(fitted@) == fitted_row(views(parts@), width as nat, order@),
        fitted@.len() == parts@.len(),
{
    let mut fitted = copy_all(parts);
    let mut i: usize = 0;
    proof {
        assert(views(fitted@).len() == views(parts@).len());
    }
    while i < order.len()
        invariant
            i <= order@.len(),
            fitted@.len() == parts@.len(),
            views(fitted@) == fitted_parts(views(parts@), width as nat, order@, i as int),
        decreases order.len() - i,
    {
        yield_part(&mut fitted, width, order[i]);
        i = i + 1;
    }
    fitted
}

/// A row that has the room is left as it is.
pub proof fn a_row_with_room_stays(
    parts: Seq<Seq<char>>,
    width: nat,
    order: Seq<usize>,
    count: int,
)
    requires
        0 <= count <= order.len(),
        total_columns(parts) <= width,
    ensures
        fitted_parts(parts, width, order, count) == parts,
    decreases count,
{
    if count > 0 {
        a_row_with_room_stays(parts, width, order, count - 1);
    }
}

/// A part that the order does not name is never cut.
pub proof fn unnamed_parts_stay(
    parts: Seq<Seq<char>>,
    width: nat,
    order: Seq<usize>,
    count: int,
    at: int,
)
    requires
        0 <= count <= order.len(),
        0 <= at < parts.len(),
        forall|i: int| 0 <= i < order.len() ==> order[i] != at,
    ensures
        fitted_parts(parts, width, order, count).len() == parts.len(),
        fitted_parts(parts, width, order, count)[at] == parts[at],
    decreases count,
{
    if count > 0 {
        unnamed_parts_stay(parts, width, order, count - 1, at);
    }
}

/// A part that gives way gives no more than the row is too long by, keeps eight columns or all
/// that it has, and begins as it did; the other parts stay.
pub proof fn a_part_gives_what_is_needed(parts: Seq<Seq<char>>, width: nat, at: int)
    requires
        0 <= at < parts.len(),
    ensures
        ({
            let after = yielded(parts, width, at);
            let total = total_columns(parts);
            let own = columns(parts[at]);
            &&& after.len() == parts.len()
            &&& forall|i: int| 0 <= i < parts.len() && i != at ==> (#[trigger] after[i]) == parts[i]
            &&& (total <= width || own <= 8 ==> after[at] == parts[at])
            &&& (total > width && own > 8 && total - width <= own - 8 ==> after[at] == truncated(
                parts[at],
                (own - (total - width)) as nat,
            ))
            &&& (total > width && own > 8 && total - width > own - 8 ==> after[at] == truncated(
                parts[at],
                8,
            ))
        }),
{
}

/// The columns of a row are those of its parts, added up.
pub proof fn columns_add_up(parts: Seq<Seq<char>>, part: Seq<char>)
    ensures
        total_columns(Seq::empty()) == 0,
        total_columns(parts.push(part)) == total_columns(parts) + columns(part),
{
    same_columns_before(parts, parts.push(part), parts.len() as int);
}

proof fn same_columns_before(a: Seq<Seq<char>>, b: Seq<Seq<char>>, count: int)
    requires
        0 <= count <= a.len(),
        a.is_prefix_of(b),
    ensures
        columns_before(a, count) == columns_before(b, count),
    decreases count,
{
    if count > 0 {
        same_columns_before(a, b, count - 1);
        assert(b.take(a.len() as int)[count - 1] == b[count - 1]);
    }
}

/// Parts give way in the order that names them: what a row is once the first have given way is
/// where the next begins.
pub proof fn parts_give_way_in_turn(
    parts: Seq<Seq<char>>,
    width: nat,
    first: Seq<usize>,
    then: usize,
)
    ensures
        fitted_row(parts, width, Seq::empty()) == parts,
        fitted_row(parts, width, first.push(then)) == yielded(
            fitted_row(parts, width, first),
            width,
            then as int,
        ),
{
    same_order(parts, width, first, first.push(then), first.len() as int);
}

proof fn same_order(
    parts: Seq<Seq<char>>,
    width: nat,
    a: Seq<usize>,
    b: Seq<usize>,
    count: int,
)
    requires
        0 <= count <= a.len(),
        a.is_prefix_of(b),
    ensures
        fitted_parts(parts, width, a, count) == fitted_parts(parts, width, b, count),
    decreases count,
{
    if count > 0 {
        same_order(parts, width, a, b, count - 1);
        assert(b.take(a.len() as int)[count - 1] == b[count - 1]);
    }
}

} // verus!
