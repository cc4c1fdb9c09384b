//! Lists in the order of a text that each item has: a new item goes behind those
//! that are not after it, so that equal ones stay as they came.

use crate::text::{text_le, text_le_total, text_le_transitive};
use vstd::prelude::*;

verus! {

/// Where an item with this text goes among items in order: after those that are
/// not after it.
pub open spec fn place_by<T>(sorted: Seq<T>, key: spec_fn(T) -> Seq<char>, text: Seq<char>) -> int
    decreases sorted.len(),
{
    if sorted.len() == 0 {
        0
    } else if text_le(key(sorted.last()), text) {
        sorted.len() as int
    } else {
        place_by(sorted.drop_last(), key, text)
    }
}

/// The first `count` items in order, those with one text as they came.
pub open spec fn order_by<T>(items: Seq<T>, key: spec_fn(T) -> Seq<char>, count: int) -> Seq<T>
    decreases count,
{
    if count <= 0 {
        Seq::empty()
    } else {
        let before = order_by(items, key, count - 1);
        let item = items[count - 1];
        before.insert(place_by(before, key, key(item)), item)
    }
}

/// Whether items are in order.
pub open spec fn in_order<T>(items: Seq<T>, key: spec_fn(T) -> Seq<char>) -> bool {
    forall|i: int, j: int|
        0 <= i <= j < items.len() ==> text_le(key(#[trigger] items[i]), key(#[trigger] items[j]))
}

/// The place of a new item is inside the list, with nothing after it in front and
/// nothing at most it behind.
proof fn place_in_range<T>(sorted: Seq<T>, key: spec_fn(T) -> Seq<char>, text: Seq<char>)
    ensures
        0 <= place_by(sorted, key, text) <= sorted.len(),
        place_by(sorted, key, text) > 0 ==> text_le(
            key(sorted[place_by(sorted, key, text) - 1]),
            text,
        ),
        forall|i: int|
            place_by(sorted, key, text) <= i < sorted.len() ==> !text_le(
                key(#[trigger] sorted[i]),
                text,
            ),
    decreases sorted.len(),
{
    if sorted.len() > 0 && !text_le(key(sorted.last()), text) {
        place_in_range(sorted.drop_last(), key, text);
        assert forall|i: int| place_by(sorted, key, text) <= i < sorted.len() implies !text_le(
            key(#[trigger] sorted[i]),
            text,
        ) by {
            if i < sorted.len() - 1 {
                assert(sorted[i] == sorted.drop_last()[i]);
            }
        }
    }
}

/// Items put in order are in order, and each is there as often as it came.
pub proof fn ordered_items_are_in_order<T>(
    items: Seq<T>,
    key: spec_fn(T) -> Seq<char>,
    count: int,
)
    requires
        0 <= count <= items.len(),
    ensures
        in_order(order_by(items, key, count), key),
        order_by(items, key, count).to_multiset() == items.take(count).to_multiset(),
        order_by(items, key, count).len() == count,
    decreases count,
{
    broadcast use vstd::seq_lib::group_to_multiset_ensures;

    if count <= 0 {
        assert(items.take(0) =~= Seq::empty());
    } else {
        ordered_items_are_in_order(items, key, count - 1);
        let before = order_by(items, key, count - 1);
        let after = order_by(items, key, count);
        let item = items[count - 1];
        let place = place_by(before, key, key(item));
        place_in_range(before, key, key(item));
        assert forall|i: int, j: int| 0 <= i <= j < after.len() implies text_le(
            key(#[trigger] after[i]),
            key(#[trigger] after[j]),
        ) by {
            let from = if i < place {
                i
            } else {
                i - 1
            };
            let to = if j < place {
                j
            } else {
                j - 1
            };
            text_le_total(key(after[i]), key(after[j]));
            if i == j {
            } else if i == place {
                assert(after[j] == before[to]);
                text_le_total(key(item), key(before[to]));
            } else if j == place {
                assert(after[i] == before[from]);
                assert(text_le(key(before[from]), key(before[place - 1])));
                text_le_transitive(key(before[from]), key(before[place - 1]), key(item));
            } else {
                assert(after[i] == before[from]);
                assert(after[j] == before[to]);
            }
        }
        assert(items.take(count) =~= items.take(count - 1).push(item));
        vstd::seq_lib::to_multiset_insert(before, place, item);
    }
}

/// A new item goes behind every item whose text is not after its own, and before every other, so
/// that items with one text stay in the order in which they came; the others keep theirs.
pub proof fn a_new_item_goes_behind_its_equals<T>(
    items: Seq<T>,
    key: spec_fn(T) -> Seq<char>,
    count: int,
) -> (at: int)
    requires
        0 <= count < items.len(),
    ensures
        ({
            let before = order_by(items, key, count);
            let after = order_by(items, key, count + 1);
            let text = key(items[count]);
            &&& 0 <= at <= before.len()
            &&& after == before.insert(at, items[count])
            &&& forall|i: int| 0 <= i < at ==> text_le(key(#[trigger] before[i]), text)
            &&& forall|i: int| at <= i < before.len() ==> !text_le(key(#[trigger] before[i]), text)
        }),
{
    let before = order_by(items, key, count);
    let text = key(items[count]);
    let at = place_by(before, key, text);
    ordered_items_are_in_order(items, key, count);
    place_in_range(before, key, text);
    assert forall|i: int| 0 <= i < at implies text_le(key(#[trigger] before[i]), text) by {
        assert(text_le(key(before[i]), key(before[at - 1])));
        text_le_transitive(key(before[i]), key(before[at - 1]), text);
    }
    at
}

} // verus!
