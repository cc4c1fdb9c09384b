//! Sequences seen through the views of their items.

use vstd::prelude::*;

verus! {

/// The views of a sequence's items, in order.
pub open spec fn views<T: View>(items: Seq<T>) -> Seq<T::V> {
    items.map_values(|item: T| item@)
}

/// Nothing has no views.
pub broadcast proof fn views_of_empty<T: View>()
    ensures
        #[trigger] views(Seq::<T>::empty()) == Seq::<T::V>::empty(),
{
    assert(views(Seq::<T>::empty()) =~= Seq::<T::V>::empty());
}

/// One more item has one more view.
pub broadcast proof fn views_of_push<T: View>(items: Seq<T>, item: T)
    ensures
        #[trigger] views(items.push(item)) == views(items).push(item@),
{
    assert(views(items.push(item)) =~= views(items).push(item@));
}

/// Views keep concatenation.
pub broadcast proof fn views_of_add<T: View>(a: Seq<T>, b: Seq<T>)
    ensures
        #[trigger] views(a + b) == views(a) + views(b),
{
    assert(views(a + b) =~= views(a) + views(b));
}

/// Views keep the number of items.
pub broadcast proof fn views_len<T: View>(items: Seq<T>)
    ensures
        #[trigger] views(items).len() == items.len(),
{
}

pub broadcast group group_views {
    views_of_empty,
    views_of_push,
    views_of_add,
    views_len,
}

} // verus!
