//! Mathematical views of nested values, and copying that keeps them.
use vstd::prelude::*;

verus! {

/// The views of the items of a sequence, in order.
pub open spec fn views<T: View>(items: Seq<T>) -> Seq<T::V> {
    Seq::new(items.len(), |i: int| items[i]@)
}

/// The view of what an option holds.
pub open spec fn opt_view<T: View>(item: Option<T>) -> Option<T::V> {
    match item {
        Some(inner) => Some(inner@),
        None => None,
    }
}

/// Cloning a `T` keeps its view.
pub open spec fn clone_keeps_view<T: View + Clone>() -> bool {
    forall|a: T, b: T| #[trigger] cloned(a, b) ==> a@ == b@
}

/// The views of a sequence that grows by one item.
pub broadcast proof fn views_of_push<T: View>(items: Seq<T>, item: T)
    ensures
        #[trigger] views(items.push(item)) == views(items).push(item@),
{
    assert(views(items.push(item)) =~= views(items).push(item@));
}

/// The views of an empty sequence.
pub broadcast proof fn views_of_empty<T: View>()
    ensures
        #[trigger] views(Seq::<T>::empty()) == Seq::<T::V>::empty(),
{
    assert(views(Seq::<T>::empty()) =~= Seq::<T::V>::empty());
}

/// Copies a list item by item.
pub fn clone_list<T: View + Clone>(items: &Vec<T>) -> (copy: Vec<T>)
    requires
        clone_keeps_view::<T>(),
    ensures
        views(copy@) == views(items@),
{
    let mut copy: Vec<T> = Vec::new();
    for i in 0..items.len()
        invariant
            clone_keeps_view::<T>(),
            copy@.len() == i,
            forall|j: int| 0 <= j < i ==> (#[trigger] copy@[j])@ == items@[j]@,
    {
        let item = items[i].clone();
        assert(cloned(items@[i as int], item));
        copy.push(item);
    }
    assert(views(copy@) =~= views(items@));
    copy
}

pub broadcast group group_views {
    views_of_push,
    views_of_empty,
}

} // verus!
