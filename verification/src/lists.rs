//! Lists: picking, ordering and shortening.
use vstd::prelude::*;

verus! {

broadcast use crate::model::group_views;

/// A filtered sequence that grows by one item.
pub proof fn filter_of_push<A>(items: Seq<A>, item: A, wanted: spec_fn(A) -> bool)
    ensures
        items.push(item).filter(wanted) == (if wanted(item) {
            items.filter(wanted).push(item)
        } else {
            items.filter(wanted)
        }),
{
    reveal(Seq::filter);
    assert(items.push(item).drop_last() =~= items);
}

/// Nothing is picked from an empty sequence.
pub proof fn filter_of_empty<A>(wanted: spec_fn(A) -> bool)
    ensures
        Seq::<A>::empty().filter(wanted) == Seq::<A>::empty(),
{
    reveal(Seq::filter);
}

/// The items that satisfy `wanted`, in order.
pub fn filtered<T: View, F: Fn(&T) -> bool>(
    items: Vec<T>,
    test: F,
    Ghost(wanted): Ghost<spec_fn(T::V) -> bool>,
) -> (kept: Vec<T>)
    requires
        forall|v: &T| #[trigger] test.requires((v,)),
        forall|v: &T, b: bool| #[trigger] test.ensures((v,), b) ==> b == wanted(v@),
    ensures
        crate::model::views(kept@) == crate::model::views(items@).filter(wanted),
{
    let (kept, _rest) = parted(items, test, Ghost(wanted));
    kept
}

/// The items that satisfy `wanted` and those that do not, each in order.
pub fn parted<T: View, F: Fn(&T) -> bool>(
    items: Vec<T>,
    test: F,
    Ghost(wanted): Ghost<spec_fn(T::V) -> bool>,
) -> (parts: (Vec<T>, Vec<T>))
    requires
        forall|v: &T| #[trigger] test.requires((v,)),
        forall|v: &T, b: bool| #[trigger] test.ensures((v,), b) ==> b == wanted(v@),
    ensures
        crate::model::views(parts.0@) == crate::model::views(items@).filter(wanted),
        crate::model::views(parts.1@) == crate::model::views(items@).filter(|v: T::V| !wanted(v)),
        parts.0@.len() + parts.1@.len() == items@.len(),
{
    let ghost all = crate::model::views(items@);
    let ghost unwanted = |v: T::V| !wanted(v);
    let mut kept: Vec<T> = Vec::new();
    let mut rest: Vec<T> = Vec::new();
    proof {
        filter_of_empty::<T::V>(wanted);
        filter_of_empty::<T::V>(unwanted);
        assert(all.take(0) =~= Seq::empty());
    }
    for item in it: items.into_iter()
        invariant
            all == crate::model::views(it.seq()),
            unwanted == (|v: T::V| !wanted(v)),
            forall|v: &T| #[trigger] test.requires((v,)),
            forall|v: &T, b: bool| #[trigger] test.ensures((v,), b) ==> b == wanted(v@),
            crate::model::views(kept@) == all.take(it.index() as int).filter(wanted),
            crate::model::views(rest@) == all.take(it.index() as int).filter(unwanted),
            kept@.len() + rest@.len() == it.index(),
    {
        proof {
            let n = it.index() as int;
            assert(all.take(n + 1) =~= all.take(n).push(item@));
            filter_of_push(all.take(n), item@, wanted);
            filter_of_push(all.take(n), item@, unwanted);
        }
        if test(&item) {
            kept.push(item);
        } else {
            rest.push(item);
        }
    }
    assert(all.take(all.len() as int) =~= all);
    (kept, rest)
}

/// `item` put into `items` behind the last item that it does not go before.
pub open spec fn placed<A>(items: Seq<A>, item: A, before: spec_fn(A, A) -> bool) -> Seq<A>
    decreases items.len(),
{
    if items.len() == 0 || !before(item, items.last()) {
        items.push(item)
    } else {
        placed(items.drop_last(), item, before).push(items.last())
    }
}

/// The items in the order that `before` gives; items that go before neither way keep their order.
pub open spec fn sorted<A>(items: Seq<A>, before: spec_fn(A, A) -> bool) -> Seq<A>
    decreases items.len(),
{
    if items.len() == 0 {
        items
    } else {
        placed(sorted(items.drop_last(), before), items.last(), before)
    }
}

/// Puts `item` into `items` behind the last item that it does not go before.
fn place<T: View, F: Fn(&T, &T) -> bool>(
    items: &mut Vec<T>,
    item: T,
    test: &F,
    Ghost(before): Ghost<spec_fn(T::V, T::V) -> bool>,
)
    requires
        forall|a: &T, b: &T| #[trigger] test.requires((a, b)),
        forall|a: &T, b: &T, r: bool| #[trigger] test.ensures((a, b), r) ==> r == before(a@, b@),
    ensures
        crate::model::views(final(items)@) == placed(
            crate::model::views(old(items)@),
            item@,
            before,
        ),
{
    let ghost all = crate::model::views(items@);
    let mut at = items.len();
    assert(all.take(at as int) =~= all);
    assert(placed(all, item@, before) + Seq::empty() =~= placed(all, item@, before));
    assert(all.skip(at as int) =~= Seq::empty());
    while at > 0 && test(&item, &items[at - 1])
        invariant
            at <= items@.len(),
            items@ == old(items)@,
            all == crate::model::views(items@),
            forall|a: &T, b: &T| #[trigger] test.requires((a, b)),
            forall|a: &T, b: &T, r: bool| #[trigger]
                test.ensures((a, b), r) ==> r == before(a@, b@),
            placed(all, item@, before) == placed(all.take(at as int), item@, before) + all.skip(
                at as int,
            ),
        decreases at,
    {
        proof {
            let head = all.take(at as int);
            assert(head.last() == items@[at - 1]@);
            assert(head.drop_last() =~= all.take(at - 1));
            assert(all.skip(at - 1) =~= seq![head.last()] + all.skip(at as int));
            assert(placed(all.take(at - 1), item@, before).push(head.last()) + all.skip(at as int)
                =~= placed(all.take(at - 1), item@, before) + all.skip(at - 1));
        }
        at -= 1;
    }
    items.insert(at, item);
    proof {
        let head = all.take(at as int);
        if at > 0 {
            assert(head.last() == old(items)@[at - 1]@);
        }
        assert(placed(head, item@, before) == head.push(item@));
        assert(crate::model::views(items@) =~= head.push(item@) + all.skip(at as int));
    }
}

/// The items in the order that `before` gives; items that go before neither way keep their order.
pub fn sort<T: View, F: Fn(&T, &T) -> bool>(
    items: Vec<T>,
    test: F,
    Ghost(before): Ghost<spec_fn(T::V, T::V) -> bool>,
) -> (result: Vec<T>)
    requires
        forall|a: &T, b: &T| #[trigger] test.requires((a, b)),
        forall|a: &T, b: &T, r: bool| #[trigger] test.ensures((a, b), r) ==> r == before(a@, b@),
    ensures
        crate::model::views(result@) == sorted(crate::model::views(items@), before),
{
    let ghost all = crate::model::views(items@);
    let mut result: Vec<T> = Vec::new();
    assert(all.take(0) =~= Seq::empty());
    for item in it: items.into_iter()
        invariant
            all == crate::model::views(it.seq()),
            forall|a: &T, b: &T| #[trigger] test.requires((a, b)),
            forall|a: &T, b: &T, r: bool| #[trigger]
                test.ensures((a, b), r) ==> r == before(a@, b@),
            crate::model::views(result@) == sorted(all.take(it.index() as int), before),
    {
        proof {
            let n = it.index() as int;
            assert(all.take(n + 1).drop_last() =~= all.take(n));
            assert(all.take(n + 1).last() == item@);
        }
        place(&mut result, item, &test, Ghost(before));
    }
    assert(all.take(all.len() as int) =~= all);
    result
}

/// Sorting rearranges: every item is there as often as before.
pub proof fn sorting_rearranges<A>(items: Seq<A>, before: spec_fn(A, A) -> bool)
    ensures
        sorted(items, before).to_multiset() == items.to_multiset(),
    decreases items.len(),
{
    broadcast use vstd::seq_lib::group_to_multiset_ensures;

    if items.len() > 0 {
        sorting_rearranges(items.drop_last(), before);
        placing_adds(sorted(items.drop_last(), before), items.last(), before);
        assert(items =~= items.drop_last().push(items.last()));
    }
}

proof fn placing_adds<A>(items: Seq<A>, item: A, before: spec_fn(A, A) -> bool)
    ensures
        placed(items, item, before).to_multiset() == items.to_multiset().insert(item),
    decreases items.len(),
{
    broadcast use vstd::seq_lib::group_to_multiset_ensures;

    if items.len() > 0 && before(item, items.last()) {
        placing_adds(items.drop_last(), item, before);
        assert(items =~= items.drop_last().push(items.last()));
        assert(items.to_multiset().insert(item) =~= items.drop_last().to_multiset().insert(
            item,
        ).insert(items.last()));
    }
}

/// Whether no item of the sequence goes before one that stands ahead of it.
pub open spec fn in_order<A>(items: Seq<A>, before: spec_fn(A, A) -> bool) -> bool {
    forall|i: int, j: int| 0 <= i < j < items.len() ==> !before(#[trigger] items[j], #[trigger] items[i])
}

/// A relation by which sorting can be done: nothing goes before itself or both ways, and what
/// goes before neither way is passed on.
pub open spec fn orders<A>(before: spec_fn(A, A) -> bool) -> bool {
    &&& forall|a: A, b: A| #[trigger] before(a, b) ==> !before(b, a)
    &&& forall|a: A, b: A, c: A|
        !#[trigger] before(b, a) && !#[trigger] before(c, b) ==> !before(c, a)
}

/// Sorting puts the items in order.
pub proof fn sorting_orders<A>(items: Seq<A>, before: spec_fn(A, A) -> bool)
    requires
        orders(before),
    ensures
        in_order(sorted(items, before), before),
    decreases items.len(),
{
    if items.len() > 0 {
        sorting_orders(items.drop_last(), before);
        placing_keeps_order(sorted(items.drop_last(), before), items.last(), before);
    }
}

proof fn placing_keeps_order<A>(items: Seq<A>, item: A, before: spec_fn(A, A) -> bool)
    requires
        orders(before),
        in_order(items, before),
    ensures
        in_order(placed(items, item, before), before),
        forall|i: int|
            0 <= i < placed(items, item, before).len() ==> #[trigger] placed(
                items,
                item,
                before,
            )[i] == item || items.contains(placed(items, item, before)[i]),
    decreases items.len(),
{
    let result = placed(items, item, before);
    if items.len() == 0 || !before(item, items.last()) {
        assert forall|i: int, j: int| 0 <= i < j < result.len() implies !before(
            #[trigger] result[j],
            #[trigger] result[i],
        ) by {
            if j == items.len() {
                assert(result[i] == items[i]);
                if i < items.len() - 1 {
                    assert(!before(items.last(), items[i]));
                }
            } else {
                assert(result[i] == items[i] && result[j] == items[j]);
            }
        }
        assert forall|i: int| 0 <= i < result.len() implies #[trigger] result[i] == item
            || items.contains(result[i]) by {
            if i < items.len() {
                assert(items[i] == result[i]);
            }
        }
    } else {
        let head = items.drop_last();
        let inner = placed(head, item, before);
        assert forall|i: int, j: int| 0 <= i < j < head.len() implies !before(
            #[trigger] head[j],
            #[trigger] head[i],
        ) by {
            assert(head[i] == items[i] && head[j] == items[j]);
        }
        placing_keeps_order(head, item, before);
        assert forall|i: int, j: int| 0 <= i < j < result.len() implies !before(
            #[trigger] result[j],
            #[trigger] result[i],
        ) by {
            if j == inner.len() {
                assert(result[i] == inner[i]);
                if inner[i] != item {
                    let k = choose|k: int| 0 <= k < head.len() && head[k] == inner[i];
                    assert(items[k] == inner[i]);
                    assert(!before(items.last(), items[k]));
                }
            } else {
                assert(result[i] == inner[i] && result[j] == inner[j]);
            }
        }
        assert forall|i: int| 0 <= i < result.len() implies #[trigger] result[i] == item
            || items.contains(result[i]) by {
            if i < inner.len() {
                assert(result[i] == inner[i]);
                if inner[i] != item {
                    let k = choose|k: int| 0 <= k < head.len() && head[k] == inner[i];
                    assert(items[k] == inner[i]);
                }
            } else {
                assert(items[items.len() - 1] == result[i]);
            }
        }
    }
}

/// The last `limit` items, or all.
pub open spec fn last_items<A>(items: Seq<A>, limit: nat) -> Seq<A> {
    if items.len() <= limit {
        items
    } else {
        items.skip(items.len() - limit)
    }
}

/// Drops items at the front until at most `limit` are left.
pub fn keep_last<T: View>(items: &mut Vec<T>, limit: usize)
    ensures
        final(items)@ == last_items(old(items)@, limit as nat),
        crate::model::views(final(items)@) == last_items(
            crate::model::views(old(items)@),
            limit as nat,
        ),
{
    let ghost all = items@;
    assert(all.skip(0) =~= all);
    assert(items.len() == all.len());
    let mut dropped: usize = 0;
    while items.len() > limit
        invariant
            dropped <= all.len(),
            items@ == all.skip(dropped as int),
            dropped > 0 ==> items@.len() >= limit,
            all.len() <= usize::MAX,
        decreases items@.len(),
    {
        let _ = items.remove(0);
        assert(items@ =~= all.skip(dropped + 1));
        dropped += 1;
    }
    proof {
        assert(items@ == last_items(all, limit as nat));
        assert(crate::model::views(items@) =~= last_items(
            crate::model::views(all),
            limit as nat,
        ));
    }
}

} // verus!
