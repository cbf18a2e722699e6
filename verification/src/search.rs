//! Searching lists.

use vstd::prelude::*;

verus! {

/// The first place at or behind `from` whose item passes the test.
pub open spec fn seek<T>(items: Seq<T>, from: int, test: spec_fn(T) -> bool) -> Option<int>
    decreases items.len() - from,
{
    if from >= items.len() {
        None
    } else if test(items[from]) {
        Some(from)
    } else {
        seek(items, from + 1, test)
    }
}

/// The first item that passes the test.
pub open spec fn pick<T>(items: Seq<T>, test: spec_fn(T) -> bool) -> Option<T> {
    match seek(items, 0, test) {
        Some(i) => Some(items[i]),
        None => None,
    }
}

/// An index as a mathematical one.
pub open spec fn place(index: Option<usize>) -> Option<int> {
    match index {
        Some(i) => Some(i as int),
        None => None,
    }
}

/// A borrowed item as the item itself.
pub open spec fn item<T>(reference: Option<&T>) -> Option<T> {
    match reference {
        Some(value) => Some(*value),
        None => None,
    }
}

/// A search finds the first item that passes, or there is none.
pub proof fn seek_finds<T>(items: Seq<T>, from: int, test: spec_fn(T) -> bool)
    requires
        0 <= from,
    ensures
        match seek(items, from, test) {
            Some(i) => {
                &&& from <= i < items.len()
                &&& test(items[i])
                &&& forall|j: int| from <= j < i ==> !test(#[trigger] items[j])
            },
            None => forall|j: int| from <= j < items.len() ==> !test(#[trigger] items[j]),
        },
    decreases items.len() - from,
{
    if from < items.len() && !test(items[from]) {
        seek_finds(items, from + 1, test);
    }
}

/// The last place below `to` whose item passes the test.
pub open spec fn seek_back<T>(items: Seq<T>, to: int, test: spec_fn(T) -> bool) -> Option<int>
    decreases to,
{
    if to <= 0 {
        None
    } else if test(items[to - 1]) {
        Some(to - 1)
    } else {
        seek_back(items, to - 1, test)
    }
}

/// The last item that passes the test.
pub open spec fn pick_back<T>(items: Seq<T>, test: spec_fn(T) -> bool) -> Option<T> {
    match seek_back(items, items.len() as int, test) {
        Some(i) => Some(items[i]),
        None => None,
    }
}

/// A search from the back finds the last item that passes, or there is none.
pub proof fn seek_back_finds<T>(items: Seq<T>, to: int, test: spec_fn(T) -> bool)
    requires
        0 <= to <= items.len(),
    ensures
        match seek_back(items, to, test) {
            Some(i) => {
                &&& 0 <= i < to
                &&& test(items[i])
                &&& forall|j: int| i < j < to ==> !test(#[trigger] items[j])
            },
            None => forall|j: int| 0 <= j < to ==> !test(#[trigger] items[j]),
        },
    decreases to,
{
    if to > 0 && !test(items[to - 1]) {
        seek_back_finds(items, to - 1, test);
    }
}

/// The items that pass the test, in order.
pub open spec fn passing<T>(items: Seq<T>, test: spec_fn(T) -> bool) -> Seq<T>
    decreases items.len(),
{
    if items.len() == 0 {
        Seq::empty()
    } else {
        let rest = passing(items.drop_last(), test);
        if test(items.last()) {
            rest.push(items.last())
        } else {
            rest
        }
    }
}

/// What passes is what was there and passes.
pub proof fn passing_holds<T>(items: Seq<T>, test: spec_fn(T) -> bool)
    ensures
        forall|i: int| 0 <= i < passing(items, test).len() ==> test(#[trigger] passing(items, test)[i]),
        forall|i: int|
            0 <= i < passing(items, test).len() ==> items.contains(#[trigger] passing(items, test)[i]),
        forall|x: T| items.contains(x) && test(x) ==> passing(items, test).contains(x),
        passing(items, test).len() <= items.len(),
    decreases items.len(),
{
    if items.len() > 0 {
        let front = items.drop_last();
        passing_holds(front, test);
        let rest = passing(front, test);
        let all = passing(items, test);
        assert forall|i: int| 0 <= i < all.len() implies items.contains(#[trigger] all[i]) by {
            if i < rest.len() {
                assert(front.contains(rest[i]));
                let j = choose|j: int| 0 <= j < front.len() && front[j] == rest[i];
                assert(items[j] == all[i]);
            } else {
                assert(items[items.len() - 1] == all[i]);
            }
        }
        assert forall|x: T| items.contains(x) && test(x) implies all.contains(x) by {
            let j = choose|j: int| 0 <= j < items.len() && items[j] == x;
            if j < front.len() {
                assert(front[j] == x);
                assert(front.contains(x));
                assert(rest.contains(x));
                let k = choose|k: int| 0 <= k < rest.len() && rest[k] == x;
                assert(all[k] == x);
            } else {
                assert(all[all.len() - 1] == x);
            }
        }
    }
}

/// Where everything passes, everything is kept.
pub proof fn passing_all<T>(items: Seq<T>, test: spec_fn(T) -> bool)
    requires
        forall|i: int| 0 <= i < items.len() ==> test(#[trigger] items[i]),
    ensures
        passing(items, test) == items,
    decreases items.len(),
{
    if items.len() > 0 {
        let front = items.drop_last();
        assert forall|i: int| 0 <= i < front.len() implies test(#[trigger] front[i]) by {
            assert(front[i] == items[i]);
        }
        passing_all(front, test);
        assert(test(items[items.len() - 1]));
        assert(front.push(items.last()) =~= items);
    }
}

/// What is kept is found as before, from the front and from the back.
pub proof fn passing_keeps_found<T>(
    items: Seq<T>,
    keep: spec_fn(T) -> bool,
    test: spec_fn(T) -> bool,
)
    requires
        forall|i: int| 0 <= i < items.len() && test(#[trigger] items[i]) ==> keep(items[i]),
    ensures
        pick(passing(items, keep), test) == pick(items, test),
        pick_back(passing(items, keep), test) == pick_back(items, test),
    decreases items.len(),
{
    if items.len() > 0 {
        let front = items.drop_last();
        let rest = passing(front, keep);
        assert forall|i: int| 0 <= i < front.len() && test(#[trigger] front[i]) implies keep(
            front[i],
        ) by {
            assert(front[i] == items[i]);
        }
        passing_keeps_found(front, keep, test);
        assert(test(items[items.len() - 1]) ==> keep(items[items.len() - 1]));
        appending_is_found(front, items.last(), test);
        assert(front.push(items.last()) =~= items);
        appending_is_found(rest, items.last(), test);
    }
}

/// An item at the end is the last one that passes, and the first one where none
/// before it does.
proof fn appending_is_found<T>(items: Seq<T>, item: T, test: spec_fn(T) -> bool)
    ensures
        pick(items.push(item), test) == (if pick(items, test) is Some {
            pick(items, test)
        } else if test(item) {
            Some(item)
        } else {
            None
        }),
        pick_back(items.push(item), test) == (if test(item) {
            Some(item)
        } else {
            pick_back(items, test)
        }),
{
    let all = items.push(item);
    seek_finds(items, 0, test);
    seek_finds(all, 0, test);
    seek_back_finds(items, items.len() as int, test);
    seek_back_finds(all, all.len() as int, test);
    if let Some(i) = seek(items, 0, test) {
        assert(test(all[i]));
    }
    if let Some(i) = seek(all, 0, test) {
        if i < items.len() {
            assert(test(items[i]));
        }
    }
    if let Some(i) = seek_back(items, items.len() as int, test) {
        assert(test(all[i]));
    }
    if let Some(i) = seek_back(all, all.len() as int, test) {
        if i < items.len() {
            assert(test(items[i]));
        }
    }
    if test(item) {
        assert(test(all[items.len() as int]));
    }
}

/// A list from its last item to its first.
pub fn reversed<T>(items: Vec<T>) -> (result: Vec<T>)
    ensures
        result@ == items@.reverse(),
{
    let ghost all = items@;
    let mut rest = items;
    let mut result: Vec<T> = Vec::new();
    while rest.len() > 0
        invariant
            rest.len() + result.len() == all.len(),
            rest@ == all.take(rest.len() as int),
            forall|j: int| 0 <= j < result.len() ==> result@[j] == all[all.len() - 1 - j],
        decreases rest.len(),
    {
        if let Some(item) = rest.pop() {
            result.push(item);
        }
        proof {
            assert(rest@ =~= all.take(rest.len() as int));
        }
    }
    proof {
        assert(result@ =~= all.reverse());
    }
    result
}

} // verus!
