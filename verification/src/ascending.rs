//! Ascending listings: the distinct items of a sequence, smallest first.
//!
//! A listing of a sequence holds every item of the sequence exactly once, in
//! strictly ascending order. Under a strict total order a sequence has exactly
//! one listing, so `ascending_distinct` names a definite value.

use vstd::prelude::*;

verus! {

/// `before` is a strict total order: no item stands before itself, of two
/// different items one stands before the other, and the relation is transitive.
pub open spec fn strict_order<T>(before: spec_fn(T, T) -> bool) -> bool {
    &&& forall|x: T| !#[trigger] before(x, x)
    &&& forall|x: T, y: T| x != y && !#[trigger] before(x, y) ==> before(y, x)
    &&& forall|x: T, y: T, z: T| #[trigger] before(x, y) && #[trigger] before(y, z) ==> before(x, z)
}

/// Every item of `list` stands before all the items that follow it.
pub open spec fn is_ascending<T>(list: Seq<T>, before: spec_fn(T, T) -> bool) -> bool {
    forall|i: int, j: int| 0 <= i < j < list.len() ==> #[trigger] before(list[i], list[j])
}

/// `list` is strictly ascending and holds exactly the items that occur in `of`.
pub open spec fn is_listing<T>(list: Seq<T>, of: Seq<T>, before: spec_fn(T, T) -> bool) -> bool {
    &&& is_ascending(list, before)
    &&& forall|x: T|
        #![trigger list.contains(x)]
        #![trigger of.contains(x)]
        list.contains(x) <==> of.contains(x)
}

/// The distinct items of `of` in ascending order.
pub open spec fn ascending_distinct<T>(of: Seq<T>, before: spec_fn(T, T) -> bool) -> Seq<T> {
    choose|list: Seq<T>| is_listing(list, of, before)
}

/// The number of leading items of `list` that stand before `x`.
pub open spec fn slot<T>(list: Seq<T>, x: T, before: spec_fn(T, T) -> bool) -> int
    decreases list.len(),
{
    if list.len() == 0 || !before(list[0], x) {
        0
    } else {
        1 + slot(list.drop_first(), x, before)
    }
}

proof fn lemma_slot<T>(list: Seq<T>, x: T, before: spec_fn(T, T) -> bool)
    ensures
        0 <= slot(list, x, before) <= list.len(),
        forall|i: int| 0 <= i < slot(list, x, before) ==> #[trigger] before(list[i], x),
        slot(list, x, before) < list.len() ==> !before(list[slot(list, x, before)], x),
    decreases list.len(),
{
    if list.len() == 0 || !before(list[0], x) {
    } else {
        let rest = list.drop_first();
        lemma_slot(rest, x, before);
        let k = slot(rest, x, before);
        assert forall|i: int| 0 <= i < k + 1 implies #[trigger] before(list[i], x) by {
            if i > 0 {
                assert(before(rest[i - 1], x));
            }
        }
    }
}

/// A listing stays a listing of the longer sequence when the added item is
/// already in it.
pub proof fn lemma_listing_present<T>(
    list: Seq<T>,
    of: Seq<T>,
    x: T,
    k: int,
    before: spec_fn(T, T) -> bool,
)
    requires
        is_listing(list, of, before),
        0 <= k < list.len(),
        list[k] == x,
    ensures
        is_listing(list, of.push(x), before),
{
    assert forall|y: T|
        #![trigger list.contains(y)]
        #![trigger of.push(x).contains(y)]
        list.contains(y) <==> of.push(x).contains(y) by {
        if list.contains(y) {
            let i = choose|i: int| 0 <= i < of.len() && of[i] == y;
            assert(of.push(x)[i] == y);
        }
    }
}

/// Putting a new item at its place in a listing gives the listing of the
/// longer sequence.
pub proof fn lemma_listing_insert<T>(
    list: Seq<T>,
    of: Seq<T>,
    x: T,
    k: int,
    before: spec_fn(T, T) -> bool,
)
    requires
        strict_order(before),
        is_listing(list, of, before),
        0 <= k <= list.len(),
        forall|i: int| 0 <= i < k ==> #[trigger] before(list[i], x),
        k < list.len() ==> before(x, list[k]),
    ensures
        is_listing(list.insert(k, x), of.push(x), before),
{
    let next = list.insert(k, x);
    assert forall|i: int| k <= i < list.len() implies #[trigger] before(x, list[i]) by {
        if i > k {
            assert(before(list[k], list[i]));
        }
    }
    assert forall|i: int, j: int| 0 <= i < j < next.len() implies #[trigger] before(
        next[i],
        next[j],
    ) by {}
    assert forall|y: T|
        #![trigger next.contains(y)]
        #![trigger of.push(x).contains(y)]
        next.contains(y) <==> of.push(x).contains(y) by {
        if next.contains(y) {
            let i = choose|i: int| 0 <= i < next.len() && next[i] == y;
            if i == k {
                assert(of.push(x)[of.len() as int] == y);
            } else {
                assert(of.contains(y));
                let w = choose|w: int| 0 <= w < of.len() && of[w] == y;
                assert(of.push(x)[w] == y);
            }
        }
        if of.push(x).contains(y) {
            let i = choose|i: int| 0 <= i < of.push(x).len() && of.push(x)[i] == y;
            if i < of.len() {
                assert(list.contains(y));
                let m = choose|m: int| 0 <= m < list.len() && list[m] == y;
                if m < k {
                    assert(next[m] == y);
                } else {
                    assert(next[m + 1] == y);
                }
            } else {
                assert(next[k] == y);
            }
        }
    }
}

/// Two listings of one sequence are the same sequence.
pub proof fn lemma_listing_unique<T>(
    a: Seq<T>,
    b: Seq<T>,
    of: Seq<T>,
    before: spec_fn(T, T) -> bool,
)
    requires
        strict_order(before),
        is_listing(a, of, before),
        is_listing(b, of, before),
    ensures
        a == b,
    decreases a.len(),
{
    if a.len() == 0 {
        if b.len() > 0 {
            assert(a.contains(b[0]));
        }
    } else {
        assert(b.contains(a[0]));
        let j = choose|j: int| 0 <= j < b.len() && b[j] == a[0];
        assert(a.contains(b[0]));
        let i = choose|i: int| 0 <= i < a.len() && a[i] == b[0];
        if a[0] != b[0] {
            assert(before(a[0], a[i]));
            assert(before(b[0], b[j]));
        }
        let a1 = a.drop_first();
        let b1 = b.drop_first();
        assert(is_ascending(a1, before));
        assert(is_ascending(b1, before));
        assert forall|x: T|
            #![trigger b1.contains(x)]
            #![trigger a1.contains(x)]
            b1.contains(x) <==> a1.contains(x) by {
            if b1.contains(x) {
                assert(a.contains(x));
                let n = choose|n: int| 0 <= n < a.len() && a[n] == x;
                assert(n != 0);
                assert(a1[n - 1] == x);
            }
            if a1.contains(x) {
                let m = choose|m: int| 0 <= m < a1.len() && a1[m] == x;
                assert(before(a[0], a[m + 1]));
                assert(b.contains(x));
                let n = choose|n: int| 0 <= n < b.len() && b[n] == x;
                assert(b1[n - 1] == x);
            }
        }
        lemma_listing_unique(a1, b1, a1, before);
        assert forall|m: int| 0 <= m < a.len() implies a[m] == b[m] by {
            if m > 0 {
                assert(b[m] == b1[m - 1]);
            }
        }
    }
}

/// Every sequence has a listing.
pub proof fn lemma_listing_exists<T>(of: Seq<T>, before: spec_fn(T, T) -> bool)
    requires
        strict_order(before),
    ensures
        exists|list: Seq<T>| is_listing(list, of, before),
    decreases of.len(),
{
    if of.len() == 0 {
        assert(is_listing(Seq::<T>::empty(), of, before));
    } else {
        let rest = of.drop_last();
        let x = of.last();
        lemma_listing_exists(rest, before);
        let list = choose|list: Seq<T>| is_listing(list, rest, before);
        let k = slot(list, x, before);
        lemma_slot(list, x, before);
        assert(rest.push(x) =~= of);
        if k < list.len() && list[k] == x {
            lemma_listing_present(list, rest, x, k, before);
        } else {
            lemma_listing_insert(list, rest, x, k, before);
        }
    }
}

/// The ascending listing holds each item of the sequence exactly once, in
/// strictly ascending order, and nothing else.
pub proof fn lemma_ascending_distinct<T>(of: Seq<T>, before: spec_fn(T, T) -> bool)
    requires
        strict_order(before),
    ensures
        is_listing(ascending_distinct(of, before), of, before),
        ascending_distinct(of, before).no_duplicates(),
{
    lemma_listing_exists(of, before);
    let list = ascending_distinct(of, before);
    assert forall|i: int, j: int| 0 <= i < list.len() && 0 <= j < list.len() && i != j implies list[i]
        != list[j] by {
        if i < j {
            assert(before(list[i], list[j]));
        } else {
            assert(before(list[j], list[i]));
        }
    }
}

/// Any listing of a sequence is its ascending listing.
pub proof fn lemma_listing_is_ascending_distinct<T>(
    list: Seq<T>,
    of: Seq<T>,
    before: spec_fn(T, T) -> bool,
)
    requires
        strict_order(before),
        is_listing(list, of, before),
    ensures
        list == ascending_distinct(of, before),
{
    lemma_listing_unique(list, ascending_distinct(of, before), of, before);
}

} // verus!
