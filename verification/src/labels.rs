//! Port labels in the order of `str`: character by character, a proper
//! prefix before the longer text.

use crate::ascending::{
    ascending_distinct, is_listing, lemma_ascending_distinct, lemma_listing_insert,
    lemma_listing_is_ascending_distinct, lemma_listing_present, strict_order,
};
use crate::model::{port_labels, Port};
use crate::text::texts;
use vstd::prelude::*;
use vstd::string::StrSliceExecFns;

verus! {

/// `a` stands before `b`: at the first place where they differ `a` has the
/// smaller character, or `a` ends there and `b` goes on.
pub open spec fn label_before(a: Seq<char>, b: Seq<char>) -> bool
    decreases a.len(),
{
    if b.len() == 0 {
        false
    } else if a.len() == 0 {
        true
    } else if a[0] != b[0] {
        (a[0] as u32) < (b[0] as u32)
    } else {
        label_before(a.drop_first(), b.drop_first())
    }
}

/// The order of labels as a relation.
pub open spec fn label_order() -> spec_fn(Seq<char>, Seq<char>) -> bool {
    |a: Seq<char>, b: Seq<char>| label_before(a, b)
}

/// The distinct labels of `labels` in ascending order.
pub open spec fn ascending_labels(labels: Seq<Seq<char>>) -> Seq<Seq<char>> {
    ascending_distinct(labels, label_order())
}

proof fn lemma_label_irreflexive(a: Seq<char>)
    ensures
        !label_before(a, a),
    decreases a.len(),
{
    if a.len() > 0 {
        lemma_label_irreflexive(a.drop_first());
    }
}

proof fn lemma_label_total(a: Seq<char>, b: Seq<char>)
    requires
        a != b,
        !label_before(a, b),
    ensures
        label_before(b, a),
    decreases a.len(),
{
    if b.len() == 0 {
        assert(a.len() > 0) by {
            if a.len() == 0 {
                assert(a =~= b);
            }
        }
    } else if a.len() == 0 {
    } else if a[0] != b[0] {
        vstd::utf8::char_u32_cast(a[0], a[0] as u32);
        vstd::utf8::char_u32_cast(b[0], b[0] as u32);
    } else {
        let a1 = a.drop_first();
        let b1 = b.drop_first();
        if a1 == b1 {
            assert(a =~= seq![a[0]] + a1);
            assert(b =~= seq![b[0]] + b1);
        }
        lemma_label_total(a1, b1);
    }
}

proof fn lemma_label_transitive(a: Seq<char>, b: Seq<char>, c: Seq<char>)
    requires
        label_before(a, b),
        label_before(b, c),
    ensures
        label_before(a, c),
    decreases a.len(),
{
    if a.len() > 0 && a[0] == b[0] && b[0] == c[0] {
        lemma_label_transitive(a.drop_first(), b.drop_first(), c.drop_first());
    }
}

/// The order of labels is a strict total order.
pub proof fn lemma_label_order()
    ensures
        strict_order(label_order()),
{
    assert forall|x: Seq<char>| !#[trigger] label_order()(x, x) by {
        lemma_label_irreflexive(x);
    }
    assert forall|x: Seq<char>, y: Seq<char>| x != y && !#[trigger] label_order()(x, y) implies label_order()(
        y,
        x,
    ) by {
        lemma_label_total(x, y);
    }
    assert forall|x: Seq<char>, y: Seq<char>, z: Seq<char>| #[trigger]
        label_order()(x, y) && #[trigger] label_order()(y, z) implies label_order()(x, z) by {
        lemma_label_transitive(x, y, z);
    }
}

/// Whatever labels the ports carry, and however often, the listing holds each
/// of them exactly once, in ascending order, and no other.
pub proof fn lemma_ascending_labels(labels: Seq<Seq<char>>)
    ensures
        forall|i: int, j: int|
            0 <= i < j < ascending_labels(labels).len() ==> label_before(
                ascending_labels(labels)[i],
                ascending_labels(labels)[j],
            ),
        forall|x: Seq<char>| ascending_labels(labels).contains(x) <==> labels.contains(x),
        ascending_labels(labels).no_duplicates(),
{
    lemma_label_order();
    lemma_ascending_distinct(labels, label_order());
    let list = ascending_labels(labels);
    assert forall|i: int, j: int| 0 <= i < j < list.len() implies label_before(list[i], list[j]) by {
        assert(label_order()(list[i], list[j]));
    }
}

/// Where one label stands relative to another.
#[derive(Debug, Clone, Copy, PartialEq, Eq)]
pub enum Rank {
    Before,
    Same,
    After,
}

/// Tells where `a` stands relative to `b` in the order of labels.
pub fn rank_labels(a: &str, b: &str) -> (r: Rank)
    ensures
        r is Before <==> label_before(a@, b@),
        r is Same <==> a@ == b@,
        r is After <==> label_before(b@, a@),
{
    let n: usize = a.unicode_len();
    let m: usize = b.unicode_len();
    let mut i: usize = 0;
    proof {
        assert(a@.skip(0) =~= a@);
        assert(b@.skip(0) =~= b@);
        lemma_label_irreflexive(a@);
    }
    while i < n && i < m
        invariant
            n == a@.len(),
            m == b@.len(),
            i <= n,
            i <= m,
            forall|j: int| 0 <= j < i ==> a@[j] == b@[j],
            label_before(a@, b@) == label_before(a@.skip(i as int), b@.skip(i as int)),
            label_before(b@, a@) == label_before(b@.skip(i as int), a@.skip(i as int)),
        decreases n - i,
    {
        let x: char = a.get_char(i);
        let y: char = b.get_char(i);
        proof {
            assert(a@.skip(i as int).drop_first() =~= a@.skip(i as int + 1));
            assert(b@.skip(i as int).drop_first() =~= b@.skip(i as int + 1));
        }
        if x != y {
            if (x as u32) < (y as u32) {
                return Rank::Before;
            } else {
                return Rank::After;
            }
        }
        i = i + 1;
    }
    if n == m {
        proof {
            assert(a@ =~= b@);
            lemma_label_irreflexive(a@);
        }
        Rank::Same
    } else if n < m {
        Rank::Before
    } else {
        Rank::After
    }
}

/// Finds the place of `label` in an ascending list: the index of the first
/// item that does not stand before it, and whether that item is the label.
fn find_slot(list: &Vec<String>, label: &str) -> (r: (usize, bool))
    ensures
        r.0 <= list@.len(),
        forall|m: int| 0 <= m < r.0 ==> label_before(#[trigger] list@[m]@, label@),
        r.1 ==> r.0 < list@.len() && list@[r.0 as int]@ == label@,
        !r.1 && r.0 < list@.len() ==> label_before(label@, list@[r.0 as int]@),
{
    let mut k: usize = 0;
    while k < list.len()
        invariant
            k <= list@.len(),
            forall|m: int| 0 <= m < k ==> label_before(#[trigger] list@[m]@, label@),
        decreases list@.len() - k,
    {
        match rank_labels(list[k].as_str(), label) {
            Rank::Before => {
                k = k + 1;
            },
            Rank::Same => {
                return (k, true);
            },
            Rank::After => {
                return (k, false);
            },
        }
    }
    (k, false)
}

/// Lists the labels of the ports, each once, in ascending order.
pub fn sorted_labels(ports: &Vec<Port>) -> (out: Vec<String>)
    ensures
        texts(out@) == ascending_labels(port_labels(ports@)),
{
    let ghost labels = port_labels(ports@);
    let mut out: Vec<String> = Vec::new();
    let mut i: usize = 0;
    proof {
        lemma_label_order();
    }
    while i < ports.len()
        invariant
            i <= ports@.len(),
            labels == port_labels(ports@),
            strict_order(label_order()),
            is_listing(texts(out@), labels.take(i as int), label_order()),
        decreases ports@.len() - i,
    {
        let label: String = ports[i].label.clone();
        let (k, found) = find_slot(&out, label.as_str());
        let ghost before = texts(out@);
        proof {
            assert(labels.take(i as int + 1) =~= labels.take(i as int).push(label@));
            assert forall|m: int| 0 <= m < k implies #[trigger] label_order()(before[m], label@) by {}
        }
        if found {
            proof {
                lemma_listing_present(before, labels.take(i as int), label@, k as int, label_order());
            }
        } else {
            proof {
                lemma_listing_insert(before, labels.take(i as int), label@, k as int, label_order());
            }
            out.insert(k, label);
            assert(texts(out@) =~= before.insert(k as int, label@));
        }
        i = i + 1;
    }
    proof {
        assert(labels.take(i as int) =~= labels);
        lemma_listing_is_ascending_distinct(texts(out@), labels, label_order());
    }
    out
}

} // verus!
