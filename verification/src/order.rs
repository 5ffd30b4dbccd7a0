//! The order in which connection strings are sorted: that of `String`, which
//! compares character by character, by code point.

use crate::text::texts;
use itertools::Itertools;
use vstd::prelude::*;
use vstd::relations::{sorted_by, total_ordering};
use vstd::seq_lib::lemma_sorted_unique;

verus! {

/// Whether `a` comes before `b` or equals it: at the first place where the
/// two differ `a` has the smaller character, or `a` ends there.
pub open spec fn text_le(a: Seq<char>, b: Seq<char>) -> bool
    decreases a.len(),
{
    if a.len() == 0 {
        true
    } else if b.len() == 0 {
        false
    } else if a[0] != b[0] {
        a[0] < b[0]
    } else {
        text_le(a.drop_first(), b.drop_first())
    }
}

/// `text_le` as a relation.
pub open spec fn text_order() -> spec_fn(Seq<char>, Seq<char>) -> bool {
    |a: Seq<char>, b: Seq<char>| text_le(a, b)
}

/// The texts in ascending order.
pub open spec fn sorted_texts(texts: Seq<Seq<char>>) -> Seq<Seq<char>> {
    texts.sort_by(text_order())
}

proof fn lemma_text_le_reflexive(a: Seq<char>)
    ensures
        text_le(a, a),
    decreases a.len(),
{
    if a.len() > 0 {
        lemma_text_le_reflexive(a.drop_first());
    }
}

proof fn lemma_text_le_antisymmetric(a: Seq<char>, b: Seq<char>)
    requires
        text_le(a, b),
        text_le(b, a),
    ensures
        a == b,
    decreases a.len(),
{
    if a.len() == 0 || b.len() == 0 {
        assert(a =~= b);
    } else {
        lemma_text_le_antisymmetric(a.drop_first(), b.drop_first());
        assert(a =~= seq![a[0]] + a.drop_first());
        assert(b =~= seq![b[0]] + b.drop_first());
    }
}

proof fn lemma_text_le_transitive(a: Seq<char>, b: Seq<char>, c: Seq<char>)
    requires
        text_le(a, b),
        text_le(b, c),
    ensures
        text_le(a, c),
    decreases a.len(),
{
    if a.len() > 0 && a[0] == b[0] && b[0] == c[0] {
        lemma_text_le_transitive(a.drop_first(), b.drop_first(), c.drop_first());
    }
}

proof fn lemma_text_le_connected(a: Seq<char>, b: Seq<char>)
    ensures
        text_le(a, b) || text_le(b, a),
    decreases a.len(),
{
    if a.len() > 0 && b.len() > 0 && a[0] == b[0] {
        lemma_text_le_connected(a.drop_first(), b.drop_first());
    }
}

/// The order of texts is total: any two texts compare, and only equal texts
/// compare both ways.
pub proof fn lemma_text_order_total()
    ensures
        total_ordering(text_order()),
{
    let r = text_order();
    assert forall|a: Seq<char>| #[trigger] r(a, a) by {
        lemma_text_le_reflexive(a);
    }
    assert forall|a: Seq<char>, b: Seq<char>| #[trigger] r(a, b) && #[trigger] r(b, a) implies a
        == b by {
        lemma_text_le_antisymmetric(a, b);
    }
    assert forall|a: Seq<char>, b: Seq<char>, c: Seq<char>| #[trigger]
        r(a, b) && #[trigger] r(b, c) implies r(a, c) by {
        lemma_text_le_transitive(a, b, c);
    }
    assert forall|a: Seq<char>, b: Seq<char>| #[trigger] r(a, b) || #[trigger] r(b, a) by {
        lemma_text_le_connected(a, b);
    }
}

/// Sorting forgets the order in which the texts came: two sequences that
/// hold the same texts, each as often as the other, sort to the same
/// sequence.
pub proof fn lemma_sorted_texts_of_permutation(first: Seq<Seq<char>>, second: Seq<Seq<char>>)
    requires
        first.to_multiset() == second.to_multiset(),
    ensures
        sorted_texts(first) == sorted_texts(second),
{
    lemma_text_order_total();
    first.lemma_sort_by_ensures(text_order());
    second.lemma_sort_by_ensures(text_order());
    lemma_sorted_unique(sorted_texts(first), sorted_texts(second), text_order());
}

/// A sequence that is in ascending order and holds the same texts as
/// another is that other sequence sorted.
pub proof fn lemma_sorted_texts_unique(sorted: Seq<Seq<char>>, texts: Seq<Seq<char>>)
    requires
        sorted_by(sorted, text_order()),
        sorted.to_multiset() == texts.to_multiset(),
    ensures
        sorted == sorted_texts(texts),
{
    lemma_text_order_total();
    texts.lemma_sort_by_ensures(text_order());
    lemma_sorted_unique(sorted, sorted_texts(texts), text_order());
}

/// `Itertools::sorted` on the strings of a vector: the same strings, each
/// as often as before, in the ascending order of `String`.
#[verifier::external_body]
pub(crate) fn sorted_strings(strings: Vec<String>) -> (sorted: Vec<String>)
    ensures
        texts(sorted@).to_multiset() == texts(strings@).to_multiset(),
        sorted_by(texts(sorted@), text_order()),
{
    strings.into_iter().sorted().collect()
}

} // verus!
