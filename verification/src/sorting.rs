//! The order of strings, and sorting by it.

use crate::text::{chars_of, texts};
use vstd::prelude::*;
use vstd::seq_lib::*;

verus! {

/// The order of strings: character by character, a proper prefix first.
pub open spec fn text_le(a: Seq<char>, b: Seq<char>) -> bool
    decreases a.len(),
{
    if a.len() == 0 {
        true
    } else if b.len() == 0 {
        false
    } else if a[0] != b[0] {
        a[0] < b[0]
    } else {
        text_le(a.skip(1), b.skip(1))
    }
}

/// Whether `items` stand in order, by `text_le`.
pub open spec fn ascending(items: Seq<Seq<char>>) -> bool {
    forall|i: int, j: int| 0 <= i < j < items.len() ==> text_le(items[i], items[j])
}

/// Where `item` goes into the ordered `items`: behind the last one that is
/// not greater.
pub open spec fn insertion_point(items: Seq<Seq<char>>, item: Seq<char>) -> int
    decreases items.len(),
{
    if items.len() == 0 {
        0
    } else if text_le(items.last(), item) {
        items.len() as int
    } else {
        insertion_point(items.drop_last(), item)
    }
}

/// `items` in ascending order; equal ones keep their order.
pub open spec fn sorted(items: Seq<Seq<char>>) -> Seq<Seq<char>>
    decreases items.len(),
{
    if items.len() == 0 {
        Seq::empty()
    } else {
        let front = sorted(items.drop_last());
        front.insert(insertion_point(front, items.last()), items.last())
    }
}

/// Whether `a` comes before `b` or is equal to it.
pub fn text_le_exec(a: &str, b: &str) -> (r: bool)
    ensures
        r == text_le(a@, b@),
{
    let va = chars_of(a);
    let vb = chars_of(b);
    let mut i: usize = 0;
    assert(a@.skip(0) =~= a@ && b@.skip(0) =~= b@);
    loop
        invariant
            va@ == a@,
            vb@ == b@,
            i <= va@.len(),
            i <= vb@.len(),
            text_le(a@, b@) == text_le(a@.skip(i as int), b@.skip(i as int)),
        decreases va@.len() - i,
    {
        if i == va.len() {
            return true;
        }
        if i == vb.len() {
            return false;
        }
        if va[i] != vb[i] {
            return va[i] < vb[i];
        }
        assert(a@.skip(i as int).skip(1) =~= a@.skip(i + 1));
        assert(b@.skip(i as int).skip(1) =~= b@.skip(i + 1));
        i = i + 1;
    }
}

/// The strings in ascending order.
pub fn sort_texts(items: Vec<String>) -> (r: Vec<String>)
    ensures
        texts(r@) == sorted(texts(items@)),
{
    let ghost all = texts(items@);
    let mut out: Vec<String> = Vec::new();
    let mut rest = items;
    let mut taken: usize = 0;
    let total = rest.len();
    assert(texts(out@) =~= sorted(all.take(0)));
    while taken < total
        invariant
            total == rest@.len(),
            all.len() == total,
            taken <= total,
            out@.len() == taken,
            forall|k: int| taken <= k < total ==> (#[trigger] rest@[k])@ == all[k],
            texts(out@) == sorted(all.take(taken as int)),
        decreases total - taken,
    {
        let item = text_take(&mut rest, taken);
        let ghost front = texts(out@);
        let mut at: usize = out.len();
        assert(front.take(at as int) =~= front);
        while at > 0 && !text_le_exec(out[at - 1].as_str(), item.as_str())
            invariant
                at <= out@.len(),
                front == texts(out@),
                insertion_point(front, item@) == insertion_point(front.take(at as int), item@),
            decreases at,
        {
            assert(front.take(at as int).drop_last() =~= front.take(at - 1));
            assert(front.take(at as int).last() == out@[at - 1]@);
            at = at - 1;
        }
        proof {
            if at > 0 {
                assert(front.take(at as int).last() == out@[at - 1]@);
            }
            assert(all.take(taken + 1).drop_last() =~= all.take(taken as int));
            assert(all.take(taken + 1).last() == item@);
            assert(insertion_point(front, item@) == at);
        }
        out.insert(at, item);
        assert(texts(out@) =~= front.insert(at as int, item@));
        taken = taken + 1;
    }
    assert(all.take(total as int) =~= all);
    out
}

/// Takes the string at `at` out of `items`, leaving an empty one.
fn text_take(items: &mut Vec<String>, at: usize) -> (r: String)
    requires
        at < old(items)@.len(),
    ensures
        r == old(items)@[at as int],
        final(items)@.len() == old(items)@.len(),
        forall|k: int| 0 <= k < final(items)@.len() && k != at ==> final(items)@[k] == old(items)@[k],
{
    let mut held = String::new();
    let slot = vstd::std_specs::vec::vec_index_mut(items, at);
    std::mem::swap(slot, &mut held);
    held
}

/// Of two strings one comes before the other or they are equal.
pub proof fn lemma_text_le_total(a: Seq<char>, b: Seq<char>)
    ensures
        text_le(a, b) || text_le(b, a),
    decreases a.len(),
{
    if a.len() > 0 && b.len() > 0 && a[0] == b[0] {
        lemma_text_le_total(a.skip(1), b.skip(1));
    }
}

/// What comes before a string comes before what that string comes before.
pub proof fn lemma_text_le_transitive(a: Seq<char>, b: Seq<char>, c: Seq<char>)
    requires
        text_le(a, b),
        text_le(b, c),
    ensures
        text_le(a, c),
    decreases a.len(),
{
    if a.len() > 0 && b.len() > 0 && c.len() > 0 && a[0] == b[0] && b[0] == c[0] {
        lemma_text_le_transitive(a.skip(1), b.skip(1), c.skip(1));
    }
}

/// Two strings of which each comes before the other are equal.
pub proof fn law_text_order_is_antisymmetric(a: Seq<char>, b: Seq<char>)
    requires
        text_le(a, b),
        text_le(b, a),
    ensures
        a == b,
    decreases a.len(),
{
    if a.len() > 0 && b.len() > 0 {
        law_text_order_is_antisymmetric(a.skip(1), b.skip(1));
        assert(a =~= seq![a[0]] + a.skip(1));
        assert(b =~= seq![b[0]] + b.skip(1));
    } else {
        assert(a =~= b);
    }
}

/// At the insertion point every item before is not greater than the new
/// one, and every item from there on is greater.
proof fn lemma_insertion_point_splits(items: Seq<Seq<char>>, item: Seq<char>)
    requires
        ascending(items),
    ensures
        0 <= insertion_point(items, item) <= items.len(),
        forall|k: int| 0 <= k < insertion_point(items, item) ==> text_le(#[trigger] items[k], item),
        forall|k: int|
            insertion_point(items, item) <= k < items.len() ==> !text_le(#[trigger] items[k], item),
    decreases items.len(),
{
    if items.len() > 0 {
        if text_le(items.last(), item) {
            assert forall|k: int| 0 <= k < items.len() implies text_le(#[trigger] items[k], item) by {
                if k < items.len() - 1 {
                    lemma_text_le_transitive(items[k], items.last(), item);
                }
            }
        } else {
            let front = items.drop_last();
            assert forall|i: int, j: int| 0 <= i < j < front.len() implies text_le(
                front[i],
                front[j],
            ) by {
                assert(front[i] == items[i] && front[j] == items[j]);
            }
            lemma_insertion_point_splits(front, item);
            assert forall|k: int| 0 <= k < insertion_point(items, item) implies text_le(
                #[trigger] items[k],
                item,
            ) by {
                assert(front[k] == items[k]);
            }
            assert forall|k: int| insertion_point(items, item) <= k < items.len() implies !text_le(
                #[trigger] items[k],
                item,
            ) by {
                if k < items.len() - 1 {
                    assert(front[k] == items[k]);
                }
            }
        }
    }
}

/// Sorting gives the same strings, each as often as it was there, in
/// ascending order.
pub proof fn law_sorted_is_ordered_rearrangement(items: Seq<Seq<char>>)
    ensures
        ascending(sorted(items)),
        sorted(items).to_multiset() == items.to_multiset(),
        sorted(items).len() == items.len(),
    decreases items.len(),
{
    broadcast use {to_multiset_insert, to_multiset_build};

    if items.len() == 0 {
        assert(sorted(items) =~= items);
    } else {
        let front = sorted(items.drop_last());
        let item = items.last();
        let at = insertion_point(front, item);
        law_sorted_is_ordered_rearrangement(items.drop_last());
        lemma_insertion_point_splits(front, item);
        let all = front.insert(at, item);
        assert forall|i: int, j: int| 0 <= i < j < all.len() implies text_le(all[i], all[j]) by {
            if j < at {
                assert(all[i] == front[i] && all[j] == front[j]);
            } else if j == at {
                assert(all[i] == front[i]);
            } else if i < at {
                assert(all[i] == front[i] && all[j] == front[j - 1]);
            } else if i == at {
                assert(all[j] == front[j - 1]);
                lemma_text_le_total(front[j - 1], item);
            } else {
                assert(all[i] == front[i - 1] && all[j] == front[j - 1]);
            }
        }
        assert(items =~= items.drop_last().push(item));
        assert(all.to_multiset() == front.to_multiset().insert(item));
        assert(items.to_multiset() == items.drop_last().to_multiset().insert(item));
    }
}

/// A sequence in ascending order is its own sorted form: sorting moves
/// nothing that stands in order already.
pub proof fn law_sorted_keeps_ascending(items: Seq<Seq<char>>)
    requires
        ascending(items),
    ensures
        sorted(items) == items,
    decreases items.len(),
{
    if items.len() == 0 {
        assert(sorted(items) =~= items);
    } else {
        let front = items.drop_last();
        assert forall|i: int, j: int| 0 <= i < j < front.len() implies text_le(front[i], front[j]) by {
            assert(front[i] == items[i] && front[j] == items[j]);
        }
        law_sorted_keeps_ascending(front);
        if front.len() > 0 {
            assert(text_le(items[front.len() - 1], items[items.len() - 1]));
        }
        assert(front.insert(front.len() as int, items.last()) =~= items);
    }
}

} // verus!
