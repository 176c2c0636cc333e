//! Ordering of small descriptor lists by an integer key.

use vstd::prelude::*;

verus! {

/// A value with an integer key to order by.
pub trait Keyed: Copy {
    /// The key.
    spec fn key(self) -> int;

    /// Return whether this key is at most another one.
    fn key_at_most(self, other: Self) -> (r: bool)
        ensures
            r == (self.key() <= other.key()),
    ;
}

/// Whether keys do not decrease.
pub open spec fn ordered<T: Keyed>(items: Seq<T>) -> bool {
    forall|i: int, j: int|
        0 <= i < j < items.len() ==> (#[trigger] items[i]).key() <= (#[trigger] items[j]).key()
}

/// Whether one list is a rearrangement of another with keys that do not decrease.
pub open spec fn ordering_of<T: Keyed>(items: Seq<T>, result: Seq<T>) -> bool {
    ordered(result) && result.to_multiset() == items.to_multiset()
}

/// Rearrange items so that keys do not decrease.
pub fn sort<T: Keyed>(items: Vec<T>) -> (r: Vec<T>)
    ensures
        ordering_of(items@, r@),
        r@.len() == items@.len(),
{
    let mut result: Vec<T> = Vec::new();
    let mut i: usize = 0;
    assert(items@.take(0) =~= Seq::<T>::empty());
    while i < items.len()
        invariant
            i <= items.len(),
            result@.len() == i,
            ordered(result@),
            result@.to_multiset() == items@.take(i as int).to_multiset(),
        decreases items.len() - i,
    {
        let item: T = items[i];
        let mut position: usize = result.len();
        while position > 0 && !result[position - 1].key_at_most(item)
            invariant
                position <= result@.len(),
                ordered(result@),
                forall|j: int| position <= j < result@.len()
                    ==> item.key() < (#[trigger] result@[j]).key(),
            decreases position,
        {
            position = position - 1;
        }
        let ghost before = result@;
        result.insert(position, item);
        proof {
            broadcast use vstd::seq_lib::group_to_multiset_ensures;

            assert(result@ =~= before.insert(position as int, item));
            vstd::seq_lib::to_multiset_insert(before, position as int, item);
            assert(items@.take(i + 1) =~= items@.take(i as int).push(item));
            vstd::seq_lib::to_multiset_build(items@.take(i as int), item);
            assert forall|a: int, b: int| 0 <= a < b < result@.len() implies (
            #[trigger] result@[a]).key() <= (#[trigger] result@[b]).key() by {
                let p = position as int;
                let old_a = if a < p { a } else { a - 1 };
                let old_b = if b < p { b } else { b - 1 };
                if a == p {
                    assert(result@[b] == before[b - 1]);
                } else if b == p {
                    assert(result@[a] == before[a]);
                    if p > 0 {
                        assert(before[a].key() <= before[p - 1].key());
                    }
                } else {
                    assert(result@[a] == before[old_a]);
                    assert(result@[b] == before[old_b]);
                }
            }
        }
        i = i + 1;
    }
    assert(items@.take(items@.len() as int) =~= items@);
    result
}

/// A rearrangement with strictly increasing keys is unique.
pub proof fn law_ordering_with_distinct_keys_is_unique<T: Keyed>(a: Seq<T>, b: Seq<T>)
    requires
        a.to_multiset() == b.to_multiset(),
        forall|i: int, j: int| 0 <= i < j < a.len()
            ==> (#[trigger] a[i]).key() < (#[trigger] a[j]).key(),
        forall|i: int, j: int| 0 <= i < j < b.len()
            ==> (#[trigger] b[i]).key() < (#[trigger] b[j]).key(),
    ensures
        a == b,
    decreases a.len(),
{
    broadcast use vstd::seq_lib::group_to_multiset_ensures;

    vstd::seq_lib::to_multiset_len(a);
    vstd::seq_lib::to_multiset_len(b);
    if a.len() > 0 {
        let x = a.last();
        let y = b.last();
        assert(a.to_multiset().contains(x) && b.to_multiset().contains(y)) by {
            assert(a.contains(x));
            assert(b.contains(y));
        }
        assert(b.contains(x));
        assert(a.contains(y));
        let i = choose|i: int| 0 <= i < b.len() && b[i] == x;
        let j = choose|j: int| 0 <= j < a.len() && a[j] == y;
        assert(x == y) by {
            if i < b.len() - 1 && j < a.len() - 1 {
                assert(b[i].key() < b[b.len() - 1].key());
                assert(a[j].key() < a[a.len() - 1].key());
            }
        }
        let shorter_a = a.drop_last();
        let shorter_b = b.drop_last();
        assert(a =~= shorter_a.push(x));
        assert(b =~= shorter_b.push(x));
        vstd::seq_lib::to_multiset_build(shorter_a, x);
        vstd::seq_lib::to_multiset_build(shorter_b, x);
        assert(shorter_a.to_multiset() =~= shorter_b.to_multiset()) by {
            assert(shorter_a.to_multiset() =~= a.to_multiset().remove(x));
            assert(shorter_b.to_multiset() =~= b.to_multiset().remove(x));
        }
        law_ordering_with_distinct_keys_is_unique(shorter_a, shorter_b);
    }
}

} // verus!
