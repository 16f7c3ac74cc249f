//! Stable sorting by a string key.
//!
//! The order of a list of keys is given as a list of positions: the
//! positions of the keys, arranged so that the keys do not descend, equal
//! keys standing in the order in which they came.

use vstd::prelude::*;
use crate::text::{str_less, str_lt};

verus! {

/// The order `order` with position `i` put in: behind every position whose
/// key is not after the key of `i`.
pub open spec fn insert_index(keys: Seq<Seq<char>>, order: Seq<usize>, i: usize) -> Seq<usize>
    decreases order.len(),
{
    if order.len() == 0 {
        seq![i]
    } else if str_lt(keys[i as int], keys[order.last() as int]) {
        insert_index(keys, order.drop_last(), i).push(order.last())
    } else {
        order.push(i)
    }
}

/// The stable order of the first `n` keys.
pub open spec fn stable_order(keys: Seq<Seq<char>>, n: nat) -> Seq<usize>
    decreases n,
{
    if n == 0 {
        Seq::empty()
    } else {
        insert_index(keys, stable_order(keys, (n - 1) as nat), (n - 1) as usize)
    }
}

/// The items at the positions that `order` lists.
pub open spec fn arrange<T>(items: Seq<T>, order: Seq<usize>) -> Seq<T> {
    Seq::new(order.len(), |p: int| items[order[p] as int])
}

/// The items sorted by their keys, equal keys in the order in which they
/// came. `keys` holds the key of each item.
pub open spec fn sort_by_keys<T>(items: Seq<T>, keys: Seq<Seq<char>>) -> Seq<T> {
    arrange(items, stable_order(keys, keys.len()))
}

/// Whether `order` lists positions under `n`, none twice, with keys that do
/// not descend and equal keys in ascending position.
pub open spec fn is_stable_order(keys: Seq<Seq<char>>, order: Seq<usize>, n: nat) -> bool {
    &&& forall|p: int| 0 <= p < order.len() ==> (#[trigger] order[p]) < n
    &&& forall|p: int, q: int|
        #![trigger order[p], order[q]]
        0 <= p < q < order.len() ==> {
            &&& order[p] != order[q]
            &&& !str_lt(keys[order[q] as int], keys[order[p] as int])
            &&& (keys[order[p] as int] == keys[order[q] as int] ==> order[p] < order[q])
        }
}

/// Inserting at the place that the comparison points to: where every
/// position from `p` on has a key after that of `i`, and the one before `p`
/// has not, `insert_index` puts `i` at `p`.
pub proof fn lemma_insert_index_at(keys: Seq<Seq<char>>, order: Seq<usize>, i: usize, p: int)
    requires
        0 <= p <= order.len(),
        forall|q: int| p <= q < order.len() ==> str_lt(keys[i as int], keys[order[q] as int]),
        p > 0 ==> !str_lt(keys[i as int], keys[order[p - 1] as int]),
    ensures
        insert_index(keys, order, i) == order.insert(p, i),
    decreases order.len() - p,
{
    if p == order.len() {
        assert(order.insert(p, i) =~= order.push(i));
    } else {
        let rest = order.drop_last();
        lemma_insert_index_at(keys, rest, i, p);
        assert(rest.insert(p, i).push(order.last()) =~= order.insert(p, i));
    }
}

/// Putting a new last position into a stable order gives a stable order of
/// one position more.
pub proof fn lemma_insert_index_stable(keys: Seq<Seq<char>>, order: Seq<usize>, i: usize)
    requires
        is_stable_order(keys, order, i as nat),
        i < keys.len(),
    ensures
        is_stable_order(keys, insert_index(keys, order, i), (i + 1) as nat),
        insert_index(keys, order, i).len() == order.len() + 1,
    decreases order.len(),
{
    crate::text::lemma_lex_lt_total(
        vstd::utf8::encode_utf8(keys[i as int]),
        vstd::utf8::encode_utf8(keys[i as int]),
    );
    if order.len() == 0 {
    } else if str_lt(keys[i as int], keys[order.last() as int]) {
        let rest = order.drop_last();
        let last = order.last();
        assert(is_stable_order(keys, rest, i as nat)) by {
            assert forall|p: int| 0 <= p < rest.len() implies (#[trigger] rest[p]) < i by {
                assert(rest[p] == order[p]);
            }
            assert forall|p: int, q: int| #![trigger rest[p], rest[q]] 0 <= p < q < rest.len() implies {
                &&& rest[p] != rest[q]
                &&& !str_lt(keys[rest[q] as int], keys[rest[p] as int])
                &&& (keys[rest[p] as int] == keys[rest[q] as int] ==> rest[p] < rest[q])
            } by {
                assert(rest[p] == order[p] && rest[q] == order[q]);
            }
        }
        lemma_insert_index_stable(keys, rest, i);
        let inner = insert_index(keys, rest, i);
        let out = inner.push(last);
        assert(order[order.len() - 1] < i);
        assert forall|p: int, q: int| #![trigger out[p], out[q]] 0 <= p < q < out.len() implies {
            &&& out[p] != out[q]
            &&& !str_lt(keys[out[q] as int], keys[out[p] as int])
            &&& (keys[out[p] as int] == keys[out[q] as int] ==> out[p] < out[q])
        } by {
            if q == out.len() - 1 {
                lemma_inserted_members(keys, rest, i, p);
                if inner[p] == i {
                    crate::text::lemma_lex_lt_total(
                        vstd::utf8::encode_utf8(keys[i as int]),
                        vstd::utf8::encode_utf8(keys[last as int]),
                    );
                } else {
                    let r = choose|r: int| 0 <= r < rest.len() && rest[r] == inner[p];
                    assert(order[r] == rest[r]);
                    assert(r < order.len() - 1);
                }
            }
        }
        assert forall|p: int| 0 <= p < out.len() implies (#[trigger] out[p]) < i + 1 by {
            if p < inner.len() {
                assert(inner[p] < i + 1);
            }
        }
    } else {
        let out = order.push(i);
        assert forall|p: int, q: int| #![trigger out[p], out[q]] 0 <= p < q < out.len() implies {
            &&& out[p] != out[q]
            &&& !str_lt(keys[out[q] as int], keys[out[p] as int])
            &&& (keys[out[p] as int] == keys[out[q] as int] ==> out[p] < out[q])
        } by {
            if q == out.len() - 1 {
                assert(order[p] < i);
                if p < order.len() - 1 {
                    assert(!str_lt(keys[order.last() as int], keys[order[p] as int]));
                    if str_lt(keys[i as int], keys[order[p] as int]) {
                        crate::text::lemma_lex_lt_total(
                            vstd::utf8::encode_utf8(keys[i as int]),
                            vstd::utf8::encode_utf8(keys[order.last() as int]),
                        );
                        if keys[i as int] == keys[order.last() as int] {
                        } else {
                            crate::text::lemma_encode_differs(
                                keys[i as int],
                                keys[order.last() as int],
                            );
                            crate::text::lemma_lex_lt_transitive(
                                vstd::utf8::encode_utf8(keys[order.last() as int]),
                                vstd::utf8::encode_utf8(keys[i as int]),
                                vstd::utf8::encode_utf8(keys[order[p] as int]),
                            );
                        }
                    }
                }
            }
        }
    }
}

/// Each member of an order with `i` put in is `i` or a member of the order.
pub proof fn lemma_inserted_members(keys: Seq<Seq<char>>, order: Seq<usize>, i: usize, p: int)
    requires
        0 <= p < insert_index(keys, order, i).len(),
    ensures
        insert_index(keys, order, i)[p] == i || exists|r: int|
            0 <= r < order.len() && order[r] == insert_index(keys, order, i)[p],
    decreases order.len(),
{
    if order.len() == 0 {
    } else if str_lt(keys[i as int], keys[order.last() as int]) {
        let rest = order.drop_last();
        let inner = insert_index(keys, rest, i);
        if p < inner.len() {
            lemma_inserted_members(keys, rest, i, p);
            if inner[p] != i {
                let r = choose|r: int| 0 <= r < rest.len() && rest[r] == inner[p];
                assert(order[r] == rest[r]);
            }
        } else {
            assert(order[order.len() - 1] == order.last());
        }
    } else {
        if p < order.len() {
            assert(order[p] == order.push(i)[p]);
        }
    }
}

/// The stable order of the first `n` keys lists each position under `n`
/// once, by keys that do not descend, equal keys in ascending position.
pub proof fn lemma_stable_order(keys: Seq<Seq<char>>, n: nat)
    requires
        n <= keys.len(),
        n <= usize::MAX,
    ensures
        stable_order(keys, n).len() == n,
        is_stable_order(keys, stable_order(keys, n), n),
    decreases n,
{
    if n > 0 {
        lemma_stable_order(keys, (n - 1) as nat);
        lemma_insert_index_stable(keys, stable_order(keys, (n - 1) as nat), (n - 1) as usize);
    }
}

/// A stable order of `n` positions that has `n` members lists each position
/// under `n`.
pub proof fn lemma_order_covers(keys: Seq<Seq<char>>, order: Seq<usize>, i: int)
    requires
        is_stable_order(keys, order, order.len()),
        0 <= i < order.len(),
    ensures
        order.contains(i as usize),
{
    let n = order.len();
    let positions = Seq::new(n, |p: int| order[p] as int);
    assert(positions.no_duplicates()) by {
        assert forall|p: int, q: int| 0 <= p < n && 0 <= q < n && p != q implies positions[p]
            != positions[q] by {
            if p < q {
                assert(order[p] != order[q]);
            } else {
                assert(order[q] != order[p]);
            }
        }
    }
    let range = Set::new(|i: int| 0 <= i < n);
    vstd::set_lib::lemma_int_range(0, n as int);
    assert(range =~= vstd::set_lib::set_int_range(0, n as int));
    positions.unique_seq_to_set();
    assert(positions.to_set().subset_of(range)) by {
        assert forall|x: int| positions.to_set().contains(x) implies range.contains(x) by {
            let p = choose|p: int| 0 <= p < n && positions[p] == x;
            assert(order[p] < n);
        }
    }
    vstd::set_lib::lemma_subset_equality(positions.to_set(), range);
    assert(range.contains(i));
    assert(positions.to_set().contains(i));
    let p = choose|p: int| 0 <= p < n && positions[p] == i;
    assert(order[p] == i as usize);
}

/// Sorting keeps the items: the sorted list is as long as the list, holds
/// the same items, and holds none twice where the list holds none twice.
/// Its items come by keys that do not descend.
pub proof fn lemma_sort_by_keys<T>(items: Seq<T>, keys: Seq<Seq<char>>)
    requires
        items.len() == keys.len(),
        keys.len() <= usize::MAX,
    ensures
        sort_by_keys(items, keys).len() == items.len(),
        forall|x: T| sort_by_keys(items, keys).contains(x) <==> items.contains(x),
        items.no_duplicates() ==> sort_by_keys(items, keys).no_duplicates(),
        forall|p: int, q: int|
            #![trigger sort_by_keys(keys, keys)[p], sort_by_keys(keys, keys)[q]]
            0 <= p < q < keys.len() ==> !str_lt(
                sort_by_keys(keys, keys)[q],
                sort_by_keys(keys, keys)[p],
            ),
        forall|p: int|
            0 <= p < keys.len() ==> exists|i: int|
                0 <= i < keys.len() && #[trigger] sort_by_keys(items, keys)[p] == items[i]
                    && sort_by_keys(keys, keys)[p] == keys[i],
{
    let order = stable_order(keys, keys.len());
    let sorted = sort_by_keys(items, keys);
    lemma_stable_order(keys, keys.len());
    assert forall|x: T| sorted.contains(x) <==> items.contains(x) by {
        if sorted.contains(x) {
            let p = choose|p: int| 0 <= p < sorted.len() && sorted[p] == x;
            assert(order[p] < keys.len());
            assert(items[order[p] as int] == x);
        }
        if items.contains(x) {
            let i = choose|i: int| 0 <= i < items.len() && items[i] == x;
            lemma_order_covers(keys, order, i);
            let p = choose|p: int| 0 <= p < order.len() && order[p] == i as usize;
            assert(sorted[p] == x);
        }
    }
    if items.no_duplicates() {
        assert forall|p: int, q: int| 0 <= p < sorted.len() && 0 <= q < sorted.len() && p
            != q implies sorted[p] != sorted[q] by {
            assert(order[p] < keys.len() && order[q] < keys.len());
            if p < q {
                assert(order[p] != order[q]);
            } else {
                assert(order[q] != order[p]);
            }
        }
    }
    assert forall|p: int, q: int|
        #![trigger sort_by_keys(keys, keys)[p], sort_by_keys(keys, keys)[q]]
        0 <= p < q < keys.len() implies !str_lt(
        sort_by_keys(keys, keys)[q],
        sort_by_keys(keys, keys)[p],
    ) by {
        assert(order[p] != order[q]);
    }
    assert forall|p: int| 0 <= p < keys.len() implies exists|i: int|
        0 <= i < keys.len() && #[trigger] sort_by_keys(items, keys)[p] == items[i]
            && sort_by_keys(keys, keys)[p] == keys[i] by {
        assert(order[p] < keys.len());
        let i = order[p] as int;
        assert(sorted[p] == items[i] && sort_by_keys(keys, keys)[p] == keys[i]);
    }
}

/// Computes the stable order of the keys.
pub fn sort_order(keys: &Vec<String>) -> (order: Vec<usize>)
    ensures
        order@ == stable_order(keys.deep_view(), keys.len() as nat),
        order.len() == keys.len(),
        is_stable_order(keys.deep_view(), order@, keys.len() as nat),
{
    let mut order: Vec<usize> = Vec::new();
    let mut i: usize = 0;
    while i < keys.len()
        invariant
            i <= keys.len(),
            order@ == stable_order(keys.deep_view(), i as nat),
            order.len() == i,
            is_stable_order(keys.deep_view(), order@, i as nat),
        decreases keys.len() - i,
    {
        let mut p: usize = order.len();
        while p > 0 && str_less(keys[i].as_str(), keys[order[p - 1]].as_str())
            invariant
                p <= order.len(),
                i < keys.len(),
                order.len() == i,
                is_stable_order(keys.deep_view(), order@, i as nat),
                forall|q: int|
                    p <= q < order.len() ==> str_lt(
                        keys.deep_view()[i as int],
                        keys.deep_view()[order[q] as int],
                    ),
            decreases p,
        {
            p -= 1;
        }
        proof {
            lemma_insert_index_at(keys.deep_view(), order@, i, p as int);
            lemma_insert_index_stable(keys.deep_view(), order@, i);
        }
        order.insert(p, i);
        i += 1;
    }
    order
}

} // verus!
