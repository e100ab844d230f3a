//! Stable ordering by an integer key. The catalog orders what it merges, and
//! the scoring layer orders candidate pairs; both need equal keys to keep
//! the order in which they came.

use vstd::prelude::*;

verus! {

/// Where an item with key `k` goes into a list with the keys `keys`: behind
/// every key that is not greater than `k`, found from the end.
pub open spec fn insert_at(keys: Seq<int>, k: int) -> int
    decreases keys.len(),
{
    if keys.len() == 0 {
        0
    } else if keys.last() <= k {
        keys.len() as int
    } else {
        insert_at(keys.drop_last(), k)
    }
}

/// The items in ascending order of their keys, items of equal key in the
/// order in which they stand in `items`.
pub open spec fn ordered_by<T>(items: Seq<T>, key: spec_fn(T) -> int) -> Seq<T>
    decreases items.len(),
{
    if items.len() == 0 {
        Seq::empty()
    } else {
        let head = ordered_by(items.drop_last(), key);
        head.insert(insert_at(head.map_values(key), key(items.last())), items.last())
    }
}

/// Whether the keys of `items` never fall from one item to the next.
pub open spec fn ascending<T>(items: Seq<T>, key: spec_fn(T) -> int) -> bool {
    forall|i: int, j: int| 0 <= i < j < items.len() ==> key(items[i]) <= key(items[j])
}

/// The place that `insert_at` names lies within the list; the keys before it
/// end with one that is not greater than `k`, and every key from it on is
/// greater.
pub proof fn lemma_insert_at(keys: Seq<int>, k: int)
    ensures
        0 <= insert_at(keys, k) <= keys.len(),
        insert_at(keys, k) > 0 ==> keys[insert_at(keys, k) - 1] <= k,
        forall|i: int| insert_at(keys, k) <= i < keys.len() ==> keys[i] > k,
    decreases keys.len(),
{
    if keys.len() > 0 && keys.last() > k {
        let init = keys.drop_last();
        lemma_insert_at(init, k);
        assert forall|i: int| insert_at(keys, k) <= i < keys.len() implies keys[i] > k by {
            if i < init.len() {
                assert(keys[i] == init[i]);
            }
        }
    }
}

/// Ordering keeps the number of items.
pub proof fn lemma_sorted_len<T>(items: Seq<T>, key: spec_fn(T) -> int)
    ensures
        ordered_by(items, key).len() == items.len(),
    decreases items.len(),
{
    if items.len() > 0 {
        let head = ordered_by(items.drop_last(), key);
        lemma_sorted_len(items.drop_last(), key);
        lemma_insert_at(head.map_values(key), key(items.last()));
    }
}

/// The ordered list is ascending in its keys.
pub proof fn lemma_sorted_ascending<T>(items: Seq<T>, key: spec_fn(T) -> int)
    ensures
        ascending(ordered_by(items, key), key),
    decreases items.len(),
{
    if items.len() > 0 {
        let head = ordered_by(items.drop_last(), key);
        let k = key(items.last());
        let keys = head.map_values(key);
        let at = insert_at(keys, k);
        lemma_sorted_ascending(items.drop_last(), key);
        lemma_insert_at(keys, k);
        let out = head.insert(at, items.last());
        assert forall|i: int, j: int| 0 <= i < j < out.len() implies key(out[i]) <= key(out[j]) by {
            if j < at {
                assert(out[i] == head[i] && out[j] == head[j]);
            } else if j == at {
                assert(out[i] == head[i]);
                assert(keys[i] == key(head[i]));
                if i < at - 1 {
                    assert(key(head[i]) <= key(head[at - 1]));
                }
                assert(keys[at - 1] == key(head[at - 1]));
            } else {
                assert(out[j] == head[j - 1]);
                assert(keys[j - 1] == key(head[j - 1]));
                if i < at {
                    assert(out[i] == head[i]);
                } else if i == at {
                } else {
                    assert(out[i] == head[i - 1]);
                }
            }
        }
    }
}

/// Ordering is stable: the items of any one key stand in the ordered list as
/// they stand in the list that was ordered. `pred` is the test for an item to
/// have the key `k`.
pub proof fn lemma_sorted_stable<T>(
    items: Seq<T>,
    key: spec_fn(T) -> int,
    k: int,
    pred: spec_fn(T) -> bool,
)
    requires
        forall|x: T| #[trigger] pred(x) == (key(x) == k),
    ensures
        ordered_by(items, key).filter(pred) == items.filter(pred),
    decreases items.len(),
{
    if items.len() == 0 {
    } else {
        let init = items.drop_last();
        let last = items.last();
        let head = ordered_by(init, key);
        let keys = head.map_values(key);
        let at = insert_at(keys, key(last));
        lemma_sorted_stable(init, key, k, pred);
        lemma_insert_at(keys, key(last));
        let front = head.subrange(0, at);
        let back = head.subrange(at, head.len() as int);
        let out = head.insert(at, last);
        assert(head == front + back);
        assert(out == front.push(last) + back);
        assert(items == init.push(last));
        Seq::filter_distributes_over_add(front, back, pred);
        Seq::filter_distributes_over_add(front.push(last), back, pred);
        front.lemma_filter_push(last, pred);
        init.lemma_filter_push(last, pred);
        if key(last) == k {
            assert forall|i: int| 0 <= i < back.len() implies !pred(#[trigger] back[i]) by {
                assert(back[i] == head[at + i]);
                assert(keys[at + i] == key(head[at + i]));
            }
            back.lemma_all_neg_filter_empty(pred);
            assert(back.filter(pred) == Seq::<T>::empty());
            assert(front.filter(pred) + Seq::<T>::empty() == front.filter(pred));
            assert(front.filter(pred).push(last) + Seq::<T>::empty() == front.filter(pred).push(last));
        }
    }
}

/// Ordering rearranges the items and neither adds nor drops one.
pub proof fn lemma_sorted_permutes<T>(items: Seq<T>, key: spec_fn(T) -> int)
    ensures
        ordered_by(items, key).to_multiset() == items.to_multiset(),
    decreases items.len(),
{
    if items.len() == 0 {
        assert(items =~= Seq::<T>::empty());
    } else {
        let init = items.drop_last();
        let last = items.last();
        let head = ordered_by(init, key);
        let at = insert_at(head.map_values(key), key(last));
        lemma_sorted_permutes(init, key);
        lemma_sorted_len(init, key);
        lemma_insert_at(head.map_values(key), key(last));
        vstd::seq_lib::to_multiset_insert(head, at, last);
        assert(items == init.push(last));
        vstd::seq_lib::to_multiset_build(init, last);
    }
}

/// The keys of a list of machine integers, as mathematical integers.
pub open spec fn key_values(keys: Seq<i64>) -> Seq<int> {
    keys.map_values(|k: i64| k as int)
}

/// Puts `item` with key `k` into a list that is kept beside the list of its
/// keys: behind every item whose key is not greater than `k`.
pub fn insert_by_key<T>(items: &mut Vec<T>, keys: &mut Vec<i64>, item: T, k: i64)
    requires
        old(items)@.len() == old(keys)@.len(),
    ensures
        final(items)@ == old(items)@.insert(insert_at(key_values(old(keys)@), k as int), item),
        final(keys)@ == old(keys)@.insert(insert_at(key_values(old(keys)@), k as int), k),
        final(items)@.len() == final(keys)@.len(),
        final(items)@.len() == old(items)@.len() + 1,
{
    let mut at: usize = keys.len();
    proof {
        assert(keys@.take(at as int) == keys@);
    }
    while at > 0 && keys[at - 1] > k
        invariant
            at <= keys.len(),
            keys@ == old(keys)@,
            items@ == old(items)@,
            items@.len() == keys@.len(),
            insert_at(key_values(keys@), k as int) == insert_at(
                key_values(keys@.take(at as int)),
                k as int,
            ),
        decreases at,
    {
        proof {
            let upto = keys@.take(at as int);
            assert(key_values(upto).drop_last() == key_values(keys@.take(at as int - 1)));
            assert(key_values(upto).last() == keys@[at as int - 1] as int);
        }
        at -= 1;
    }
    proof {
        let upto = keys@.take(at as int);
        if at > 0 {
            assert(key_values(upto).last() == keys@[at as int - 1] as int);
        }
        assert(insert_at(key_values(upto), k as int) == at);
    }
    items.insert(at, item);
    keys.insert(at, k);
}

/// Where `items[at]` is the first item that meets `pred`, it is the first of
/// the items picked by `pred`.
pub proof fn lemma_first_match<T>(items: Seq<T>, at: int, pred: spec_fn(T) -> bool)
    requires
        0 <= at < items.len(),
        pred(items[at]),
        forall|i: int| 0 <= i < at ==> !pred(#[trigger] items[i]),
    ensures
        items.filter(pred).len() > 0,
        items.filter(pred)[0] == items[at],
{
    let front = items.take(at);
    let back = items.skip(at + 1);
    let from = seq![items[at]] + back;
    assert(items == front + from);
    assert(front.all(|x: T| !pred(x))) by {
        assert forall|i: int| 0 <= i < front.len() implies !pred(#[trigger] front[i]) by {
            assert(front[i] == items[i]);
        }
    }
    front.lemma_all_neg_filter_empty(pred);
    Seq::filter_distributes_over_add(front, from, pred);
    back.lemma_filter_prepend(items[at], pred);
    assert(front.filter(pred) =~= Seq::<T>::empty());
    assert(items.filter(pred) =~= seq![items[at]] + back.filter(pred));
}

/// Where no item meets `pred`, `pred` picks none.
pub proof fn lemma_no_match<T>(items: Seq<T>, pred: spec_fn(T) -> bool)
    requires
        forall|i: int| 0 <= i < items.len() ==> !pred(#[trigger] items[i]),
    ensures
        items.filter(pred).len() == 0,
{
    assert(items.all(|x: T| !pred(x)));
    items.lemma_all_neg_filter_empty(pred);
}

} // verus!
