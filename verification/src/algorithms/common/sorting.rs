//! Sorting by value, from the largest to the smallest.
//!
//! Values are ordered by [`Scalar::rank`], which orders every two bit
//! patterns, so that a sort never has to give up on a value that is not a
//! number. Items with the same value are ordered by a number of their own
//! choosing, and items that agree in both keep the order in which they came.

use vstd::prelude::*;
use vstd::multiset::Multiset;
use crate::scalar::Scalar;

verus! {

/// Something that is sorted by a number it carries.
pub trait Ranked {
    /// The number by which the item is sorted.
    spec fn key(&self) -> Scalar;

    /// What decides between items with the same key: the smaller goes
    /// first.
    spec fn tie(&self) -> nat;

    /// The number by which the item is sorted.
    fn sort_key(&self) -> (r: Scalar)
        ensures
            r == self.key(),
    ;

    /// What decides between items with the same key.
    fn sort_tie(&self) -> (r: usize)
        ensures
            r == self.tie(),
    ;
}

/// Whether `first` may stand before `second`: its key is larger, or the keys
/// are the same and its tie is not larger.
pub open spec fn precedes<T: Ranked>(first: T, second: T) -> bool {
    first.key().rank() > second.key().rank() || (first.key().rank() == second.key().rank()
        && first.tie() <= second.tie())
}

/// Whether `items` stand from the largest key to the smallest, and those
/// with the same key from the smallest tie to the largest.
pub open spec fn descending<T: Ranked>(items: Seq<T>) -> bool {
    forall|i: int, j: int|
        0 <= i < j < items.len() ==> precedes(#[trigger] items[i], #[trigger] items[j])
}

/// Two sequences that hold the same items equally often hold the same items.
pub proof fn lemma_same_items<T>(first: Seq<T>, second: Seq<T>)
    requires
        first.to_multiset() == second.to_multiset(),
    ensures
        forall|i: int| 0 <= i < first.len() ==> second.contains(#[trigger] first[i]),
{
    assert forall|i: int| 0 <= i < first.len() implies second.contains(#[trigger] first[i]) by {
        vstd::seq_lib::to_multiset_contains(first, first[i]);
        vstd::seq_lib::to_multiset_contains(second, first[i]);
        assert(first.contains(first[i]));
    }
}

/// Whether an item `first` that came at place `first_place` stands before
/// an item `second` that came at place `second_place`: its key is larger; or
/// the keys are the same and its tie is smaller; or both are the same and it
/// came first.
pub open spec fn comes_first<T: Ranked>(
    first: T,
    first_place: int,
    second: T,
    second_place: int,
) -> bool {
    first.key().rank() > second.key().rank() || (first.key().rank() == second.key().rank() && (
    first.tie() < second.tie() || (first.tie() == second.tie() && first_place < second_place)))
}

/// Whether `sorted` holds the items of `items` in sorted order, item `i` of
/// `sorted` being the one that came at place `origin[i]`: no place is taken
/// twice, and each item stands before all that follow it.
pub open spec fn arranges<T: Ranked>(items: Seq<T>, sorted: Seq<T>, origin: Seq<int>) -> bool {
    &&& origin.len() == sorted.len()
    &&& forall|i: int|
        0 <= i < sorted.len() ==> 0 <= #[trigger] origin[i] < items.len() && sorted[i]
            == items[origin[i]]
    &&& forall|i: int, j: int|
        0 <= i < j < sorted.len() ==> comes_first(
            sorted[i],
            #[trigger] origin[i],
            sorted[j],
            #[trigger] origin[j],
        )
}

/// Whether `sorted` is `items` sorted: the same items, from the largest key
/// to the smallest, those with the same key from the smallest tie to the
/// largest, and those with the same key and tie in the order in which they
/// stand in `items`. There is one such sequence for every `items`.
pub open spec fn is_sorting_of<T: Ranked>(items: Seq<T>, sorted: Seq<T>) -> bool {
    &&& sorted.len() == items.len()
    &&& exists|origin: Seq<int>| #[trigger] arranges(items, sorted, origin)
}

/// Whether `placed` stands before an item with the key `key` and the tie
/// `tie` wherever the two came: its key is larger, or the keys are the same
/// and its tie is smaller.
fn stands_before<T: Ranked>(placed: &T, key: Scalar, tie: usize) -> (r: bool)
    ensures
        r == (placed.key().rank() > key.rank() || (placed.key().rank() == key.rank()
            && placed.tie() < tie)),
{
    let placed_key = placed.sort_key();
    if key.total_lt(placed_key) {
        true
    } else if placed_key.total_lt(key) {
        false
    } else {
        placed.sort_tie() < tie
    }
}

/// The same items, from the largest key to the smallest; items with the same
/// key from the smallest tie to the largest; items with the same key and tie
/// in the order in which they came.
pub fn sort_descending<T: Ranked>(items: Vec<T>) -> (r: Vec<T>)
    ensures
        is_sorting_of(items@, r@),
        descending(r@),
        r@.to_multiset() == items@.to_multiset(),
        r.len() == items.len(),
        forall|i: int| 0 <= i < r.len() ==> items@.contains(#[trigger] r[i]),
        forall|i: int| 0 <= i < items.len() ==> r@.contains(#[trigger] items[i]),
{
    broadcast use {
        vstd::seq_lib::group_to_multiset_ensures,
        vstd::multiset::group_multiset_axioms,
        vstd::multiset::group_multiset_properties,
        vstd::multiset::lemma_multiset_empty_len,
    };

    let ghost all = items@;
    let mut rest = items;
    let mut sorted: Vec<T> = Vec::with_capacity(rest.len());
    let ghost mut origin: Seq<int> = Seq::empty();
    proof {
        assert(sorted@.to_multiset() =~= Multiset::<T>::empty());
        assert(sorted@.to_multiset().add(rest@.to_multiset()) =~= all.to_multiset());
    }
    while rest.len() > 0
        invariant
            sorted.len() + rest.len() == all.len(),
            sorted@.to_multiset().add(rest@.to_multiset()) == all.to_multiset(),
            forall|k: int| 0 <= k < rest.len() ==> #[trigger] rest[k] == all[k],
            arranges(all, sorted@, origin),
            forall|i: int| 0 <= i < origin.len() ==> #[trigger] origin[i] >= rest.len(),
        decreases rest.len(),
    {
        let ghost rest_before = rest@;
        let ghost sorted_before = sorted@;
        let ghost origin_before = origin;
        let item = rest.pop().unwrap();
        let ghost came = rest@.len() as int;
        proof {
            assert(rest_before =~= rest@.push(item));
            assert(item == all[came]);
        }
        let key = item.sort_key();
        let tie = item.sort_tie();
        let mut place: usize = 0;
        while place < sorted.len() && stands_before(&sorted[place], key, tie)
            invariant
                place <= sorted.len(),
                sorted@ == sorted_before,
                key == item.key(),
                tie == item.tie(),
                forall|i: int|
                    0 <= i < place ==> comes_first(
                        #[trigger] sorted[i],
                        origin_before[i],
                        item,
                        came,
                    ),
            decreases sorted.len() - place,
        {
            place += 1;
        }
        sorted.insert(place, item);
        proof {
            broadcast use {
                vstd::multiset::group_multiset_axioms,
                vstd::multiset::group_multiset_properties,
            };

            origin = origin_before.insert(place as int, came);
            assert(sorted@ == sorted_before.insert(place as int, item));
            vstd::seq_lib::to_multiset_insert(sorted_before, place as int, item);
            vstd::seq_lib::to_multiset_build(rest@, item);
            assert(sorted_before.to_multiset().insert(item).add(rest@.to_multiset())
                =~= sorted_before.to_multiset().add(rest@.to_multiset().insert(item)));
            assert forall|k: int| 0 <= k < rest.len() implies #[trigger] rest[k] == all[k] by {
                assert(rest[k] == rest_before[k]);
            }
            assert forall|i: int| 0 <= i < sorted@.len() implies 0 <= #[trigger] origin[i]
                < all.len() && sorted@[i] == all[origin[i]] by {
                if i < place {
                    assert(origin[i] == origin_before[i]);
                    assert(sorted@[i] == sorted_before[i]);
                } else if i > place {
                    assert(origin[i] == origin_before[i - 1]);
                    assert(sorted@[i] == sorted_before[i - 1]);
                }
            }
            assert forall|i: int, j: int| 0 <= i < j < sorted@.len() implies comes_first(
                sorted@[i],
                #[trigger] origin[i],
                sorted@[j],
                #[trigger] origin[j],
            ) by {
                if j < place {
                    assert(origin[i] == origin_before[i] && origin[j] == origin_before[j]);
                    assert(sorted@[i] == sorted_before[i] && sorted@[j] == sorted_before[j]);
                } else if j == place {
                    assert(origin[i] == origin_before[i]);
                    assert(sorted@[i] == sorted_before[i]);
                } else if i < place {
                    assert(origin[i] == origin_before[i] && origin[j] == origin_before[j - 1]);
                    assert(sorted@[i] == sorted_before[i] && sorted@[j] == sorted_before[j - 1]);
                    assert(comes_first(
                        sorted_before[i],
                        origin_before[i],
                        sorted_before[j - 1],
                        origin_before[j - 1],
                    ));
                } else if i == place {
                    assert(origin[j] == origin_before[j - 1]);
                    assert(sorted@[j] == sorted_before[j - 1]);
                    assert(origin_before[place as int] >= came + 1);
                    assert(origin_before[j - 1] >= came + 1);
                    if j - 1 > place {
                        assert(comes_first(
                            sorted_before[place as int],
                            origin_before[place as int],
                            sorted_before[j - 1],
                            origin_before[j - 1],
                        ));
                    }
                } else {
                    assert(origin[i] == origin_before[i - 1] && origin[j] == origin_before[j - 1]);
                    assert(sorted@[i] == sorted_before[i - 1] && sorted@[j] == sorted_before[j
                        - 1]);
                    assert(comes_first(
                        sorted_before[i - 1],
                        origin_before[i - 1],
                        sorted_before[j - 1],
                        origin_before[j - 1],
                    ));
                }
            }
            assert forall|i: int| 0 <= i < origin.len() implies #[trigger] origin[i]
                >= rest.len() by {
                if i < place {
                    assert(origin[i] == origin_before[i]);
                } else if i > place {
                    assert(origin[i] == origin_before[i - 1]);
                }
            }
        }
    }
    proof {
        assert(rest@.to_multiset() =~= Multiset::<T>::empty());
        assert(sorted@.to_multiset() =~= all.to_multiset());
        lemma_same_items(sorted@, all);
        lemma_same_items(all, sorted@);
        assert(arranges(all, sorted@, origin));
        assert forall|i: int, j: int| 0 <= i < j < sorted@.len() implies precedes(
            #[trigger] sorted@[i],
            #[trigger] sorted@[j],
        ) by {
            assert(comes_first(sorted@[i], origin[i], sorted@[j], origin[j]));
        }
    }
    sorted
}

} // verus!
