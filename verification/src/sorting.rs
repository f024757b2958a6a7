//! Stable ordering of items by a time in whole seconds.

use vstd::prelude::*;

verus! {

/// Whether the item with key `a` may stand before a later item with key `b`.
pub open spec fn in_order(a: i64, b: i64, descending: bool) -> bool {
    if descending {
        a >= b
    } else {
        a <= b
    }
}

/// The order `order` with the place `item` put in: behind every place that
/// may stand before it, so behind the places of equal key.
pub open spec fn placed(order: Seq<int>, keys: Seq<i64>, item: int, descending: bool) -> Seq<int>
    decreases order.len(),
{
    if order.len() == 0 {
        seq![item]
    } else if in_order(keys[order.last()], keys[item], descending) {
        order.push(item)
    } else {
        placed(order.drop_last(), keys, item, descending).push(order.last())
    }
}

/// The places of the first `count` keys in stable order: sorted by key,
/// places of equal key in the order they came in.
pub open spec fn stable_order_of(keys: Seq<i64>, count: nat, descending: bool) -> Seq<int>
    decreases count,
{
    if count == 0 {
        Seq::empty()
    } else {
        placed(stable_order_of(keys, (count - 1) as nat, descending), keys, count - 1, descending)
    }
}

/// The places of `keys` in stable order.
pub open spec fn stable_order(keys: Seq<i64>, descending: bool) -> Seq<int> {
    stable_order_of(keys, keys.len(), descending)
}

/// The items at the places of `order`, in that order.
pub open spec fn arranged<T>(items: Seq<T>, order: Seq<int>) -> Seq<T> {
    Seq::new(order.len(), |k: int| items[order[k]])
}

/// Whether `order` names each of the first `count` places once and is
/// sorted by key.
pub open spec fn is_sorted_arrangement(order: Seq<int>, keys: Seq<i64>, count: nat, descending: bool) -> bool {
    &&& order.len() == count
    &&& forall|k: int| 0 <= k < order.len() ==> 0 <= #[trigger] order[k] < count
    &&& forall|a: int, b: int| 0 <= a < b < order.len() ==> order[a] != order[b]
    &&& forall|a: int, b: int|
        0 <= a < b < order.len() ==> in_order(keys[order[a]], keys[order[b]], descending)
    &&& forall|a: int, b: int|
        0 <= a < b < order.len() && keys[order[a]] == keys[order[b]] ==> order[a] < order[b]
}

/// Putting a new place into an order splits it in two: the places that
/// stay before the new one, and those that move behind it.
proof fn lemma_placed_splits(order: Seq<int>, keys: Seq<i64>, item: int, descending: bool, at: int)
    requires
        0 <= at <= order.len(),
        forall|k: int| at <= k < order.len() ==> !in_order(keys[#[trigger] order[k]], keys[item], descending),
        at > 0 ==> in_order(keys[order[at - 1]], keys[item], descending),
    ensures
        placed(order, keys, item, descending) == order.insert(at, item),
    decreases order.len() - at,
{
    if at == order.len() {
        if order.len() == 0 {
            assert(order.insert(at, item) =~= seq![item]);
        } else {
            assert(order.last() == order[at - 1]);
            assert(order.insert(at, item) =~= order.push(item));
        }
    } else {
        let shorter = order.drop_last();
        assert(!in_order(keys[order[order.len() - 1]], keys[item], descending));
        assert forall|k: int| at <= k < shorter.len() implies !in_order(
            keys[#[trigger] shorter[k]],
            keys[item],
            descending,
        ) by {
            assert(shorter[k] == order[k]);
        }
        if at > 0 {
            assert(shorter[at - 1] == order[at - 1]);
        }
        lemma_placed_splits(shorter, keys, item, descending, at);
        assert(shorter.insert(at, item).push(order.last()) =~= order.insert(at, item));
    }
}

/// A stable order is sorted and complete: it names every place once, keys
/// never step against the direction along it, and places of equal key
/// stand in the order they came in.
pub proof fn lemma_stable_order_sorted(keys: Seq<i64>, count: nat, descending: bool)
    requires
        count <= keys.len(),
    ensures
        is_sorted_arrangement(stable_order_of(keys, count, descending), keys, count, descending),
    decreases count,
{
    if count > 0 {
        let item = count - 1;
        let order = stable_order_of(keys, (count - 1) as nat, descending);
        lemma_stable_order_sorted(keys, (count - 1) as nat, descending);
        let at = split_point(order, keys, item, descending);
        lemma_split_point(order, keys, item, descending);
        lemma_placed_splits(order, keys, item, descending, at);
        let grown = order.insert(at, item);
        assert forall|k: int| 0 <= k < grown.len() implies 0 <= #[trigger] grown[k] < count by {
            if k < at {
                assert(grown[k] == order[k]);
            } else if k > at {
                assert(grown[k] == order[k - 1]);
            }
        }
        assert forall|a: int, b: int| 0 <= a < b < grown.len() implies grown[a] != grown[b] && in_order(
            keys[grown[a]],
            keys[grown[b]],
            descending,
        ) && (keys[grown[a]] == keys[grown[b]] ==> grown[a] < grown[b]) by {
            let before_a = if a < at {
                a
            } else {
                a - 1
            };
            let before_b = if b < at {
                b
            } else {
                b - 1
            };
            if a != at && b != at {
                assert(grown[a] == order[before_a]);
                assert(grown[b] == order[before_b]);
            } else if a == at {
                assert(grown[b] == order[b - 1]);
                assert(!in_order(keys[order[b - 1]], keys[item], descending));
            } else {
                assert(grown[a] == order[a]);
                assert(order[a] < item);
                if at > 0 {
                    assert(in_order(keys[order[at - 1]], keys[item], descending));
                    if a < at - 1 {
                        assert(in_order(keys[order[a]], keys[order[at - 1]], descending));
                    }
                }
            }
        }
    }
}

/// The place in `order` behind which nothing may stand before `item`.
spec fn split_point(order: Seq<int>, keys: Seq<i64>, item: int, descending: bool) -> int
    decreases order.len(),
{
    if order.len() == 0 {
        0
    } else if in_order(keys[order.last()], keys[item], descending) {
        order.len() as int
    } else {
        split_point(order.drop_last(), keys, item, descending)
    }
}

proof fn lemma_split_point(order: Seq<int>, keys: Seq<i64>, item: int, descending: bool)
    requires
        forall|a: int, b: int|
            0 <= a < b < order.len() ==> in_order(keys[order[a]], keys[order[b]], descending),
    ensures
        0 <= split_point(order, keys, item, descending) <= order.len(),
        forall|k: int|
            split_point(order, keys, item, descending) <= k < order.len() ==> !in_order(
                keys[#[trigger] order[k]],
                keys[item],
                descending,
            ),
        split_point(order, keys, item, descending) > 0 ==> in_order(
            keys[order[split_point(order, keys, item, descending) - 1]],
            keys[item],
            descending,
        ),
    decreases order.len(),
{
    if order.len() > 0 && !in_order(keys[order.last()], keys[item], descending) {
        let shorter = order.drop_last();
        assert forall|a: int, b: int| 0 <= a < b < shorter.len() implies in_order(
            keys[shorter[a]],
            keys[shorter[b]],
            descending,
        ) by {
            assert(shorter[a] == order[a] && shorter[b] == order[b]);
        }
        lemma_split_point(shorter, keys, item, descending);
        let at = split_point(shorter, keys, item, descending);
        assert forall|k: int| at <= k < order.len() implies !in_order(
            keys[#[trigger] order[k]],
            keys[item],
            descending,
        ) by {
            if k < shorter.len() {
                assert(shorter[k] == order[k]);
            }
        }
        if at > 0 {
            assert(shorter[at - 1] == order[at - 1]);
        }
    }
}

/// Whether the item with key `a` may stand before a later item with key `b`.
pub fn stands_before(a: i64, b: i64, descending: bool) -> (may: bool)
    ensures
        may == in_order(a, b, descending),
{
    if descending {
        a >= b
    } else {
        a <= b
    }
}

/// The places of `keys` in stable order: ascending, or descending where
/// `descending` is set.
pub fn order_by_key(keys: &Vec<i64>, descending: bool) -> (order: Vec<usize>)
    ensures
        order.len() == keys.len(),
        forall|k: int| 0 <= k < order.len() ==> (#[trigger] order@[k]) < keys.len(),
        order@.map_values(|place: usize| place as int) == stable_order(keys@, descending),
{
    let mut order: Vec<usize> = Vec::new();
    let mut item: usize = 0;
    assert(order@.map_values(|place: usize| place as int) =~= stable_order_of(keys@, 0, descending));
    while item < keys.len()
        invariant
            item <= keys.len(),
            order.len() == item,
            forall|k: int| 0 <= k < order.len() ==> (#[trigger] order@[k]) < item,
            order@.map_values(|place: usize| place as int) == stable_order_of(keys@, item as nat, descending),
        decreases keys.len() - item,
    {
        let ghost before = order@.map_values(|place: usize| place as int);
        let mut at: usize = order.len();
        while at > 0 && !stands_before(keys[order[at - 1]], keys[item], descending)
            invariant
                at <= order.len(),
                item < keys.len(),
                order.len() == item,
                before == order@.map_values(|place: usize| place as int),
                forall|k: int| 0 <= k < order.len() ==> (#[trigger] order@[k]) < item,
                forall|k: int|
                    at <= k < before.len() ==> !in_order(keys@[#[trigger] before[k]], keys@[item as int], descending),
            decreases at,
        {
            assert(before[at - 1] == order@[at - 1]);
            at -= 1;
        }
        proof {
            if at > 0 {
                assert(before[at - 1] == order@[at - 1]);
            }
            lemma_placed_splits(before, keys@, item as int, descending, at as int);
        }
        order.insert(at, item);
        assert(order@.map_values(|place: usize| place as int) =~= before.insert(at as int, item as int));
        item += 1;
    }
    order
}

} // verus!
