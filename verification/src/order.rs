//! Putting things in the order of a key. Things with equal keys keep the
//! order in which they came.
use vstd::prelude::*;

verus! {

/// The order `order` with the place `item` put in behind every place whose
/// key is not greater than that of `item`, scanning from the end.
pub open spec fn inserted(order: Seq<usize>, keys: Seq<i128>, item: usize) -> Seq<usize>
    decreases order.len(),
{
    if order.len() == 0 {
        seq![item]
    } else if keys[order.last() as int] <= keys[item as int] {
        order.push(item)
    } else {
        inserted(order.drop_last(), keys, item).push(order.last())
    }
}

/// The places of the first `n` keys, ordered by rising key; places with equal
/// keys stand in rising order.
pub open spec fn rising_order(keys: Seq<i128>, n: nat) -> Seq<usize>
    decreases n,
{
    if n == 0 {
        Seq::empty()
    } else {
        inserted(rising_order(keys, (n - 1) as nat), keys, (n - 1) as usize)
    }
}

/// Whether the keys of the places of `order` never fall, and rise from one
/// place to a smaller one.
pub open spec fn is_rising(order: Seq<usize>, keys: Seq<i128>) -> bool {
    forall|i: int, j: int|
        0 <= i < j < order.len() ==> keys[#[trigger] order[i] as int] < keys[#[trigger] order[j] as int] || (
        keys[order[i] as int] == keys[order[j] as int] && order[i] < order[j])
}

/// Putting a place into a rising order gives a rising order that holds the
/// places it held and the new one.
pub proof fn lemma_inserted(order: Seq<usize>, keys: Seq<i128>, item: usize)
    requires
        is_rising(order, keys),
        item < keys.len(),
        forall|i: int| 0 <= i < order.len() ==> (#[trigger] order[i]) < item,
    ensures
        is_rising(inserted(order, keys, item), keys),
        inserted(order, keys, item).len() == order.len() + 1,
        forall|x: usize|
            #![trigger inserted(order, keys, item).contains(x)]
            #![trigger order.contains(x)]
            inserted(order, keys, item).contains(x) <==> order.contains(x) || x == item,
        inserted(order, keys, item).to_multiset() == order.to_multiset().insert(item),
    decreases order.len(),
{
    broadcast use vstd::seq_lib::group_to_multiset_ensures;

    let r = inserted(order, keys, item);
    if order.len() == 0 {
        assert(r[0] == item);
        assert(r =~= Seq::<usize>::empty().push(item));
        assert forall|x: usize| r.contains(x) <==> order.contains(x) || x == item by {
            if r.contains(x) {
                let i = choose|i: int| 0 <= i < r.len() && r[i] == x;
            }
        }
    } else if keys[order.last() as int] <= keys[item as int] {
        let n = order.len() as int;
        assert forall|i: int, j: int| 0 <= i < j < r.len() implies keys[#[trigger] r[i] as int]
            < keys[#[trigger] r[j] as int] || (keys[r[i] as int] == keys[r[j] as int] && r[i]
            < r[j]) by {
            if j < n {
                assert(r[i] == order[i] && r[j] == order[j]);
            } else if i < n - 1 {
                assert(r[i] == order[i]);
                assert(keys[order[i] as int] < keys[order[n - 1] as int] || (keys[order[i] as int]
                    == keys[order[n - 1] as int] && order[i] < order[n - 1]));
            } else {
                assert(r[i] == order[n - 1]);
            }
        }
        assert forall|x: usize| r.contains(x) <==> order.contains(x) || x == item by {
            if r.contains(x) {
                let i = choose|i: int| 0 <= i < r.len() && r[i] == x;
                if i < n {
                    assert(order[i] == x);
                }
            }
            if order.contains(x) {
                let i = choose|i: int| 0 <= i < order.len() && order[i] == x;
                assert(r[i] == x);
            }
            if x == item {
                assert(r[n] == x);
            }
        }
    } else {
        let head = order.drop_last();
        let last = order.last();
        assert(is_rising(head, keys)) by {
            assert forall|i: int, j: int| 0 <= i < j < head.len() implies keys[#[trigger] head[i] as int]
                < keys[#[trigger] head[j] as int] || (keys[head[i] as int] == keys[head[j] as int]
                && head[i] < head[j]) by {
                assert(head[i] == order[i] && head[j] == order[j]);
            }
        }
        assert forall|i: int| 0 <= i < head.len() implies (#[trigger] head[i]) < item by {
            assert(head[i] == order[i]);
        }
        lemma_inserted(head, keys, item);
        let mid = inserted(head, keys, item);
        let m = mid.len() as int;
        assert forall|i: int, j: int| 0 <= i < j < r.len() implies keys[#[trigger] r[i] as int]
            < keys[#[trigger] r[j] as int] || (keys[r[i] as int] == keys[r[j] as int] && r[i]
            < r[j]) by {
            if j < m {
                assert(r[i] == mid[i] && r[j] == mid[j]);
            } else {
                assert(r[j] == last);
                assert(r[i] == mid[i]);
                assert(mid.contains(mid[i]));
                if mid[i] == item {
                } else {
                    assert(head.contains(mid[i]));
                    let k = choose|k: int| 0 <= k < head.len() && head[k] == mid[i];
                    assert(order[k] == mid[i]);
                    assert(keys[order[k] as int] < keys[order[order.len() - 1] as int] || (
                    keys[order[k] as int] == keys[order[order.len() - 1] as int] && order[k]
                        < order[order.len() - 1]));
                }
            }
        }
        assert forall|x: usize| r.contains(x) <==> order.contains(x) || x == item by {
            if r.contains(x) {
                let i = choose|i: int| 0 <= i < r.len() && r[i] == x;
                if i < m {
                    assert(mid[i] == x);
                    assert(mid.contains(x));
                    if head.contains(x) {
                        let k = choose|k: int| 0 <= k < head.len() && head[k] == x;
                        assert(order[k] == x);
                    }
                } else {
                    assert(order[order.len() - 1] == x);
                }
            }
            if order.contains(x) {
                let i = choose|i: int| 0 <= i < order.len() && order[i] == x;
                if i < head.len() {
                    assert(head[i] == x);
                    assert(mid.contains(x));
                    let k = choose|k: int| 0 <= k < mid.len() && mid[k] == x;
                    assert(r[k] == x);
                } else {
                    assert(r[m] == x);
                }
            }
            if x == item {
                assert(mid.contains(x));
                let k = choose|k: int| 0 <= k < mid.len() && mid[k] == x;
                assert(r[k] == x);
            }
        }
        assert(order =~= head.push(last));
        assert(order.to_multiset() =~= head.to_multiset().insert(last));
        assert(r.to_multiset() =~= mid.to_multiset().insert(last));
        assert(r.to_multiset() =~= order.to_multiset().insert(item));
    }
}

/// The rising order of the first `n` keys holds each of the first `n` places
/// once, and the keys of its places never fall.
pub proof fn lemma_rising_order(keys: Seq<i128>, n: nat)
    requires
        n <= keys.len(),
        n <= usize::MAX,
    ensures
        is_rising(rising_order(keys, n), keys),
        rising_order(keys, n).len() == n,
        forall|x: usize| #[trigger] rising_order(keys, n).contains(x) <==> x < n,
        rising_order(keys, n).no_duplicates(),
        forall|i: int, j: int|
            0 <= i < j < n ==> keys[#[trigger] rising_order(keys, n)[i] as int] <= keys[#[trigger] rising_order(
                keys,
                n,
            )[j] as int],
    decreases n,
{
    let r = rising_order(keys, n);
    if n > 0 {
        let before = rising_order(keys, (n - 1) as nat);
        lemma_rising_order(keys, (n - 1) as nat);
        assert forall|i: int| 0 <= i < before.len() implies (#[trigger] before[i]) < (n - 1) as usize by {
            assert(before.contains(before[i]));
        }
        lemma_inserted(before, keys, (n - 1) as usize);
    } else {
        assert forall|x: usize| r.contains(x) <==> x < n by {
            if r.contains(x) {
                let i = choose|i: int| 0 <= i < r.len() && r[i] == x;
            }
        }
    }
    assert forall|i: int, j: int| 0 <= i < r.len() && 0 <= j < r.len() && i != j implies r[i]
        != r[j] by {
        if i < j {
            assert(keys[r[i] as int] < keys[r[j] as int] || (keys[r[i] as int] == keys[r[j] as int]
                && r[i] < r[j]));
        } else {
            assert(keys[r[j] as int] < keys[r[i] as int] || (keys[r[j] as int] == keys[r[i] as int]
                && r[j] < r[i]));
        }
    }
    assert forall|i: int, j: int| 0 <= i < j < n implies keys[#[trigger] r[i] as int]
        <= keys[#[trigger] r[j] as int] by {
        assert(keys[r[i] as int] < keys[r[j] as int] || (keys[r[i] as int] == keys[r[j] as int]
            && r[i] < r[j]));
    }
}

/// Where no two keys are equal, the keys of the places of the rising order
/// rise strictly.
pub proof fn lemma_strictly_rising(keys: Seq<i128>)
    requires
        keys.len() <= usize::MAX,
        forall|a: int, b: int| 0 <= a < b < keys.len() ==> keys[a] != keys[b],
    ensures
        forall|i: int, j: int|
            0 <= i < j < keys.len() ==> keys[#[trigger] rising_order(keys, keys.len())[i] as int]
                < keys[#[trigger] rising_order(keys, keys.len())[j] as int],
{
    let r = rising_order(keys, keys.len());
    lemma_rising_order(keys, keys.len());
    assert forall|i: int, j: int| 0 <= i < j < keys.len() implies keys[#[trigger] r[i] as int]
        < keys[#[trigger] r[j] as int] by {
        assert(r.contains(r[i]));
        assert(r.contains(r[j]));
        assert(r[i] != r[j]);
        let a = r[i] as int;
        let b = r[j] as int;
        if a < b {
            assert(keys[a] != keys[b]);
        } else {
            assert(keys[b] != keys[a]);
        }
    }
}

/// The places of the keys, ordered by rising key; places with equal keys
/// stand in rising order.
pub fn sorted_order(keys: &Vec<i128>) -> (order: Vec<usize>)
    ensures
        order@ == rising_order(keys@, keys@.len()),
{
    let mut order: Vec<usize> = Vec::new();
    let n = keys.len();
    let mut i: usize = 0;
    while i < n
        invariant
            i <= n,
            n == keys.len(),
            order@ == rising_order(keys@, i as nat),
        decreases n - i,
    {
        let ghost before = order@;
        proof {
            lemma_rising_order(keys@, i as nat);
            assert forall|k: int| 0 <= k < before.len() implies (#[trigger] before[k]) < n by {
                assert(before.contains(before[k]));
            }
        }
        // Walk back from the end to the place where `i` belongs.
        let mut at: usize = order.len();
        assert(before.subrange(0, at as int) =~= before);
        assert(before.subrange(at as int, before.len() as int) =~= Seq::<usize>::empty());
        while at > 0 && keys[order[at - 1]] > keys[i]
            invariant
                at <= order.len(),
                i < n,
                n == keys.len(),
                order@ == before,
                forall|k: int| 0 <= k < before.len() ==> (#[trigger] before[k]) < n,
                inserted(before, keys@, i) == inserted(before.subrange(0, at as int), keys@, i)
                    + before.subrange(at as int, before.len() as int),
            decreases at,
        {
            proof {
                let cur = before.subrange(0, at as int);
                let tail = before.subrange(at as int, before.len() as int);
                assert(cur.last() == before[at - 1]);
                assert(cur.drop_last() =~= before.subrange(0, at - 1));
                assert(inserted(cur, keys@, i) == inserted(cur.drop_last(), keys@, i).push(
                    cur.last(),
                ));
                assert(inserted(cur.drop_last(), keys@, i).push(cur.last()) + tail =~= inserted(
                    cur.drop_last(),
                    keys@,
                    i,
                ) + before.subrange(at - 1, before.len() as int));
            }
            at -= 1;
        }
        proof {
            let cur = before.subrange(0, at as int);
            let tail = before.subrange(at as int, before.len() as int);
            if at > 0 {
                assert(cur.last() == before[at - 1]);
                assert(inserted(cur, keys@, i) == cur.push(i));
            } else {
                assert(cur =~= Seq::<usize>::empty());
                assert(inserted(cur, keys@, i) =~= cur.push(i));
            }
            assert(before.insert(at as int, i) =~= cur.push(i) + tail);
        }
        order.insert(at, i);
        i += 1;
    }
    order
}

} // verus!
