//! Stable ordering of items by text keys, as strings compare: character by
//! character, a proper prefix first.
use vstd::prelude::*;

verus! {

/// `a < b` in the order of strings (lexicographic by character; the same as
/// the order of their UTF-8 bytes).
pub open spec fn text_lt(a: Seq<char>, b: Seq<char>) -> bool
    decreases a.len(),
{
    if a.len() == 0 {
        b.len() > 0
    } else if b.len() == 0 {
        false
    } else if a[0] != b[0] {
        a[0] < b[0]
    } else {
        text_lt(a.drop_first(), b.drop_first())
    }
}

pub proof fn lemma_text_lt_irreflexive(a: Seq<char>)
    ensures
        !text_lt(a, a),
    decreases a.len(),
{
    if a.len() > 0 {
        lemma_text_lt_irreflexive(a.drop_first());
    }
}

pub proof fn lemma_text_lt_transitive(a: Seq<char>, b: Seq<char>, c: Seq<char>)
    requires
        text_lt(a, b),
        text_lt(b, c),
    ensures
        text_lt(a, c),
    decreases a.len(),
{
    if a.len() > 0 && b.len() > 0 && c.len() > 0 && a[0] == b[0] && b[0] == c[0] {
        lemma_text_lt_transitive(a.drop_first(), b.drop_first(), c.drop_first());
    }
}

/// Any two strings are equal or one is smaller.
pub proof fn lemma_text_lt_total(a: Seq<char>, b: Seq<char>)
    ensures
        a == b || text_lt(a, b) || text_lt(b, a),
    decreases a.len(),
{
    if a.len() > 0 && b.len() > 0 && a[0] == b[0] {
        lemma_text_lt_total(a.drop_first(), b.drop_first());
        if a.drop_first() == b.drop_first() {
            assert(a =~= seq![a[0]] + a.drop_first());
            assert(b =~= seq![b[0]] + b.drop_first());
        }
    } else if a.len() == 0 && b.len() == 0 {
        assert(a =~= b);
    }
}

pub proof fn lemma_text_lt_asymmetric(a: Seq<char>, b: Seq<char>)
    requires
        text_lt(a, b),
    ensures
        !text_lt(b, a),
{
    if text_lt(b, a) {
        lemma_text_lt_transitive(a, b, a);
        lemma_text_lt_irreflexive(a);
    }
}

/// Decides `text_lt`.
pub fn text_less(a: &Vec<char>, b: &Vec<char>) -> (res: bool)
    ensures
        res == text_lt(a@, b@),
{
    let mut i: usize = 0;
    assert(a@.skip(0) =~= a@);
    assert(b@.skip(0) =~= b@);
    while i < a.len() && i < b.len() && a[i] == b[i]
        invariant
            i <= a.len(),
            i <= b.len(),
            text_lt(a@, b@) == text_lt(a@.skip(i as int), b@.skip(i as int)),
        decreases a.len() - i,
    {
        assert(a@.skip(i as int).drop_first() =~= a@.skip(i + 1));
        assert(b@.skip(i as int).drop_first() =~= b@.skip(i + 1));
        i = i + 1;
    }
    if i == a.len() {
        i < b.len()
    } else if i == b.len() {
        false
    } else {
        a[i] < b[i]
    }
}

/// Item `i` comes before item `j`: smaller key, or equal keys and earlier position.
pub open spec fn before(keys: Seq<Seq<char>>, i: int, j: int) -> bool {
    text_lt(keys[i], keys[j]) || (keys[i] == keys[j] && i < j)
}

/// `order` lists every index of `keys` once, smallest key first, items with
/// equal keys in their original order: what a stable sort by key gives.
pub open spec fn is_stable_order(keys: Seq<Seq<char>>, order: Seq<usize>) -> bool {
    &&& order.len() == keys.len()
    &&& forall|k: int| 0 <= k < order.len() ==> #[trigger] order[k] < keys.len()
    &&& forall|a: int, b: int|
        0 <= a < b < order.len() ==> before(keys, #[trigger] order[a] as int, #[trigger] order[b] as int)
    &&& forall|i: int| 0 <= i < keys.len() ==> #[trigger] order.contains(i as usize)
}

/// The positions of `keys` in stable sorted order.
pub fn stable_sort_order(keys: &Vec<Vec<char>>) -> (order: Vec<usize>)
    ensures
        is_stable_order(keys@.map_values(|k: Vec<char>| k@), order@),
{
    let ghost kv = keys@.map_values(|k: Vec<char>| k@);
    let mut order: Vec<usize> = Vec::new();
    let mut i: usize = 0;
    while i < keys.len()
        invariant
            i <= keys.len(),
            kv == keys@.map_values(|k: Vec<char>| k@),
            order.len() == i,
            forall|k: int| 0 <= k < order.len() ==> #[trigger] order@[k] < i,
            forall|a: int, b: int|
                0 <= a < b < order.len() ==> before(kv, #[trigger] order@[a] as int, #[trigger] order@[b] as int),
            forall|x: int| 0 <= x < i ==> #[trigger] order@.contains(x as usize),
        decreases keys.len() - i,
    {
        // the first position whose key is larger than key i
        let mut p: usize = 0;
        while p < order.len() && !text_less(&keys[i], &keys[order[p]])
            invariant
                p <= order.len(),
                order.len() == i,
                i < keys.len(),
                kv == keys@.map_values(|k: Vec<char>| k@),
                forall|k: int| 0 <= k < order.len() ==> #[trigger] order@[k] < i,
                forall|q: int| 0 <= q < p ==> !text_lt(kv[i as int], #[trigger] kv[order@[q] as int]),
            decreases order.len() - p,
        {
            p = p + 1;
        }
        let ghost old_order = order@;
        order.insert(p, i);
        proof {
            assert(order@ =~= old_order.subrange(0, p as int).push(i) + old_order.subrange(
                p as int,
                old_order.len() as int,
            ));
            // keys after position p are all larger than key i
            if p < old_order.len() {
                assert(text_lt(kv[i as int], kv[old_order[p as int] as int]));
            }
            assert forall|a: int, b: int|
                0 <= a < b < order.len() implies before(kv, #[trigger] order@[a] as int, #[trigger] order@[b] as int) by {
                if b < p {
                    assert(order@[a] == old_order[a]);
                    assert(order@[b] == old_order[b]);
                } else if b == p {
                    assert(order@[a] == old_order[a]);
                    let x = old_order[a] as int;
                    assert(!text_lt(kv[i as int], kv[x]));
                    lemma_text_lt_total(kv[i as int], kv[x]);
                } else if a < p {
                    assert(order@[a] == old_order[a]);
                    assert(order@[b] == old_order[b - 1]);
                } else if a == p {
                    assert(order@[b] == old_order[b - 1]);
                    let y = old_order[b - 1] as int;
                    if b - 1 > p {
                        assert(before(kv, old_order[p as int] as int, y));
                        if kv[old_order[p as int] as int] != kv[y] {
                            lemma_text_lt_transitive(kv[i as int], kv[old_order[p as int] as int], kv[y]);
                        }
                    }
                } else {
                    assert(order@[a] == old_order[a - 1]);
                    assert(order@[b] == old_order[b - 1]);
                }
            }
            assert forall|x: int| 0 <= x < i + 1 implies #[trigger] order@.contains(x as usize) by {
                if x == i {
                    assert(order@[p as int] == i);
                } else {
                    assert(old_order.contains(x as usize));
                    let w = choose|w: int| 0 <= w < old_order.len() && old_order[w] == x as usize;
                    if w < p {
                        assert(order@[w] == x as usize);
                    } else {
                        assert(order@[w + 1] == x as usize);
                    }
                }
            }
            assert forall|k: int| 0 <= k < order.len() implies #[trigger] order@[k] < i + 1 by {
                if k < p {
                    assert(order@[k] == old_order[k]);
                } else if k > p {
                    assert(order@[k] == old_order[k - 1]);
                }
            }
        }
        i = i + 1;
    }
    order
}

proof fn lemma_before_asymmetric(keys: Seq<Seq<char>>, i: int, j: int)
    requires
        before(keys, i, j),
    ensures
        !before(keys, j, i),
{
    if text_lt(keys[i], keys[j]) {
        lemma_text_lt_asymmetric(keys[i], keys[j]);
        if keys[j] == keys[i] {
            lemma_text_lt_irreflexive(keys[i]);
        }
    } else if text_lt(keys[j], keys[i]) {
        lemma_text_lt_irreflexive(keys[i]);
    }
}

proof fn lemma_stable_orders_agree_upto(keys: Seq<Seq<char>>, o1: Seq<usize>, o2: Seq<usize>, k: int)
    requires
        is_stable_order(keys, o1),
        is_stable_order(keys, o2),
        0 <= k < o1.len(),
    ensures
        forall|j: int| 0 <= j <= k ==> o1[j] == o2[j],
    decreases k,
{
    if k > 0 {
        lemma_stable_orders_agree_upto(keys, o1, o2, k - 1);
    }
    let x = o1[k];
    let y = o2[k];
    assert(o2[k] < keys.len());
    assert(o1[k] < keys.len());
    assert(o1.contains((y as int) as usize));
    assert(o2.contains((x as int) as usize));
    let m = choose|m: int| 0 <= m < o1.len() && o1[m] == y;
    let n = choose|n: int| 0 <= n < o2.len() && o2[n] == x;
    if m < k {
        assert(o2[m] == y);
        assert(before(keys, o2[m] as int, o2[k] as int));
        lemma_text_lt_irreflexive(keys[y as int]);
    }
    if n < k {
        assert(o1[n] == x);
        assert(before(keys, o1[n] as int, o1[k] as int));
        lemma_text_lt_irreflexive(keys[x as int]);
    }
    if m > k && n > k {
        assert(before(keys, x as int, y as int));
        assert(before(keys, y as int, x as int));
        lemma_before_asymmetric(keys, x as int, y as int);
    }
}

/// A stable sort is determined by its keys: any two orders that are stable
/// orders of the same keys are the same order.
pub proof fn lemma_stable_order_unique(keys: Seq<Seq<char>>, o1: Seq<usize>, o2: Seq<usize>)
    requires
        is_stable_order(keys, o1),
        is_stable_order(keys, o2),
    ensures
        o1 == o2,
{
    if o1.len() > 0 {
        lemma_stable_orders_agree_upto(keys, o1, o2, o1.len() - 1);
    }
    assert(o1 =~= o2);
}

/// A stable order is a rearrangement: it lists every position of the keys
/// exactly once.
pub proof fn lemma_stable_order_is_permutation(keys: Seq<Seq<char>>, order: Seq<usize>)
    requires
        is_stable_order(keys, order),
    ensures
        order.len() == keys.len(),
        order.no_duplicates(),
        forall|i: int| 0 <= i < keys.len() ==> #[trigger] order.contains(i as usize),
{
    assert forall|a: int, b: int| 0 <= a < order.len() && 0 <= b < order.len() && a != b implies order[a]
        != order[b] by {
        let (x, y) = if a < b {
            (a, b)
        } else {
            (b, a)
        };
        assert(before(keys, order[x] as int, order[y] as int));
        if order[x] == order[y] {
            lemma_text_lt_irreflexive(keys[order[x] as int]);
        }
    }
}

} // verus!
