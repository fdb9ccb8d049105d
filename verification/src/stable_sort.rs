//! Stable ordering by a pair of unsigned keys, compared first by the first
//! and then by the second: what `sort_by_key` gives.
use vstd::prelude::*;

verus! {

/// `a` orders before or together with `b`.
pub open spec fn key_le(a: (usize, usize), b: (usize, usize)) -> bool {
    a.0 < b.0 || (a.0 == b.0 && a.1 <= b.1)
}

/// How many leading keys of `ks` order before or together with `k`.
pub open spec fn leading_le(ks: Seq<(usize, usize)>, k: (usize, usize)) -> nat
    decreases ks.len(),
{
    if ks.len() == 0 {
        0
    } else if key_le(ks[0], k) {
        1 + leading_le(ks.drop_first(), k)
    } else {
        0
    }
}

/// The positions `0..keys.len()` in stable sorted order: each position is
/// placed after every earlier-placed position whose key orders before or
/// together with its own.
pub open spec fn stable_order(keys: Seq<(usize, usize)>) -> Seq<int>
    decreases keys.len(),
{
    if keys.len() == 0 {
        seq![]
    } else {
        let o = stable_order(keys.drop_last());
        let p = leading_le(o.map_values(|j: int| keys[j]), keys.last());
        o.insert(p as int, keys.len() - 1)
    }
}

/// The keys of `keys` taken in the order `o`.
pub open spec fn keys_in(keys: Seq<(usize, usize)>, o: Seq<int>) -> Seq<(usize, usize)> {
    o.map_values(|j: int| keys[j])
}

/// `o` lists every position below `n` exactly once.
pub open spec fn is_permutation(o: Seq<int>, n: int) -> bool {
    &&& o.len() == n
    &&& forall|a: int| 0 <= a < o.len() ==> 0 <= #[trigger] o[a] < n
    &&& forall|a: int, b: int| 0 <= a < b < o.len() ==> o[a] != o[b]
}

/// Along `o`, keys never decrease, and equal keys keep their original order.
pub open spec fn sorted_stably(keys: Seq<(usize, usize)>, o: Seq<int>) -> bool {
    forall|a: int, b: int|
        0 <= a < b < o.len() ==> key_le(keys[o[a]], keys[o[b]]) && (keys[o[a]] == keys[o[b]]
            ==> o[a] < o[b])
}

proof fn lemma_leading_le_bound(ks: Seq<(usize, usize)>, k: (usize, usize))
    ensures
        leading_le(ks, k) <= ks.len(),
        forall|i: int| 0 <= i < leading_le(ks, k) ==> key_le(#[trigger] ks[i], k),
        leading_le(ks, k) < ks.len() ==> !key_le(ks[leading_le(ks, k) as int], k),
    decreases ks.len(),
{
    if ks.len() > 0 && key_le(ks[0], k) {
        lemma_leading_le_bound(ks.drop_first(), k);
        assert forall|i: int| 0 <= i < leading_le(ks, k) implies key_le(#[trigger] ks[i], k) by {
            if i > 0 {
                assert(ks[i] == ks.drop_first()[i - 1]);
            }
        }
    }
}

/// The stable order is a permutation of the positions, sorted by key, with
/// equal keys in their original order.
pub proof fn lemma_stable_order(keys: Seq<(usize, usize)>)
    ensures
        is_permutation(stable_order(keys), keys.len() as int),
        sorted_stably(keys, stable_order(keys)),
    decreases keys.len(),
{
    if keys.len() > 0 {
        let n = keys.len() as int;
        let prev = keys.drop_last();
        lemma_stable_order(prev);
        let o = stable_order(prev);
        let ks = o.map_values(|j: int| keys[j]);
        let k = keys.last();
        let p = leading_le(ks, k) as int;
        lemma_leading_le_bound(ks, k);
        let r = o.insert(p, n - 1);
        assert(r == stable_order(keys));
        assert forall|a: int| 0 <= a < r.len() implies 0 <= #[trigger] r[a] < n by {
            if a < p {
                assert(r[a] == o[a]);
            } else if a > p {
                assert(r[a] == o[a - 1]);
            }
        }
        assert forall|a: int, b: int| 0 <= a < b < r.len() implies r[a] != r[b] by {
            if a < p && b < p {
                assert(r[a] == o[a] && r[b] == o[b]);
            } else if a < p && b > p {
                assert(r[a] == o[a] && r[b] == o[b - 1]);
            } else if a > p && b > p {
                assert(r[a] == o[a - 1] && r[b] == o[b - 1]);
            } else if a == p {
                assert(0 <= o[b - 1] < n - 1);
            } else {
                assert(0 <= o[a] < n - 1);
            }
        }
        assert forall|a: int, b: int| 0 <= a < b < r.len() implies key_le(keys[r[a]], keys[r[b]])
            && (keys[r[a]] == keys[r[b]] ==> r[a] < r[b]) by {
            // Keys of the earlier positions agree with those of `prev`.
            if a < p && b < p {
                assert(r[a] == o[a] && r[b] == o[b]);
                assert(prev[o[a]] == keys[o[a]] && prev[o[b]] == keys[o[b]]);
            } else if a > p && b > p {
                assert(r[a] == o[a - 1] && r[b] == o[b - 1]);
                assert(prev[o[a - 1]] == keys[o[a - 1]] && prev[o[b - 1]] == keys[o[b - 1]]);
            } else if a < p && b > p {
                assert(r[a] == o[a] && r[b] == o[b - 1]);
                assert(ks[a] == keys[o[a]]);
                assert(ks[b - 1] == keys[o[b - 1]]);
                assert(key_le(ks[a], k));
                // ks[p] does not order before k, and ks is sorted, so ks[b - 1] does not either.
                assert(prev[o[p]] == keys[o[p]] && prev[o[b - 1]] == keys[o[b - 1]]);
                assert(ks[p] == keys[o[p]]);
                assert(!key_le(ks[p], k));
                assert(prev[o[a]] == keys[o[a]]);
            } else if a == p {
                // r[a] is the new position n - 1, r[b] an earlier one placed after it.
                assert(r[a] == n - 1 && r[b] == o[b - 1]);
                assert(ks[b - 1] == keys[o[b - 1]]);
                assert(ks[p] == keys[o[p]]);
                assert(!key_le(ks[p], k));
                assert(prev[o[p]] == keys[o[p]] && prev[o[b - 1]] == keys[o[b - 1]]);
                if b - 1 > p {
                    assert(key_le(prev[o[p]], prev[o[b - 1]]));
                }
            } else {
                // b == p: r[b] is the new position, r[a] an earlier one placed before it.
                assert(r[b] == n - 1 && r[a] == o[a]);
                assert(ks[a] == keys[o[a]]);
                assert(key_le(ks[a], k));
            }
        }
    }
}

/// `items` reordered stably by `keys`, the key of each item standing at the
/// same position as the item.
pub fn stable_sort_by_keys<T>(items: Vec<T>, keys: &Vec<(usize, usize)>) -> (r: Vec<T>)
    requires
        keys.len() == items.len(),
    ensures
        r@ == stable_order(keys@).map_values(|j: int| items@[j]),
{
    let ghost orig = items@;
    let n = keys.len();
    let mut rest = items;
    let mut r: Vec<T> = Vec::new();
    let mut rk: Vec<(usize, usize)> = Vec::new();
    let mut i: usize = 0;
    proof {
        assert(keys@.take(0) =~= Seq::<(usize, usize)>::empty());
        assert(orig.skip(0) =~= orig);
    }
    while i < n
        invariant
            n == keys.len(),
            n == orig.len(),
            i <= n,
            rest@ == orig.skip(i as int),
            r@ == stable_order(keys@.take(i as int)).map_values(|j: int| orig[j]),
            rk@ == keys_in(keys@, stable_order(keys@.take(i as int))),
            is_permutation(stable_order(keys@.take(i as int)), i as int),
        decreases n - i,
    {
        let ghost o = stable_order(keys@.take(i as int));
        let ghost next = keys@.take(i + 1);
        let x = rest.remove(0);
        assert(x == orig[i as int]);
        assert(rest@ =~= orig.skip(i + 1));
        let k = keys[i];
        let mut p: usize = 0;
        assert(rk@.skip(0) =~= rk@);
        while p < rk.len() && key_le_exec(rk[p], k)
            invariant
                p <= rk.len(),
                leading_le(rk@, k) == p + leading_le(rk@.skip(p as int), k),
            decreases rk.len() - p,
        {
            assert(rk@.skip(p as int).drop_first() =~= rk@.skip(p + 1));
            p = p + 1;
        }
        proof {
            if p < rk.len() {
                assert(rk@.skip(p as int)[0] == rk@[p as int]);
            } else {
                assert(rk@.skip(p as int) =~= Seq::<(usize, usize)>::empty());
            }
            assert(leading_le(rk@, k) == p);
            assert(next.drop_last() =~= keys@.take(i as int));
            assert(next.last() == k);
            assert(o.map_values(|j: int| next[j]) =~= rk@);
            assert(stable_order(next) == o.insert(p as int, i as int));
            lemma_stable_order(next);
        }
        r.insert(p, x);
        rk.insert(p, k);
        proof {
            assert(r@ =~= o.insert(p as int, i as int).map_values(|j: int| orig[j]));
            assert(rk@ =~= keys_in(keys@, o.insert(p as int, i as int)));
        }
        i = i + 1;
    }
    assert(keys@.take(n as int) =~= keys@);
    r
}

pub fn key_le_exec(a: (usize, usize), b: (usize, usize)) -> (r: bool)
    ensures
        r == key_le(a, b),
{
    a.0 < b.0 || (a.0 == b.0 && a.1 <= b.1)
}

} // verus!
