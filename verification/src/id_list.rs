//! Lists of row identifiers held as character vectors: membership, the
//! repeated entries of a list, set differences and intersections, and the
//! ascending (code point order) listing that `BTreeSet<String>` iteration gives.
use vstd::prelude::*;
use crate::text::{chars_of, seq_eq, string_from};

verus! {

pub open spec fn ids_view(s: Seq<Vec<char>>) -> Seq<Seq<char>> {
    s.map_values(|x: Vec<char>| x@)
}

pub open spec fn strings_view(s: Seq<String>) -> Seq<Seq<char>> {
    s.map_values(|x: String| x@)
}

/// The entries of `ids` that repeat an earlier entry, in order.
pub open spec fn repeats(ids: Seq<Seq<char>>) -> Seq<Seq<char>>
    decreases ids.len(),
{
    if ids.len() == 0 {
        seq![]
    } else if ids.drop_last().contains(ids.last()) {
        repeats(ids.drop_last()).push(ids.last())
    } else {
        repeats(ids.drop_last())
    }
}

/// Strict code-point lexicographic order, which is the byte order of UTF-8
/// and therefore the order of `String`'s `Ord`.
pub open spec fn lex_lt(a: Seq<char>, b: Seq<char>) -> bool
    decreases a.len(),
{
    if a.len() == 0 {
        b.len() > 0
    } else if b.len() == 0 {
        false
    } else if a[0] != b[0] {
        a[0] < b[0]
    } else {
        lex_lt(a.drop_first(), b.drop_first())
    }
}

/// Each entry is strictly below the next.
pub open spec fn ascending(s: Seq<Seq<char>>) -> bool {
    forall|i: int| 0 <= i < s.len() - 1 ==> lex_lt(#[trigger] s[i], s[i + 1])
}

pub proof fn lemma_lex_total(a: Seq<char>, b: Seq<char>)
    requires
        a != b,
    ensures
        lex_lt(a, b) || lex_lt(b, a),
    decreases a.len(),
{
    if a.len() > 0 && b.len() > 0 && a[0] == b[0] {
        if a.drop_first() == b.drop_first() {
            assert(a =~= seq![a[0]] + a.drop_first());
            assert(b =~= seq![b[0]] + b.drop_first());
        }
        lemma_lex_total(a.drop_first(), b.drop_first());
    } else if a.len() == 0 && b.len() == 0 {
        assert(a =~= b);
    }
}

pub proof fn lemma_lex_irreflexive(a: Seq<char>)
    ensures
        !lex_lt(a, a),
    decreases a.len(),
{
    if a.len() > 0 {
        lemma_lex_irreflexive(a.drop_first());
    }
}

/// A copy of a character vector.
pub fn copy_chars(v: &Vec<char>) -> (r: Vec<char>)
    ensures
        r@ == v@,
{
    let mut r: Vec<char> = Vec::new();
    let mut i: usize = 0;
    while i < v.len()
        invariant
            i <= v.len(),
            r@ == v@.subrange(0, i as int),
        decreases v.len() - i,
    {
        r.push(v[i]);
        assert(v@.subrange(0, i + 1) =~= v@.subrange(0, i as int).push(v@[i as int]));
        i = i + 1;
    }
    assert(v@.subrange(0, i as int) =~= v@);
    r
}

/// The characters of a `String`.
pub fn string_chars(s: &String) -> (r: Vec<char>)
    ensures
        r@ == s@,
{
    chars_of(s.as_str())
}

/// Whether `x` equals one of `list[lo..hi]`.
pub fn contains_id(list: &Vec<Vec<char>>, lo: usize, hi: usize, x: &Vec<char>) -> (r: bool)
    requires
        lo <= hi <= list.len(),
    ensures
        r == ids_view(list@).subrange(lo as int, hi as int).contains(x@),
{
    let ghost s = ids_view(list@).subrange(lo as int, hi as int);
    let mut i = lo;
    while i < hi
        invariant
            lo <= i <= hi <= list.len(),
            s == ids_view(list@).subrange(lo as int, hi as int),
            forall|j: int| lo <= j < i ==> list@[j]@ != x@,
        decreases hi - i,
    {
        let item = &list[i];
        assert(item@.subrange(0, item@.len() as int) =~= item@);
        if seq_eq(item, 0, item.len(), x) {
            assert(s[i - lo] == x@);
            return true;
        }
        i = i + 1;
    }
    assert forall|j: int| 0 <= j < s.len() implies s[j] != x@ by {
        assert(s[j] == list@[lo + j]@);
    }
    false
}

/// Owned strings holding the given character vectors.
pub fn to_strings(list: &Vec<Vec<char>>) -> (r: Vec<String>)
    ensures
        strings_view(r@) == ids_view(list@),
{
    let mut r: Vec<String> = Vec::new();
    let mut i: usize = 0;
    while i < list.len()
        invariant
            i <= list.len(),
            strings_view(r@) == ids_view(list@).subrange(0, i as int),
        decreases list.len() - i,
    {
        let item = &list[i];
        let s = string_from(item, 0, item.len());
        assert(item@.subrange(0, item@.len() as int) =~= item@);
        let ghost old_r = r@;
        r.push(s);
        assert(strings_view(r@) =~= strings_view(old_r).push(s@));
        assert(ids_view(list@).subrange(0, i + 1) =~= ids_view(list@).subrange(0, i as int).push(
            list@[i as int]@,
        ));
        i = i + 1;
    }
    assert(ids_view(list@).subrange(0, i as int) =~= ids_view(list@));
    r
}

/// The entries of `list` that repeat an earlier entry, in order.
pub fn repeated_ids(list: &Vec<Vec<char>>) -> (r: Vec<Vec<char>>)
    ensures
        ids_view(r@) == repeats(ids_view(list@)),
{
    let mut r: Vec<Vec<char>> = Vec::new();
    let mut i: usize = 0;
    while i < list.len()
        invariant
            i <= list.len(),
            ids_view(r@) == repeats(ids_view(list@).subrange(0, i as int)),
        decreases list.len() - i,
    {
        let ghost pre = ids_view(list@).subrange(0, i + 1);
        assert(pre.drop_last() =~= ids_view(list@).subrange(0, i as int));
        assert(pre.last() == list@[i as int]@);
        if contains_id(list, 0, i, &list[i]) {
            let ghost old_r = r@;
            r.push(copy_chars(&list[i]));
            assert(ids_view(r@) =~= ids_view(old_r).push(list@[i as int]@));
        }
        i = i + 1;
    }
    assert(ids_view(list@).subrange(0, i as int) =~= ids_view(list@));
    r
}

/// Whether `a` is strictly below `b` in code point order.
pub fn lex_less(a: &Vec<char>, b: &Vec<char>) -> (r: bool)
    ensures
        r == lex_lt(a@, b@),
{
    let mut i: usize = 0;
    assert(a@.skip(0) =~= a@);
    assert(b@.skip(0) =~= b@);
    while i < a.len() && i < b.len() && a[i] == b[i]
        invariant
            i <= a.len(),
            i <= b.len(),
            lex_lt(a@, b@) == lex_lt(a@.skip(i as int), b@.skip(i as int)),
        decreases a.len() - i,
    {
        assert(a@.skip(i as int).drop_first() =~= a@.skip(i + 1));
        assert(b@.skip(i as int).drop_first() =~= b@.skip(i + 1));
        i = i + 1;
    }
    if i == a.len() {
        i < b.len()
    } else if i == b.len() {
        false
    } else {
        a[i] < b[i]
    }
}

/// The distinct entries of `items`, ascending in code point order.
/// The entries of `list`, each once.
pub fn distinct_ids(list: &Vec<Vec<char>>) -> (r: Vec<Vec<char>>)
    ensures
        ids_view(r@).no_duplicates(),
        ids_view(r@).to_set() == ids_view(list@).to_set(),
{
    let mut r: Vec<Vec<char>> = Vec::new();
    let mut i: usize = 0;
    while i < list.len()
        invariant
            i <= list.len(),
            ids_view(r@).no_duplicates(),
            ids_view(r@).to_set() == ids_view(list@).subrange(0, i as int).to_set(),
        decreases list.len() - i,
    {
        let ghost rv = ids_view(r@);
        let ghost x = list@[i as int]@;
        assert(ids_view(list@).subrange(0, i + 1) =~= ids_view(list@).subrange(0, i as int).push(x));
        assert(r@.subrange(0, r@.len() as int) =~= r@);
        assert(rv.subrange(0, rv.len() as int) =~= rv);
        if !contains_id(&r, 0, r.len(), &list[i]) {
            let c = copy_chars(&list[i]);
            r.push(c);
            assert(ids_view(r@) =~= rv.push(x));
            assert(ids_view(r@).to_set() =~= rv.to_set().insert(x)) by {
                assert forall|y: Seq<char>| ids_view(r@).to_set().contains(y) <==> rv.to_set().insert(
                    x,
                ).contains(y) by {
                    if ids_view(r@).contains(y) {
                        let k = choose|k: int| 0 <= k < ids_view(r@).len() && ids_view(r@)[k] == y;
                        if k < rv.len() {
                            assert(rv[k] == y);
                        }
                    }
                    if rv.contains(y) {
                        let k = choose|k: int| 0 <= k < rv.len() && rv[k] == y;
                        assert(ids_view(r@)[k] == y);
                    }
                    if y == x {
                        assert(ids_view(r@)[rv.len() as int] == y);
                    }
                }
            }
            assert(ids_view(list@).subrange(0, i + 1).to_set() =~= ids_view(list@).subrange(
                0,
                i as int,
            ).to_set().insert(x)) by {
                let a = ids_view(list@).subrange(0, i as int);
                assert forall|y: Seq<char>| a.push(x).to_set().contains(y) <==> a.to_set().insert(
                    x,
                ).contains(y) by {
                    if a.push(x).contains(y) {
                        let k = choose|k: int| 0 <= k < a.push(x).len() && a.push(x)[k] == y;
                        if k < a.len() {
                            assert(a[k] == y);
                        }
                    }
                    if a.contains(y) {
                        let k = choose|k: int| 0 <= k < a.len() && a[k] == y;
                        assert(a.push(x)[k] == y);
                    }
                    if y == x {
                        assert(a.push(x)[a.len() as int] == y);
                    }
                }
            }
        } else {
            assert(rv.to_set().contains(x));
            assert(ids_view(list@).subrange(0, i + 1).to_set() =~= ids_view(list@).subrange(
                0,
                i as int,
            ).to_set()) by {
                let a = ids_view(list@).subrange(0, i as int);
                assert forall|y: Seq<char>| a.push(x).to_set().contains(y) <==> a.to_set().contains(
                    y,
                ) by {
                    if a.push(x).contains(y) {
                        let k = choose|k: int| 0 <= k < a.push(x).len() && a.push(x)[k] == y;
                        if k < a.len() {
                            assert(a[k] == y);
                        } else {
                            assert(a.to_set().contains(x));
                        }
                    }
                    if a.contains(y) {
                        let k = choose|k: int| 0 <= k < a.len() && a[k] == y;
                        assert(a.push(x)[k] == y);
                    }
                }
            }
        }
        i = i + 1;
    }
    assert(ids_view(list@).subrange(0, i as int) =~= ids_view(list@));
    r
}

pub fn sort_ids(items: Vec<Vec<char>>) -> (r: Vec<Vec<char>>)
    requires
        ids_view(items@).no_duplicates(),
    ensures
        ids_view(r@).to_set() == ids_view(items@).to_set(),
        ids_view(r@).no_duplicates(),
        ascending(ids_view(r@)),
{
    let mut r: Vec<Vec<char>> = Vec::new();
    let mut items = items;
    let ghost all = ids_view(items@);
    let mut taken: usize = 0;
    let n = items.len();
    while items.len() > 0
        invariant
            all.no_duplicates(),
            n == all.len(),
            items.len() + taken == n,
            ids_view(items@) == all.subrange(taken as int, n as int),
            ids_view(r@).to_set() == all.subrange(0, taken as int).to_set(),
            ids_view(r@).no_duplicates(),
            ascending(ids_view(r@)),
        decreases items.len(),
    {
        let ghost old_items = items@;
        let x = items.remove(0);
        let ghost xs = x@;
        assert(ids_view(old_items)[0] == xs);
        assert(xs == all[taken as int]);
        assert(!all.subrange(0, taken as int).contains(xs)) by {
            if all.subrange(0, taken as int).contains(xs) {
                let k = choose|k: int| 0 <= k < taken && all.subrange(0, taken as int)[k] == xs;
                assert(all[k] == all[taken as int]);
            }
        }
        let ghost rv = ids_view(r@);
        assert(!rv.contains(xs)) by {
            if rv.contains(xs) {
                let k = choose|k: int| 0 <= k < rv.len() && rv[k] == xs;
                assert(rv.to_set().contains(xs));
            }
        }
        let mut p: usize = 0;
        while p < r.len() && lex_less(&r[p], &x)
            invariant
                p <= r.len(),
                rv == ids_view(r@),
                x@ == xs,
                forall|j: int| 0 <= j < p ==> lex_lt(rv[j], xs),
            decreases r.len() - p,
        {
            p = p + 1;
        }
        proof {
            if p < r.len() {
                assert(rv[p as int] != xs);
                lemma_lex_total(rv[p as int], xs);
            }
        }
        r.insert(p, x);
        proof {
            let nv = ids_view(r@);
            assert(nv =~= rv.insert(p as int, xs));
            assert(all.subrange(0, taken + 1) =~= all.subrange(0, taken as int).push(xs));
            assert(nv.to_set() =~= rv.to_set().insert(xs)) by {
                assert forall|y: Seq<char>| nv.to_set().contains(y) <==> rv.to_set().insert(
                    xs,
                ).contains(y) by {
                    if nv.contains(y) {
                        let k = choose|k: int| 0 <= k < nv.len() && nv[k] == y;
                        if k < p {
                            assert(rv[k] == y);
                        } else if k > p {
                            assert(rv[k - 1] == y);
                        }
                    }
                    if rv.contains(y) {
                        let k = choose|k: int| 0 <= k < rv.len() && rv[k] == y;
                        if k < p {
                            assert(nv[k] == y);
                        } else {
                            assert(nv[k + 1] == y);
                        }
                    }
                    if y == xs {
                        assert(nv[p as int] == xs);
                    }
                }
            }
            assert(all.subrange(0, taken + 1).to_set() =~= all.subrange(0, taken as int).to_set().insert(xs)) by {
                let a1 = all.subrange(0, taken + 1);
                let a0 = all.subrange(0, taken as int);
                assert forall|y: Seq<char>| a1.to_set().contains(y) <==> a0.to_set().insert(xs).contains(y) by {
                    if a1.contains(y) {
                        let k = choose|k: int| 0 <= k < a1.len() && a1[k] == y;
                        if k < taken {
                            assert(a0[k] == y);
                        }
                    }
                    if a0.contains(y) {
                        let k = choose|k: int| 0 <= k < a0.len() && a0[k] == y;
                        assert(a1[k] == y);
                    }
                    if y == xs {
                        assert(a1[taken as int] == xs);
                    }
                }
            }
            assert forall|i: int, j: int| 0 <= i < j < nv.len() implies nv[i] != nv[j] by {
                if i < p && j < p {
                } else if i < p && j == p {
                    assert(rv[i] != xs);
                } else if i < p && j > p {
                    assert(nv[j] == rv[j - 1]);
                } else if i == p {
                    assert(nv[j] == rv[j - 1]);
                    assert(rv.contains(rv[j - 1]));
                } else {
                    assert(nv[i] == rv[i - 1]);
                    assert(nv[j] == rv[j - 1]);
                }
            }
            assert forall|i: int| 0 <= i < nv.len() - 1 implies lex_lt(#[trigger] nv[i], nv[i + 1]) by {
                if i + 1 < p {
                    assert(nv[i] == rv[i]);
                    assert(nv[i + 1] == rv[i + 1]);
                } else if i + 1 == p {
                    assert(nv[i] == rv[i]);
                } else if i == p {
                    assert(nv[i + 1] == rv[i]);
                } else {
                    assert(nv[i] == rv[i - 1]);
                    assert(nv[i + 1] == rv[i]);
                }
            }
            assert(ids_view(items@) =~= ids_view(old_items).remove(0));
            assert(ids_view(items@) =~= all.subrange(taken + 1, n as int));
        }
        taken = taken + 1;
    }
    assert(all.subrange(0, n as int) =~= all);
    r
}

} // verus!
