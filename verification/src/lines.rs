//! Lists of user-facing lines: appending owned copies of strings, each
//! behind a fixed prefix.
use vstd::prelude::*;
use crate::id_list::strings_view;
use crate::text::{append_str, concat2, str_eq};

verus! {

/// Each item behind the prefix `p`.
pub open spec fn prefixed(p: Seq<char>, items: Seq<Seq<char>>) -> Seq<Seq<char>> {
    items.map_values(|s: Seq<char>| p + s)
}

/// Appends `prefix` followed by each of `items`, in order.
pub fn append_prefixed(lines: &mut Vec<String>, prefix: &str, items: &Vec<String>)
    ensures
        strings_view(final(lines)@) == strings_view(old(lines)@) + prefixed(
            prefix@,
            strings_view(items@),
        ),
{
    let ghost start = strings_view(lines@);
    let mut i: usize = 0;
    while i < items.len()
        invariant
            i <= items.len(),
            strings_view(lines@) == start + prefixed(prefix@, strings_view(items@)).subrange(
                0,
                i as int,
            ),
        decreases items.len() - i,
    {
        let line = concat2(prefix, items[i].as_str());
        let ghost before = lines@;
        lines.push(line);
        assert(strings_view(lines@) =~= strings_view(before).push(line@));
        assert(prefixed(prefix@, strings_view(items@)).subrange(0, i + 1) =~= prefixed(
            prefix@,
            strings_view(items@),
        ).subrange(0, i as int).push(prefix@ + items@[i as int]@));
        i = i + 1;
    }
    assert(prefixed(prefix@, strings_view(items@)).subrange(0, i as int) =~= prefixed(
        prefix@,
        strings_view(items@),
    ));
}

/// Appends a copy of each of `items`, in order.
pub fn append_copies(lines: &mut Vec<String>, items: &Vec<String>)
    ensures
        strings_view(final(lines)@) == strings_view(old(lines)@) + strings_view(items@),
{
    let ghost start = strings_view(lines@);
    let mut i: usize = 0;
    while i < items.len()
        invariant
            i <= items.len(),
            strings_view(lines@) == start + strings_view(items@).subrange(0, i as int),
        decreases items.len() - i,
    {
        let line = items[i].clone();
        let ghost before = lines@;
        lines.push(line);
        assert(strings_view(lines@) =~= strings_view(before).push(line@));
        assert(strings_view(items@).subrange(0, i + 1) =~= strings_view(items@).subrange(
            0,
            i as int,
        ).push(items@[i as int]@));
        i = i + 1;
    }
    assert(strings_view(items@).subrange(0, i as int) =~= strings_view(items@));
}

/// Appends an owned copy of `s`.
pub fn push_line(lines: &mut Vec<String>, s: &str)
    ensures
        strings_view(final(lines)@) == strings_view(old(lines)@).push(s@),
{
    let ghost before = lines@;
    lines.push(s.to_owned());
    assert(strings_view(lines@) =~= strings_view(before).push(s@));
}

/// Appends `prefix` followed by `s`.
pub fn push_prefixed(lines: &mut Vec<String>, prefix: &str, s: &str)
    ensures
        strings_view(final(lines)@) == strings_view(old(lines)@).push(prefix@ + s@),
{
    let ghost before = lines@;
    let mut line = String::new();
    append_str(&mut line, prefix);
    append_str(&mut line, s);
    assert(line@ =~= prefix@ + s@);
    lines.push(line);
    assert(strings_view(lines@) =~= strings_view(before).push(prefix@ + s@));
}

/// An equal copy of a list of strings.
pub fn copy_strings(v: &Vec<String>) -> (r: Vec<String>)
    ensures
        r@ == v@,
{
    let mut r: Vec<String> = Vec::new();
    let mut i: usize = 0;
    while i < v.len()
        invariant
            i <= v@.len(),
            r@ == v@.take(i as int),
        decreases v@.len() - i,
    {
        r.push(v[i].clone());
        assert(r@ =~= v@.take(i + 1));
        i = i + 1;
    }
    assert(v@.take(i as int) =~= v@);
    r
}

/// `parts` with `sep` between each two consecutive parts.
pub open spec fn joined(parts: Seq<Seq<char>>, sep: Seq<char>) -> Seq<char>
    decreases parts.len(),
{
    if parts.len() == 0 {
        seq![]
    } else if parts.len() == 1 {
        parts[0]
    } else {
        joined(parts.drop_last(), sep) + sep + parts.last()
    }
}

/// `parts.join(sep)`.
pub fn join_lines(parts: &Vec<String>, sep: &str) -> (r: String)
    ensures
        r@ == joined(strings_view(parts@), sep@),
{
    let ghost all = strings_view(parts@);
    let mut r = String::new();
    let mut i: usize = 0;
    while i < parts.len()
        invariant
            i <= parts@.len(),
            all == strings_view(parts@),
            r@ == joined(all.take(i as int), sep@),
        decreases parts@.len() - i,
    {
        assert(all.take(i + 1).drop_last() =~= all.take(i as int));
        if i > 0 {
            append_str(&mut r, sep);
        }
        append_str(&mut r, parts[i].as_str());
        proof {
            if i == 0 {
                assert(r@ =~= all.take(1)[0]);
            } else {
                assert(r@ =~= joined(all.take(i as int), sep@) + sep@ + all.take(i + 1).last());
            }
        }
        i = i + 1;
    }
    assert(all.take(i as int) =~= all);
    r
}

/// Whether one of `lines` equals `s`.
pub fn contains_line(lines: &Vec<String>, s: &str) -> (r: bool)
    ensures
        r == strings_view(lines@).contains(s@),
{
    let mut i: usize = 0;
    while i < lines.len()
        invariant
            i <= lines@.len(),
            forall|j: int| 0 <= j < i ==> lines@[j]@ != s@,
        decreases lines@.len() - i,
    {
        if str_eq(lines[i].as_str(), s) {
            assert(strings_view(lines@)[i as int] == s@);
            return true;
        }
        i = i + 1;
    }
    assert forall|j: int| 0 <= j < strings_view(lines@).len() implies strings_view(lines@)[j]
        != s@ by {
        assert(strings_view(lines@)[j] == lines@[j]@);
    }
    false
}

/// The entries of `items` that do not repeat an earlier entry, in order.
pub open spec fn first_occurrences(items: Seq<Seq<char>>) -> Seq<Seq<char>>
    decreases items.len(),
{
    if items.len() == 0 {
        seq![]
    } else if first_occurrences(items.drop_last()).contains(items.last()) {
        first_occurrences(items.drop_last())
    } else {
        first_occurrences(items.drop_last()).push(items.last())
    }
}

/// Keeping first occurrences leaves no entry twice and loses none.
pub proof fn lemma_first_occurrences(items: Seq<Seq<char>>)
    ensures
        first_occurrences(items).no_duplicates(),
        forall|x: Seq<char>| #[trigger] first_occurrences(items).contains(x) <==> items.contains(x),
    decreases items.len(),
{
    if items.len() > 0 {
        let front = items.drop_last();
        lemma_first_occurrences(front);
        let d = first_occurrences(front);
        assert forall|x: Seq<char>| #[trigger] items.contains(x) <==> (front.contains(x) || x
            == items.last()) by {
            if items.contains(x) {
                let j = choose|j: int| 0 <= j < items.len() && items[j] == x;
                if j < items.len() - 1 {
                    assert(front[j] == x);
                }
            }
            if front.contains(x) {
                let j = choose|j: int| 0 <= j < front.len() && front[j] == x;
                assert(items[j] == x);
            }
            if x == items.last() {
                assert(items[items.len() - 1] == x);
            }
        }
        if !d.contains(items.last()) {
            let e = d.push(items.last());
            assert forall|x: Seq<char>| #[trigger] e.contains(x) <==> (d.contains(x) || x
                == items.last()) by {
                if e.contains(x) {
                    let j = choose|j: int| 0 <= j < e.len() && e[j] == x;
                    if j < d.len() {
                        assert(d[j] == x);
                    }
                }
                if d.contains(x) {
                    let j = choose|j: int| 0 <= j < d.len() && d[j] == x;
                    assert(e[j] == x);
                }
                if x == items.last() {
                    assert(e[e.len() - 1] == x);
                }
            }
            assert forall|i: int, j: int| 0 <= i < e.len() && 0 <= j < e.len() && i != j implies e[i]
                != e[j] by {
                if i < d.len() && j < d.len() {
                    assert(e[i] == d[i] && e[j] == d[j]);
                } else if i < d.len() {
                    assert(e[i] == d[i]);
                } else if j < d.len() {
                    assert(e[j] == d[j]);
                }
            }
        }
    }
}

} // verus!
