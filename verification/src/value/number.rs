//! Recognisers for the textual number forms the standard library's
//! `FromStr` accepts: unsigned integers with a bound, and the documented
//! floating-point literal grammar. Only the syntax is decided here; the
//! value a float literal denotes is left to the caller.
use vstd::prelude::*;
use crate::text::{
    all_ascii_digits, all_digits, ascii_lower, chars_of, digits_value, eq_ignore_case, find_char,
    first_match, is_digit, lemma_first_match_at, to_ascii_lower, char_pred,
};

verus! {

pub open spec fn is_sign(c: char) -> bool {
    c == '+' || c == '-'
}

pub open spec fn exp_pred() -> spec_fn(char) -> bool {
    |c: char| c == 'e' || c == 'E'
}

pub open spec fn dot_pred() -> spec_fn(char) -> bool {
    |c: char| c == '.'
}

/// `Digit+ | Digit+ '.' Digit* | Digit* '.' Digit+`.
pub open spec fn mantissa_ok(m: Seq<char>) -> bool {
    let d = first_match(m, dot_pred());
    if d >= m.len() {
        m.len() > 0 && all_digits(m)
    } else {
        &&& all_digits(m.take(d as int))
        &&& all_digits(m.skip(d as int + 1))
        &&& (d > 0 || m.len() > d + 1)
    }
}

/// `Sign? Digit+` (what follows the exponent marker).
pub open spec fn exponent_ok(x: Seq<char>) -> bool {
    let y = if x.len() > 0 && is_sign(x[0]) {
        x.drop_first()
    } else {
        x
    };
    y.len() > 0 && all_digits(y)
}

/// `Number ::= Mantissa Exp?` with `Exp ::= 'e' Sign? Digit+`, case-insensitive.
pub open spec fn number_ok(b: Seq<char>) -> bool {
    let k = first_match(b, exp_pred());
    mantissa_ok(b.take(k as int)) && (k >= b.len() || exponent_ok(b.skip(k as int + 1)))
}

pub open spec fn unsigned_body(s: Seq<char>) -> Seq<char> {
    if s.len() > 0 && is_sign(s[0]) {
        s.drop_first()
    } else {
        s
    }
}

/// The grammar `f32::from_str` and `f64::from_str` document as accepted:
/// `Sign? ('inf' | 'infinity' | 'nan' | Number)`, letters in any case.
pub open spec fn is_float_literal(s: Seq<char>) -> bool {
    let b = unsigned_body(s);
    ||| eq_ignore_case(b, "inf"@)
    ||| eq_ignore_case(b, "infinity"@)
    ||| eq_ignore_case(b, "nan"@)
    ||| number_ok(b)
}

/// Text an unsigned `from_str` accepts: an optional `+` then one or more
/// ASCII digits; `bound` is the largest value the target type holds.
pub open spec fn unsigned_text_ok(s: Seq<char>, bound: nat) -> bool {
    let d = if s.len() > 0 && s[0] == '+' {
        s.drop_first()
    } else {
        s
    };
    d.len() > 0 && all_digits(d) && digits_value(d) <= bound
}

/// `min(digits_value(v[lo..hi]), cap + 1)` for a run of ASCII digits.
pub fn digits_value_capped(v: &Vec<char>, lo: usize, hi: usize, cap: u64) -> (r: u64)
    requires
        lo <= hi <= v.len(),
        all_digits(v@.subrange(lo as int, hi as int)),
        cap <= u32::MAX,
    ensures
        r == if digits_value(v@.subrange(lo as int, hi as int)) > cap {
            (cap + 1) as nat
        } else {
            digits_value(v@.subrange(lo as int, hi as int))
        },
{
    let mut val: u64 = 0;
    let mut i = lo;
    while i < hi
        invariant
            lo <= i <= hi <= v.len(),
            all_digits(v@.subrange(lo as int, hi as int)),
            cap <= u32::MAX,
            val == if digits_value(v@.subrange(lo as int, i as int)) > cap {
                (cap + 1) as nat
            } else {
                digits_value(v@.subrange(lo as int, i as int))
            },
        decreases hi - i,
    {
        let c = v[i];
        assert(v@.subrange(lo as int, hi as int)[i - lo] == c);
        assert(is_digit(c));
        let d = (c as u32 - '0' as u32) as u64;
        let ghost prev = v@.subrange(lo as int, i as int);
        let ghost next = v@.subrange(lo as int, i + 1);
        assert(next.drop_last() =~= prev);
        assert(next.last() == c);
        assert(digits_value(next) == 10 * digits_value(prev) + d);
        if val > cap {
            val = cap + 1;
        } else {
            let nv = 10 * val + d;
            if nv > cap {
                val = cap + 1;
            } else {
                val = nv;
            }
        }
        i = i + 1;
    }
    val
}

/// Whether `v[lo..hi]` is accepted by an unsigned `from_str` whose type
/// holds values up to `bound`.
pub fn unsigned_text(v: &Vec<char>, lo: usize, hi: usize, bound: u64) -> (r: bool)
    requires
        lo <= hi <= v.len(),
        bound <= u32::MAX,
    ensures
        r == unsigned_text_ok(v@.subrange(lo as int, hi as int), bound as nat),
{
    let ghost s = v@.subrange(lo as int, hi as int);
    let start = if lo < hi && v[lo] == '+' {
        lo + 1
    } else {
        lo
    };
    assert(start > lo ==> s.drop_first() =~= v@.subrange(start as int, hi as int));
    assert(start == lo ==> s =~= v@.subrange(start as int, hi as int));
    if start == hi {
        return false;
    }
    if !all_ascii_digits(v, start, hi) {
        return false;
    }
    let val = digits_value_capped(v, start, hi, bound);
    val <= bound
}

/// Whether `v[lo..hi]` equals `lit` ignoring ASCII case.
pub fn eq_ignore_case_exec(v: &Vec<char>, lo: usize, hi: usize, lit: &str) -> (r: bool)
    requires
        lo <= hi <= v.len(),
    ensures
        r == eq_ignore_case(v@.subrange(lo as int, hi as int), lit@),
{
    let w = chars_of(lit);
    if hi - lo != w.len() {
        return false;
    }
    let mut i: usize = 0;
    while i < w.len()
        invariant
            lo <= hi <= v.len(),
            hi - lo == w.len(),
            w@ == lit@,
            i <= w.len(),
            forall|j: int| 0 <= j < i ==> ascii_lower(v@[lo + j]) == ascii_lower(w@[j]),
        decreases w.len() - i,
    {
        if to_ascii_lower(v[lo + i]) != to_ascii_lower(w[i]) {
            assert(ascii_lower(v@.subrange(lo as int, hi as int)[i as int]) != ascii_lower(
                w@[i as int],
            ));
            return false;
        }
        i = i + 1;
    }
    assert forall|j: int| 0 <= j < w@.len() implies #[trigger] ascii_lower(
        v@.subrange(lo as int, hi as int)[j],
    ) == ascii_lower(lit@[j]) by {
        assert(v@.subrange(lo as int, hi as int)[j] == v@[lo + j]);
    }
    true
}

/// Index (absolute) of the first `e`/`E` in `v[lo..hi]`, or `hi`.
fn find_exp(v: &Vec<char>, lo: usize, hi: usize) -> (r: usize)
    requires
        lo <= hi <= v.len(),
    ensures
        lo <= r <= hi,
        r - lo == first_match(v@.subrange(lo as int, hi as int), exp_pred()),
{
    let ghost s = v@.subrange(lo as int, hi as int);
    let mut i = lo;
    while i < hi && v[i] != 'e' && v[i] != 'E'
        invariant
            lo <= i <= hi <= v.len(),
            s == v@.subrange(lo as int, hi as int),
            forall|j: int| lo <= j < i ==> v@[j] != 'e' && v@[j] != 'E',
        decreases hi - i,
    {
        i = i + 1;
    }
    proof {
        assert forall|j: int| 0 <= j < i - lo implies !(exp_pred())(#[trigger] s[j]) by {
            assert(s[j] == v@[lo + j]);
        }
        lemma_first_match_at(s, exp_pred(), i - lo);
    }
    i
}

fn mantissa_exec(v: &Vec<char>, lo: usize, hi: usize) -> (r: bool)
    requires
        lo <= hi <= v.len(),
    ensures
        r == mantissa_ok(v@.subrange(lo as int, hi as int)),
{
    let ghost m = v@.subrange(lo as int, hi as int);
    let d = find_char(v, lo, hi, '.');
    assert(char_pred('.') == dot_pred());
    if d == hi {
        return lo < hi && all_ascii_digits(v, lo, hi);
    }
    assert(m.take((d - lo) as int) =~= v@.subrange(lo as int, d as int));
    assert(m.skip((d - lo) + 1) =~= v@.subrange(d + 1, hi as int));
    all_ascii_digits(v, lo, d) && all_ascii_digits(v, d + 1, hi) && (d > lo || hi > d + 1)
}

fn exponent_exec(v: &Vec<char>, lo: usize, hi: usize) -> (r: bool)
    requires
        lo <= hi <= v.len(),
    ensures
        r == exponent_ok(v@.subrange(lo as int, hi as int)),
{
    let ghost x = v@.subrange(lo as int, hi as int);
    let start = if lo < hi && (v[lo] == '+' || v[lo] == '-') {
        lo + 1
    } else {
        lo
    };
    assert(start > lo ==> x.drop_first() =~= v@.subrange(start as int, hi as int));
    assert(start == lo ==> x =~= v@.subrange(start as int, hi as int));
    start < hi && all_ascii_digits(v, start, hi)
}

fn number_exec(v: &Vec<char>, lo: usize, hi: usize) -> (r: bool)
    requires
        lo <= hi <= v.len(),
    ensures
        r == number_ok(v@.subrange(lo as int, hi as int)),
{
    let ghost b = v@.subrange(lo as int, hi as int);
    let k = find_exp(v, lo, hi);
    assert(b.take((k - lo) as int) =~= v@.subrange(lo as int, k as int));
    if !mantissa_exec(v, lo, k) {
        return false;
    }
    if k == hi {
        return true;
    }
    assert(b.skip((k - lo) + 1) =~= v@.subrange(k + 1, hi as int));
    exponent_exec(v, k + 1, hi)
}

/// Whether `v[lo..hi]` matches the documented float literal grammar.
pub fn float_literal(v: &Vec<char>, lo: usize, hi: usize) -> (r: bool)
    requires
        lo <= hi <= v.len(),
    ensures
        r == is_float_literal(v@.subrange(lo as int, hi as int)),
{
    let ghost s = v@.subrange(lo as int, hi as int);
    let start = if lo < hi && (v[lo] == '+' || v[lo] == '-') {
        lo + 1
    } else {
        lo
    };
    assert(start > lo ==> s.drop_first() =~= v@.subrange(start as int, hi as int));
    assert(start == lo ==> s =~= v@.subrange(start as int, hi as int));
    assert(unsigned_body(s) == v@.subrange(start as int, hi as int));
    eq_ignore_case_exec(v, start, hi, "inf") || eq_ignore_case_exec(v, start, hi, "infinity")
        || eq_ignore_case_exec(v, start, hi, "nan") || number_exec(v, start, hi)
}

/// Whether the string matches the documented float literal grammar.
pub fn is_float_text(s: &str) -> (r: bool)
    ensures
        r == is_float_literal(s@),
{
    let v = chars_of(s);
    assert(v@.subrange(0, v@.len() as int) =~= s@);
    float_literal(&v, 0, v.len())
}

} // verus!
