//! Two-number vectors, written `x y` or `x,y`. The text is checked here;
//! whether a component's number is finite is answered by the caller for
//! each component that reads as a float.
use vstd::prelude::*;
use crate::text::{
    chars_of, has_char, range_views, ranges_within, split_char, split_on_char, split_ws,
    string_from, trim, trim_range, ws_tokens,
};
use crate::value::color::{callable, describes};
use crate::value::number::{float_literal, is_float_literal};

verus! {

/// How the two components were separated.
#[derive(Debug, Clone, Copy, PartialEq, Eq, Structural)]
pub enum Vec2Separator {
    Space,
    Comma,
}

/// Why a vector was refused.
#[derive(Debug, Clone, Copy, PartialEq, Eq, Structural)]
pub enum Vec2Error {
    Empty,
    MultipleLines,
    CommaCount,
    NotTwoNumbers,
    ComponentEmpty,
    ComponentNotNumeric,
    ComponentNotFinite,
}

/// How many times `c` occurs in `s`.
pub open spec fn count_char(s: Seq<char>, c: char) -> nat
    decreases s.len(),
{
    if s.len() == 0 {
        0
    } else {
        count_char(s.drop_last(), c) + if s.last() == c {
            1nat
        } else {
            0nat
        }
    }
}

/// One component: non-empty, a float literal, and finite as `finite`
/// decides.
pub open spec fn component_check(p: Seq<char>, finite: spec_fn(Seq<char>) -> bool) -> Result<
    (),
    Vec2Error,
> {
    if p.len() == 0 {
        Err(Vec2Error::ComponentEmpty)
    } else if !is_float_literal(p) {
        Err(Vec2Error::ComponentNotNumeric)
    } else if !finite(p) {
        Err(Vec2Error::ComponentNotFinite)
    } else {
        Ok(())
    }
}

/// Exactly two components, each accepted.
pub open spec fn parts_check(
    parts: Seq<Seq<char>>,
    sep: Vec2Separator,
    finite: spec_fn(Seq<char>) -> bool,
) -> Result<(Seq<char>, Seq<char>, Vec2Separator), Vec2Error> {
    if parts.len() != 2 {
        Err(Vec2Error::NotTwoNumbers)
    } else if let Err(e) = component_check(parts[0], finite) {
        Err(e)
    } else if let Err(e) = component_check(parts[1], finite) {
        Err(e)
    } else {
        Ok((parts[0], parts[1], sep))
    }
}

/// What a vector parse decides for `raw`: the two component texts and the
/// separator on success.
pub open spec fn vec2_parse(raw: Seq<char>, finite: spec_fn(Seq<char>) -> bool) -> Result<
    (Seq<char>, Seq<char>, Vec2Separator),
    Vec2Error,
> {
    let t = trim(raw);
    if t.len() == 0 {
        Err(Vec2Error::Empty)
    } else if t.contains('\n') || t.contains('\r') {
        Err(Vec2Error::MultipleLines)
    } else if count_char(t, ',') == 1 {
        parts_check(
            split_char(t, ',').map_values(|p: Seq<char>| trim(p)),
            Vec2Separator::Comma,
            finite,
        )
    } else if t.contains(',') {
        Err(Vec2Error::CommaCount)
    } else {
        parts_check(ws_tokens(t), Vec2Separator::Space, finite)
    }
}

/// An accepted vector: its two component texts and how they were separated.
#[derive(Debug, Clone, PartialEq, Eq)]
pub struct Vec2Text {
    pub x: String,
    pub y: String,
    pub separator: Vec2Separator,
}

pub open spec fn vec2_result_view(r: Result<Vec2Text, Vec2Error>) -> Result<
    (Seq<char>, Seq<char>, Vec2Separator),
    Vec2Error,
> {
    match r {
        Ok(v) => Ok((v.x@, v.y@, v.separator)),
        Err(e) => Err(e),
    }
}

fn count_commas(v: &Vec<char>, lo: usize, hi: usize) -> (r: usize)
    requires
        lo <= hi <= v.len(),
    ensures
        r == count_char(v@.subrange(lo as int, hi as int), ','),
{
    let mut n: usize = 0;
    let mut i = lo;
    while i < hi
        invariant
            lo <= i <= hi <= v.len(),
            n == count_char(v@.subrange(lo as int, i as int), ','),
            n <= i - lo,
        decreases hi - i,
    {
        assert(v@.subrange(lo as int, i + 1).drop_last() =~= v@.subrange(lo as int, i as int));
        if v[i] == ',' {
            n = n + 1;
        }
        i = i + 1;
    }
    n
}

fn check_component<F: Fn(&str) -> bool>(v: &Vec<char>, lo: usize, hi: usize, finite: &F) -> (r:
    Result<String, Vec2Error>)
    requires
        lo <= hi <= v.len(),
        callable(*finite),
    ensures
        forall|fin: spec_fn(Seq<char>) -> bool| #[trigger]
            describes(*finite, fin) ==> match r {
                Ok(s) => component_check(v@.subrange(lo as int, hi as int), fin) is Ok && s@
                    == v@.subrange(lo as int, hi as int),
                Err(e) => component_check(v@.subrange(lo as int, hi as int), fin) == Err::<(), Vec2Error>(e),
            },
{
    if lo == hi {
        return Err(Vec2Error::ComponentEmpty);
    }
    if !float_literal(v, lo, hi) {
        return Err(Vec2Error::ComponentNotNumeric);
    }
    let text = string_from(v, lo, hi);
    if !finite(text.as_str()) {
        return Err(Vec2Error::ComponentNotFinite);
    }
    Ok(text)
}

fn check_parts<F: Fn(&str) -> bool>(
    v: &Vec<char>,
    parts: &Vec<(usize, usize)>,
    sep: Vec2Separator,
    finite: &F,
) -> (r: Result<Vec2Text, Vec2Error>)
    requires
        ranges_within(parts@, 0, v.len() as int),
        callable(*finite),
    ensures
        forall|fin: spec_fn(Seq<char>) -> bool| #[trigger]
            describes(*finite, fin) ==> vec2_result_view(r) == parts_check(
                range_views(v@, parts@),
                sep,
                fin,
            ),
{
    if parts.len() != 2 {
        return Err(Vec2Error::NotTwoNumbers);
    }
    let (x0, x1) = parts[0];
    let (y0, y1) = parts[1];
    assert(range_views(v@, parts@)[0] == v@.subrange(x0 as int, x1 as int));
    assert(range_views(v@, parts@)[1] == v@.subrange(y0 as int, y1 as int));
    let x = match check_component(v, x0, x1, finite) {
        Ok(s) => s,
        Err(e) => return Err(e),
    };
    let y = match check_component(v, y0, y1, finite) {
        Ok(s) => s,
        Err(e) => return Err(e),
    };
    Ok(Vec2Text { x, y, separator: sep })
}

impl Vec2Text {
    /// Parses a vector. `finite` answers, for a component that is a float
    /// literal, whether its `f64` value is finite.
    pub fn parse<F: Fn(&str) -> bool>(raw: &str, finite: &F) -> (r: Result<Vec2Text, Vec2Error>)
        requires
            callable(*finite),
        ensures
            forall|fin: spec_fn(Seq<char>) -> bool| #[trigger]
                describes(*finite, fin) ==> vec2_result_view(r) == vec2_parse(raw@, fin),
    {
        let v = chars_of(raw);
        assert(v@.subrange(0, v@.len() as int) =~= raw@);
        let (a, b) = trim_range(&v, 0, v.len());
        let ghost t = v@.subrange(a as int, b as int);
        assert(trim(raw@) == t);
        if a == b {
            return Err(Vec2Error::Empty);
        }
        if has_char(&v, a, b, '\n') || has_char(&v, a, b, '\r') {
            return Err(Vec2Error::MultipleLines);
        }
        if count_commas(&v, a, b) == 1 {
            let pieces = split_on_char(&v, a, b, ',');
            let mut parts: Vec<(usize, usize)> = Vec::new();
            let mut i: usize = 0;
            while i < pieces.len()
                invariant
                    i <= pieces@.len(),
                    b <= v.len(),
                    ranges_within(pieces@, a as int, b as int),
                    ranges_within(parts@, 0, v.len() as int),
                    range_views(v@, parts@) == range_views(v@, pieces@).take(i as int).map_values(
                        |p: Seq<char>| trim(p),
                    ),
                decreases pieces@.len() - i,
            {
                let (x, y) = pieces[i];
                let (c, d) = trim_range(&v, x, y);
                let ghost before = parts@;
                parts.push((c, d));
                assert(range_views(v@, parts@) =~= range_views(v@, before).push(
                    v@.subrange(c as int, d as int),
                ));
                assert(range_views(v@, pieces@).take(i + 1).map_values(|p: Seq<char>| trim(p))
                    =~= range_views(v@, pieces@).take(i as int).map_values(|p: Seq<char>| trim(p)).push(
                    trim(v@.subrange(x as int, y as int)),
                ));
                i = i + 1;
            }
            assert(range_views(v@, pieces@).take(i as int) =~= range_views(v@, pieces@));
            return check_parts(&v, &parts, Vec2Separator::Comma, finite);
        }
        if has_char(&v, a, b, ',') {
            return Err(Vec2Error::CommaCount);
        }
        let toks = split_ws(&v, a, b);
        check_parts(&v, &toks, Vec2Separator::Space, finite)
    }
}

/// The message shown for each refusal.
pub open spec fn vec2_error_message(e: Vec2Error) -> Seq<char> {
    match e {
        Vec2Error::Empty => "vector value cannot be empty"@,
        Vec2Error::MultipleLines => "vector value cannot span multiple lines"@,
        Vec2Error::CommaCount => "vector value must contain exactly one comma"@,
        Vec2Error::NotTwoNumbers => "vector value must contain exactly two numbers"@,
        Vec2Error::ComponentEmpty => "vector component cannot be empty"@,
        Vec2Error::ComponentNotNumeric => "vector component must be numeric"@,
        Vec2Error::ComponentNotFinite => "vector component must be finite"@,
    }
}

impl Vec2Error {
    pub fn message(&self) -> (r: String)
        ensures
            r@ == vec2_error_message(*self),
    {
        match *self {
            Vec2Error::Empty => "vector value cannot be empty".to_owned(),
            Vec2Error::MultipleLines => "vector value cannot span multiple lines".to_owned(),
            Vec2Error::CommaCount => "vector value must contain exactly one comma".to_owned(),
            Vec2Error::NotTwoNumbers => "vector value must contain exactly two numbers".to_owned(),
            Vec2Error::ComponentEmpty => "vector component cannot be empty".to_owned(),
            Vec2Error::ComponentNotNumeric => "vector component must be numeric".to_owned(),
            Vec2Error::ComponentNotFinite => "vector component must be finite".to_owned(),
        }
    }
}


/// Law: a vector parses the same with or without the whitespace around
/// it, so its trimmed text parses to the same components and separator.
pub proof fn law_vec2_reparse(raw: Seq<char>, finite: spec_fn(Seq<char>) -> bool)
    requires
        vec2_parse(raw, finite) is Ok,
    ensures
        vec2_parse(trim(raw), finite) == vec2_parse(raw, finite),
{
    crate::text::lemma_trim_idempotent(raw);
}

} // verus!
