//! Why the inline color control keeps a value's color stops exactly: the
//! text written back from a control state reads back as the same state, and
//! the hex forms a picked color is written in decode to that color.
use vstd::prelude::*;
use crate::lines::joined;
use crate::text::{
    all_digits, all_hex, decimal, digits_value, first_match, hex_digit_value, is_digit, is_hex, is_ws,
    lemma_first_match, lemma_first_match_at, lemma_trim_idempotent, runs, strip_prefix,
    strip_suffix, trim, trim_end, trim_start, ws_pred, ws_tokens,
};
use crate::value::color::functional_body;
use crate::value::number::unsigned_text_ok;
use crate::ux_presentation::swatch::{color_swatch, gradient_walk, u16_value};
use crate::ux_presentation::ParsedColor;
use crate::ui::window_text::{hex8_text, hex_byte_text, hex_digit_char, last_angle, row_state, state_text, stop_tokens};

verus! {

/// No character of `s` is whitespace.
pub open spec fn no_ws(s: Seq<char>) -> bool {
    forall|j: int| 0 <= j < s.len() ==> !is_ws(#[trigger] s[j])
}

/// A token of `str::split_whitespace`: non-empty, without whitespace.
pub open spec fn clean_token(s: Seq<char>) -> bool {
    s.len() > 0 && no_ws(s)
}

pub proof fn lemma_runs_single(x: Seq<char>)
    requires
        clean_token(x),
    ensures
        ws_tokens(x) == seq![x],
{
    lemma_first_match(x, ws_pred());
    lemma_first_match_at(x, ws_pred(), x.len() as int);
    assert(x.take(x.len() as int) =~= x);
    assert(x.skip(x.len() as int) =~= Seq::<char>::empty());
    assert(runs(x.skip(x.len() as int), ws_pred()) =~= Seq::<Seq<char>>::empty());
    assert(ws_tokens(x) =~= seq![x]);
}

/// Splitting at a whitespace character splits the tokens.
pub proof fn lemma_runs_split(x: Seq<char>, w: char, y: Seq<char>)
    requires
        is_ws(w),
    ensures
        ws_tokens(x + seq![w] + y) == ws_tokens(x) + ws_tokens(y),
    decreases x.len(),
{
    let s = x + seq![w] + y;
    let p = ws_pred();
    if x.len() == 0 {
        assert(s[0] == w);
        assert(s.drop_first() =~= y);
        assert(ws_tokens(x) =~= Seq::<Seq<char>>::empty());
        assert(ws_tokens(x) + ws_tokens(y) =~= ws_tokens(y));
    } else if is_ws(x[0]) {
        assert(s[0] == x[0]);
        assert(s.drop_first() =~= x.drop_first() + seq![w] + y);
        lemma_runs_split(x.drop_first(), w, y);
    } else {
        assert(s[0] == x[0]);
        lemma_first_match(x, p);
        let kx = first_match(x, p) as int;
        if kx < x.len() {
            assert forall|j: int| 0 <= j < kx implies !p(#[trigger] s[j]) by {
                assert(s[j] == x[j]);
            }
            assert(s[kx] == x[kx]);
            lemma_first_match_at(s, p, kx);
            assert(s.take(kx) =~= x.take(kx));
            assert(s.skip(kx) =~= x.skip(kx) + seq![w] + y);
            lemma_first_match(x, p);
            assert(kx > 0);
            lemma_runs_split(x.skip(kx), w, y);
            assert(ws_tokens(x) == seq![x.take(kx)] + ws_tokens(x.skip(kx)));
            assert(ws_tokens(s) == seq![s.take(kx)] + ws_tokens(s.skip(kx)));
            assert(ws_tokens(s) =~= ws_tokens(x) + ws_tokens(y));
        } else {
            let n = x.len() as int;
            assert forall|j: int| 0 <= j < n implies !p(#[trigger] s[j]) by {
                assert(s[j] == x[j]);
            }
            assert(s[n] == w);
            lemma_first_match_at(s, p, n);
            assert(s.take(n) =~= x);
            assert(s.skip(n) =~= seq![w] + y);
            let r = seq![w] + y;
            assert(r[0] == w);
            assert(r.drop_first() =~= y);
            assert(ws_tokens(r) == ws_tokens(y));
            assert(x.take(n) =~= x);
            assert(x.skip(n) =~= Seq::<char>::empty());
            assert(runs(x.skip(n), p) =~= Seq::<Seq<char>>::empty());
            assert(ws_tokens(x) =~= seq![x]);
            assert(ws_tokens(s) =~= ws_tokens(x) + ws_tokens(y));
        }
    }
}

/// Every token of `str::split_whitespace` is clean.
pub proof fn lemma_runs_clean(s: Seq<char>)
    ensures
        forall|k: int| 0 <= k < ws_tokens(s).len() ==> clean_token(#[trigger] ws_tokens(s)[k]),
    decreases s.len(),
{
    let p = ws_pred();
    if s.len() > 0 {
        if is_ws(s[0]) {
            lemma_runs_clean(s.drop_first());
            assert(ws_tokens(s) == ws_tokens(s.drop_first()));
        } else {
            lemma_first_match(s, p);
            let k = first_match(s, p) as int;
            lemma_runs_clean(s.skip(k));
            let head = s.take(k);
            assert(k > 0);
            assert forall|j: int| 0 <= j < head.len() implies !is_ws(#[trigger] head[j]) by {
                assert(head[j] == s[j]);
                assert(!p(s[j]));
            }
            assert forall|m: int| 0 <= m < ws_tokens(s).len() implies clean_token(
                #[trigger] ws_tokens(s)[m],
            ) by {
                if m > 0 {
                    assert(ws_tokens(s)[m] == ws_tokens(s.skip(k))[m - 1]);
                } else {
                    assert(ws_tokens(s)[0] == head);
                }
            }
        }
    }
}

/// A joined list of at least two parts is its first part, the separator
/// and the join of the rest.
pub proof fn lemma_joined_front(parts: Seq<Seq<char>>, sep: Seq<char>)
    requires
        parts.len() >= 2,
    ensures
        joined(parts, sep) == parts[0] + sep + joined(parts.drop_first(), sep),
    decreases parts.len(),
{
    if parts.len() == 2 {
        assert(parts.drop_last() =~= seq![parts[0]]);
        assert(parts.drop_first() =~= seq![parts[1]]);
        assert(joined(parts.drop_last(), sep) == parts[0]);
        assert(joined(parts.drop_first(), sep) == parts[1]);
        assert(joined(parts, sep) == joined(parts.drop_last(), sep) + sep + parts.last());
    } else {
        let prev = parts.drop_last();
        lemma_joined_front(prev, sep);
        assert(prev[0] == parts[0]);
        assert(prev.drop_first() =~= parts.drop_first().drop_last());
        assert(parts.drop_first().last() == parts.last());
        assert(joined(parts.drop_first(), sep) == joined(parts.drop_first().drop_last(), sep) + sep
            + parts.drop_first().last());
        assert(joined(parts, sep) == joined(prev, sep) + sep + parts.last());
        assert(joined(parts, sep) =~= parts[0] + sep + joined(parts.drop_first(), sep));
    }
}

/// Clean tokens joined by single spaces split back into the same tokens.
pub proof fn lemma_tokens_of_joined(toks: Seq<Seq<char>>)
    requires
        forall|k: int| 0 <= k < toks.len() ==> clean_token(#[trigger] toks[k]),
    ensures
        ws_tokens(joined(toks, " "@)) == toks,
    decreases toks.len(),
{
    reveal_strlit(" ");
    if toks.len() == 0 {
        assert(ws_tokens(Seq::<char>::empty()) =~= Seq::<Seq<char>>::empty());
    } else if toks.len() == 1 {
        assert(clean_token(toks[0]));
        lemma_runs_single(toks[0]);
        assert(toks =~= seq![toks[0]]);
    } else {
        lemma_joined_front(toks, " "@);
        let rest = toks.drop_first();
        assert forall|k: int| 0 <= k < rest.len() implies clean_token(#[trigger] rest[k]) by {
            assert(rest[k] == toks[k + 1]);
        }
        lemma_tokens_of_joined(rest);
        assert(clean_token(toks[0]));
        lemma_runs_single(toks[0]);
        assert(" "@ =~= seq![' ']);
        assert(is_ws(' '));
        lemma_runs_split(toks[0], ' ', joined(rest, " "@));
        assert(toks[0] + " "@ + joined(rest, " "@) =~= toks[0] + seq![' '] + joined(rest, " "@));
        assert(toks =~= seq![toks[0]] + rest);
    }
}

/// Text that starts and ends with non-whitespace is its own trim.
pub proof fn lemma_trim_clean_ends(s: Seq<char>)
    requires
        s.len() > 0,
        !is_ws(s[0]),
        !is_ws(s.last()),
    ensures
        trim(s) == s,
{
    assert(trim_start(s) == s);
    assert(trim_end(s) == s);
}

/// Text without whitespace is its own trim.
pub proof fn lemma_trim_no_ws(s: Seq<char>)
    requires
        no_ws(s),
    ensures
        trim(s) == s,
{
    assert(trim_start(s) == s);
    assert(trim_end(s) == s);
}

/// A color token without whitespace is at least ten characters long and
/// does not end in `deg`.
pub proof fn lemma_clean_color(c: Seq<char>)
    requires
        clean_token(c),
        color_swatch(c) is Some,
    ensures
        c.len() >= 10,
        strip_suffix(c, "deg"@) is None,
{
    reveal_strlit("deg");
    reveal_strlit("rgba(");
    reveal_strlit("rgb(");
    reveal_strlit("0x");
    reveal_strlit(")");
    lemma_trim_no_ws(c);
    let n = c.len() as int;
    if strip_suffix(c, "deg"@) is Some {
        assert(c.subrange(n - 3, n)[2] == 'g');
        assert(c[n - 1] == 'g');
    }
    if let Some(b) = functional_body(c, "rgba("@) {
        let rest = c.subrange(5, n);
        assert(strip_prefix(c, "rgba("@) == Some(rest));
        assert(rest.subrange(rest.len() - 1, rest.len() as int)[0] == ')');
        assert(c[n - 1] == ')');
        assert(b =~= c.subrange(5, n - 1));
        assert forall|j: int| 0 <= j < b.len() implies !is_ws(#[trigger] b[j]) by {
            assert(b[j] == c[j + 5]);
        }
        lemma_trim_no_ws(b);
    } else if let Some(b) = functional_body(c, "rgb("@) {
        let rest = c.subrange(4, n);
        assert(strip_prefix(c, "rgb("@) == Some(rest));
        assert(rest.subrange(rest.len() - 1, rest.len() as int)[0] == ')');
        assert(c[n - 1] == ')');
        assert(b =~= c.subrange(4, n - 1));
        assert forall|j: int| 0 <= j < b.len() implies !is_ws(#[trigger] b[j]) by {
            assert(b[j] == c[j + 4]);
        }
        lemma_trim_no_ws(b);
    } else {
        let inner = c.subrange(2, n);
        assert(strip_prefix(c, "0x"@) == Some(inner));
        assert(inner[inner.len() - 1] == c[n - 1]);
        assert(is_hex(c[n - 1]));
    }
}

/// The decimal text of `n` is a non-empty run of ASCII digits whose value
/// is `n`.
pub proof fn lemma_decimal(n: nat)
    ensures
        decimal(n).len() > 0,
        all_digits(decimal(n)),
        digits_value(decimal(n)) == n,
    decreases n,
{
    let d = decimal(n);
    if n < 10 {
        assert(d.drop_last() =~= Seq::<char>::empty());
        assert(digits_value(d.drop_last()) == 0);
        assert(is_digit(d[0]));
    } else {
        lemma_decimal(n / 10);
        assert(d.drop_last() =~= decimal(n / 10));
        assert(d.last() == ((n % 10) + 48) as char);
        assert(10 * (n / 10) + n % 10 == n);
        assert forall|j: int| 0 <= j < d.len() implies #[trigger] is_digit(d[j]) by {
            if j < d.len() - 1 {
                assert(d[j] == decimal(n / 10)[j]);
            }
        }
    }
}

/// The angle token written for `a`.
pub open spec fn angle_text(a: u16) -> Seq<char> {
    decimal(a as nat) + "deg"@
}

/// A final gradient token that is an angle and not a color.
pub open spec fn angle_token(t: Seq<char>) -> bool {
    &&& color_swatch(t) is None
    &&& strip_suffix(t, "deg"@) matches Some(v) && unsigned_text_ok(v, 65535)
}

/// The angle token written for `a` is clean, is an angle token and reads
/// back as `a`.
pub proof fn lemma_angle_text(a: u16)
    ensures
        clean_token(angle_text(a)),
        angle_text(a).len() >= 4,
        angle_token(angle_text(a)),
        strip_suffix(angle_text(a), "deg"@) == Some(decimal(a as nat)),
        u16_value(decimal(a as nat)) == a,
{
    reveal_strlit("deg");
    reveal_strlit("rgba(");
    reveal_strlit("rgb(");
    reveal_strlit("0x");
    lemma_decimal(a as nat);
    let d = decimal(a as nat);
    let t = angle_text(a);
    assert(is_digit(d[0]));
    assert forall|j: int| 0 <= j < t.len() implies !is_ws(#[trigger] t[j]) by {
        if j < d.len() {
            assert(t[j] == d[j]);
            assert(is_digit(d[j]));
        }
    }
    assert(t.subrange(t.len() - 3, t.len() as int) =~= "deg"@);
    assert(t.subrange(0, t.len() - 3) =~= d);
    lemma_trim_no_ws(t);
    assert(t[0] == d[0]);
    assert(t[1] == 'd' || is_digit(t[1])) by {
        if d.len() > 1 {
            assert(t[1] == d[1]);
            assert(is_digit(d[1]));
        }
    }
    assert(strip_prefix(t, "rgba("@) is None) by {
        if strip_prefix(t, "rgba("@) is Some {
            assert(t.subrange(0, 5)[0] == t[0]);
        }
    }
    assert(strip_prefix(t, "rgb("@) is None) by {
        if strip_prefix(t, "rgb("@) is Some {
            assert(t.subrange(0, 4)[0] == t[0]);
        }
    }
    assert(strip_prefix(t, "0x"@) is None) by {
        if strip_prefix(t, "0x"@) is Some {
            assert(t.subrange(0, 2)[1] == t[1]);
        }
    }
}

/// Whether every token of `toks[lo..hi]` is a color.
pub open spec fn all_colors(toks: Seq<Seq<char>>, lo: int, hi: int) -> bool {
    forall|j: int| lo <= j < hi ==> (#[trigger] color_swatch(toks[j])) is Some
}

/// The shape the gradient walk accepts from token `i` on, with `k` colors
/// already read: only colors, or colors and a final angle; two colors at
/// least.
pub open spec fn walk_shape(toks: Seq<Seq<char>>, i: int, k: int) -> bool {
    let n = toks.len() as int;
    ||| all_colors(toks, i, n) && k + (n - i) >= 2
    ||| i < n && all_colors(toks, i, n - 1) && angle_token(toks[n - 1]) && k + (n - 1 - i) >= 2
}

/// The gradient walk succeeds exactly on its shape.
pub proof fn lemma_walk(toks: Seq<Seq<char>>, i: int, colors: Seq<ParsedColor>)
    requires
        0 <= i <= toks.len(),
    ensures
        (gradient_walk(toks, i, colors, None) is Some) <==> walk_shape(
            toks,
            i,
            colors.len() as int,
        ),
    decreases toks.len() - i,
{
    let n = toks.len() as int;
    if i < n {
        if let Some(c) = color_swatch(toks[i]) {
            lemma_walk(toks, i + 1, colors.push(c));
            if walk_shape(toks, i + 1, colors.len() + 1int) {
                assert(walk_shape(toks, i, colors.len() as int));
            }
            if walk_shape(toks, i, colors.len() as int) {
                if all_colors(toks, i, n) && colors.len() + (n - i) >= 2 {
                    assert(all_colors(toks, i + 1, n));
                } else {
                    assert(i + 1 < n);
                    assert(all_colors(toks, i + 1, n - 1));
                }
            }
        } else {
            if all_colors(toks, i, n) {
                assert(color_swatch(toks[i]) is Some);
            }
            if i < n - 1 && all_colors(toks, i, n - 1) {
                assert(color_swatch(toks[i]) is Some);
            }
            if let Some(v) = strip_suffix(toks[i], "deg"@) {
                if i == n - 1 && unsigned_text_ok(v, 65535) {
                    assert(angle_token(toks[n - 1]));
                    assert(all_colors(toks, i, n - 1));
                    assert(gradient_walk(toks, i, colors, None) == gradient_walk(
                        toks,
                        i + 1,
                        colors,
                        Some(u16_value(v)),
                    ));
                } else if i == n - 1 {
                    assert(!angle_token(toks[n - 1]));
                }
            } else {
                assert(!angle_token(toks[i]));
            }
        }
    } else {
        assert(all_colors(toks, i, n));
    }
}

/// Color tokens are all stops, and give no angle.
pub proof fn lemma_stops_of_colors(toks: Seq<Seq<char>>)
    requires
        forall|k: int| 0 <= k < toks.len() ==> clean_token(#[trigger] toks[k]),
        all_colors(toks, 0, toks.len() as int),
    ensures
        stop_tokens(toks) == toks,
        last_angle(toks) is None,
    decreases toks.len(),
{
    if toks.len() > 0 {
        let n = toks.len() as int;
        let front = toks.drop_last();
        assert(clean_token(toks[n - 1]));
        assert(color_swatch(toks[n - 1]) is Some);
        lemma_clean_color(toks.last());
        assert forall|k: int| 0 <= k < front.len() implies clean_token(#[trigger] front[k]) by {
            assert(front[k] == toks[k]);
        }
        assert forall|j: int| 0 <= j < front.len() implies (#[trigger] color_swatch(
            front[j],
        )) is Some by {
            assert(front[j] == toks[j]);
        }
        lemma_stops_of_colors(front);
        assert(front.push(toks.last()) =~= toks);
    }
}

/// A join of clean parts by single spaces: it starts with the first part
/// and a space, and ends with the last part.
pub proof fn lemma_joined_ends(parts: Seq<Seq<char>>)
    requires
        parts.len() >= 2,
    ensures
        ({
            let u = joined(parts, " "@);
            let p = parts[0].len() as int;
            let q = parts.last().len() as int;
            &&& u.len() >= p + 1 + q
            &&& u.subrange(0, p) == parts[0]
            &&& u[p] == ' '
            &&& u.subrange(u.len() - q, u.len() as int) == parts.last()
        }),
{
    reveal_strlit(" ");
    let u = joined(parts, " "@);
    let p = parts[0].len() as int;
    lemma_joined_front(parts, " "@);
    let front = parts.drop_last();
    if front.len() >= 2 {
        lemma_joined_front(front, " "@);
        assert(front[0] == parts[0]);
    } else {
        assert(joined(front, " "@) == front[0]);
    }
    assert(u == joined(front, " "@) + " "@ + parts.last());
    assert(u.subrange(0, p) =~= parts[0]);
    assert(u[p] == (parts[0] + " "@ + joined(parts.drop_first(), " "@))[p]);
    assert(u.subrange(u.len() - parts.last().len(), u.len() as int) =~= parts.last());
}

/// Two or more clean tokens joined by spaces, the first a color and the
/// last at least two characters long, are not themselves a color, and are
/// their own trim.
pub proof fn lemma_joined_not_color(parts: Seq<Seq<char>>)
    requires
        parts.len() >= 2,
        forall|k: int| 0 <= k < parts.len() ==> clean_token(#[trigger] parts[k]),
        color_swatch(parts[0]) is Some,
        parts.last().len() >= 2,
    ensures
        trim(joined(parts, " "@)) == joined(parts, " "@),
        color_swatch(joined(parts, " "@)) is None,
{
    reveal_strlit("rgba(");
    reveal_strlit("rgb(");
    reveal_strlit("0x");
    reveal_strlit(")");
    let u = joined(parts, " "@);
    let n = u.len() as int;
    let first = parts[0];
    let last = parts.last();
    let p = first.len() as int;
    let q = last.len() as int;
    assert(clean_token(first));
    assert(clean_token(parts[parts.len() - 1]));
    lemma_clean_color(first);
    lemma_joined_ends(parts);
    assert forall|j: int| 0 <= j < p implies u[j] == first[j] by {
        assert(u.subrange(0, p)[j] == u[j]);
    }
    assert forall|j: int| n - q <= j < n implies u[j] == last[j - (n - q)] by {
        assert(u.subrange(n - q, n)[j - (n - q)] == u[j]);
    }
    assert(!is_ws(u[0]));
    assert(!is_ws(u[n - 1]));
    assert(!is_ws(u[n - 2]));
    lemma_trim_clean_ends(u);
    assert(!is_hex(' '));
    if let Some(b) = functional_body(u, "rgba("@) {
        assert(b =~= u.subrange(5, n - 1));
        assert(b[0] == u[5]);
        assert(b[b.len() - 1] == u[n - 2]);
        lemma_trim_clean_ends(b);
        assert(b[p - 5] == ' ');
    } else if let Some(b) = functional_body(u, "rgb("@) {
        assert(b =~= u.subrange(4, n - 1));
        assert(b[0] == u[4]);
        assert(b[b.len() - 1] == u[n - 2]);
        lemma_trim_clean_ends(b);
        assert(b[p - 4] == ' ');
    } else if let Some(inner) = strip_prefix(u, "0x"@) {
        assert(inner[p - 2] == ' ');
    }
}

/// The value text written from a color control state reads back as the
/// same state: a single color stays one stop, and a gradient keeps its
/// color stops, in order, and its angle.
pub proof fn law_color_state_round_trip(raw: Seq<char>)
    requires
        row_state(raw) is Some,
    ensures
        ({
            let st = row_state(raw)->0;
            row_state(state_text(st.0, st.1)) == row_state(raw)
        }),
{
    reveal_strlit(" ");
    reveal_strlit("deg");
    let t = trim(raw);
    lemma_trim_idempotent(raw);
    if color_swatch(t) is Some {
        assert(seq![t] + Seq::<Seq<char>>::empty() =~= seq![t]);
        assert(state_text(seq![t], None) == t);
    } else {
        let toks = ws_tokens(t);
        let n = toks.len() as int;
        lemma_runs_clean(t);
        lemma_walk(toks, 0, Seq::<ParsedColor>::empty());
        if all_colors(toks, 0, n) && n >= 2 {
            lemma_stops_of_colors(toks);
            assert(toks + Seq::<Seq<char>>::empty() =~= toks);
            let u = joined(toks, " "@);
            assert(state_text(toks, None) == u);
            lemma_tokens_of_joined(toks);
            assert(color_swatch(toks[n - 1]) is Some);
            assert(clean_token(toks[n - 1]));
            lemma_clean_color(toks[n - 1]);
            assert(color_swatch(toks[0]) is Some);
            lemma_joined_not_color(toks);
        } else {
            assert(all_colors(toks, 0, n - 1) && angle_token(toks[n - 1]) && n - 1 >= 2);
            let cs = toks.drop_last();
            let v = strip_suffix(toks[n - 1], "deg"@)->0;
            let a = u16_value(v);
            assert forall|k: int| 0 <= k < cs.len() implies clean_token(#[trigger] cs[k]) by {
                assert(cs[k] == toks[k]);
            }
            assert forall|j: int| 0 <= j < cs.len() implies (#[trigger] color_swatch(
                cs[j],
            )) is Some by {
                assert(cs[j] == toks[j]);
                assert(color_swatch(toks[j]) is Some);
            }
            lemma_stops_of_colors(cs);
            assert(stop_tokens(toks) == cs);
            assert(last_angle(toks) == Some(a));
            let at = angle_text(a);
            lemma_angle_text(a);
            let nt = cs.push(at);
            assert(cs + seq![decimal(a as nat) + "deg"@] =~= nt);
            assert(state_text(cs, Some(a)) == joined(nt, " "@));
            assert forall|k: int| 0 <= k < nt.len() implies clean_token(#[trigger] nt[k]) by {
                if k < cs.len() {
                    assert(nt[k] == cs[k]);
                }
            }
            lemma_tokens_of_joined(nt);
            assert(nt[0] == cs[0]);
            assert(color_swatch(cs[0]) is Some);
            lemma_joined_not_color(nt);
            lemma_walk(nt, 0, Seq::<ParsedColor>::empty());
            assert(all_colors(nt, 0, n - 1)) by {
                assert forall|j: int| 0 <= j < n - 1 implies (#[trigger] color_swatch(
                    nt[j],
                )) is Some by {
                    assert(nt[j] == cs[j]);
                    assert(color_swatch(cs[j]) is Some);
                }
            }
            assert(nt[n - 1] == at);
            assert(walk_shape(nt, 0, 0));
            assert(nt.drop_last() =~= cs);
            assert(stop_tokens(nt) == cs);
            assert(last_angle(nt) == Some(a));
        }
    }
}


/// The two digits `{:02x}` writes for a byte are hex digits that read back
/// as the byte.
pub proof fn lemma_hex_byte_text(b: u8)
    ensures
        hex_byte_text(b).len() == 2,
        is_hex(hex_byte_text(b)[0]) && is_hex(hex_byte_text(b)[1]),
        !is_ws(hex_byte_text(b)[0]) && !is_ws(hex_byte_text(b)[1]),
        (hex_digit_value(hex_byte_text(b)[0]) * 16 + hex_digit_value(hex_byte_text(b)[1])) as u8
            == b,
{
    let hi = (b / 16) as nat;
    let lo = (b % 16) as nat;
    assert(hi < 16 && lo < 16);
    assert(hex_digit_value(hex_digit_char(hi)) == hi);
    assert(hex_digit_value(hex_digit_char(lo)) == lo);
    assert(hi * 16 + lo == b);
}

/// The color parser reads back each hex form a color is printed in.
/// `parse_hyprland_color` gives `color_swatch` of its text, so: the token
/// `rgba_token` writes, `rgba(RRGGBBAA)`, and `0xAARRGGBB` parse as the
/// color itself, and `rgb(RRGGBB)` parses as the color with alpha 255
/// (each `RR`, `GG`, `BB`, `AA` being the two lowercase digits `{:02x}`
/// writes for that channel).
pub proof fn law_hex_colors_round_trip(c: ParsedColor)
    ensures
        color_swatch("rgba("@ + hex8_text(c) + ")"@) == Some(c),
        color_swatch(
            "0x"@ + hex_byte_text(c.alpha) + hex_byte_text(c.red) + hex_byte_text(c.green)
                + hex_byte_text(c.blue),
        ) == Some(c),
        color_swatch(
            "rgb("@ + hex_byte_text(c.red) + hex_byte_text(c.green) + hex_byte_text(c.blue) + ")"@,
        ) == Some(ParsedColor { alpha: 255, ..c }),
{
    reveal_strlit("rgba(");
    reveal_strlit("rgb(");
    reveal_strlit("0x");
    reveal_strlit(")");
    lemma_hex_byte_text(c.red);
    lemma_hex_byte_text(c.green);
    lemma_hex_byte_text(c.blue);
    lemma_hex_byte_text(c.alpha);
    let r = hex_byte_text(c.red);
    let g = hex_byte_text(c.green);
    let b = hex_byte_text(c.blue);
    let a = hex_byte_text(c.alpha);
    // rgba(RRGGBBAA)
    let h = hex8_text(c);
    assert(h =~= seq![r[0], r[1], g[0], g[1], b[0], b[1], a[0], a[1]]);
    let t = "rgba("@ + h + ")"@;
    assert(t[0] == 'r' && t[t.len() - 1] == ')');
    lemma_trim_clean_ends(t);
    assert(t.subrange(0, 5) =~= "rgba("@);
    let rest = t.subrange(5, t.len() as int);
    assert(rest.subrange(rest.len() - 1, rest.len() as int) =~= ")"@);
    assert(rest.subrange(0, rest.len() - 1) =~= h);
    assert(functional_body(t, "rgba("@) == Some(h));
    lemma_trim_clean_ends(h);
    assert(all_hex(h));
    // 0xAARRGGBB
    let h2 = a + r + g + b;
    assert(h2 =~= seq![a[0], a[1], r[0], r[1], g[0], g[1], b[0], b[1]]);
    let t2 = "0x"@ + h2;
    assert(t2[0] == '0' && t2[t2.len() - 1] == b[1]);
    lemma_trim_clean_ends(t2);
    assert(strip_prefix(t2, "rgba("@) is None) by {
        if strip_prefix(t2, "rgba("@) is Some {
            assert(t2.subrange(0, 5)[0] == t2[0]);
        }
    }
    assert(strip_prefix(t2, "rgb("@) is None) by {
        if strip_prefix(t2, "rgb("@) is Some {
            assert(t2.subrange(0, 4)[0] == t2[0]);
        }
    }
    assert(t2.subrange(0, 2) =~= "0x"@);
    assert(strip_prefix(t2, "0x"@) == Some(h2)) by {
        assert(t2.subrange(2, t2.len() as int) =~= h2);
    }
    assert(all_hex(h2));
    assert("0x"@ + a + r + g + b =~= t2);
    // rgb(RRGGBB)
    let h3 = r + g + b;
    assert(h3 =~= seq![r[0], r[1], g[0], g[1], b[0], b[1]]);
    let t3 = "rgb("@ + h3 + ")"@;
    assert(t3[0] == 'r' && t3[t3.len() - 1] == ')');
    lemma_trim_clean_ends(t3);
    assert(strip_prefix(t3, "rgba("@) is None) by {
        if strip_prefix(t3, "rgba("@) is Some {
            assert(t3.subrange(0, 5)[3] == t3[3]);
        }
    }
    assert(t3.subrange(0, 4) =~= "rgb("@);
    let rest3 = t3.subrange(4, t3.len() as int);
    assert(rest3.subrange(rest3.len() - 1, rest3.len() as int) =~= ")"@);
    assert(rest3.subrange(0, rest3.len() - 1) =~= h3);
    assert(functional_body(t3, "rgb("@) == Some(h3));
    lemma_trim_clean_ends(h3);
    assert(all_hex(h3));
    assert("rgb("@ + r + g + b + ")"@ =~= t3);
}

} // verus!
