//! Colors and gradients decoded for swatches and preview strips. The raw
//! config text stays the value that is validated and saved; anything not
//! recognised here simply gets no swatch.
use vstd::prelude::*;
use crate::text::{
    all_hex, chars_of, hex_digit_value, is_hex, range_views, ranges_within, split_ws,
    strip_prefix, strip_suffix, trim, trim_range, ws_tokens, digits_value, all_ascii_hex,
    ends_with_exec, starts_with_exec,
};
use crate::value::color::functional_body;
use crate::value::number::{digits_value_capped, unsigned_text, unsigned_text_ok};

verus! {

/// A decoded color, one byte per channel.
#[derive(Debug, Clone, Copy, PartialEq, Eq, Structural)]
pub struct ParsedColor {
    pub red: u8,
    pub green: u8,
    pub blue: u8,
    pub alpha: u8,
}

/// The byte written by the two hex digits at `s[i]`, `s[i + 1]`.
pub open spec fn hex_pair(s: Seq<char>, i: int) -> u8 {
    (hex_digit_value(s[i]) * 16 + hex_digit_value(s[i + 1])) as u8
}

/// `rgba(RRGGBBAA)`, `rgb(RRGGBB)` and `0xAARRGGBB`, decoded.
pub open spec fn color_swatch(raw: Seq<char>) -> Option<ParsedColor> {
    let t = trim(raw);
    if let Some(b) = functional_body(t, "rgba("@) {
        let inner = trim(b);
        if inner.len() == 8 && all_hex(inner) {
            Some(
                ParsedColor {
                    red: hex_pair(inner, 0),
                    green: hex_pair(inner, 2),
                    blue: hex_pair(inner, 4),
                    alpha: hex_pair(inner, 6),
                },
            )
        } else {
            None
        }
    } else if let Some(b) = functional_body(t, "rgb("@) {
        let inner = trim(b);
        if inner.len() == 6 && all_hex(inner) {
            Some(
                ParsedColor {
                    red: hex_pair(inner, 0),
                    green: hex_pair(inner, 2),
                    blue: hex_pair(inner, 4),
                    alpha: 0xff,
                },
            )
        } else {
            None
        }
    } else if let Some(inner) = strip_prefix(t, "0x"@) {
        if inner.len() == 8 && all_hex(inner) {
            Some(
                ParsedColor {
                    alpha: hex_pair(inner, 0),
                    red: hex_pair(inner, 2),
                    green: hex_pair(inner, 4),
                    blue: hex_pair(inner, 6),
                },
            )
        } else {
            None
        }
    } else {
        None
    }
}

/// The value `u16::from_str` gives for text it accepts.
pub open spec fn u16_value(v: Seq<char>) -> u16 {
    let d = if v.len() > 0 && v[0] == '+' {
        v.drop_first()
    } else {
        v
    };
    digits_value(d) as u16
}

/// The token walk of a gradient: colors first, then at most one final
/// `<u16>deg` angle; at least two colors.
pub open spec fn gradient_walk(
    toks: Seq<Seq<char>>,
    i: int,
    colors: Seq<ParsedColor>,
    angle: Option<u16>,
) -> Option<(Seq<ParsedColor>, Option<u16>)>
    decreases toks.len() - i,
{
    if i < 0 || i >= toks.len() {
        if colors.len() < 2 {
            None
        } else {
            Some((colors, angle))
        }
    } else if let Some(c) = color_swatch(toks[i]) {
        if angle is Some {
            None
        } else {
            gradient_walk(toks, i + 1, colors.push(c), angle)
        }
    } else if let Some(v) = strip_suffix(toks[i], "deg"@) {
        if i != toks.len() - 1 {
            None
        } else if unsigned_text_ok(v, 65535) {
            gradient_walk(toks, i + 1, colors, Some(u16_value(v)))
        } else {
            None
        }
    } else {
        None
    }
}

pub open spec fn gradient_swatch(raw: Seq<char>) -> Option<(Seq<ParsedColor>, Option<u16>)> {
    gradient_walk(ws_tokens(raw), 0, seq![], None)
}

fn hex_value(c: char) -> (r: u8)
    requires
        is_hex(c),
    ensures
        r == hex_digit_value(c),
        r < 16,
{
    let code = c as u32;
    if '0' <= c && c <= '9' {
        (code - ('0' as u32)) as u8
    } else if 'a' <= c && c <= 'f' {
        (code - ('a' as u32) + 10) as u8
    } else {
        (code - ('A' as u32) + 10) as u8
    }
}

fn pair_at(v: &Vec<char>, lo: usize, hi: usize, k: usize) -> (r: u8)
    requires
        lo <= hi <= v.len(),
        k + 1 < hi - lo,
        all_hex(v@.subrange(lo as int, hi as int)),
    ensures
        r == hex_pair(v@.subrange(lo as int, hi as int), k as int),
{
    let ghost s = v@.subrange(lo as int, hi as int);
    assert(s[k as int] == v@[lo + k]);
    assert(s[k + 1] == v@[lo + k + 1]);
    assert(is_hex(s[k as int]));
    assert(is_hex(s[k + 1]));
    let hi_digit = hex_value(v[lo + k]);
    let lo_digit = hex_value(v[lo + k + 1]);
    hi_digit * 16 + lo_digit
}

fn functional_range(v: &Vec<char>, lo: usize, hi: usize, prefix: &str) -> (r: Option<(usize, usize)>)
    requires
        lo <= hi <= v.len(),
    ensures
        match r {
            Some((a, b)) => lo <= a <= b <= hi && functional_body(
                v@.subrange(lo as int, hi as int),
                prefix@,
            ) == Some(v@.subrange(a as int, b as int)),
            None => functional_body(v@.subrange(lo as int, hi as int), prefix@) is None,
        },
{
    let p = chars_of(prefix);
    if !starts_with_exec(v, lo, hi, &p) {
        return None;
    }
    let k = lo + p.len();
    assert(v@.subrange(lo as int, hi as int).subrange(p@.len() as int, (hi - lo) as int)
        =~= v@.subrange(k as int, hi as int));
    let close = chars_of(")");
    if ends_with_exec(v, k, hi, &close) {
        assert(v@.subrange(k as int, hi as int).subrange(0, (hi - k) - close@.len())
            =~= v@.subrange(k as int, hi - close@.len()));
        Some((k, hi - close.len()))
    } else {
        None
    }
}

/// The swatch of `v[lo..hi]`.
fn color_in_range(v: &Vec<char>, lo: usize, hi: usize) -> (r: Option<ParsedColor>)
    requires
        lo <= hi <= v.len(),
    ensures
        r == color_swatch(v@.subrange(lo as int, hi as int)),
{
    let (a, b) = trim_range(v, lo, hi);
    if let Some((x, y)) = functional_range(v, a, b, "rgba(") {
        let (p, q) = trim_range(v, x, y);
        if q - p == 8 && all_ascii_hex(v, p, q) {
            return Some(
                ParsedColor {
                    red: pair_at(v, p, q, 0),
                    green: pair_at(v, p, q, 2),
                    blue: pair_at(v, p, q, 4),
                    alpha: pair_at(v, p, q, 6),
                },
            );
        }
        return None;
    }
    if let Some((x, y)) = functional_range(v, a, b, "rgb(") {
        let (p, q) = trim_range(v, x, y);
        if q - p == 6 && all_ascii_hex(v, p, q) {
            return Some(
                ParsedColor {
                    red: pair_at(v, p, q, 0),
                    green: pair_at(v, p, q, 2),
                    blue: pair_at(v, p, q, 4),
                    alpha: 0xff,
                },
            );
        }
        return None;
    }
    let zx = chars_of("0x");
    if starts_with_exec(v, a, b, &zx) {
        let p = a + zx.len();
        assert(v@.subrange(a as int, b as int).subrange(zx@.len() as int, (b - a) as int)
            =~= v@.subrange(p as int, b as int));
        if b - p == 8 && all_ascii_hex(v, p, b) {
            return Some(
                ParsedColor {
                    alpha: pair_at(v, p, b, 0),
                    red: pair_at(v, p, b, 2),
                    green: pair_at(v, p, b, 4),
                    blue: pair_at(v, p, b, 6),
                },
            );
        }
        return None;
    }
    None
}

/// Decodes `rgba(RRGGBBAA)`, `rgb(RRGGBB)` and legacy `0xAARRGGBB`;
/// anything else gives no swatch.
pub fn parse_hyprland_color(raw: &str) -> (r: Option<ParsedColor>)
    ensures
        r == color_swatch(raw@),
{
    let v = chars_of(raw);
    assert(v@.subrange(0, v@.len() as int) =~= raw@);
    color_in_range(&v, 0, v.len())
}

/// Decodes a gradient: two or more colors, optionally followed by
/// `<angle>deg`; any unrecognised token gives no gradient.
pub fn parse_hyprland_gradient(raw: &str) -> (r: Option<(Vec<ParsedColor>, Option<u16>)>)
    ensures
        match r {
            Some((colors, angle)) => gradient_swatch(raw@) == Some((colors@, angle)),
            None => gradient_swatch(raw@) is None,
        },
{
    let v = chars_of(raw);
    assert(v@.subrange(0, v@.len() as int) =~= raw@);
    let toks = split_ws(&v, 0, v.len());
    let ghost tv = ws_tokens(raw@);
    let deg = chars_of("deg");
    let mut colors: Vec<ParsedColor> = Vec::new();
    let mut angle: Option<u16> = None;
    let mut i: usize = 0;
    while i < toks.len()
        invariant
            i <= toks.len(),
            v@ == raw@,
            ranges_within(toks@, 0, v@.len() as int),
            range_views(v@, toks@) == tv,
            tv == ws_tokens(raw@),
            tv.len() == toks.len(),
            deg@ == "deg"@,
            gradient_swatch(raw@) == gradient_walk(tv, i as int, colors@, angle),
        decreases toks.len() - i,
    {
        let (x, y) = toks[i];
        let ghost tok = v@.subrange(x as int, y as int);
        assert(tv[i as int] == tok);
        if let Some(c) = color_in_range(&v, x, y) {
            if angle.is_some() {
                return None;
            }
            colors.push(c);
        } else if ends_with_exec(&v, x, y, &deg) {
            let end = y - deg.len();
            assert(strip_suffix(tok, "deg"@) == Some(v@.subrange(x as int, end as int))) by {
                assert(tok.subrange(0, tok.len() - deg@.len()) =~= v@.subrange(
                    x as int,
                    end as int,
                ));
            }
            if i != toks.len() - 1 {
                return None;
            }
            if !unsigned_text(&v, x, end, 65535) {
                return None;
            }
            let start = if x < end && v[x] == '+' {
                x + 1
            } else {
                x
            };
            let ghost vs = v@.subrange(x as int, end as int);
            assert(start > x ==> vs.drop_first() =~= v@.subrange(start as int, end as int));
            assert(start == x ==> vs =~= v@.subrange(start as int, end as int));
            let value = digits_value_capped(&v, start, end, 65535);
            angle = Some(value as u16);
        } else {
            assert(strip_suffix(tok, "deg"@) is None);
            return None;
        }
        i = i + 1;
    }
    if colors.len() < 2 {
        return None;
    }
    Some((colors, angle))
}

} // verus!
