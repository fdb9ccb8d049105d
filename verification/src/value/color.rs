//! Hyprland color literals: `#RGB`, `#RRGGBB`, `#RRGGBBAA`, `rgb(..)`,
//! `rgba(..)`, `0x..` and decimal `u32` integers.
//!
//! The one question this module cannot answer itself is whether an `rgba`
//! alpha written as a float literal denotes a finite value in `0..=1`
//! under `f32` rounding; the caller supplies that check, and every contract
//! is stated for any spec function `ok` that the supplied check agrees with.
use vstd::prelude::*;
use crate::text::{
    lemma_trim_idempotent,
    all_hex, append_str, char_pred, chars_of, concat2, contains_seq, digits_value,
    first_match, has_whitespace, has_ws, is_ws, lemma_first_match, pieces, range_views,
    ranges_within, split_char, split_on_char, starts_with_exec, string_from, strip_prefix,
    strip_suffix, ends_with_exec, all_ascii_digits, all_ascii_hex, trim, trim_end, trim_range,
    trim_start, utf8_len, utf8_len_capped, all_digits,
};
use crate::value::number::{
    digits_value_capped, float_literal, is_float_literal, unsigned_text, unsigned_text_ok,
};

verus! {

/// Which literal form a hex-digit message is about.
#[derive(Debug, Clone, Copy, PartialEq, Eq, Structural)]
pub enum HexLabel {
    Short,
    Full,
    WithAlpha,
    RgbBody,
    RgbaBody,
    ZeroX,
}

/// The `rgb` or `rgba` functional form.
#[derive(Debug, Clone, Copy, PartialEq, Eq, Structural)]
pub enum Channels {
    Rgb,
    Rgba,
}

/// Why a color literal was refused.
#[derive(Debug, Clone, Copy, PartialEq, Eq, Structural)]
pub enum ColorError {
    Empty,
    ContainsWhitespace,
    HashDigitCount,
    HexLength(HexLabel, usize),
    NonHexDigit(HexLabel),
    ZeroXDigitCount,
    DecimalOutOfRange,
    NotALiteral,
    CommaCount(Channels),
    ComponentOutOfRange(Channels),
    AlphaOutOfRange,
    AlphaNotNumeric,
}

/// `ok` agrees with every answer the closure `f` can give.
pub open spec fn describes<F: Fn(&str) -> bool>(f: F, ok: spec_fn(Seq<char>) -> bool) -> bool {
    forall|s: &str, b: bool| #[trigger] f.ensures((s,), b) ==> b == ok(s@)
}

pub open spec fn callable<F: Fn(&str) -> bool>(f: F) -> bool {
    forall|s: &str| #[trigger] f.requires((s,))
}

/// A run of hex digits of an expected UTF-8 byte length.
pub open spec fn hex_check(v: Seq<char>, n: nat, label: HexLabel) -> Result<(), ColorError> {
    if utf8_len(v) != n {
        Err(ColorError::HexLength(label, n as usize))
    } else if all_hex(v) {
        Ok(())
    } else {
        Err(ColorError::NonHexDigit(label))
    }
}

/// The comma-separated values of a functional form, each trimmed.
pub open spec fn parts_of(v: Seq<char>) -> Seq<Seq<char>> {
    split_char(v, ',').map_values(|p: Seq<char>| trim(p))
}

pub open spec fn comma_parts_ok(v: Seq<char>, n: nat) -> bool {
    parts_of(v).len() == n && forall|i: int| 0 <= i < n ==> (#[trigger] parts_of(v)[i]).len() > 0
}

/// Text `u8::from_str` accepts.
pub open spec fn u8_text(s: Seq<char>) -> bool {
    unsigned_text_ok(s, 255)
}

pub open spec fn first_components_ok(v: Seq<char>) -> bool {
    forall|i: int| 0 <= i < 3 ==> u8_text(#[trigger] parts_of(v)[i])
}

pub open spec fn rgb_body_check(v: Seq<char>) -> Result<(), ColorError> {
    if v.contains(',') {
        if !comma_parts_ok(v, 3) {
            Err(ColorError::CommaCount(Channels::Rgb))
        } else if first_components_ok(v) {
            Ok(())
        } else {
            Err(ColorError::ComponentOutOfRange(Channels::Rgb))
        }
    } else {
        hex_check(v, 6, HexLabel::RgbBody)
    }
}

/// The alpha of a comma `rgba` form: numeric by the float grammar, then
/// in range as `ok` decides.
pub open spec fn alpha_check(s: Seq<char>, ok: spec_fn(Seq<char>) -> bool) -> Result<
    (),
    ColorError,
> {
    if !is_float_literal(s) {
        Err(ColorError::AlphaNotNumeric)
    } else if ok(s) {
        Ok(())
    } else {
        Err(ColorError::AlphaOutOfRange)
    }
}

pub open spec fn rgba_body_check(v: Seq<char>, ok: spec_fn(Seq<char>) -> bool) -> Result<
    (),
    ColorError,
> {
    if v.contains(',') {
        if !comma_parts_ok(v, 4) {
            Err(ColorError::CommaCount(Channels::Rgba))
        } else if !first_components_ok(v) {
            Err(ColorError::ComponentOutOfRange(Channels::Rgba))
        } else {
            alpha_check(parts_of(v)[3], ok)
        }
    } else {
        hex_check(v, 8, HexLabel::RgbaBody)
    }
}

/// The body of a functional form `<prefix>..)`.
pub open spec fn functional_body(value: Seq<char>, prefix: Seq<char>) -> Option<Seq<char>> {
    match strip_prefix(value, prefix) {
        Some(rest) => strip_suffix(rest, ")"@),
        None => None,
    }
}

/// What `validate_color_literal` decides for `value`.
pub open spec fn color_literal_check(value: Seq<char>, ok: spec_fn(Seq<char>) -> bool) -> Result<
    (),
    ColorError,
> {
    if let Some(hex) = strip_prefix(value, "#"@) {
        if utf8_len(hex) == 3 {
            hex_check(hex, 3, HexLabel::Short)
        } else if utf8_len(hex) == 6 {
            hex_check(hex, 6, HexLabel::Full)
        } else if utf8_len(hex) == 8 {
            hex_check(hex, 8, HexLabel::WithAlpha)
        } else {
            Err(ColorError::HashDigitCount)
        }
    } else if let Some(body) = functional_body(value, "rgb("@) {
        rgb_body_check(body)
    } else if let Some(body) = functional_body(value, "rgba("@) {
        rgba_body_check(body, ok)
    } else if let Some(hex) = strip_prefix(value, "0x"@) {
        if hex.len() == 0 || utf8_len(hex) > 8 {
            Err(ColorError::ZeroXDigitCount)
        } else {
            hex_check(hex, utf8_len(hex), HexLabel::ZeroX)
        }
    } else if value.len() > 0 && all_digits(value) {
        if digits_value(value) <= u32::MAX {
            Ok(())
        } else {
            Err(ColorError::DecimalOutOfRange)
        }
    } else {
        Err(ColorError::NotALiteral)
    }
}

/// What `ColorValue::parse` decides for `raw`: the stored text on success.
pub open spec fn color_parse(raw: Seq<char>, ok: spec_fn(Seq<char>) -> bool) -> Result<
    Seq<char>,
    ColorError,
> {
    let t = trim(raw);
    if t.len() == 0 {
        Err(ColorError::Empty)
    } else if has_ws(t) {
        Err(ColorError::ContainsWhitespace)
    } else {
        match color_literal_check(t, ok) {
            Ok(_) => Ok(t),
            Err(e) => Err(e),
        }
    }
}

/// A validated color literal, kept as the trimmed text the user wrote.
#[derive(Debug, Clone, PartialEq, Eq)]
pub struct ColorValue {
    raw: String,
}

impl View for ColorValue {
    type V = Seq<char>;

    closed spec fn view(&self) -> Seq<char> {
        self.raw@
    }
}

pub open spec fn color_result_view(r: Result<ColorValue, ColorError>) -> Result<
    Seq<char>,
    ColorError,
> {
    match r {
        Ok(c) => Ok(c@),
        Err(e) => Err(e),
    }
}

impl ColorValue {
    /// Parses a color setting value. `alpha_in_range` answers, for an
    /// `rgba` alpha that is a float literal, whether it denotes a finite
    /// value in `0..=1`.
    pub fn parse<F: Fn(&str) -> bool>(raw: &str, alpha_in_range: &F) -> (r: Result<
        ColorValue,
        ColorError,
    >)
        requires
            callable(*alpha_in_range),
        ensures
            forall|ok: spec_fn(Seq<char>) -> bool| #[trigger]
                describes(*alpha_in_range, ok) ==> color_result_view(r) == color_parse(raw@, ok),
    {
        let v = chars_of(raw);
        assert(v@.subrange(0, v@.len() as int) =~= raw@);
        let (a, b) = trim_range(&v, 0, v.len());
        if a == b {
            return Err(ColorError::Empty);
        }
        if has_whitespace(&v, a, b) {
            return Err(ColorError::ContainsWhitespace);
        }
        match check_literal(&v, a, b, alpha_in_range) {
            Ok(()) => Ok(ColorValue { raw: string_from(&v, a, b) }),
            Err(e) => Err(e),
        }
    }

    /// The literal text, exactly as accepted.
    pub fn serialize(&self) -> (r: &str)
        ensures
            r@ == self@,
    {
        self.raw.as_str()
    }
}

/// Checks that `value` is one of the official Hyprland color literal forms.
pub fn validate_color_literal<F: Fn(&str) -> bool>(value: &str, alpha_in_range: &F) -> (r: Result<
    (),
    ColorError,
>)
    requires
        callable(*alpha_in_range),
    ensures
        forall|ok: spec_fn(Seq<char>) -> bool| #[trigger]
            describes(*alpha_in_range, ok) ==> r == color_literal_check(value@, ok),
{
    let v = chars_of(value);
    assert(v@.subrange(0, v@.len() as int) =~= value@);
    check_literal(&v, 0, v.len(), alpha_in_range)
}

/// `Some(lo + prefix.len())` when `v[lo..hi]` starts with `prefix`.
fn strip_prefix_range(v: &Vec<char>, lo: usize, hi: usize, prefix: &str) -> (r: Option<usize>)
    requires
        lo <= hi <= v.len(),
    ensures
        match r {
            Some(k) => lo <= k <= hi && strip_prefix(v@.subrange(lo as int, hi as int), prefix@)
                == Some(v@.subrange(k as int, hi as int)),
            None => strip_prefix(v@.subrange(lo as int, hi as int), prefix@) is None,
        },
{
    let p = chars_of(prefix);
    if starts_with_exec(v, lo, hi, &p) {
        assert(v@.subrange(lo as int, hi as int).subrange(p@.len() as int, (hi - lo) as int)
            =~= v@.subrange(lo + p@.len(), hi as int));
        Some(lo + p.len())
    } else {
        None
    }
}

/// `Some(lo..k)` when `v[lo..hi]` is `prefix` + body + `)`; returns the body end.
fn functional_range(v: &Vec<char>, lo: usize, hi: usize, prefix: &str) -> (r: Option<(usize, usize)>)
    requires
        lo <= hi <= v.len(),
    ensures
        match r {
            Some((a, b)) => lo <= a <= b <= hi && functional_body(
                v@.subrange(lo as int, hi as int),
                prefix@,
            ) == Some(v@.subrange(a as int, b as int)),
            None => functional_body(v@.subrange(lo as int, hi as int), prefix@) is None,
        },
{
    match strip_prefix_range(v, lo, hi, prefix) {
        None => None,
        Some(k) => {
            let close = chars_of(")");
            if ends_with_exec(v, k, hi, &close) {
                assert(v@.subrange(k as int, hi as int).subrange(
                    0,
                    (hi - k) - close@.len(),
                ) =~= v@.subrange(k as int, hi - close@.len()));
                Some((k, hi - close.len()))
            } else {
                None
            }
        },
    }
}

fn hex_digits(v: &Vec<char>, lo: usize, hi: usize, n: usize, label: HexLabel) -> (r: Result<
    (),
    ColorError,
>)
    requires
        lo <= hi <= v.len(),
        n <= 8,
    ensures
        r == hex_check(v@.subrange(lo as int, hi as int), n as nat, label),
{
    let len = utf8_len_capped(v, lo, hi, 9);
    if len != n {
        return Err(ColorError::HexLength(label, n));
    }
    if all_ascii_hex(v, lo, hi) {
        Ok(())
    } else {
        Err(ColorError::NonHexDigit(label))
    }
}

/// The trimmed comma parts of `v[lo..hi]` when there are exactly `n` and
/// none is empty.
fn comma_parts(v: &Vec<char>, lo: usize, hi: usize, n: usize) -> (r: Option<Vec<(usize, usize)>>)
    requires
        lo <= hi <= v.len(),
    ensures
        match r {
            Some(parts) => comma_parts_ok(v@.subrange(lo as int, hi as int), n as nat)
                && ranges_within(parts@, lo as int, hi as int) && range_views(v@, parts@)
                == parts_of(v@.subrange(lo as int, hi as int)),
            None => !comma_parts_ok(v@.subrange(lo as int, hi as int), n as nat),
        },
{
    let ghost s = v@.subrange(lo as int, hi as int);
    let raw_parts = split_on_char(v, lo, hi, ',');
    let mut parts: Vec<(usize, usize)> = Vec::new();
    let mut i: usize = 0;
    while i < raw_parts.len()
        invariant
            lo <= hi <= v.len(),
            s == v@.subrange(lo as int, hi as int),
            i <= raw_parts.len(),
            ranges_within(raw_parts@, lo as int, hi as int),
            range_views(v@, raw_parts@) == split_char(s, ','),
            parts@.len() == i,
            ranges_within(parts@, lo as int, hi as int),
            forall|j: int| 0 <= j < i ==> #[trigger] range_views(v@, parts@)[j] == trim(
                split_char(s, ',')[j],
            ),
        decreases raw_parts.len() - i,
    {
        let (a, b) = raw_parts[i];
        assert(range_views(v@, raw_parts@)[i as int] == v@.subrange(a as int, b as int));
        let (x, y) = trim_range(v, a, b);
        let ghost old_parts = parts@;
        parts.push((x, y));
        assert(range_views(v@, parts@) =~= range_views(v@, old_parts).push(
            v@.subrange(x as int, y as int),
        ));
        i = i + 1;
    }
    assert(range_views(v@, parts@) =~= parts_of(s));
    if parts.len() != n {
        return None;
    }
    let mut j: usize = 0;
    while j < parts.len()
        invariant
            j <= parts.len(),
            parts@.len() == n,
            range_views(v@, parts@) == parts_of(s),
            ranges_within(parts@, lo as int, hi as int),
            lo <= hi <= v.len(),
            s == v@.subrange(lo as int, hi as int),
            forall|k: int| 0 <= k < j ==> (#[trigger] parts_of(s)[k]).len() > 0,
        decreases parts.len() - j,
    {
        let (x, y) = parts[j];
        assert(parts_of(s)[j as int] == v@.subrange(x as int, y as int));
        if x == y {
            assert(parts_of(s)[j as int].len() == 0);
            return None;
        }
        j = j + 1;
    }
    Some(parts)
}

fn check_rgb_body(v: &Vec<char>, lo: usize, hi: usize) -> (r: Result<(), ColorError>)
    requires
        lo <= hi <= v.len(),
    ensures
        r == rgb_body_check(v@.subrange(lo as int, hi as int)),
{
    let ghost s = v@.subrange(lo as int, hi as int);
    if crate::text::has_char(v, lo, hi, ',') {
        match comma_parts(v, lo, hi, 3) {
            None => Err(ColorError::CommaCount(Channels::Rgb)),
            Some(parts) => {
                let mut k: usize = 0;
                while k < 3
                    invariant
                        k <= 3,
                        parts@.len() == 3,
                        s.contains(','),
                        comma_parts_ok(s, 3),
                        lo <= hi <= v.len(),
                        ranges_within(parts@, lo as int, hi as int),
                        range_views(v@, parts@) == parts_of(s),
                        s == v@.subrange(lo as int, hi as int),
                        forall|j: int| 0 <= j < k ==> u8_text(#[trigger] parts_of(s)[j]),
                    decreases 3 - k,
                {
                    let (a, b) = parts[k];
                    assert(parts_of(s)[k as int] == v@.subrange(a as int, b as int));
                    if !unsigned_text(v, a, b, 255) {
                        assert(!u8_text(parts_of(s)[k as int]));
                        return Err(ColorError::ComponentOutOfRange(Channels::Rgb));
                    }
                    k = k + 1;
                }
                Ok(())
            },
        }
    } else {
        hex_digits(v, lo, hi, 6, HexLabel::RgbBody)
    }
}

fn check_alpha<F: Fn(&str) -> bool>(v: &Vec<char>, lo: usize, hi: usize, alpha_in_range: &F) -> (r:
    Result<(), ColorError>)
    requires
        lo <= hi <= v.len(),
        callable(*alpha_in_range),
    ensures
        forall|ok: spec_fn(Seq<char>) -> bool| #[trigger]
            describes(*alpha_in_range, ok) ==> r == alpha_check(
                v@.subrange(lo as int, hi as int),
                ok,
            ),
{
    if !float_literal(v, lo, hi) {
        return Err(ColorError::AlphaNotNumeric);
    }
    let text = string_from(v, lo, hi);
    let inside = alpha_in_range(text.as_str());
    if inside {
        Ok(())
    } else {
        Err(ColorError::AlphaOutOfRange)
    }
}

fn check_rgba_body<F: Fn(&str) -> bool>(
    v: &Vec<char>,
    lo: usize,
    hi: usize,
    alpha_in_range: &F,
) -> (r: Result<(), ColorError>)
    requires
        lo <= hi <= v.len(),
        callable(*alpha_in_range),
    ensures
        forall|ok: spec_fn(Seq<char>) -> bool| #[trigger]
            describes(*alpha_in_range, ok) ==> r == rgba_body_check(
                v@.subrange(lo as int, hi as int),
                ok,
            ),
{
    let ghost s = v@.subrange(lo as int, hi as int);
    if crate::text::has_char(v, lo, hi, ',') {
        match comma_parts(v, lo, hi, 4) {
            None => Err(ColorError::CommaCount(Channels::Rgba)),
            Some(parts) => {
                let mut k: usize = 0;
                while k < 3
                    invariant
                        k <= 3,
                        parts@.len() == 4,
                        s.contains(','),
                        comma_parts_ok(s, 4),
                        lo <= hi <= v.len(),
                        ranges_within(parts@, lo as int, hi as int),
                        range_views(v@, parts@) == parts_of(s),
                        s == v@.subrange(lo as int, hi as int),
                        forall|j: int| 0 <= j < k ==> u8_text(#[trigger] parts_of(s)[j]),
                    decreases 3 - k,
                {
                    let (a, b) = parts[k];
                    assert(parts_of(s)[k as int] == v@.subrange(a as int, b as int));
                    if !unsigned_text(v, a, b, 255) {
                        assert(!u8_text(parts_of(s)[k as int]));
                        return Err(ColorError::ComponentOutOfRange(Channels::Rgba));
                    }
                    k = k + 1;
                }
                let (a, b) = parts[3];
                assert(parts_of(s)[3] == v@.subrange(a as int, b as int));
                check_alpha(v, a, b, alpha_in_range)
            },
        }
    } else {
        hex_digits(v, lo, hi, 8, HexLabel::RgbaBody)
    }
}

fn check_literal<F: Fn(&str) -> bool>(v: &Vec<char>, lo: usize, hi: usize, alpha_in_range: &F) -> (r:
    Result<(), ColorError>)
    requires
        lo <= hi <= v.len(),
        callable(*alpha_in_range),
    ensures
        forall|ok: spec_fn(Seq<char>) -> bool| #[trigger]
            describes(*alpha_in_range, ok) ==> r == color_literal_check(
                v@.subrange(lo as int, hi as int),
                ok,
            ),
{
    let ghost s = v@.subrange(lo as int, hi as int);
    if let Some(k) = strip_prefix_range(v, lo, hi, "#") {
        let len = utf8_len_capped(v, k, hi, 9);
        return if len == 3 {
            hex_digits(v, k, hi, 3, HexLabel::Short)
        } else if len == 6 {
            hex_digits(v, k, hi, 6, HexLabel::Full)
        } else if len == 8 {
            hex_digits(v, k, hi, 8, HexLabel::WithAlpha)
        } else {
            Err(ColorError::HashDigitCount)
        };
    }
    if let Some((a, b)) = functional_range(v, lo, hi, "rgb(") {
        return check_rgb_body(v, a, b);
    }
    if let Some((a, b)) = functional_range(v, lo, hi, "rgba(") {
        return check_rgba_body(v, a, b, alpha_in_range);
    }
    if let Some(k) = strip_prefix_range(v, lo, hi, "0x") {
        let len = utf8_len_capped(v, k, hi, 9);
        if k == hi || len > 8 {
            return Err(ColorError::ZeroXDigitCount);
        }
        return hex_digits(v, k, hi, len, HexLabel::ZeroX);
    }
    if lo < hi && all_ascii_digits(v, lo, hi) {
        let value = digits_value_capped(v, lo, hi, 0xffff_ffff);
        return if value <= 0xffff_ffff {
            Ok(())
        } else {
            Err(ColorError::DecimalOutOfRange)
        };
    }
    Err(ColorError::NotALiteral)
}

/// Law: the text a color parse accepted parses again to the same text
/// (parse after serialize is the identity on accepted values).
pub proof fn law_color_round_trip(raw: Seq<char>, ok: spec_fn(Seq<char>) -> bool)
    requires
        color_parse(raw, ok) is Ok,
    ensures
        color_parse(color_parse(raw, ok)->Ok_0, ok) == color_parse(raw, ok),
{
    lemma_trim_idempotent(raw);
}


/// How each hex form is named in messages.
pub open spec fn hex_label_text(l: HexLabel) -> Seq<char> {
    match l {
        HexLabel::Short => "#RGB color"@,
        HexLabel::Full => "#RRGGBB color"@,
        HexLabel::WithAlpha => "#RRGGBBAA color"@,
        HexLabel::RgbBody => "rgb color"@,
        HexLabel::RgbaBody => "rgba color"@,
        HexLabel::ZeroX => "0x color"@,
    }
}

pub open spec fn channels_text(c: Channels) -> Seq<char> {
    match c {
        Channels::Rgb => "rgb color"@,
        Channels::Rgba => "rgba color"@,
    }
}

/// The message shown for each refusal.
pub open spec fn color_error_message(e: ColorError) -> Seq<char> {
    match e {
        ColorError::Empty => "color value cannot be empty"@,
        ColorError::ContainsWhitespace => "color value cannot contain whitespace"@,
        ColorError::HashDigitCount => "# color value must contain 3, 6, or 8 hex digits"@,
        ColorError::HexLength(l, n) => hex_label_text(l) + " must contain "@ + crate::text::decimal(
            n as nat,
        ) + " hex digits"@,
        ColorError::NonHexDigit(l) => hex_label_text(l) + " contains non-hex characters"@,
        ColorError::ZeroXDigitCount => "0x color value must contain 1 to 8 hex digits"@,
        ColorError::DecimalOutOfRange => "decimal color integer must fit in uint32"@,
        ColorError::NotALiteral => "color value must be an official Hyprland color literal"@,
        ColorError::CommaCount(c) => channels_text(c) + " has the wrong number of comma values"@,
        ColorError::ComponentOutOfRange(c) => channels_text(c)
            + " component must be an integer from 0 to 255"@,
        ColorError::AlphaOutOfRange => "rgba alpha must be between 0 and 1"@,
        ColorError::AlphaNotNumeric => "rgba alpha must be numeric"@,
    }
}

fn hex_label_str(l: HexLabel) -> (r: &'static str)
    ensures
        r@ == hex_label_text(l),
{
    match l {
        HexLabel::Short => "#RGB color",
        HexLabel::Full => "#RRGGBB color",
        HexLabel::WithAlpha => "#RRGGBBAA color",
        HexLabel::RgbBody => "rgb color",
        HexLabel::RgbaBody => "rgba color",
        HexLabel::ZeroX => "0x color",
    }
}

fn channels_str(c: Channels) -> (r: &'static str)
    ensures
        r@ == channels_text(c),
{
    match c {
        Channels::Rgb => "rgb color",
        Channels::Rgba => "rgba color",
    }
}

impl ColorError {
    pub fn message(&self) -> (r: String)
        ensures
            r@ == color_error_message(*self),
    {
        match *self {
            ColorError::Empty => "color value cannot be empty".to_owned(),
            ColorError::ContainsWhitespace => "color value cannot contain whitespace".to_owned(),
            ColorError::HashDigitCount => "# color value must contain 3, 6, or 8 hex digits".to_owned(),
            ColorError::HexLength(l, n) => {
                let mut s = hex_label_str(l).to_owned();
                crate::text::append_str(&mut s, " must contain ");
                crate::text::push_decimal(&mut s, n);
                crate::text::append_str(&mut s, " hex digits");
                s
            },
            ColorError::NonHexDigit(l) => crate::text::concat2(
                hex_label_str(l),
                " contains non-hex characters",
            ),
            ColorError::ZeroXDigitCount => "0x color value must contain 1 to 8 hex digits".to_owned(),
            ColorError::DecimalOutOfRange => "decimal color integer must fit in uint32".to_owned(),
            ColorError::NotALiteral => "color value must be an official Hyprland color literal".to_owned(),
            ColorError::CommaCount(c) => crate::text::concat2(
                channels_str(c),
                " has the wrong number of comma values",
            ),
            ColorError::ComponentOutOfRange(c) => crate::text::concat2(
                channels_str(c),
                " component must be an integer from 0 to 255",
            ),
            ColorError::AlphaOutOfRange => "rgba alpha must be between 0 and 1".to_owned(),
            ColorError::AlphaNotNumeric => "rgba alpha must be numeric".to_owned(),
        }
    }
}

/// The digits of a component after an optional leading `+`.
pub open spec fn component_digits(p: Seq<char>) -> Seq<char> {
    if p.len() > 0 && p[0] == '+' {
        p.drop_first()
    } else {
        p
    }
}

/// Law: a comma `rgb(..)` literal with three non-empty components is
/// accepted exactly when each of the three is an unsigned decimal (an
/// optional `+`, then one or more ASCII digits) of at most 255, the same
/// bound for every channel; otherwise it is refused as out of range.
pub proof fn law_rgb_components_are_bytes(v: Seq<char>, ok: spec_fn(Seq<char>) -> bool)
    requires
        v.contains(','),
        parts_of(v).len() == 3,
        forall|i: int| 0 <= i < 3 ==> (#[trigger] parts_of(v)[i]).len() > 0,
    ensures
        color_literal_check("rgb("@ + v + ")"@, ok) == (if forall|i: int|
            0 <= i < 3 ==> component_digits(#[trigger] parts_of(v)[i]).len() > 0 && all_digits(
                component_digits(parts_of(v)[i]),
            ) && digits_value(component_digits(parts_of(v)[i])) <= 255 {
            Ok(())
        } else {
            Err(ColorError::ComponentOutOfRange(Channels::Rgb))
        }),
{
    reveal_strlit("rgb(");
    reveal_strlit(")");
    reveal_strlit("#");
    let t = "rgb("@ + v + ")"@;
    assert(t[0] == 'r');
    assert(strip_prefix(t, "#"@) is None) by {
        if strip_prefix(t, "#"@) is Some {
            assert(t.subrange(0, 1)[0] == t[0]);
        }
    }
    assert(t.subrange(0, 4) =~= "rgb("@);
    let rest = t.subrange(4, t.len() as int);
    assert(rest =~= v + ")"@);
    assert(rest.subrange(rest.len() - 1, rest.len() as int) =~= ")"@);
    assert(rest.subrange(0, rest.len() - 1) =~= v);
    assert(functional_body(t, "rgb("@) == Some(v));
    assert(comma_parts_ok(v, 3));
    assert(first_components_ok(v) <==> forall|i: int|
        0 <= i < 3 ==> component_digits(#[trigger] parts_of(v)[i]).len() > 0 && all_digits(
            component_digits(parts_of(v)[i]),
        ) && digits_value(component_digits(parts_of(v)[i])) <= 255);
}

/// Law: a comma `rgba(..)` literal with four non-empty components has its
/// first three held to the same bound as in `rgb(..)`: each an unsigned
/// decimal of at most 255, else it is refused as out of range; only then is
/// the alpha looked at.
pub proof fn law_rgba_components_are_bytes(v: Seq<char>, ok: spec_fn(Seq<char>) -> bool)
    requires
        v.contains(','),
        parts_of(v).len() == 4,
        forall|i: int| 0 <= i < 4 ==> (#[trigger] parts_of(v)[i]).len() > 0,
    ensures
        color_literal_check("rgba("@ + v + ")"@, ok) == (if forall|i: int|
            0 <= i < 3 ==> component_digits(#[trigger] parts_of(v)[i]).len() > 0 && all_digits(
                component_digits(parts_of(v)[i]),
            ) && digits_value(component_digits(parts_of(v)[i])) <= 255 {
            alpha_check(parts_of(v)[3], ok)
        } else {
            Err(ColorError::ComponentOutOfRange(Channels::Rgba))
        }),
{
    reveal_strlit("rgba(");
    reveal_strlit("rgb(");
    reveal_strlit(")");
    reveal_strlit("#");
    let t = "rgba("@ + v + ")"@;
    assert(t[0] == 'r' && t[3] == 'a');
    assert(strip_prefix(t, "#"@) is None) by {
        if strip_prefix(t, "#"@) is Some {
            assert(t.subrange(0, 1)[0] == t[0]);
        }
    }
    assert(strip_prefix(t, "rgb("@) is None) by {
        if strip_prefix(t, "rgb("@) is Some {
            assert(t.subrange(0, 4)[3] == t[3]);
        }
    }
    assert(functional_body(t, "rgb("@) is None);
    assert(t.subrange(0, 5) =~= "rgba("@);
    let rest = t.subrange(5, t.len() as int);
    assert(rest =~= v + ")"@);
    assert(rest.subrange(rest.len() - 1, rest.len() as int) =~= ")"@);
    assert(rest.subrange(0, rest.len() - 1) =~= v);
    assert(functional_body(t, "rgba("@) == Some(v));
    assert(comma_parts_ok(v, 4));
    assert(first_components_ok(v) <==> forall|i: int|
        0 <= i < 3 ==> component_digits(#[trigger] parts_of(v)[i]).len() > 0 && all_digits(
            component_digits(parts_of(v)[i]),
        ) && digits_value(component_digits(parts_of(v)[i])) <= 255);
}

} // verus!
