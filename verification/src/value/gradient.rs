//! Hyprland gradients: one or more color literals separated by whitespace,
//! optionally ended by an angle token `<number>deg`.
//!
//! Whether an angle written as a float literal is finite under `f64`
//! rounding is answered by a caller-supplied check, like the `rgba` alpha of
//! `ColorValue`; contracts hold for any spec functions those checks agree with.
use vstd::prelude::*;
use crate::text::{
    lemma_trim_idempotent,
    char_pred, chars_of, contains_exec, contains_seq, has_char, range_views, ranges_within,
    split_ws, string_from, strip_suffix, trim, trim_range, ws_tokens, ends_with_exec,
};
use crate::value::color::{
    callable, color_parse, color_result_view, describes, ColorError, ColorValue,
};
use crate::value::number::{float_literal, is_float_literal};
use crate::text::{is_digit, is_hex, strip_prefix};
use crate::value::color::functional_body;
use crate::ui::color_control::{clean_token, lemma_runs_clean, lemma_trim_no_ws};

verus! {

/// Why a gradient value was refused.
#[derive(Debug, Clone, Copy, PartialEq, Eq, Structural)]
pub enum GradientError {
    Empty,
    MultipleLines,
    CommentMarker,
    CommandSubstitution,
    MultipleAngles,
    AngleNotLast,
    AngleEmpty,
    AngleNotFinite,
    AngleNotNumeric,
    Color(ColorError),
    NoColor,
}

/// The angle of a gradient: non-empty, a float literal, and finite as `finite` decides.
pub open spec fn angle_check(a: Seq<char>, finite: spec_fn(Seq<char>) -> bool) -> Result<
    (),
    GradientError,
> {
    if a.len() == 0 {
        Err(GradientError::AngleEmpty)
    } else if !is_float_literal(a) {
        Err(GradientError::AngleNotNumeric)
    } else if finite(a) {
        Ok(())
    } else {
        Err(GradientError::AngleNotFinite)
    }
}

/// The token walk of `GradientValue::parse`, from token `i` on, with whether
/// an angle was seen and how many colors were accepted so far.
pub open spec fn tokens_check(
    toks: Seq<Seq<char>>,
    i: int,
    angle_seen: bool,
    colors: nat,
    alpha_ok: spec_fn(Seq<char>) -> bool,
    finite: spec_fn(Seq<char>) -> bool,
) -> Result<(), GradientError>
    decreases toks.len() - i,
{
    if i < 0 || i >= toks.len() {
        if colors == 0 {
            Err(GradientError::NoColor)
        } else {
            Ok(())
        }
    } else if let Some(angle) = strip_suffix(toks[i], "deg"@) {
        if angle_seen {
            Err(GradientError::MultipleAngles)
        } else if i + 1 != toks.len() {
            Err(GradientError::AngleNotLast)
        } else {
            match angle_check(angle, finite) {
                Err(e) => Err(e),
                Ok(_) => tokens_check(toks, i + 1, true, colors, alpha_ok, finite),
            }
        }
    } else {
        match color_parse(toks[i], alpha_ok) {
            Err(e) => Err(GradientError::Color(e)),
            Ok(_) => tokens_check(toks, i + 1, angle_seen, colors + 1, alpha_ok, finite),
        }
    }
}

/// What `GradientValue::parse` decides for `raw`: the stored text on success.
pub open spec fn gradient_parse(
    raw: Seq<char>,
    alpha_ok: spec_fn(Seq<char>) -> bool,
    finite: spec_fn(Seq<char>) -> bool,
) -> Result<Seq<char>, GradientError> {
    let t = trim(raw);
    if t.len() == 0 {
        Err(GradientError::Empty)
    } else if t.contains('\n') || t.contains('\r') {
        Err(GradientError::MultipleLines)
    } else if t.contains('#') {
        Err(GradientError::CommentMarker)
    } else if t.contains('`') || contains_seq(t, "$("@) {
        Err(GradientError::CommandSubstitution)
    } else {
        match tokens_check(ws_tokens(t), 0, false, 0, alpha_ok, finite) {
            Ok(_) => Ok(t),
            Err(e) => Err(e),
        }
    }
}

/// A validated gradient, kept as the trimmed text the user wrote.
#[derive(Debug, Clone, PartialEq, Eq)]
pub struct GradientValue {
    raw: String,
}

impl View for GradientValue {
    type V = Seq<char>;

    closed spec fn view(&self) -> Seq<char> {
        self.raw@
    }
}

pub open spec fn gradient_result_view(r: Result<GradientValue, GradientError>) -> Result<
    Seq<char>,
    GradientError,
> {
    match r {
        Ok(g) => Ok(g@),
        Err(e) => Err(e),
    }
}

impl GradientValue {
    /// Parses a gradient setting value. `alpha_in_range` is the `rgba`
    /// alpha check of `ColorValue::parse`; `angle_is_finite` answers, for an
    /// angle that is a float literal, whether it denotes a finite `f64`.
    pub fn parse<F: Fn(&str) -> bool, G: Fn(&str) -> bool>(
        raw: &str,
        alpha_in_range: &F,
        angle_is_finite: &G,
    ) -> (r: Result<GradientValue, GradientError>)
        requires
            callable(*alpha_in_range),
            callable(*angle_is_finite),
        ensures
            forall|ok: spec_fn(Seq<char>) -> bool, fin: spec_fn(Seq<char>) -> bool|
                #![trigger describes(*alpha_in_range, ok), describes(*angle_is_finite, fin)]
                describes(*alpha_in_range, ok) && describes(*angle_is_finite, fin)
                    ==> gradient_result_view(r) == gradient_parse(raw@, ok, fin),
    {
        let v = chars_of(raw);
        assert(v@.subrange(0, v@.len() as int) =~= raw@);
        let (a, b) = trim_range(&v, 0, v.len());
        let ghost t = v@.subrange(a as int, b as int);
        if a == b {
            return Err(GradientError::Empty);
        }
        if has_char(&v, a, b, '\n') || has_char(&v, a, b, '\r') {
            return Err(GradientError::MultipleLines);
        }
        if has_char(&v, a, b, '#') {
            return Err(GradientError::CommentMarker);
        }
        let subst = chars_of("$(");
        if has_char(&v, a, b, '`') || contains_exec(&v, a, b, &subst) {
            return Err(GradientError::CommandSubstitution);
        }
        assert(trim(raw@) == t);
        let toks = split_ws(&v, a, b);
        let ghost tv = ws_tokens(t);
        let deg = chars_of("deg");
        let mut color_count: usize = 0;
        let mut angle_seen = false;
        let mut i: usize = 0;
        while i < toks.len()
            invariant
                i <= toks.len(),
                b <= v.len(),
                ranges_within(toks@, a as int, b as int),
                range_views(v@, toks@) == tv,
                tv.len() == toks@.len(),
                t == v@.subrange(a as int, b as int),
                trim(raw@) == t,
                t.len() > 0,
                tv == ws_tokens(t),
                !(t.contains('\n') || t.contains('\r')),
                !t.contains('#'),
                !(t.contains('`') || contains_seq(t, "$("@)),
                deg@ == "deg"@,
                color_count <= i,
                callable(*alpha_in_range),
                callable(*angle_is_finite),
                forall|ok: spec_fn(Seq<char>) -> bool, fin: spec_fn(Seq<char>) -> bool|
                    #![trigger describes(*alpha_in_range, ok), describes(*angle_is_finite, fin)]
                    describes(*alpha_in_range, ok) && describes(*angle_is_finite, fin)
                        ==> tokens_check(tv, 0, false, 0, ok, fin) == tokens_check(
                        tv,
                        i as int,
                        angle_seen,
                        color_count as nat,
                        ok,
                        fin,
                    ),
            decreases toks.len() - i,
        {
            let (x, y) = toks[i];
            let ghost tok = v@.subrange(x as int, y as int);
            assert(tv[i as int] == tok);
            if ends_with_exec(&v, x, y, &deg) {
                let angle_end = y - deg.len();
                assert(strip_suffix(tok, "deg"@) == Some(v@.subrange(x as int, angle_end as int)))
                    by {
                    assert(tok.subrange(0, tok.len() - deg@.len()) =~= v@.subrange(
                        x as int,
                        angle_end as int,
                    ));
                }
                if angle_seen {
                    return Err(GradientError::MultipleAngles);
                }
                if i + 1 != toks.len() {
                    return Err(GradientError::AngleNotLast);
                }
                let checked = check_angle(&v, x, angle_end, angle_is_finite);
                if let Err(e) = checked {
                    return Err(e);
                }
                angle_seen = true;
            } else {
                assert(strip_suffix(tok, "deg"@) is None);
                let text = string_from(&v, x, y);
                let parsed = ColorValue::parse(text.as_str(), alpha_in_range);
                if let Err(e) = parsed {
                    return Err(GradientError::Color(e));
                }
                color_count = color_count + 1;
            }
            i = i + 1;
        }
        if color_count == 0 {
            return Err(GradientError::NoColor);
        }
        Ok(GradientValue { raw: string_from(&v, a, b) })
    }

    /// The gradient text, exactly as accepted.
    pub fn serialize(&self) -> (r: &str)
        ensures
            r@ == self@,
    {
        self.raw.as_str()
    }
}

/// The text before `deg` must be a finite number.
fn check_angle<G: Fn(&str) -> bool>(v: &Vec<char>, lo: usize, hi: usize, angle_is_finite: &G) -> (r:
    Result<(), GradientError>)
    requires
        lo <= hi <= v.len(),
        callable(*angle_is_finite),
    ensures
        forall|fin: spec_fn(Seq<char>) -> bool| #[trigger]
            describes(*angle_is_finite, fin) ==> r == angle_check(
                v@.subrange(lo as int, hi as int),
                fin,
            ),
{
    if lo == hi {
        return Err(GradientError::AngleEmpty);
    }
    if !float_literal(v, lo, hi) {
        return Err(GradientError::AngleNotNumeric);
    }
    let text = string_from(v, lo, hi);
    if angle_is_finite(text.as_str()) {
        Ok(())
    } else {
        Err(GradientError::AngleNotFinite)
    }
}

/// Law: the text a gradient parse accepted parses again to the same text.
pub proof fn law_gradient_round_trip(
    raw: Seq<char>,
    alpha_ok: spec_fn(Seq<char>) -> bool,
    finite: spec_fn(Seq<char>) -> bool,
)
    requires
        gradient_parse(raw, alpha_ok, finite) is Ok,
    ensures
        gradient_parse(gradient_parse(raw, alpha_ok, finite)->Ok_0, alpha_ok, finite)
            == gradient_parse(raw, alpha_ok, finite),
{
    lemma_trim_idempotent(raw);
}


/// The message shown for each refusal; a refused color token gives the
/// color's own message.
pub open spec fn gradient_error_message(e: GradientError) -> Seq<char> {
    match e {
        GradientError::Empty => "gradient value cannot be empty"@,
        GradientError::MultipleLines => "gradient value cannot span multiple lines"@,
        GradientError::CommentMarker => "gradient value cannot contain config comment marker"@,
        GradientError::CommandSubstitution => "gradient value cannot contain command-substitution syntax"@,
        GradientError::MultipleAngles => "gradient value cannot contain multiple angles"@,
        GradientError::AngleNotLast => "gradient angle must be the final token"@,
        GradientError::AngleEmpty => "gradient angle cannot be empty"@,
        GradientError::AngleNotFinite => "gradient angle must be finite"@,
        GradientError::AngleNotNumeric => "gradient angle must be numeric"@,
        GradientError::Color(c) => crate::value::color::color_error_message(c),
        GradientError::NoColor => "gradient value needs at least one color"@,
    }
}

impl GradientError {
    pub fn message(&self) -> (r: String)
        ensures
            r@ == gradient_error_message(*self),
    {
        match *self {
            GradientError::Empty => "gradient value cannot be empty".to_owned(),
            GradientError::MultipleLines => "gradient value cannot span multiple lines".to_owned(),
            GradientError::CommentMarker => "gradient value cannot contain config comment marker".to_owned(),
            GradientError::CommandSubstitution => "gradient value cannot contain command-substitution syntax".to_owned(),
            GradientError::MultipleAngles => "gradient value cannot contain multiple angles".to_owned(),
            GradientError::AngleNotLast => "gradient angle must be the final token".to_owned(),
            GradientError::AngleEmpty => "gradient angle cannot be empty".to_owned(),
            GradientError::AngleNotFinite => "gradient angle must be finite".to_owned(),
            GradientError::AngleNotNumeric => "gradient angle must be numeric".to_owned(),
            GradientError::Color(c) => c.message(),
            GradientError::NoColor => "gradient value needs at least one color".to_owned(),
        }
    }
}

/// An accepted color token never ends in `deg`: it ends in a hex digit, a
/// decimal digit or `)`.
proof fn lemma_color_token_is_no_angle(c: Seq<char>, alpha_ok: spec_fn(Seq<char>) -> bool)
    requires
        clean_token(c),
        color_parse(c, alpha_ok) is Ok,
    ensures
        strip_suffix(c, "deg"@) is None,
{
    reveal_strlit("deg");
    reveal_strlit("#");
    reveal_strlit("0x");
    reveal_strlit(")");
    lemma_trim_no_ws(c);
    let n = c.len() as int;
    if strip_suffix(c, "deg"@) is Some {
        assert(c.subrange(n - 3, n)[2] == 'g');
        assert(c[n - 1] == 'g');
        if let Some(hex) = strip_prefix(c, "#"@) {
            assert(hex.len() > 0);
            assert(hex[hex.len() - 1] == c[n - 1]);
            assert(is_hex(hex[hex.len() - 1]));
        } else if let Some(b) = functional_body(c, "rgb("@) {
            let rest = strip_prefix(c, "rgb("@)->Some_0;
            assert(rest.subrange(rest.len() - 1, rest.len() as int)[0] == ')');
            assert(rest[rest.len() - 1] == c[n - 1]);
        } else if let Some(b) = functional_body(c, "rgba("@) {
            let rest = strip_prefix(c, "rgba("@)->Some_0;
            assert(rest.subrange(rest.len() - 1, rest.len() as int)[0] == ')');
            assert(rest[rest.len() - 1] == c[n - 1]);
        } else if let Some(hex) = strip_prefix(c, "0x"@) {
            assert(hex[hex.len() - 1] == c[n - 1]);
            assert(is_hex(hex[hex.len() - 1]));
        } else {
            assert(is_digit(c[n - 1]));
        }
    }
}

proof fn lemma_colors_then_angle(
    toks: Seq<Seq<char>>,
    i: int,
    colors: nat,
    n: int,
    alpha_ok: spec_fn(Seq<char>) -> bool,
    finite: spec_fn(Seq<char>) -> bool,
)
    requires
        0 <= i <= n,
        n == toks.len() || n + 1 == toks.len(),
        colors + (n - i) >= 1,
        forall|k: int| 0 <= k < toks.len() ==> clean_token(#[trigger] toks[k]),
        forall|j: int| 0 <= j < n ==> (color_parse(#[trigger] toks[j], alpha_ok) is Ok),
        n + 1 == toks.len() ==> angle_token(toks[n], finite),
    ensures
        tokens_check(toks, i, false, colors, alpha_ok, finite) == Ok::<(), GradientError>(()),
    decreases toks.len() - i,
{
    if i < n {
        assert(clean_token(toks[i]));
        assert(color_parse(toks[i], alpha_ok) is Ok);
        lemma_color_token_is_no_angle(toks[i], alpha_ok);
        lemma_colors_then_angle(toks, i + 1, colors + 1, n, alpha_ok, finite);
    } else if i < toks.len() {
        assert(tokens_check(toks, i + 1, true, colors, alpha_ok, finite) == Ok::<(), GradientError>(()));
    }
}

/// An angle token: `<number>deg`, the number a non-empty float literal that
/// is finite as `finite` decides.
pub open spec fn angle_token(tok: Seq<char>, finite: spec_fn(Seq<char>) -> bool) -> bool {
    &&& tok.len() > 3
    &&& tok.subrange(tok.len() - 3, tok.len() as int) == "deg"@
    &&& is_float_literal(tok.subrange(0, tok.len() - 3))
    &&& finite(tok.subrange(0, tok.len() - 3))
}

/// Law: a one-line gradient free of comment markers and command
/// substitution whose whitespace-separated tokens are one or more accepted
/// colors, optionally followed by one angle as the last token, is accepted
/// as its trimmed text, whatever the number of colors.
pub proof fn law_colors_then_optional_angle_accepted(
    raw: Seq<char>,
    alpha_ok: spec_fn(Seq<char>) -> bool,
    finite: spec_fn(Seq<char>) -> bool,
    n: int,
)
    requires
        !trim(raw).contains('\n') && !trim(raw).contains('\r') && !trim(raw).contains('#'),
        !trim(raw).contains('`') && !contains_seq(trim(raw), "$("@),
        1 <= n,
        n == ws_tokens(trim(raw)).len() || n + 1 == ws_tokens(trim(raw)).len(),
        forall|j: int| 0 <= j < n ==> (color_parse(#[trigger] ws_tokens(trim(raw))[j], alpha_ok) is Ok),
        n + 1 == ws_tokens(trim(raw)).len() ==> angle_token(ws_tokens(trim(raw))[n], finite),
    ensures
        gradient_parse(raw, alpha_ok, finite) == Ok::<Seq<char>, GradientError>(trim(raw)),
{
    reveal_strlit("deg");
    let t = trim(raw);
    let toks = ws_tokens(t);
    if t.len() == 0 {
        assert(toks =~= Seq::<Seq<char>>::empty());
    }
    lemma_runs_clean(t);
    if n + 1 == toks.len() {
        let tok = toks[n];
        assert(strip_suffix(tok, "deg"@) == Some(tok.subrange(0, tok.len() - 3)));
        assert(tok.subrange(0, tok.len() - 3).len() > 0);
    }
    lemma_colors_then_angle(toks, 0, 0, n, alpha_ok, finite);
}

/// Law: a gradient that is a lone angle, with no color before it, is
/// refused for having no color.
pub proof fn law_lone_angle_has_no_color(
    raw: Seq<char>,
    alpha_ok: spec_fn(Seq<char>) -> bool,
    finite: spec_fn(Seq<char>) -> bool,
)
    requires
        !trim(raw).contains('\n') && !trim(raw).contains('\r') && !trim(raw).contains('#'),
        !trim(raw).contains('`') && !contains_seq(trim(raw), "$("@),
        ws_tokens(trim(raw)).len() == 1,
        angle_token(ws_tokens(trim(raw))[0], finite),
    ensures
        gradient_parse(raw, alpha_ok, finite) == Err::<Seq<char>, GradientError>(GradientError::NoColor),
{
    reveal_strlit("deg");
    let t = trim(raw);
    let toks = ws_tokens(t);
    if t.len() == 0 {
        assert(toks =~= Seq::<Seq<char>>::empty());
    }
    let tok = toks[0];
    assert(strip_suffix(tok, "deg"@) == Some(tok.subrange(0, tok.len() - 3)));
    assert(tok.subrange(0, tok.len() - 3).len() > 0);
    assert(tokens_check(toks, 1, true, 0, alpha_ok, finite) == Err::<(), GradientError>(GradientError::NoColor));
}

} // verus!
