//! Scroll-point lists: a step followed by at least one point, written as
//! space-separated numbers. The text is checked here; whether a number is
//! finite and whether the step is positive is answered by the caller for
//! each token that reads as a float.
use vstd::prelude::*;
use crate::id_list::strings_view;
use crate::text::{
    chars_of, contains_exec, contains_seq, has_char, range_views, ranges_within, split_ws,
    string_from, trim, trim_range, ws_tokens,
};
use crate::value::color::{callable, describes};
use crate::value::number::{float_literal, is_float_literal};

verus! {

/// Why a numeric list was refused.
#[derive(Debug, Clone, PartialEq, Eq)]
pub enum NumericListError {
    Empty,
    MultipleLines,
    CommaSeparated,
    CommentMarker,
    CommandSubstitution,
    NotNumeric { token: String },
    NotFinite,
    TooFewNumbers,
    StepNotPositive,
}

/// The meaning of a `NumericListError`, the token as characters.
pub enum NumericListIssue {
    Empty,
    MultipleLines,
    CommaSeparated,
    CommentMarker,
    CommandSubstitution,
    NotNumeric(Seq<char>),
    NotFinite,
    TooFewNumbers,
    StepNotPositive,
}

impl View for NumericListError {
    type V = NumericListIssue;

    open spec fn view(&self) -> NumericListIssue {
        match self {
            NumericListError::Empty => NumericListIssue::Empty,
            NumericListError::MultipleLines => NumericListIssue::MultipleLines,
            NumericListError::CommaSeparated => NumericListIssue::CommaSeparated,
            NumericListError::CommentMarker => NumericListIssue::CommentMarker,
            NumericListError::CommandSubstitution => NumericListIssue::CommandSubstitution,
            NumericListError::NotNumeric { token } => NumericListIssue::NotNumeric(token@),
            NumericListError::NotFinite => NumericListIssue::NotFinite,
            NumericListError::TooFewNumbers => NumericListIssue::TooFewNumbers,
            NumericListError::StepNotPositive => NumericListIssue::StepNotPositive,
        }
    }
}

/// The first token from `i` on that is not a float literal, or not finite
/// as `finite` decides.
pub open spec fn token_issue(toks: Seq<Seq<char>>, i: int, finite: spec_fn(Seq<char>) -> bool) -> Option<
    NumericListIssue,
>
    decreases toks.len() - i,
{
    if i < 0 || i >= toks.len() {
        None
    } else if !is_float_literal(toks[i]) {
        Some(NumericListIssue::NotNumeric(toks[i]))
    } else if !finite(toks[i]) {
        Some(NumericListIssue::NotFinite)
    } else {
        token_issue(toks, i + 1, finite)
    }
}

/// What a numeric list parse decides for `raw`: the trimmed text and its
/// tokens on success.
pub open spec fn numeric_list_parse(
    raw: Seq<char>,
    finite: spec_fn(Seq<char>) -> bool,
    positive: spec_fn(Seq<char>) -> bool,
) -> Result<(Seq<char>, Seq<Seq<char>>), NumericListIssue> {
    let t = trim(raw);
    let toks = ws_tokens(t);
    if t.len() == 0 {
        Err(NumericListIssue::Empty)
    } else if t.contains('\n') || t.contains('\r') {
        Err(NumericListIssue::MultipleLines)
    } else if t.contains(',') {
        Err(NumericListIssue::CommaSeparated)
    } else if t.contains('#') {
        Err(NumericListIssue::CommentMarker)
    } else if t.contains('`') || contains_seq(t, "$("@) {
        Err(NumericListIssue::CommandSubstitution)
    } else if let Some(issue) = token_issue(toks, 0, finite) {
        Err(issue)
    } else if toks.len() < 2 {
        Err(NumericListIssue::TooFewNumbers)
    } else if !positive(toks[0]) {
        Err(NumericListIssue::StepNotPositive)
    } else {
        Ok((t, toks))
    }
}

/// An accepted numeric list: the trimmed text and its number tokens, in
/// order, the first being the step.
#[derive(Debug, Clone, PartialEq, Eq)]
pub struct NumericListText {
    raw: String,
    tokens: Vec<String>,
}

impl View for NumericListText {
    type V = (Seq<char>, Seq<Seq<char>>);

    closed spec fn view(&self) -> (Seq<char>, Seq<Seq<char>>) {
        (self.raw@, strings_view(self.tokens@))
    }
}

pub open spec fn numeric_list_result_view(r: Result<NumericListText, NumericListError>) -> Result<
    (Seq<char>, Seq<Seq<char>>),
    NumericListIssue,
> {
    match r {
        Ok(v) => Ok(v@),
        Err(e) => Err(e@),
    }
}

impl NumericListText {
    /// Parses a numeric list. `finite` answers, for a token that is a float
    /// literal, whether its `f64` value is finite; `positive`, for the step
    /// token, whether its value is above zero.
    pub fn parse<F: Fn(&str) -> bool, G: Fn(&str) -> bool>(raw: &str, finite: &F, positive: &G) -> (r:
        Result<NumericListText, NumericListError>)
        requires
            callable(*finite),
            callable(*positive),
        ensures
            forall|fin: spec_fn(Seq<char>) -> bool, pos: spec_fn(Seq<char>) -> bool|
                #![trigger describes(*finite, fin), describes(*positive, pos)]
                describes(*finite, fin) && describes(*positive, pos)
                    ==> numeric_list_result_view(r) == numeric_list_parse(raw@, fin, pos),
    {
        let v = chars_of(raw);
        assert(v@.subrange(0, v@.len() as int) =~= raw@);
        let (a, b) = trim_range(&v, 0, v.len());
        let ghost t = v@.subrange(a as int, b as int);
        assert(trim(raw@) == t);
        if a == b {
            return Err(NumericListError::Empty);
        }
        if has_char(&v, a, b, '\n') || has_char(&v, a, b, '\r') {
            return Err(NumericListError::MultipleLines);
        }
        if has_char(&v, a, b, ',') {
            return Err(NumericListError::CommaSeparated);
        }
        if has_char(&v, a, b, '#') {
            return Err(NumericListError::CommentMarker);
        }
        let subst = chars_of("$(");
        if has_char(&v, a, b, '`') || contains_exec(&v, a, b, &subst) {
            return Err(NumericListError::CommandSubstitution);
        }
        let toks = split_ws(&v, a, b);
        let ghost tv = ws_tokens(t);
        let mut tokens: Vec<String> = Vec::new();
        let mut i: usize = 0;
        while i < toks.len()
            invariant
                i <= toks.len(),
                b <= v.len(),
                ranges_within(toks@, a as int, b as int),
                range_views(v@, toks@) == tv,
                tv.len() == toks@.len(),
                strings_view(tokens@) == tv.take(i as int),
                t == v@.subrange(a as int, b as int),
                trim(raw@) == t,
                t.len() > 0,
                tv == ws_tokens(t),
                !(t.contains('\n') || t.contains('\r')),
                !t.contains(','),
                !t.contains('#'),
                !(t.contains('`') || contains_seq(t, "$("@)),
                callable(*finite),
                forall|fin: spec_fn(Seq<char>) -> bool| #[trigger]
                    describes(*finite, fin) ==> token_issue(tv, 0, fin) == token_issue(
                        tv,
                        i as int,
                        fin,
                    ),
            decreases toks.len() - i,
        {
            let (x, y) = toks[i];
            assert(tv[i as int] == v@.subrange(x as int, y as int));
            let text = string_from(&v, x, y);
            if !float_literal(&v, x, y) {
                return Err(NumericListError::NotNumeric { token: text });
            }
            if !finite(text.as_str()) {
                return Err(NumericListError::NotFinite);
            }
            let ghost before = tokens@;
            let ghost tx = text@;
            tokens.push(text);
            assert(strings_view(tokens@) =~= strings_view(before).push(tx));
            assert(tv.take(i + 1) =~= tv.take(i as int).push(tv[i as int]));
            i = i + 1;
        }
        assert(tv.take(i as int) =~= tv);
        if tokens.len() < 2 {
            return Err(NumericListError::TooFewNumbers);
        }
        if !positive(tokens[0].as_str()) {
            return Err(NumericListError::StepNotPositive);
        }
        Ok(NumericListText { raw: string_from(&v, a, b), tokens })
    }

    /// The list text, exactly as accepted.
    pub fn serialize(&self) -> (r: &str)
        ensures
            r@ == self@.0,
    {
        self.raw.as_str()
    }

    /// The number tokens, the step first.
    pub fn tokens(&self) -> (r: &Vec<String>)
        ensures
            strings_view(r@) == self@.1,
    {
        &self.tokens
    }
}

/// The message shown for each refusal.
pub open spec fn numeric_list_message(e: NumericListIssue) -> Seq<char> {
    match e {
        NumericListIssue::Empty => "numeric list cannot be empty"@,
        NumericListIssue::MultipleLines => "numeric list cannot span multiple lines"@,
        NumericListIssue::CommaSeparated => "numeric list must use spaces, not commas"@,
        NumericListIssue::CommentMarker => "numeric list cannot contain config comment marker"@,
        NumericListIssue::CommandSubstitution => "numeric list cannot contain command-substitution syntax"@,
        NumericListIssue::NotNumeric(token) => "numeric list token must be numeric: "@ + token,
        NumericListIssue::NotFinite => "numeric list values must be finite"@,
        NumericListIssue::TooFewNumbers => "scroll points need a step and at least one point"@,
        NumericListIssue::StepNotPositive => "scroll points step must be positive"@,
    }
}

impl NumericListError {
    pub fn message(&self) -> (r: String)
        ensures
            r@ == numeric_list_message(self@),
    {
        match self {
            NumericListError::Empty => "numeric list cannot be empty".to_owned(),
            NumericListError::MultipleLines => "numeric list cannot span multiple lines".to_owned(),
            NumericListError::CommaSeparated => "numeric list must use spaces, not commas".to_owned(),
            NumericListError::CommentMarker => "numeric list cannot contain config comment marker".to_owned(),
            NumericListError::CommandSubstitution => "numeric list cannot contain command-substitution syntax".to_owned(),
            NumericListError::NotNumeric { token } => crate::text::concat2(
                "numeric list token must be numeric: ",
                token.as_str(),
            ),
            NumericListError::NotFinite => "numeric list values must be finite".to_owned(),
            NumericListError::TooFewNumbers => "scroll points need a step and at least one point".to_owned(),
            NumericListError::StepNotPositive => "scroll points step must be positive".to_owned(),
        }
    }
}


/// Law: the text a numeric list parse accepted parses again to the same
/// text and tokens.
pub proof fn law_numeric_list_round_trip(
    raw: Seq<char>,
    finite: spec_fn(Seq<char>) -> bool,
    positive: spec_fn(Seq<char>) -> bool,
)
    requires
        numeric_list_parse(raw, finite, positive) is Ok,
    ensures
        numeric_list_parse(numeric_list_parse(raw, finite, positive)->Ok_0.0, finite, positive)
            == numeric_list_parse(raw, finite, positive),
{
    crate::text::lemma_trim_idempotent(raw);
}

proof fn lemma_no_token_issue(toks: Seq<Seq<char>>, i: int, finite: spec_fn(Seq<char>) -> bool)
    requires
        0 <= i,
        forall|j: int| 0 <= j < toks.len() ==> is_float_literal(#[trigger] toks[j]) && finite(toks[j]),
    ensures
        token_issue(toks, i, finite) is None,
    decreases toks.len() - i,
{
    if i < toks.len() {
        assert(is_float_literal(toks[i]) && finite(toks[i]));
        lemma_no_token_issue(toks, i + 1, finite);
    }
}

/// Law: a one-line list of finite numbers, free of commas, comment markers
/// and command substitution, is refused for too few numbers when it holds
/// one; with two or more it is accepted, as its trimmed text and its
/// tokens, exactly when its first number (the step) is positive; no point
/// after the step has to be positive.
pub proof fn law_finite_list_needs_only_a_positive_step(
    raw: Seq<char>,
    finite: spec_fn(Seq<char>) -> bool,
    positive: spec_fn(Seq<char>) -> bool,
)
    requires
        !trim(raw).contains('\n') && !trim(raw).contains('\r'),
        !trim(raw).contains(',') && !trim(raw).contains('#'),
        !trim(raw).contains('`') && !contains_seq(trim(raw), "$("@),
        ws_tokens(trim(raw)).len() >= 1,
        forall|j: int| 0 <= j < ws_tokens(trim(raw)).len() ==> is_float_literal(
            #[trigger] ws_tokens(trim(raw))[j],
        ) && finite(ws_tokens(trim(raw))[j]),
    ensures
        ws_tokens(trim(raw)).len() == 1 ==> numeric_list_parse(raw, finite, positive) == Err::<
            (Seq<char>, Seq<Seq<char>>),
            NumericListIssue,
        >(NumericListIssue::TooFewNumbers),
        ws_tokens(trim(raw)).len() >= 2 && positive(ws_tokens(trim(raw))[0]) ==> numeric_list_parse(
            raw,
            finite,
            positive,
        ) == Ok::<_, NumericListIssue>((trim(raw), ws_tokens(trim(raw)))),
        ws_tokens(trim(raw)).len() >= 2 && !positive(ws_tokens(trim(raw))[0]) ==> numeric_list_parse(
            raw,
            finite,
            positive,
        ) == Err::<(Seq<char>, Seq<Seq<char>>), NumericListIssue>(NumericListIssue::StepNotPositive),
{
    let t = trim(raw);
    if t.len() == 0 {
        assert(ws_tokens(t) =~= Seq::<Seq<char>>::empty());
    }
    lemma_no_token_issue(ws_tokens(t), 0, finite);
}

/// Law: only the step is asked whether it is positive; two positivity
/// checks that agree on the first token give the same parse.
pub proof fn law_only_the_step_must_be_positive(
    raw: Seq<char>,
    finite: spec_fn(Seq<char>) -> bool,
    positive1: spec_fn(Seq<char>) -> bool,
    positive2: spec_fn(Seq<char>) -> bool,
)
    requires
        ws_tokens(trim(raw)).len() > 0 ==> positive1(ws_tokens(trim(raw))[0]) == positive2(
            ws_tokens(trim(raw))[0],
        ),
    ensures
        numeric_list_parse(raw, finite, positive1) == numeric_list_parse(raw, finite, positive2),
{
}

} // verus!
