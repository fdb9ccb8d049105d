//! Single-line free-form strings that cannot smuggle a config comment or a
//! command substitution into the config file.
use vstd::prelude::*;
use crate::text::{lemma_trim_idempotent, chars_of, contains_exec, contains_seq, has_char, string_from, trim, trim_range};

verus! {

/// Why a string value was refused.
#[derive(Debug, Clone, Copy, PartialEq, Eq, Structural)]
pub enum StringValueError {
    Empty,
    MultipleLines,
    CommentMarker,
    CommandSubstitution,
}

/// What `SanitizedStringValue::parse` decides for `raw`.
pub open spec fn sanitized_parse(raw: Seq<char>) -> Result<Seq<char>, StringValueError> {
    let t = trim(raw);
    if t.len() == 0 {
        Err(StringValueError::Empty)
    } else if t.contains('\n') || t.contains('\r') {
        Err(StringValueError::MultipleLines)
    } else if t.contains('#') {
        Err(StringValueError::CommentMarker)
    } else if t.contains('`') || contains_seq(t, "$("@) {
        Err(StringValueError::CommandSubstitution)
    } else {
        Ok(t)
    }
}

/// A validated line-safe string, kept as the trimmed text.
#[derive(Debug, Clone, PartialEq, Eq)]
pub struct SanitizedStringValue {
    raw: String,
}

impl View for SanitizedStringValue {
    type V = Seq<char>;

    closed spec fn view(&self) -> Seq<char> {
        self.raw@
    }
}

pub open spec fn sanitized_result_view(r: Result<SanitizedStringValue, StringValueError>) -> Result<
    Seq<char>,
    StringValueError,
> {
    match r {
        Ok(v) => Ok(v@),
        Err(e) => Err(e),
    }
}

impl SanitizedStringValue {
    pub fn parse(raw: &str) -> (r: Result<SanitizedStringValue, StringValueError>)
        ensures
            sanitized_result_view(r) == sanitized_parse(raw@),
    {
        let v = chars_of(raw);
        assert(v@.subrange(0, v@.len() as int) =~= raw@);
        let (a, b) = trim_range(&v, 0, v.len());
        if a == b {
            return Err(StringValueError::Empty);
        }
        if has_char(&v, a, b, '\n') || has_char(&v, a, b, '\r') {
            return Err(StringValueError::MultipleLines);
        }
        if has_char(&v, a, b, '#') {
            return Err(StringValueError::CommentMarker);
        }
        let subst = chars_of("$(");
        if has_char(&v, a, b, '`') || contains_exec(&v, a, b, &subst) {
            return Err(StringValueError::CommandSubstitution);
        }
        Ok(SanitizedStringValue { raw: string_from(&v, a, b) })
    }

    pub fn serialize(&self) -> (r: &str)
        ensures
            r@ == self@,
    {
        self.raw.as_str()
    }
}

/// Law: the text a string parse accepted parses again to the same text.
pub proof fn law_sanitized_round_trip(raw: Seq<char>)
    requires
        sanitized_parse(raw) is Ok,
    ensures
        sanitized_parse(sanitized_parse(raw)->Ok_0) == sanitized_parse(raw),
{
    lemma_trim_idempotent(raw);
}


/// The message shown for each refusal.
pub open spec fn string_error_message(e: StringValueError) -> Seq<char> {
    match e {
        StringValueError::Empty => "string value cannot be empty"@,
        StringValueError::MultipleLines => "string value cannot span multiple lines"@,
        StringValueError::CommentMarker => "string value cannot contain config comment marker"@,
        StringValueError::CommandSubstitution => "string value cannot contain command-substitution syntax"@,
    }
}

impl StringValueError {
    pub fn message(&self) -> (r: String)
        ensures
            r@ == string_error_message(*self),
    {
        match *self {
            StringValueError::Empty => "string value cannot be empty".to_owned(),
            StringValueError::MultipleLines => "string value cannot span multiple lines".to_owned(),
            StringValueError::CommentMarker => "string value cannot contain config comment marker".to_owned(),
            StringValueError::CommandSubstitution => "string value cannot contain command-substitution syntax".to_owned(),
        }
    }
}


/// Every accepted path value is also an accepted string value, with the
/// same text: a path refuses all a string refuses, and more.
pub proof fn law_path_is_sanitized_string(raw: Seq<char>)
    requires
        crate::value::path_value::path_parse(raw) is Ok,
    ensures
        sanitized_parse(raw) == Ok::<Seq<char>, StringValueError>(
            crate::value::path_value::path_parse(raw)->Ok_0,
        ),
{
    reveal_strlit("`");
    let t = trim(raw);
    assert(crate::value::path_value::token_text(crate::value::path_value::CommandToken::Backtick)
        =~= seq!['`']);
    if t.contains('`') {
        let i = choose|i: int| 0 <= i < t.len() && t[i] == '`';
        assert(t.subrange(i, i + 1) =~= seq!['`']);
        assert(crate::text::occurs_at(t, "`"@, i));
    }
}

} // verus!
