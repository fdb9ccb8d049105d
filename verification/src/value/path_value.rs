//! Single-line file paths that cannot carry a config comment or anything
//! that looks like a shell command.
use vstd::prelude::*;
use crate::text::{lemma_trim_idempotent, chars_of, contains_exec, contains_seq, has_char, string_from, trim, trim_range};

verus! {

/// The command-like tokens a path may not contain, in the order they are checked.
#[derive(Debug, Clone, Copy, PartialEq, Eq, Structural)]
pub enum CommandToken {
    Backtick,
    DollarParen,
    Semicolon,
    Pipe,
    AndAnd,
    OrOr,
}

/// Why a path value was refused.
#[derive(Debug, Clone, Copy, PartialEq, Eq, Structural)]
pub enum PathValueError {
    Empty,
    MultipleLines,
    CommentMarker,
    CommandLike(CommandToken),
}

pub open spec fn token_text(t: CommandToken) -> Seq<char> {
    match t {
        CommandToken::Backtick => "`"@,
        CommandToken::DollarParen => "$("@,
        CommandToken::Semicolon => ";"@,
        CommandToken::Pipe => "|"@,
        CommandToken::AndAnd => "&&"@,
        CommandToken::OrOr => "||"@,
    }
}

/// What `PathValue::parse` decides for `raw`.
pub open spec fn path_parse(raw: Seq<char>) -> Result<Seq<char>, PathValueError> {
    let t = trim(raw);
    if t.len() == 0 {
        Err(PathValueError::Empty)
    } else if t.contains('\n') || t.contains('\r') {
        Err(PathValueError::MultipleLines)
    } else if t.contains('#') {
        Err(PathValueError::CommentMarker)
    } else if contains_seq(t, token_text(CommandToken::Backtick)) {
        Err(PathValueError::CommandLike(CommandToken::Backtick))
    } else if contains_seq(t, token_text(CommandToken::DollarParen)) {
        Err(PathValueError::CommandLike(CommandToken::DollarParen))
    } else if contains_seq(t, token_text(CommandToken::Semicolon)) {
        Err(PathValueError::CommandLike(CommandToken::Semicolon))
    } else if contains_seq(t, token_text(CommandToken::Pipe)) {
        Err(PathValueError::CommandLike(CommandToken::Pipe))
    } else if contains_seq(t, token_text(CommandToken::AndAnd)) {
        Err(PathValueError::CommandLike(CommandToken::AndAnd))
    } else if contains_seq(t, token_text(CommandToken::OrOr)) {
        Err(PathValueError::CommandLike(CommandToken::OrOr))
    } else {
        Ok(t)
    }
}

/// A validated path, kept as the trimmed text.
#[derive(Debug, Clone, PartialEq, Eq)]
pub struct PathValue {
    raw: String,
}

impl View for PathValue {
    type V = Seq<char>;

    closed spec fn view(&self) -> Seq<char> {
        self.raw@
    }
}

pub open spec fn path_result_view(r: Result<PathValue, PathValueError>) -> Result<
    Seq<char>,
    PathValueError,
> {
    match r {
        Ok(v) => Ok(v@),
        Err(e) => Err(e),
    }
}

/// The text of a command-like token.
pub fn command_token_text(t: CommandToken) -> (r: &'static str)
    ensures
        r@ == token_text(t),
{
    match t {
        CommandToken::Backtick => "`",
        CommandToken::DollarParen => "$(",
        CommandToken::Semicolon => ";",
        CommandToken::Pipe => "|",
        CommandToken::AndAnd => "&&",
        CommandToken::OrOr => "||",
    }
}

fn contains_token(v: &Vec<char>, lo: usize, hi: usize, t: CommandToken) -> (r: bool)
    requires
        lo <= hi <= v.len(),
    ensures
        r == contains_seq(v@.subrange(lo as int, hi as int), token_text(t)),
{
    let p = chars_of(command_token_text(t));
    contains_exec(v, lo, hi, &p)
}

impl PathValue {
    pub fn parse(raw: &str) -> (r: Result<PathValue, PathValueError>)
        ensures
            path_result_view(r) == path_parse(raw@),
    {
        let v = chars_of(raw);
        assert(v@.subrange(0, v@.len() as int) =~= raw@);
        let (a, b) = trim_range(&v, 0, v.len());
        if a == b {
            return Err(PathValueError::Empty);
        }
        if has_char(&v, a, b, '\n') || has_char(&v, a, b, '\r') {
            return Err(PathValueError::MultipleLines);
        }
        if has_char(&v, a, b, '#') {
            return Err(PathValueError::CommentMarker);
        }
        if contains_token(&v, a, b, CommandToken::Backtick) {
            return Err(PathValueError::CommandLike(CommandToken::Backtick));
        }
        if contains_token(&v, a, b, CommandToken::DollarParen) {
            return Err(PathValueError::CommandLike(CommandToken::DollarParen));
        }
        if contains_token(&v, a, b, CommandToken::Semicolon) {
            return Err(PathValueError::CommandLike(CommandToken::Semicolon));
        }
        if contains_token(&v, a, b, CommandToken::Pipe) {
            return Err(PathValueError::CommandLike(CommandToken::Pipe));
        }
        if contains_token(&v, a, b, CommandToken::AndAnd) {
            return Err(PathValueError::CommandLike(CommandToken::AndAnd));
        }
        if contains_token(&v, a, b, CommandToken::OrOr) {
            return Err(PathValueError::CommandLike(CommandToken::OrOr));
        }
        Ok(PathValue { raw: string_from(&v, a, b) })
    }

    pub fn serialize(&self) -> (r: &str)
        ensures
            r@ == self@,
    {
        self.raw.as_str()
    }
}

/// Law: the text a path parse accepted parses again to the same text.
pub proof fn law_path_round_trip(raw: Seq<char>)
    requires
        path_parse(raw) is Ok,
    ensures
        path_parse(path_parse(raw)->Ok_0) == path_parse(raw),
{
    lemma_trim_idempotent(raw);
}


/// The message shown for each refusal; a command-like token is quoted as
/// `Debug` quotes it.
pub open spec fn path_error_message(e: PathValueError) -> Seq<char> {
    match e {
        PathValueError::Empty => "path value cannot be empty"@,
        PathValueError::MultipleLines => "path value cannot span multiple lines"@,
        PathValueError::CommentMarker => "path value cannot contain config comment marker"@,
        PathValueError::CommandLike(t) => "path value cannot contain command-like token \""@
            + token_text(t) + "\""@,
    }
}

impl PathValueError {
    pub fn message(&self) -> (r: String)
        ensures
            r@ == path_error_message(*self),
    {
        match *self {
            PathValueError::Empty => "path value cannot be empty".to_owned(),
            PathValueError::MultipleLines => "path value cannot span multiple lines".to_owned(),
            PathValueError::CommentMarker => "path value cannot contain config comment marker".to_owned(),
            PathValueError::CommandLike(t) => {
                let mut s = "path value cannot contain command-like token \"".to_owned();
                crate::text::append_str(&mut s, command_token_text(t));
                crate::text::append_str(&mut s, "\"");
                s
            },
        }
    }
}

} // verus!
