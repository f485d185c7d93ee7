//! The arguments of the function-instrumenting annotation: nothing, a message
//! literal, or `message = "..."`.

use vstd::prelude::*;

use crate::text::is_message_field;

verus! {

/// One token of the annotation's arguments.
#[derive(Debug, Clone, PartialEq, Eq)]
pub enum ArgToken {
    /// An identifier.
    Ident(String),
    /// A punctuation character.
    Punct(char),
    /// A string literal, given by its value.
    Str(String),
    /// Any other token.
    Other,
}

/// The mathematical content of an [`ArgToken`].
pub ghost enum ArgTokenView {
    Ident(Seq<char>),
    Punct(char),
    Str(Seq<char>),
    Other,
}

impl View for ArgToken {
    type V = ArgTokenView;

    open spec fn view(&self) -> ArgTokenView {
        match self {
            ArgToken::Ident(s) => ArgTokenView::Ident(s@),
            ArgToken::Punct(c) => ArgTokenView::Punct(*c),
            ArgToken::Str(s) => ArgTokenView::Str(s@),
            ArgToken::Other => ArgTokenView::Other,
        }
    }
}

/// Why the annotation's arguments were refused.
#[derive(Debug, Clone, Copy, PartialEq, Eq, Structural)]
pub enum ArgsError {
    /// `message = ` is followed by something other than one string literal.
    ExpectedStringLiteral,
    /// The arguments are neither a string literal nor `message = "..."`.
    ExpectedMessageAssignment,
    /// A string literal is followed by more tokens.
    UnexpectedToken,
}

/// The message that the arguments `t` ask for, or why they are refused.
pub open spec fn spec_parse_args(t: Seq<ArgTokenView>) -> Result<Option<Seq<char>>, ArgsError> {
    if t.len() == 0 {
        Ok(None)
    } else if t[0] is Str {
        if t.len() == 1 {
            Ok(Some(t[0]->Str_0))
        } else {
            Err(ArgsError::UnexpectedToken)
        }
    } else if t.len() >= 2 && t[0] == ArgTokenView::Ident("message"@) && t[1]
        == ArgTokenView::Punct('=') {
        if t.len() == 3 && t[2] is Str {
            Ok(Some(t[2]->Str_0))
        } else {
            Err(ArgsError::ExpectedStringLiteral)
        }
    } else {
        Err(ArgsError::ExpectedMessageAssignment)
    }
}

/// The view of a parse result.
pub open spec fn parsed_view(r: Result<Option<String>, ArgsError>) -> Result<
    Option<Seq<char>>,
    ArgsError,
> {
    match r {
        Ok(Some(s)) => Ok(Some(s@)),
        Ok(None) => Ok(None),
        Err(e) => Err(e),
    }
}

fn is_message_ident(t: &ArgToken) -> (r: bool)
    ensures
        r == (t@ == ArgTokenView::Ident("message"@)),
{
    match t {
        ArgToken::Ident(s) => is_message_field(s.as_str()),
        _ => false,
    }
}

fn is_assign(t: &ArgToken) -> (r: bool)
    ensures
        r == (t@ == ArgTokenView::Punct('=')),
{
    match t {
        ArgToken::Punct(c) => *c == '=',
        _ => false,
    }
}

/// Parses the annotation's arguments into the interval's begin message, if any.
pub fn parse_instrument_args(tokens: &Vec<ArgToken>) -> (r: Result<Option<String>, ArgsError>)
    ensures
        parsed_view(r) == spec_parse_args(tokens@.map_values(|t: ArgToken| t@)),
{
    let ghost t = tokens@.map_values(|t: ArgToken| t@);
    let n = tokens.len();
    if n == 0 {
        return Ok(None);
    }
    assert(t[0] == tokens@[0]@);
    if let ArgToken::Str(s) = &tokens[0] {
        if n == 1 {
            return Ok(Some(s.clone()));
        }
        return Err(ArgsError::UnexpectedToken);
    }
    if n >= 2 && is_message_ident(&tokens[0]) && is_assign(&tokens[1]) {
        assert(t[1] == tokens@[1]@);
        if n == 3 {
            assert(t[2] == tokens@[2]@);
            if let ArgToken::Str(s) = &tokens[2] {
                return Ok(Some(s.clone()));
            }
        }
        return Err(ArgsError::ExpectedStringLiteral);
    }
    Err(ArgsError::ExpectedMessageAssignment)
}

} // verus!
