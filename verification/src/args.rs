//! The arguments of the macro: there are none to give.

use crate::error::{diagnosis, error_message, Rejection, Violation};
use crate::stream::{buffer_of, leftover_failure, run_nothing, Stream};
use crate::token::{stream_tokens, Delim, Tok};
use proc_macro2::TokenStream;
use vstd::prelude::*;

verus! {

/// What the macro takes as arguments: nothing.
pub struct Nothing;

/// Whether a token amounts to nothing: an invisible group around tokens
/// that amount to nothing.
pub open spec fn blank_token(token: Tok) -> bool
    decreases token,
{
    match token {
        Tok::Group(Delim::Invisible, inner) => forall|i: int|
            0 <= i < inner.len() ==> blank_token(#[trigger] inner[i]),
        _ => false,
    }
}

/// Whether a sequence of tokens amounts to nothing: it is empty but for
/// invisible groups that hold nothing themselves.
pub open spec fn blank(tokens: Seq<Tok>) -> bool {
    forall|i: int| 0 <= i < tokens.len() ==> blank_token(#[trigger] tokens[i])
}

impl Nothing {
    /// Parses nothing: it takes no token from the stream and cannot fail.
    pub fn parse(stream: &mut Stream) -> (r: Result<Nothing, Rejection>)
        ensures
            r is Ok,
            *final(stream) == *old(stream),
    {
        Ok(Nothing)
    }
}

/// Reads the arguments of the macro. They are accepted exactly when they
/// hold no token; anything else is an argument violation, reported as an
/// unexpected token.
pub fn parse_arguments(args: TokenStream) -> (r: Result<Nothing, Rejection>)
    ensures
        r is Ok <==> blank(stream_tokens(args)),
        r matches Err(rejection) ==> rejection.violation == Violation::Argument && error_message(
            rejection.diagnostic,
        ) == "unexpected token"@ && diagnosis(rejection.diagnostic) == leftover_failure(
            &buffer_of(args),
        ),
{
    match run_nothing(args) {
        Ok(nothing) => Ok(nothing),
        Err(diagnostic) => Err(Rejection { violation: Violation::Argument, diagnostic }),
    }
}

/// Arguments with a token in them are turned down: where an identifier, a
/// punctuation character, a literal or a group in visible delimiters stands
/// anywhere among them, they do not amount to nothing.
pub proof fn lemma_any_token_is_an_argument(tokens: Seq<Tok>, i: int)
    requires
        0 <= i < tokens.len(),
        !(tokens[i] matches Tok::Group(Delim::Invisible, _)),
    ensures
        !blank(tokens),
{
    assert(!blank_token(tokens[i]));
}

} // verus!
