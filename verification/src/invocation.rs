//! One invocation of the macro: its arguments, then the declaration it is
//! put on.

use crate::args::{blank, parse_arguments};
use crate::error::{diagnosis, error_message, Rejection, Violation};
use crate::parse::{declaration_failure, parse_declaration, parse_spec, PhantomType};
use crate::stream::{buffer_of, exhausted, leftover_failure, param_count};
use crate::token::stream_tokens;
use proc_macro2::TokenStream;
use vstd::prelude::*;

verus! {

/// Reads an invocation of the macro.
///
/// The arguments are looked at first. Where they hold a token, the
/// invocation is turned down as an argument violation, whatever the
/// declaration is. Otherwise the declaration is parsed: it is accepted
/// exactly where the grammar finds a declaration in the tokens and nothing
/// behind it, and every failure is a grammar violation.
pub fn parse_invocation(args: TokenStream, input: TokenStream) -> (r: Result<
    PhantomType,
    Rejection,
>)
    ensures
        !blank(stream_tokens(args)) ==> (r matches Err(rejection) && rejection.violation
            == Violation::Argument && error_message(rejection.diagnostic) == "unexpected token"@
            && diagnosis(rejection.diagnostic) == leftover_failure(&buffer_of(args))),
        r matches Ok(parsed) ==> (parse_spec(&buffer_of(input)) matches Some((declaration, rest))
            && parsed@ == declaration && exhausted(&rest)),
        r matches Ok(parsed) ==> param_count(parsed.generics) >= 1,
        r matches Err(rejection) ==> (blank(stream_tokens(args)) ==> rejection.violation
            == Violation::Grammar && (parse_spec(&buffer_of(input)) matches Some((_, rest))
            ==> !exhausted(&rest)) && diagnosis(rejection.diagnostic) == declaration_failure(
            &buffer_of(input),
        )),
{
    match parse_arguments(args) {
        Ok(_) => parse_declaration(input),
        Err(rejection) => Err(rejection),
    }
}

} // verus!
