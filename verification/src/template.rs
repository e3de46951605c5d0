//! The pieces that the generated implementations are made of: attributes,
//! paths into `core`, the header of an `impl`, and the small phrases of their
//! method bodies. Each piece is given twice: the tokens it stands for, and
//! the function that writes them.

use crate::parse::{Declaration, PhantomType};
use crate::token::{
    append_stream, colon2, ident_text, is_word, mark, new_stream, push_colon2, push_group,
    push_ident, push_mark, push_word, stream_tokens, Delim, Tok,
};
use proc_macro2::TokenStream;
use quote::ToTokens;
use syn::Generics;
use vstd::prelude::*;

verus! {

/// The tokens that `ImplGenerics` writes for the generics: the parameters
/// with their bounds, as they stand behind `impl`.
pub uninterp spec fn impl_generics_tokens(generics: Generics) -> Seq<Tok>;

/// The tokens that `TypeGenerics` writes for the generics: the names of
/// the parameters, as they stand behind the name of the type.
pub uninterp spec fn type_generics_tokens(generics: Generics) -> Seq<Tok>;

/// The tokens of the where clause of the generics; none where they have
/// no where clause.
pub uninterp spec fn where_clause_tokens(generics: Generics) -> Seq<Tok>;

/// Wraps `Generics::split_for_impl`, with each of the three parts written
/// out by `ToTokens::to_token_stream`.
#[verifier::external_body]
pub(crate) fn split_for_impl(generics: &Generics) -> (parts: (
    TokenStream,
    TokenStream,
    TokenStream,
))
    ensures
        stream_tokens(parts.0) == impl_generics_tokens(*generics),
        stream_tokens(parts.1) == type_generics_tokens(*generics),
        stream_tokens(parts.2) == where_clause_tokens(*generics),
{
    let (impl_generics, type_generics, where_clause) = generics.split_for_impl();
    (
        impl_generics.to_token_stream(),
        type_generics.to_token_stream(),
        where_clause.to_token_stream(),
    )
}

/// An identifier or keyword with the given text.
pub open spec fn word(text: Seq<char>) -> Tok {
    Tok::Ident(text)
}

/// `#[name]`
pub open spec fn attribute(name: Seq<char>) -> Seq<Tok> {
    seq![mark('#'), Tok::Group(Delim::Bracket, seq![word(name)])]
}

/// `::core::module::item`
pub open spec fn core_path(module: Seq<char>, item: Seq<char>) -> Seq<Tok> {
    colon2() + seq![word("core"@)] + colon2() + seq![word(module)] + colon2() + seq![word(item)]
}

/// `&self`
pub open spec fn receiver() -> Seq<Tok> {
    seq![mark('&'), word("self"@)]
}

/// `&self, other: &Self`
pub open spec fn receiver_and_other() -> Seq<Tok> {
    receiver() + seq![mark(','), word("other"@), mark(':'), mark('&'), word("Self"@)]
}

/// `let _ = name;`
pub open spec fn discard(name: Seq<char>) -> Seq<Tok> {
    seq![word("let"@), word("_"@), mark('='), word(name), mark(';')]
}

/// `#[automatically_derived] impl<..> ::core::module::item for Name<..> where ..`:
/// the implementation is made for every instantiation of the generics.
pub open spec fn impl_header(
    declaration: Declaration,
    module: Seq<char>,
    item: Seq<char>,
) -> Seq<Tok> {
    attribute("automatically_derived"@) + seq![word("impl"@)] + impl_generics_tokens(
        declaration.generics,
    ) + core_path(module, item) + seq![word("for"@), word(ident_text(declaration.ident))]
        + type_generics_tokens(declaration.generics) + where_clause_tokens(declaration.generics)
}

/// `#[inline] fn name(parameters)`
pub open spec fn inline_fn(name: Seq<char>, parameters: Seq<Tok>) -> Seq<Tok> {
    attribute("inline"@) + seq![word("fn"@), word(name), Tok::Group(Delim::Paren, parameters)]
}

/// An implementation: its header and, in braces, its items.
pub open spec fn implementation(header: Seq<Tok>, items: Seq<Tok>) -> Seq<Tok> {
    header + seq![Tok::Group(Delim::Brace, items)]
}

/// Writes `#[name]`.
pub(crate) fn push_attribute(stream: &mut TokenStream, name: &str)
    requires
        is_word(name@),
    ensures
        stream_tokens(*final(stream)) == stream_tokens(*old(stream)) + attribute(name@),
{
    push_mark(stream, '#', false);
    let mut inner = new_stream();
    push_word(&mut inner, name);
    assert(stream_tokens(inner) =~= seq![word(name@)]);
    push_group(stream, Delim::Bracket, inner);
}

/// Writes `::core::module::item`.
pub(crate) fn push_core_path(stream: &mut TokenStream, module: &str, item: &str)
    requires
        is_word(module@),
        is_word(item@),
    ensures
        stream_tokens(*final(stream)) == stream_tokens(*old(stream)) + core_path(module@, item@),
{
    proof {
        reveal_strlit("core");
    }
    push_colon2(stream);
    push_word(stream, "core");
    push_colon2(stream);
    push_word(stream, module);
    push_colon2(stream);
    push_word(stream, item);
}

/// Writes `&self`.
pub(crate) fn push_receiver(stream: &mut TokenStream)
    ensures
        stream_tokens(*final(stream)) == stream_tokens(*old(stream)) + receiver(),
{
    proof {
        reveal_strlit("self");
    }
    push_mark(stream, '&', false);
    push_word(stream, "self");
}

/// Writes `&self, other: &Self`.
pub(crate) fn push_receiver_and_other(stream: &mut TokenStream)
    ensures
        stream_tokens(*final(stream)) == stream_tokens(*old(stream)) + receiver_and_other(),
{
    proof {
        reveal_strlit("other");
        reveal_strlit("Self");
    }
    push_receiver(stream);
    push_mark(stream, ',', false);
    push_word(stream, "other");
    push_mark(stream, ':', false);
    push_mark(stream, '&', false);
    push_word(stream, "Self");
}

/// Writes `let _ = name;`.
pub(crate) fn push_discard(stream: &mut TokenStream, name: &str)
    requires
        is_word(name@),
    ensures
        stream_tokens(*final(stream)) == stream_tokens(*old(stream)) + discard(name@),
{
    proof {
        reveal_strlit("let");
        reveal_strlit("_");
    }
    push_word(stream, "let");
    push_word(stream, "_");
    push_mark(stream, '=', false);
    push_word(stream, name);
    push_mark(stream, ';', false);
}

/// Writes the header of the implementation of `::core::module::item`
/// for the declared type.
pub(crate) fn push_impl_header(
    stream: &mut TokenStream,
    input: &PhantomType,
    module: &str,
    item: &str,
)
    requires
        is_word(module@),
        is_word(item@),
    ensures
        stream_tokens(*final(stream)) == stream_tokens(*old(stream)) + impl_header(
            input@,
            module@,
            item@,
        ),
{
    proof {
        reveal_strlit("automatically_derived");
        reveal_strlit("impl");
        reveal_strlit("for");
    }
    let (impl_generics, type_generics, where_clause) = split_for_impl(&input.generics);
    push_attribute(stream, "automatically_derived");
    push_word(stream, "impl");
    append_stream(stream, impl_generics);
    push_core_path(stream, module, item);
    push_word(stream, "for");
    push_ident(stream, &input.ident);
    append_stream(stream, type_generics);
    append_stream(stream, where_clause);
}

/// Writes `#[inline] fn name(parameters)`.
pub(crate) fn push_inline_fn(stream: &mut TokenStream, name: &str, parameters: TokenStream)
    requires
        is_word(name@),
    ensures
        stream_tokens(*final(stream)) == stream_tokens(*old(stream)) + inline_fn(
            name@,
            stream_tokens(parameters),
        ),
{
    proof {
        reveal_strlit("inline");
        reveal_strlit("fn");
    }
    push_attribute(stream, "inline");
    push_word(stream, "fn");
    push_word(stream, name);
    push_group(stream, Delim::Paren, parameters);
}

/// Puts an implementation together from its header and its items.
pub(crate) fn close_implementation(header: TokenStream, items: TokenStream) -> (block: TokenStream)
    ensures
        stream_tokens(block) == implementation(stream_tokens(header), stream_tokens(items)),
{
    let mut block = header;
    push_group(&mut block, Delim::Brace, items);
    block
}

} // verus!
