//! The parse stream of `syn`, as far as this crate reads from it: what stands
//! at the front of a buffer, the parsers of `syn` that take the pieces of a
//! declaration from it, and the three places where `syn` opens a buffer and
//! hands it to a parser of this crate.

use crate::args::{blank, Nothing};
use crate::attr::{attr_args, attr_args_failure, is_named};
use crate::derive::{request_failure, DeriveList};
use crate::error::{diagnosis, diagnosis_at, error_message, Diagnosis};
use crate::parse::{declaration_failure, parse_spec, PhantomType};
use crate::token::{ident_text, stream_tokens, Delim};
use proc_macro2::{Ident, Span, TokenStream};
use syn::parse::{Lookahead1, ParseBuffer, ParseStream, Parser};
use syn::punctuated::Punctuated;
use syn::{Attribute, Generics, Path, Visibility, WhereClause};
use vstd::prelude::*;

verus! {

/// `syn::parse::ParseBuffer`, opaque to the verifier: tokens and a position
/// among them.
#[verifier::external_type_specification]
#[verifier::external_body]
pub struct ExParseBuffer<'a>(ParseBuffer<'a>);

/// `syn::parse::Lookahead1`, opaque to the verifier.
#[verifier::external_type_specification]
#[verifier::external_body]
pub struct ExLookahead1<'a>(Lookahead1<'a>);

/// `syn::Visibility`, opaque to the verifier.
#[verifier::external_type_specification]
#[verifier::external_body]
pub struct ExVisibility(Visibility);

/// `syn::Generics`, opaque to the verifier.
#[verifier::external_type_specification]
#[verifier::external_body]
pub struct ExGenerics(Generics);

/// `syn::WhereClause`, opaque to the verifier.
#[verifier::external_type_specification]
#[verifier::external_body]
pub struct ExWhereClause(WhereClause);

/// `syn::token::Struct`, the keyword `struct` with its span.
#[verifier::external_type_specification]
#[verifier::external_body]
pub struct ExStructToken(syn::token::Struct);

/// `syn::token::Enum`, the keyword `enum` with its span.
#[verifier::external_type_specification]
#[verifier::external_body]
pub struct ExEnumToken(syn::token::Enum);

/// What stands at the front of a buffer, as the parsers of `syn` see it:
/// they look through the invisible groups that macro expansion leaves.
pub ghost enum Lead {
    /// An identifier or a keyword, by its text.
    Word(Seq<char>),
    /// A punctuation character, other than the apostrophe of a lifetime.
    Mark(char),
    /// A group in visible delimiters.
    Group(Delim),
    /// A literal, or the apostrophe of a lifetime.
    Other,
    /// No token.
    Nothing,
}

/// What stands at the front of the buffer.
pub uninterp spec fn lead(buffer: &ParseBuffer) -> Lead;

/// The buffer once the token at its front is taken; a group counts as one
/// token.
pub uninterp spec fn after(buffer: &ParseBuffer) -> ParseBuffer<'static>;

/// The buffer over what the group at the front encloses.
pub uninterp spec fn inside(buffer: &ParseBuffer) -> ParseBuffer<'static>;

/// The span of the group at the front, from its opening to its closing
/// delimiter.
pub uninterp spec fn group_span(buffer: &ParseBuffer) -> Span;

/// The span of what stands at the front of the buffer, as
/// `ParseBuffer::span` gives it; at the end of the buffer, the span that the
/// buffer was opened with.
pub uninterp spec fn span_at(buffer: &ParseBuffer) -> Span;

/// Whether the buffer stands at its end, as `ParseBuffer::is_empty` tells.
pub uninterp spec fn at_end(buffer: &ParseBuffer) -> bool;

/// Whether all of a buffer was parsed: nothing is left in it, nor in any
/// group that a parser opened on the way.
pub uninterp spec fn exhausted(buffer: &ParseBuffer) -> bool;

/// What `syn` says of a buffer that was not parsed to its end.
pub uninterp spec fn leftover_failure(buffer: &ParseBuffer) -> Diagnosis;

/// The buffer that `syn` opens over a token stream, at its first token.
pub uninterp spec fn buffer_of(stream: TokenStream) -> ParseBuffer<'static>;

/// What a lookahead, once made, is looking at.
pub uninterp spec fn looking_at(lookahead: &Lookahead1) -> Lead;

/// Whether a lookahead was made at the end of its buffer.
pub uninterp spec fn looking_at_end(lookahead: &Lookahead1) -> bool;

/// The span at which a lookahead was made.
pub uninterp spec fn looking_span(lookahead: &Lookahead1) -> Span;

/// The tokens that a lookahead was asked for and did not find, each as
/// its diagnostic will show it, in the order of the asking.
pub uninterp spec fn missed(lookahead: &Lookahead1) -> Seq<Seq<char>>;

/// The identifier that stands at the front of the buffer.
pub uninterp spec fn word_at(buffer: &ParseBuffer) -> Ident;

/// The words that `syn` does not take as an identifier: the keywords of
/// Rust and the lone underscore.
pub uninterp spec fn reserved_word(text: Seq<char>) -> bool;

/// The span at which the parser of a punctuation token reports that the
/// token is not at the front of the buffer.
pub uninterp spec fn mark_span(buffer: &ParseBuffer) -> Span;

/// What `Attribute::parse_outer` makes of a buffer: the attributes and the
/// buffer behind them, or nothing where it fails.
pub uninterp spec fn syn_outer_attrs(buffer: &ParseBuffer) -> Option<
    (Seq<Attribute>, ParseBuffer<'static>),
>;

/// What `Attribute::parse_outer` says of a buffer on which it fails.
pub uninterp spec fn syn_outer_attrs_failure(buffer: &ParseBuffer) -> Diagnosis;

/// What the parser of `Visibility` makes of a buffer.
pub uninterp spec fn syn_visibility(buffer: &ParseBuffer) -> Option<
    (Visibility, ParseBuffer<'static>),
>;

/// What the parser of `Visibility` says of a buffer on which it fails.
pub uninterp spec fn syn_visibility_failure(buffer: &ParseBuffer) -> Diagnosis;

/// What the parser of `Generics` makes of a buffer.
pub uninterp spec fn syn_generics(buffer: &ParseBuffer) -> Option<(Generics, ParseBuffer<'static>)>;

/// What the parser of `Generics` says of a buffer on which it fails.
pub uninterp spec fn syn_generics_failure(buffer: &ParseBuffer) -> Diagnosis;

/// What the parser of `Option<WhereClause>` makes of a buffer.
pub uninterp spec fn syn_where_clause(buffer: &ParseBuffer) -> Option<
    (Option<WhereClause>, ParseBuffer<'static>),
>;

/// What the parser of `Option<WhereClause>` says of a buffer on which it
/// fails.
pub uninterp spec fn syn_where_clause_failure(buffer: &ParseBuffer) -> Diagnosis;

/// What `ParseBuffer::parse_terminated` makes of a buffer, with
/// `Path::parse_mod_style` for the items and a comma between them.
pub uninterp spec fn syn_path_list(buffer: &ParseBuffer) -> Option<
    (Seq<Path>, ParseBuffer<'static>),
>;

/// What that parser of a list of paths says of a buffer on which it
/// fails.
pub uninterp spec fn syn_path_list_failure(buffer: &ParseBuffer) -> Diagnosis;

/// How many parameters the generics declare.
pub uninterp spec fn param_count(generics: Generics) -> nat;

/// The generics with their where clause replaced.
pub uninterp spec fn generics_with_where(
    generics: Generics,
    clause: Option<WhereClause>,
) -> Generics;

/// The message of `syn` for an identifier that is not there: it names
/// the keyword that stands in its place, if one does.
pub open spec fn expected_identifier(lead: Lead, at_end: bool) -> Seq<char> {
    match lead {
        Lead::Word(text) => "expected identifier, found keyword `"@ + text + "`"@,
        _ => if at_end {
            "unexpected end of input, expected identifier"@
        } else {
            "expected identifier"@
        },
    }
}

/// What the parser of `Ident` says of a buffer on which it fails.
pub open spec fn ident_failure(buffer: &ParseBuffer) -> Diagnosis {
    diagnosis_at(span_at(buffer), expected_identifier(lead(buffer), at_end(buffer)))
}

/// What the parser of the token `;` says of a buffer on which it fails.
pub open spec fn semi_failure(buffer: &ParseBuffer) -> Diagnosis {
    diagnosis_at(mark_span(buffer), "expected `;`"@)
}

/// What `parse_braces` says of a buffer on which it fails.
pub open spec fn braces_failure(buffer: &ParseBuffer) -> Diagnosis {
    diagnosis_at(span_at(buffer), expected_braces(at_end(buffer)))
}

/// The message of `syn` for braces that are not there.
pub open spec fn expected_braces(at_end: bool) -> Seq<char> {
    if at_end {
        "unexpected end of input, expected curly braces"@
    } else {
        "expected curly braces"@
    }
}

/// The message of `syn` where `struct` and `enum` were looked for, in
/// this order, and neither was found.
pub open spec fn expected_keyword(at_end: bool) -> Seq<char> {
    if at_end {
        "unexpected end of input, expected `struct` or `enum`"@
    } else {
        "expected `struct` or `enum`"@
    }
}

/// A parse stream: the one handle on a buffer of `syn`, which the parsers
/// advance.
///
/// A buffer of `syn` moves on under a shared reference. A stream is
/// therefore made in one place only, where `syn` hands a buffer to a parser
/// of this crate, and it cannot be copied: whoever holds the stream is the
/// only one to read from its buffer.
pub struct Stream<'a> {
    inner: &'a ParseBuffer<'a>,
}

impl<'a> Stream<'a> {
    /// The buffer as it stands.
    pub closed spec fn buffer(&self) -> &ParseBuffer<'a> {
        self.inner
    }
}

/// Wraps `ParseBuffer::span`: the span of what stands at the front.
#[verifier::external_body]
pub(crate) fn front_span(stream: &Stream) -> (span: Span)
    ensures
        span == span_at(stream.buffer()),
{
    stream.inner.span()
}

/// Wraps `ParseBuffer::peek` for the token `<`: true where that character
/// stands at the front. Nothing is taken.
#[verifier::external_body]
pub(crate) fn peek_lt(stream: &Stream) -> (found: bool)
    ensures
        found == (lead(stream.buffer()) == Lead::Mark('<')),
{
    stream.inner.peek(syn::token::Lt)
}

/// Wraps `ParseBuffer::lookahead1`: the lookahead looks at what stands at
/// the front of the stream, and has not been asked for anything yet.
#[verifier::external_body]
pub(crate) fn lookahead1<'a>(stream: &Stream<'a>) -> (lookahead: Lookahead1<'a>)
    ensures
        looking_at(&lookahead) == lead(stream.buffer()),
        looking_at_end(&lookahead) == at_end(stream.buffer()),
        looking_span(&lookahead) == span_at(stream.buffer()),
        missed(&lookahead) == Seq::<Seq<char>>::empty(),
{
    stream.inner.lookahead1()
}

/// Wraps `Lookahead1::peek` for the keyword `struct`: true where the
/// lookahead stands at that word. Where it does not, the lookahead notes
/// what it was asked for.
#[verifier::external_body]
pub(crate) fn peek_struct(lookahead: &mut Lookahead1) -> (found: bool)
    ensures
        found == (looking_at(old(lookahead)) == Lead::Word("struct"@)),
        looking_at(final(lookahead)) == looking_at(old(lookahead)),
        looking_at_end(final(lookahead)) == looking_at_end(old(lookahead)),
        looking_span(final(lookahead)) == looking_span(old(lookahead)),
        found ==> missed(final(lookahead)) == missed(old(lookahead)),
        !found ==> missed(final(lookahead)) == missed(old(lookahead)).push("`struct`"@),
{
    lookahead.peek(syn::token::Struct)
}

/// Wraps `Lookahead1::peek` for the keyword `enum`: true where the
/// lookahead stands at that word. Where it does not, the lookahead notes
/// what it was asked for.
#[verifier::external_body]
pub(crate) fn peek_enum(lookahead: &mut Lookahead1) -> (found: bool)
    ensures
        found == (looking_at(old(lookahead)) == Lead::Word("enum"@)),
        looking_at(final(lookahead)) == looking_at(old(lookahead)),
        looking_at_end(final(lookahead)) == looking_at_end(old(lookahead)),
        looking_span(final(lookahead)) == looking_span(old(lookahead)),
        found ==> missed(final(lookahead)) == missed(old(lookahead)),
        !found ==> missed(final(lookahead)) == missed(old(lookahead)).push("`enum`"@),
{
    lookahead.peek(syn::token::Enum)
}

/// Wraps `Lookahead1::error`: the diagnostic that names the tokens that
/// were looked for, at the place where the lookahead was made. Its text is
/// given here for a lookahead that missed `struct` and then `enum`, and for
/// no other.
#[verifier::external_body]
pub(crate) fn lookahead_error(lookahead: Lookahead1) -> (error: syn::Error)
    ensures
        diagnosis(error) == diagnosis_at(
            looking_span(&lookahead),
            expected_keyword(looking_at_end(&lookahead)),
        ) || missed(&lookahead) != seq!["`struct`"@, "`enum`"@],
{
    lookahead.error()
}

/// Wraps the parser of the keyword `struct`: it succeeds where that word
/// stands at the front, and takes it.
#[verifier::external_body]
pub(crate) fn parse_struct(stream: &mut Stream) -> (r: Result<syn::token::Struct, syn::Error>)
    ensures
        r is Ok <==> lead(old(stream).buffer()) == Lead::Word("struct"@),
        r is Ok ==> *final(stream).buffer() == after(old(stream).buffer()),
{
    stream.inner.parse::<syn::token::Struct>()
}

/// Wraps the parser of the keyword `enum`: it succeeds where that word
/// stands at the front, and takes it.
#[verifier::external_body]
pub(crate) fn parse_enum(stream: &mut Stream) -> (r: Result<syn::token::Enum, syn::Error>)
    ensures
        r is Ok <==> lead(old(stream).buffer()) == Lead::Word("enum"@),
        r is Ok ==> *final(stream).buffer() == after(old(stream).buffer()),
{
    stream.inner.parse::<syn::token::Enum>()
}

/// Wraps the parser of `Ident`: it succeeds where a word that is not
/// reserved stands at the front, and takes it. Its diagnostic stands at the
/// front of the buffer and says that an identifier was expected.
#[verifier::external_body]
pub(crate) fn parse_ident(stream: &mut Stream) -> (r: Result<Ident, syn::Error>)
    ensures
        r is Ok <==> (lead(old(stream).buffer()) matches Lead::Word(text) && !reserved_word(text)),
        r matches Ok(ident) ==> ident == word_at(old(stream).buffer()) && lead(
            old(stream).buffer(),
        ) == Lead::Word(ident_text(ident)) && *final(stream).buffer() == after(
            old(stream).buffer(),
        ),
        r matches Err(error) ==> diagnosis(error) == diagnosis_at(
            span_at(old(stream).buffer()),
            expected_identifier(lead(old(stream).buffer()), at_end(old(stream).buffer())),
        ),
{
    stream.inner.parse::<Ident>()
}

/// Wraps the parser of the token `;`: it succeeds where that character
/// stands at the front, and takes it. Its diagnostic says what was expected.
#[verifier::external_body]
pub(crate) fn parse_semi(stream: &mut Stream) -> (r: Result<(), syn::Error>)
    ensures
        r is Ok <==> lead(old(stream).buffer()) == Lead::Mark(';'),
        r is Ok ==> *final(stream).buffer() == after(old(stream).buffer()),
        r matches Err(error) ==> diagnosis(error) == diagnosis_at(
            mark_span(old(stream).buffer()),
            "expected `;`"@,
        ),
{
    stream.inner.parse::<syn::token::Semi>().map(|_| ())
}

/// Wraps `parse_braces`, which the macro `braced!` of `syn` calls, and
/// `ParseBuffer::is_empty` on what the braces enclose. It succeeds where a
/// group in braces stands at the front, takes it, and tells whether the
/// braces enclose nothing and what their span is. Its diagnostic stands at
/// the front of the buffer and says what was expected, and that the input
/// ended where it did.
#[verifier::external_body]
pub(crate) fn parse_braces(stream: &mut Stream) -> (r: Result<(bool, Span), syn::Error>)
    ensures
        r is Ok <==> lead(old(stream).buffer()) == Lead::Group(Delim::Brace),
        r matches Ok(found) ==> found.0 == at_end(&inside(old(stream).buffer())) && found.1
            == group_span(old(stream).buffer()) && *final(stream).buffer() == after(
            old(stream).buffer(),
        ),
        r matches Err(error) ==> diagnosis(error) == diagnosis_at(
            span_at(old(stream).buffer()),
            expected_braces(at_end(old(stream).buffer())),
        ),
{
    syn::__private::parse_braces(stream.inner)
        .map(|braces| (braces.content.is_empty(), braces.token.span.join()))
}

/// Wraps `Attribute::parse_outer`: the attributes at the front of the
/// stream, which it takes.
#[verifier::external_body]
pub(crate) fn parse_outer_attrs(stream: &mut Stream) -> (r: Result<Vec<Attribute>, syn::Error>)
    ensures
        r matches Ok(attrs) ==> syn_outer_attrs(old(stream).buffer()) == Some(
            (attrs@, *final(stream).buffer()),
        ),
        r is Err ==> syn_outer_attrs(old(stream).buffer()) is None,
        r matches Err(error) ==> diagnosis(error) == syn_outer_attrs_failure(old(stream).buffer()),
{
    stream.inner.call(Attribute::parse_outer)
}

/// Wraps the parser of `Visibility`.
#[verifier::external_body]
pub(crate) fn parse_visibility(stream: &mut Stream) -> (r: Result<Visibility, syn::Error>)
    ensures
        r matches Ok(vis) ==> syn_visibility(old(stream).buffer()) == Some(
            (vis, *final(stream).buffer()),
        ),
        r is Err ==> syn_visibility(old(stream).buffer()) is None,
        r matches Err(error) ==> diagnosis(error) == syn_visibility_failure(old(stream).buffer()),
{
    stream.inner.parse::<Visibility>()
}

/// Wraps the parser of `Generics`.
#[verifier::external_body]
pub(crate) fn parse_generics(stream: &mut Stream) -> (r: Result<Generics, syn::Error>)
    ensures
        r matches Ok(generics) ==> syn_generics(old(stream).buffer()) == Some(
            (generics, *final(stream).buffer()),
        ),
        r is Err ==> syn_generics(old(stream).buffer()) is None,
        r matches Err(error) ==> diagnosis(error) == syn_generics_failure(old(stream).buffer()),
{
    stream.inner.parse::<Generics>()
}

/// Reads the length of the field `params` of `Generics`.
#[verifier::external_body]
pub(crate) fn count_params(generics: &Generics) -> (count: usize)
    ensures
        count == param_count(*generics),
{
    generics.params.len()
}

/// Wraps the parser of `Option<WhereClause>`.
#[verifier::external_body]
pub(crate) fn parse_where_clause(stream: &mut Stream) -> (r: Result<
    Option<WhereClause>,
    syn::Error,
>)
    ensures
        r matches Ok(clause) ==> syn_where_clause(old(stream).buffer()) == Some(
            (clause, *final(stream).buffer()),
        ),
        r is Err ==> syn_where_clause(old(stream).buffer()) is None,
        r matches Err(error) ==> diagnosis(error) == syn_where_clause_failure(
            old(stream).buffer(),
        ),
{
    stream.inner.parse::<Option<WhereClause>>()
}

/// Puts a where clause into the field `where_clause` of `Generics`; the
/// parameters stay.
#[verifier::external_body]
pub(crate) fn with_where_clause(generics: Generics, clause: Option<WhereClause>) -> (r: Generics)
    ensures
        r == generics_with_where(generics, clause),
        param_count(r) == param_count(generics),
{
    Generics { where_clause: clause, ..generics }
}

/// Wraps `ParseBuffer::parse_terminated` with `Path::parse_mod_style`
/// and a comma: the paths of a list, which it takes.
#[verifier::external_body]
pub(crate) fn parse_path_list(stream: &mut Stream) -> (r: Result<Vec<Path>, syn::Error>)
    ensures
        r matches Ok(paths) ==> syn_path_list(old(stream).buffer()) == Some(
            (paths@, *final(stream).buffer()),
        ),
        r is Err ==> syn_path_list(old(stream).buffer()) is None,
        r matches Err(error) ==> diagnosis(error) == syn_path_list_failure(old(stream).buffer()),
{
    let paths: Punctuated<Path, syn::token::Comma> = stream.inner.parse_terminated(
        Path::parse_mod_style,
        syn::token::Comma,
    )?;
    Ok(paths.into_iter().collect())
}

/// Wraps `Parser::parse2` of `syn`, run with `Nothing::parse` on the one
/// stream over the buffer that `syn` opens. That parser takes nothing, and
/// `parse2` fails where something is left over once the parser is done,
/// invisible groups that hold nothing aside. Its diagnostic calls what is
/// left over an unexpected token.
#[verifier::external_body]
pub(crate) fn run_nothing(args: TokenStream) -> (r: Result<Nothing, syn::Error>)
    ensures
        r is Ok <==> blank(stream_tokens(args)),
        r matches Err(error) ==> diagnosis(error) == leftover_failure(&buffer_of(args))
            && error_message(error) == "unexpected token"@,
{
    let parser = |input: ParseStream| {
        Nothing::parse(&mut Stream { inner: input }).map_err(|r| r.diagnostic)
    };
    parser.parse2(args)
}

/// Wraps `Parser::parse2` of `syn`, run with `PhantomType::parse` on the
/// one stream over the buffer that `syn` opens. It hands on what the parser
/// returns, and turns an accepted declaration down where the buffer was not
/// parsed to its end.
#[verifier::external_body]
pub(crate) fn run_declaration(input: TokenStream) -> (r: Result<PhantomType, syn::Error>)
    ensures
        r matches Ok(parsed) ==> (parse_spec(&buffer_of(input)) matches Some((declaration, rest))
            && parsed@ == declaration && exhausted(&rest)),
        r is Err ==> (parse_spec(&buffer_of(input)) matches Some((_, rest)) ==> !exhausted(&rest)),
        r matches Ok(parsed) ==> param_count(parsed.generics) >= 1,
        r matches Err(error) ==> diagnosis(error) == declaration_failure(&buffer_of(input)),
{
    let parser = |input: ParseStream| {
        PhantomType::parse(&mut Stream { inner: input }).map_err(|r| r.diagnostic)
    };
    parser.parse2(input)
}

/// Wraps `Attribute::parse_args_with`, run with `DeriveList::parse` on
/// the one stream over the arguments of the attribute. It hands on what the
/// parser returns, and turns its list down where the arguments were not
/// parsed to their end. An attribute that is no list is turned down.
/// `parse_args_with` reads the name of the attribute for its diagnostic and
/// panics where there is none; the attribute must therefore be named.
#[verifier::external_body]
pub(crate) fn run_derive_list(attr: &Attribute) -> (r: Result<DeriveList, syn::Error>)
    requires
        is_named(*attr, "derive"@),
    ensures
        r matches Ok(list) ==> (attr_args(*attr) matches Some(buffer) && DeriveList::parse_spec(
            &buffer,
        ) matches Some((derives, rest)) && list.derives@ == derives && exhausted(&rest)),
        r is Err ==> (attr_args(*attr) matches Some(buffer) ==> (DeriveList::parse_spec(
            &buffer,
        ) matches Some((_, rest)) ==> !exhausted(&rest))),
        r matches Err(error) ==> diagnosis(error) == request_failure(*attr),
        r matches Err(error) ==> (attr_args(*attr) is None ==> diagnosis(error)
            == attr_args_failure(*attr)),
{
    attr.parse_args_with(
        |input: ParseStream| {
            DeriveList::parse(&mut Stream { inner: input }).map_err(|r| r.diagnostic)
        },
    )
}

} // verus!
