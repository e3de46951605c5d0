//! Token streams: the mathematical model of a stream, and the few operations
//! of `proc_macro2` and `quote` through which this crate builds one.

use proc_macro2::{Delimiter, Group, Ident, Literal, Punct, Spacing, Span, TokenStream};
use quote::TokenStreamExt;
use vstd::prelude::*;

verus! {

/// The delimiters of a group of tokens.
#[derive(Clone, Copy, Debug, PartialEq, Eq)]
pub enum Delim {
    /// `( ... )`
    Paren,
    /// `{ ... }`
    Brace,
    /// `[ ... ]`
    Bracket,
    /// A group without written delimiters.
    Invisible,
}

/// One token tree, without its source location.
pub ghost enum Tok {
    /// An identifier or keyword, by its text.
    Ident(Seq<char>),
    /// One punctuation character; `joint` when the next token continues the
    /// same operator, as the first `:` of `::` does.
    Punct { ch: char, joint: bool },
    /// A literal, by its text.
    Literal(Seq<char>),
    /// A delimited group and the token trees inside it.
    Group(Delim, Seq<Tok>),
}

/// `proc_macro2::TokenStream`, opaque to the verifier.
#[verifier::external_type_specification]
#[verifier::external_body]
pub struct ExTokenStream(TokenStream);

/// `proc_macro2::Ident`, opaque to the verifier.
#[verifier::external_type_specification]
#[verifier::external_body]
pub struct ExIdent(Ident);

/// `proc_macro2::Span`, opaque to the verifier.
#[verifier::external_type_specification]
#[verifier::external_body]
pub struct ExSpan(Span);

/// The token trees that a stream holds, in order.
pub uninterp spec fn stream_tokens(stream: TokenStream) -> Seq<Tok>;

/// The text of an identifier, as `Ident::to_string` gives it.
pub uninterp spec fn ident_text(ident: Ident) -> Seq<char>;

/// The text of the string literal that `Literal::string` makes for `value`.
pub uninterp spec fn string_literal(value: Seq<char>) -> Seq<char>;

/// Letters, digits and the underscore of ASCII.
pub open spec fn is_word_char(c: char) -> bool {
    ('a' <= c && c <= 'z') || ('A' <= c && c <= 'Z') || ('0' <= c && c <= '9') || c == '_'
}

/// Words that are certain to be accepted as an identifier: ASCII letters,
/// digits and underscores, the first of them no digit.
pub open spec fn is_word(text: Seq<char>) -> bool {
    &&& text.len() > 0
    &&& !('0' <= text[0] && text[0] <= '9')
    &&& forall|i: int| 0 <= i < text.len() ==> is_word_char(#[trigger] text[i])
}

/// The characters that can stand as a punctuation token.
pub open spec fn is_mark(c: char) -> bool {
    c == '!' || c == '#' || c == '$' || c == '%' || c == '&' || c == '\'' || c == '*' || c == '+'
        || c == ',' || c == '-' || c == '.' || c == '/' || c == ':' || c == ';' || c == '<'
        || c == '=' || c == '>' || c == '?' || c == '@' || c == '^' || c == '|' || c == '~'
}

/// The two tokens of `::`.
pub open spec fn colon2() -> Seq<Tok> {
    seq![Tok::Punct { ch: ':', joint: true }, Tok::Punct { ch: ':', joint: false }]
}

/// The two tokens of `->`.
pub open spec fn arrow() -> Seq<Tok> {
    seq![Tok::Punct { ch: '-', joint: true }, Tok::Punct { ch: '>', joint: false }]
}

/// A punctuation character that stands alone.
pub open spec fn mark(ch: char) -> Tok {
    Tok::Punct { ch, joint: false }
}

/// Wraps `TokenStream::new`: the stream that holds no token.
#[verifier::external_body]
pub(crate) fn new_stream() -> (stream: TokenStream)
    ensures
        stream_tokens(stream) == Seq::<Tok>::empty(),
{
    TokenStream::new()
}

/// Wraps `Clone::clone` of `TokenStream`: the copy holds the same tokens.
#[verifier::external_body]
pub(crate) fn clone_stream(stream: &TokenStream) -> (copy: TokenStream)
    ensures
        stream_tokens(copy) == stream_tokens(*stream),
{
    stream.clone()
}

/// Wraps `Extend::extend` of `TokenStream`: the tokens of `more` are put
/// behind those that `stream` holds.
#[verifier::external_body]
pub(crate) fn append_stream(stream: &mut TokenStream, more: TokenStream)
    ensures
        stream_tokens(*final(stream)) == stream_tokens(*old(stream)) + stream_tokens(more),
{
    stream.extend(more);
}

/// Wraps `Ident::new` and `TokenStreamExt::append`: an identifier with the
/// text `word` is put behind the tokens of `stream`. `Ident::new` panics on
/// text that is no identifier; `is_word` leaves such text out.
#[verifier::external_body]
pub(crate) fn push_word(stream: &mut TokenStream, word: &str)
    requires
        is_word(word@),
    ensures
        stream_tokens(*final(stream)) == stream_tokens(*old(stream)).push(Tok::Ident(word@)),
{
    stream.append(Ident::new(word, Span::call_site()));
}

/// Wraps `Punct::new` and `TokenStreamExt::append`: one punctuation
/// character is put behind the tokens of `stream`. `Punct::new` panics on
/// any other character; `is_mark` lists the ones it takes.
#[verifier::external_body]
pub(crate) fn push_mark(stream: &mut TokenStream, ch: char, joint: bool)
    requires
        is_mark(ch),
    ensures
        stream_tokens(*final(stream)) == stream_tokens(*old(stream)).push(Tok::Punct { ch, joint }),
{
    stream.append(Punct::new(ch, if joint { Spacing::Joint } else { Spacing::Alone }));
}

/// Wraps `Group::new` and `TokenStreamExt::append`: a group with the given
/// delimiters around the tokens of `inner` is put behind the tokens of
/// `stream`.
#[verifier::external_body]
pub(crate) fn push_group(stream: &mut TokenStream, delim: Delim, inner: TokenStream)
    ensures
        stream_tokens(*final(stream)) == stream_tokens(*old(stream)).push(
            Tok::Group(delim, stream_tokens(inner)),
        ),
{
    let delimiter = match delim {
        Delim::Paren => Delimiter::Parenthesis,
        Delim::Brace => Delimiter::Brace,
        Delim::Bracket => Delimiter::Bracket,
        Delim::Invisible => Delimiter::None,
    };
    stream.append(Group::new(delimiter, inner));
}

/// Wraps `Literal::string` and `TokenStreamExt::append`: the string literal
/// that stands for `value` is put behind the tokens of `stream`.
#[verifier::external_body]
pub(crate) fn push_string(stream: &mut TokenStream, value: &str)
    ensures
        stream_tokens(*final(stream)) == stream_tokens(*old(stream)).push(
            Tok::Literal(string_literal(value@)),
        ),
{
    stream.append(Literal::string(value));
}

/// Wraps `TokenStreamExt::append` on a copy of an identifier: the
/// identifier, with its text, is put behind the tokens of `stream`.
#[verifier::external_body]
pub(crate) fn push_ident(stream: &mut TokenStream, ident: &Ident)
    ensures
        stream_tokens(*final(stream)) == stream_tokens(*old(stream)).push(
            Tok::Ident(ident_text(*ident)),
        ),
{
    stream.append(ident.clone());
}

/// Wraps `Ident::to_string`: the text of the identifier.
#[verifier::external_body]
pub(crate) fn ident_string(ident: &Ident) -> (text: String)
    ensures
        text@ == ident_text(*ident),
{
    ident.to_string()
}

/// Puts `::` behind the tokens of `stream`.
pub(crate) fn push_colon2(stream: &mut TokenStream)
    ensures
        stream_tokens(*final(stream)) == stream_tokens(*old(stream)) + colon2(),
{
    push_mark(stream, ':', true);
    push_mark(stream, ':', false);
}

/// Puts `->` behind the tokens of `stream`.
pub(crate) fn push_arrow(stream: &mut TokenStream)
    ensures
        stream_tokens(*final(stream)) == stream_tokens(*old(stream)) + arrow(),
{
    push_mark(stream, '-', true);
    push_mark(stream, '>', false);
}

} // verus!
