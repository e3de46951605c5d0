//! Derive requests and their expansion.
//!
//! An attribute `#[derive(..)]` on a phantom type lists capabilities. Each
//! of them is answered by one implementation, written for every
//! instantiation of the generics. As the type holds no data, none of these
//! implementations looks at a value.

use crate::attr::{
    attr_args, attr_args_failure, error_at_path, is_named, path_extent, path_ident,
    path_ident_string, path_is, path_of, same_text,
};
use crate::error::{diagnosis, Diagnosis, Rejection, Violation};
use crate::parse::{Declaration, Kind, PhantomType, Shape};
use crate::stream::{
    exhausted, leftover_failure, parse_path_list, run_derive_list, syn_path_list,
    syn_path_list_failure, Stream,
};
use crate::template::{
    attribute, close_implementation, core_path, discard, impl_header, implementation, inline_fn,
    push_attribute, push_core_path, push_discard, push_impl_header, push_inline_fn,
    push_receiver, push_receiver_and_other, receiver, receiver_and_other, word,
};
use crate::token::{
    append_stream, arrow, colon2, ident_string, ident_text, is_word, mark, new_stream,
    push_arrow, push_colon2, push_group, push_ident, push_mark, push_string, push_word,
    stream_tokens, string_literal, Delim, Tok,
};
use proc_macro2::TokenStream;
use syn::parse::ParseBuffer;
use syn::{Attribute, Path};
use vstd::prelude::*;

verus! {

/// The capabilities that can be derived for a phantom type.
#[derive(Clone, Copy, Debug, PartialEq, Eq, Structural)]
pub enum Derive {
    Copy,
    Clone,
    Default,
    Hash,
    PartialOrd,
    Ord,
    PartialEq,
    Eq,
    Debug,
}

/// The capabilities that one derive attribute asks for, in the order in
/// which it lists them. A capability listed twice is held twice.
pub struct DeriveList {
    pub derives: Vec<Derive>,
}

/// The capability with the given name.
pub open spec fn derive_named(name: Seq<char>) -> Option<Derive> {
    if name == "Copy"@ {
        Some(Derive::Copy)
    } else if name == "Clone"@ {
        Some(Derive::Clone)
    } else if name == "Default"@ {
        Some(Derive::Default)
    } else if name == "Hash"@ {
        Some(Derive::Hash)
    } else if name == "PartialOrd"@ {
        Some(Derive::PartialOrd)
    } else if name == "Ord"@ {
        Some(Derive::Ord)
    } else if name == "PartialEq"@ {
        Some(Derive::PartialEq)
    } else if name == "Eq"@ {
        Some(Derive::Eq)
    } else if name == "Debug"@ {
        Some(Derive::Debug)
    } else {
        None
    }
}

/// The capability that a path names: the path must be the bare name.
pub open spec fn derive_of(path: Path) -> Option<Derive> {
    match path_ident(path) {
        Some(name) => derive_named(name),
        None => None,
    }
}

/// Whether every path names a capability.
pub open spec fn all_supported(paths: Seq<Path>) -> bool {
    forall|i: int| 0 <= i < paths.len() ==> derive_of(#[trigger] paths[i]) is Some
}

/// The capabilities that the paths name, where each of them names one.
pub open spec fn derives_of(paths: Seq<Path>) -> Option<Seq<Derive>> {
    if all_supported(paths) {
        Some(Seq::new(paths.len(), |i: int| derive_of(paths[i])->Some_0))
    } else {
        None
    }
}

/// Whether `i` is the place of the first path that names no capability.
pub open spec fn first_unsupported(paths: Seq<Path>, i: int) -> bool {
    &&& 0 <= i < paths.len()
    &&& derive_of(paths[i]) is None
    &&& forall|j: int| 0 <= j < i ==> derive_of(#[trigger] paths[j]) is Some
}

/// What is said of paths of which one names no capability: that the
/// derive is unsupported, at the first such path.
pub open spec fn unsupported(paths: Seq<Path>) -> Diagnosis {
    Diagnosis {
        message: "unsupported derive"@,
        place: path_extent(paths[choose|i: int| first_unsupported(paths, i)]),
    }
}

/// There is one first path that names no capability, and no other.
pub proof fn lemma_first_unsupported(paths: Seq<Path>, i: int)
    requires
        first_unsupported(paths, i),
    ensures
        (choose|k: int| first_unsupported(paths, k)) == i,
{
    let k = choose|k: int| first_unsupported(paths, k);
    assert(first_unsupported(paths, k));
    if k < i {
        assert(derive_of(paths[k]) is Some);
    }
    if i < k {
        assert(derive_of(paths[i]) is Some);
    }
}

/// Each capability is found under its own name: none of the nine names
/// is taken for another.
pub proof fn lemma_capability_names()
    ensures
        derive_named("Copy"@) == Some(Derive::Copy),
        derive_named("Clone"@) == Some(Derive::Clone),
        derive_named("Default"@) == Some(Derive::Default),
        derive_named("Hash"@) == Some(Derive::Hash),
        derive_named("PartialOrd"@) == Some(Derive::PartialOrd),
        derive_named("Ord"@) == Some(Derive::Ord),
        derive_named("PartialEq"@) == Some(Derive::PartialEq),
        derive_named("Eq"@) == Some(Derive::Eq),
        derive_named("Debug"@) == Some(Derive::Debug),
{
    reveal_strlit("Copy");
    reveal_strlit("Clone");
    reveal_strlit("Default");
    reveal_strlit("Hash");
    reveal_strlit("PartialOrd");
    reveal_strlit("Ord");
    reveal_strlit("PartialEq");
    reveal_strlit("Eq");
    reveal_strlit("Debug");
    assert("Copy"@.len() == 4 && "Copy"@[0] == 'C');
    assert("Clone"@.len() == 5 && "Clone"@[0] == 'C');
    assert("Default"@.len() == 7);
    assert("Hash"@.len() == 4 && "Hash"@[0] == 'H');
    assert("PartialOrd"@.len() == 10);
    assert("Ord"@.len() == 3);
    assert("PartialEq"@.len() == 9);
    assert("Eq"@.len() == 2);
    assert("Debug"@.len() == 5 && "Debug"@[0] == 'D');
}

impl Derive {
    /// The capability with the given name, if there is one.
    pub fn from_name(name: &str) -> (derive: Option<Derive>)
        ensures
            derive == derive_named(name@),
            name@ == "Copy"@ ==> derive == Some(Derive::Copy),
            name@ == "Clone"@ ==> derive == Some(Derive::Clone),
            name@ == "Default"@ ==> derive == Some(Derive::Default),
            name@ == "Hash"@ ==> derive == Some(Derive::Hash),
            name@ == "PartialOrd"@ ==> derive == Some(Derive::PartialOrd),
            name@ == "Ord"@ ==> derive == Some(Derive::Ord),
            name@ == "PartialEq"@ ==> derive == Some(Derive::PartialEq),
            name@ == "Eq"@ ==> derive == Some(Derive::Eq),
            name@ == "Debug"@ ==> derive == Some(Derive::Debug),
    {
        proof {
            lemma_capability_names();
        }
        let name = name.to_owned();
        if same_text(&name, "Copy") {
            Some(Derive::Copy)
        } else if same_text(&name, "Clone") {
            Some(Derive::Clone)
        } else if same_text(&name, "Default") {
            Some(Derive::Default)
        } else if same_text(&name, "Hash") {
            Some(Derive::Hash)
        } else if same_text(&name, "PartialOrd") {
            Some(Derive::PartialOrd)
        } else if same_text(&name, "Ord") {
            Some(Derive::Ord)
        } else if same_text(&name, "PartialEq") {
            Some(Derive::PartialEq)
        } else if same_text(&name, "Eq") {
            Some(Derive::Eq)
        } else if same_text(&name, "Debug") {
            Some(Derive::Debug)
        } else {
            None
        }
    }

    /// The capability that a path names, if it names one.
    pub fn from_path(path: &Path) -> (derive: Option<Derive>)
        ensures
            derive == derive_of(*path),
    {
        match path_ident_string(path) {
            Some(name) => Derive::from_name(name.as_str()),
            None => None,
        }
    }
}

impl DeriveList {
    /// What the grammar of a derive request makes of a buffer: a list of
    /// paths with commas between them, each the bare name of a capability.
    pub open spec fn parse_spec(buffer: &ParseBuffer) -> Option<(Seq<Derive>, ParseBuffer<'static>)> {
        match syn_path_list(buffer) {
            None => None,
            Some((paths, rest)) => match derives_of(paths) {
                None => None,
                Some(derives) => Some((derives, rest)),
            },
        }
    }

    /// What is said of a buffer in which the grammar of a derive request
    /// finds no list of capabilities: what `syn` says where the list is
    /// malformed, and that the derive is unsupported where a path names no
    /// capability.
    pub open spec fn failure(buffer: &ParseBuffer) -> Diagnosis {
        match syn_path_list(buffer) {
            None => syn_path_list_failure(buffer),
            Some((paths, _)) => unsupported(paths),
        }
    }

    /// Resolves the paths of a derive request, in their order.
    ///
    /// It succeeds exactly where every path names a capability. The first
    /// path that names none is reported as an unsupported derive, at that
    /// path.
    pub fn from_paths(paths: &Vec<Path>) -> (r: Result<DeriveList, Rejection>)
        ensures
            r matches Ok(list) ==> derives_of(paths@) == Some(list.derives@),
            r matches Err(rejection) ==> derives_of(paths@) is None && rejection.violation
                == Violation::Derive && diagnosis(rejection.diagnostic) == unsupported(paths@),
    {
        let mut derives: Vec<Derive> = Vec::new();
        let mut i: usize = 0;
        while i < paths.len()
            invariant
                i <= paths.len(),
                derives@.len() == i,
                forall|j: int| 0 <= j < i ==> derive_of(#[trigger] paths@[j]) == Some(derives@[j]),
            decreases paths.len() - i,
        {
            match Derive::from_path(&paths[i]) {
                Some(derive) => derives.push(derive),
                None => {
                    let diagnostic = error_at_path(&paths[i], "unsupported derive");
                    proof {
                        assert(first_unsupported(paths@, i as int));
                        lemma_first_unsupported(paths@, i as int);
                    }
                    return Err(Rejection { violation: Violation::Derive, diagnostic });
                },
            }
            i += 1;
        }
        assert(derives@ =~= Seq::new(paths@.len(), |i: int| derive_of(paths@[i])->Some_0));
        Ok(DeriveList { derives })
    }

    /// Parses the arguments of a derive attribute from the stream.
    ///
    /// It succeeds exactly where the grammar finds a list of capabilities,
    /// and leaves the stream behind that list. Every failure is a derive
    /// violation, and `failure` tells what its diagnostic says: a malformed
    /// list has the diagnostic of `syn`, a path that names no capability is
    /// reported as an unsupported derive.
    pub fn parse(stream: &mut Stream) -> (r: Result<DeriveList, Rejection>)
        ensures
            r matches Ok(list) ==> DeriveList::parse_spec(old(stream).buffer()) == Some(
                (list.derives@, *final(stream).buffer()),
            ),
            r matches Err(rejection) ==> DeriveList::parse_spec(old(stream).buffer()) is None
                && rejection.violation == Violation::Derive && diagnosis(rejection.diagnostic)
                == DeriveList::failure(old(stream).buffer()),
    {
        let paths = match parse_path_list(stream) {
            Ok(paths) => paths,
            Err(diagnostic) => return Err(Rejection { violation: Violation::Derive, diagnostic }),
        };
        DeriveList::from_paths(&paths)
    }
}

/// What a derive attribute asks for: the capabilities in its arguments,
/// where the attribute is a list, the grammar of a derive request finds one
/// in its arguments and nothing is left behind it.
pub open spec fn requested(attr: Attribute) -> Option<Seq<Derive>> {
    match attr_args(attr) {
        None => None,
        Some(buffer) => match DeriveList::parse_spec(&buffer) {
            None => None,
            Some((derives, rest)) => if exhausted(&rest) {
                Some(derives)
            } else {
                None
            },
        },
    }
}

/// What is said of a derive attribute that asks for nothing that can be
/// given: of one that is no list, what `syn` says of it; of a list in which
/// the grammar finds no capabilities, the failure of the grammar; of tokens
/// left behind the capabilities, what `syn` says of them.
pub open spec fn request_failure(attr: Attribute) -> Diagnosis {
    match attr_args(attr) {
        None => attr_args_failure(attr),
        Some(buffer) => match DeriveList::parse_spec(&buffer) {
            None => DeriveList::failure(&buffer),
            Some((_, rest)) => leftover_failure(&rest),
        },
    }
}

/// `::core::cmp::Ordering::Equal`
pub open spec fn equal() -> Seq<Tok> {
    core_path("cmp"@, "Ordering"@) + colon2() + seq![word("Equal"@)]
}

/// `let _ = other; true`: what the generated `eq` does.
pub open spec fn eq_body() -> Seq<Tok> {
    discard("other"@) + seq![word("true"@)]
}

/// `let _ = other; ::core::cmp::Ordering::Equal`: what the generated
/// `cmp` does.
pub open spec fn ord_body() -> Seq<Tok> {
    discard("other"@) + equal()
}

/// `let _ = other; ::core::option::Option::Some(::core::cmp::Ordering::Equal)`:
/// what the generated `partial_cmp` does.
pub open spec fn partialord_body() -> Seq<Tok> {
    discard("other"@) + core_path("option"@, "Option"@) + colon2() + seq![
        word("Some"@),
        Tok::Group(Delim::Paren, equal()),
    ]
}

/// What the generated `clone` does: it names the unit struct, or matches
/// on an enum that has no variant.
pub open spec fn clone_body(declaration: Declaration) -> Seq<Tok> {
    match declaration.shape {
        Shape::UnitStruct => seq![word(ident_text(declaration.ident))],
        Shape::VoidEnum => seq![
            word("match"@),
            mark('*'),
            word("self"@),
            Tok::Group(Delim::Brace, Seq::empty()),
        ],
    }
}

/// `::core::fmt::Formatter::write_str(formatter, "name")`: what the
/// generated `fmt` does.
pub open spec fn debug_body(name: Seq<char>) -> Seq<Tok> {
    core_path("fmt"@, "Formatter"@) + colon2() + seq![
        word("write_str"@),
        Tok::Group(
            Delim::Paren,
            seq![word("formatter"@), mark(','), Tok::Literal(string_literal(name))],
        ),
    ]
}

/// The implementation of `Copy`: a marker without items.
pub open spec fn copy_block(declaration: Declaration) -> Seq<Tok> {
    implementation(impl_header(declaration, "marker"@, "Copy"@), Seq::empty())
}

/// `#[inline] fn clone(&self) -> Self { .. }`
pub open spec fn clone_items(declaration: Declaration) -> Seq<Tok> {
    inline_fn("clone"@, receiver()) + arrow() + seq![
        word("Self"@),
        Tok::Group(Delim::Brace, clone_body(declaration)),
    ]
}

/// The implementation of `Clone`.
pub open spec fn clone_block(declaration: Declaration) -> Seq<Tok> {
    implementation(impl_header(declaration, "clone"@, "Clone"@), clone_items(declaration))
}

/// `#[inline] fn default() -> Self { Name }`
pub open spec fn default_items(declaration: Declaration) -> Seq<Tok> {
    inline_fn("default"@, Seq::empty()) + arrow() + seq![
        word("Self"@),
        Tok::Group(Delim::Brace, seq![word(ident_text(declaration.ident))]),
    ]
}

/// The implementation of `Default`, which names the unit struct.
pub open spec fn default_block(declaration: Declaration) -> Seq<Tok> {
    implementation(impl_header(declaration, "default"@, "Default"@), default_items(declaration))
}

/// `&self, hasher: &mut H`
pub open spec fn hash_parameters() -> Seq<Tok> {
    receiver() + seq![
        mark(','),
        word("hasher"@),
        mark(':'),
        mark('&'),
        word("mut"@),
        word("H"@),
    ]
}

/// `#[inline] fn hash<H: ::core::hash::Hasher>(&self, hasher: &mut H) { let _ = hasher; }`
pub open spec fn hash_items() -> Seq<Tok> {
    attribute("inline"@) + seq![word("fn"@), word("hash"@), mark('<'), word("H"@), mark(':')]
        + core_path("hash"@, "Hasher"@) + seq![
        mark('>'),
        Tok::Group(Delim::Paren, hash_parameters()),
        Tok::Group(Delim::Brace, discard("hasher"@)),
    ]
}

/// The implementation of `Hash`, which leaves the hasher as it is.
pub open spec fn hash_block(declaration: Declaration) -> Seq<Tok> {
    implementation(impl_header(declaration, "hash"@, "Hash"@), hash_items())
}

/// `#[inline] fn partial_cmp(&self, other: &Self) -> ::core::option::Option<..> { .. }`
pub open spec fn partialord_items() -> Seq<Tok> {
    inline_fn("partial_cmp"@, receiver_and_other()) + arrow() + core_path("option"@, "Option"@)
        + seq![mark('<')] + core_path("cmp"@, "Ordering"@) + seq![
        mark('>'),
        Tok::Group(Delim::Brace, partialord_body()),
    ]
}

/// The implementation of `PartialOrd`.
pub open spec fn partialord_block(declaration: Declaration) -> Seq<Tok> {
    implementation(impl_header(declaration, "cmp"@, "PartialOrd"@), partialord_items())
}

/// `#[inline] fn cmp(&self, other: &Self) -> ::core::cmp::Ordering { .. }`
pub open spec fn ord_items() -> Seq<Tok> {
    inline_fn("cmp"@, receiver_and_other()) + arrow() + core_path("cmp"@, "Ordering"@) + seq![
        Tok::Group(Delim::Brace, ord_body()),
    ]
}

/// The implementation of `Ord`.
pub open spec fn ord_block(declaration: Declaration) -> Seq<Tok> {
    implementation(impl_header(declaration, "cmp"@, "Ord"@), ord_items())
}

/// `#[inline] fn eq(&self, other: &Self) -> bool { .. }`
pub open spec fn partialeq_items() -> Seq<Tok> {
    inline_fn("eq"@, receiver_and_other()) + arrow() + seq![
        word("bool"@),
        Tok::Group(Delim::Brace, eq_body()),
    ]
}

/// The implementation of `PartialEq`.
pub open spec fn partialeq_block(declaration: Declaration) -> Seq<Tok> {
    implementation(impl_header(declaration, "cmp"@, "PartialEq"@), partialeq_items())
}

/// The implementation of `Eq`: a marker without items.
pub open spec fn eq_block(declaration: Declaration) -> Seq<Tok> {
    implementation(impl_header(declaration, "cmp"@, "Eq"@), Seq::empty())
}

/// `&self, formatter: &mut ::core::fmt::Formatter`
pub open spec fn debug_parameters() -> Seq<Tok> {
    receiver() + seq![mark(','), word("formatter"@), mark(':'), mark('&'), word("mut"@)]
        + core_path("fmt"@, "Formatter"@)
}

/// `fn fmt(&self, formatter: &mut ::core::fmt::Formatter) -> ::core::fmt::Result { .. }`
pub open spec fn debug_items(name: Seq<char>) -> Seq<Tok> {
    seq![word("fn"@), word("fmt"@), Tok::Group(Delim::Paren, debug_parameters())] + arrow()
        + core_path("fmt"@, "Result"@) + seq![Tok::Group(Delim::Brace, debug_body(name))]
}

/// The implementation of `Debug`, which writes the name of the type.
pub open spec fn debug_block(declaration: Declaration) -> Seq<Tok> {
    implementation(
        impl_header(declaration, "fmt"@, "Debug"@),
        debug_items(ident_text(declaration.ident)),
    )
}

/// The implementation that answers one capability.
pub open spec fn block(derive: Derive, declaration: Declaration) -> Seq<Tok> {
    match derive {
        Derive::Copy => copy_block(declaration),
        Derive::Clone => clone_block(declaration),
        Derive::Default => default_block(declaration),
        Derive::Hash => hash_block(declaration),
        Derive::PartialOrd => partialord_block(declaration),
        Derive::Ord => ord_block(declaration),
        Derive::PartialEq => partialeq_block(declaration),
        Derive::Eq => eq_block(declaration),
        Derive::Debug => debug_block(declaration),
    }
}

/// Writes the header of an implementation into a stream of its own.
fn header(input: &PhantomType, module: &str, item: &str) -> (tokens: TokenStream)
    requires
        is_word(module@),
        is_word(item@),
    ensures
        stream_tokens(tokens) == impl_header(input@, module@, item@),
{
    let mut tokens = new_stream();
    push_impl_header(&mut tokens, input, module, item);
    tokens
}

/// Generates the implementation of `Copy`.
pub fn expand_copy(input: &PhantomType) -> (tokens: TokenStream)
    ensures
        stream_tokens(tokens) == copy_block(input@),
{
    proof {
        reveal_strlit("marker");
        reveal_strlit("Copy");
    }
    close_implementation(header(input, "marker", "Copy"), new_stream())
}

/// Generates the implementation of `Clone`.
pub fn expand_clone(input: &PhantomType) -> (tokens: TokenStream)
    ensures
        stream_tokens(tokens) == clone_block(input@),
{
    proof {
        reveal_strlit("clone");
        reveal_strlit("Clone");
        reveal_strlit("Self");
        reveal_strlit("match");
        reveal_strlit("self");
    }
    let mut body = new_stream();
    match input.kind {
        Kind::UnitStruct(_) => {
            push_ident(&mut body, &input.ident);
        },
        Kind::VoidEnum(_) => {
            push_word(&mut body, "match");
            push_mark(&mut body, '*', false);
            push_word(&mut body, "self");
            push_group(&mut body, Delim::Brace, new_stream());
        },
    }
    assert(stream_tokens(body) =~= clone_body(input@));

    let mut parameters = new_stream();
    push_receiver(&mut parameters);
    assert(stream_tokens(parameters) =~= receiver());
    let mut items = new_stream();
    push_inline_fn(&mut items, "clone", parameters);
    push_arrow(&mut items);
    push_word(&mut items, "Self");
    push_group(&mut items, Delim::Brace, body);
    assert(stream_tokens(items) =~= clone_items(input@));
    close_implementation(header(input, "clone", "Clone"), items)
}

/// Generates the implementation of `Default`.
pub fn expand_default(input: &PhantomType) -> (tokens: TokenStream)
    ensures
        stream_tokens(tokens) == default_block(input@),
{
    proof {
        reveal_strlit("default");
        reveal_strlit("Default");
        reveal_strlit("Self");
    }
    let mut body = new_stream();
    push_ident(&mut body, &input.ident);
    assert(stream_tokens(body) =~= seq![word(ident_text(input.ident))]);

    let mut items = new_stream();
    let parameters = new_stream();
    push_inline_fn(&mut items, "default", parameters);
    push_arrow(&mut items);
    push_word(&mut items, "Self");
    push_group(&mut items, Delim::Brace, body);
    assert(stream_tokens(items) =~= default_items(input@));
    close_implementation(header(input, "default", "Default"), items)
}

/// Generates the implementation of `Hash`.
pub fn expand_hash(input: &PhantomType) -> (tokens: TokenStream)
    ensures
        stream_tokens(tokens) == hash_block(input@),
{
    proof {
        reveal_strlit("hash");
        reveal_strlit("Hash");
        reveal_strlit("Hasher");
        reveal_strlit("hasher");
        reveal_strlit("inline");
        reveal_strlit("fn");
        reveal_strlit("mut");
        reveal_strlit("H");
    }
    let mut parameters = new_stream();
    push_receiver(&mut parameters);
    push_mark(&mut parameters, ',', false);
    push_word(&mut parameters, "hasher");
    push_mark(&mut parameters, ':', false);
    push_mark(&mut parameters, '&', false);
    push_word(&mut parameters, "mut");
    push_word(&mut parameters, "H");
    assert(stream_tokens(parameters) =~= hash_parameters());

    let mut body = new_stream();
    push_discard(&mut body, "hasher");
    assert(stream_tokens(body) =~= discard("hasher"@));

    let mut items = new_stream();
    push_attribute(&mut items, "inline");
    push_word(&mut items, "fn");
    push_word(&mut items, "hash");
    push_mark(&mut items, '<', false);
    push_word(&mut items, "H");
    push_mark(&mut items, ':', false);
    push_core_path(&mut items, "hash", "Hasher");
    push_mark(&mut items, '>', false);
    push_group(&mut items, Delim::Paren, parameters);
    push_group(&mut items, Delim::Brace, body);
    assert(stream_tokens(items) =~= hash_items());
    close_implementation(header(input, "hash", "Hash"), items)
}

/// Writes `::core::cmp::Ordering::Equal`.
fn push_equal(stream: &mut TokenStream)
    ensures
        stream_tokens(*final(stream)) == stream_tokens(*old(stream)) + equal(),
{
    proof {
        reveal_strlit("cmp");
        reveal_strlit("Ordering");
        reveal_strlit("Equal");
    }
    push_core_path(stream, "cmp", "Ordering");
    push_colon2(stream);
    push_word(stream, "Equal");
}

/// Writes `&self, other: &Self` into a stream of its own.
fn both_operands() -> (parameters: TokenStream)
    ensures
        stream_tokens(parameters) == receiver_and_other(),
{
    let mut parameters = new_stream();
    push_receiver_and_other(&mut parameters);
    assert(stream_tokens(parameters) =~= receiver_and_other());
    parameters
}

/// Generates the implementation of `PartialOrd`.
pub fn expand_partialord(input: &PhantomType) -> (tokens: TokenStream)
    ensures
        stream_tokens(tokens) == partialord_block(input@),
{
    proof {
        reveal_strlit("cmp");
        reveal_strlit("PartialOrd");
        reveal_strlit("partial_cmp");
        reveal_strlit("option");
        reveal_strlit("Option");
        reveal_strlit("Ordering");
        reveal_strlit("Some");
        reveal_strlit("other");
    }
    let mut wrapped = new_stream();
    push_equal(&mut wrapped);
    assert(stream_tokens(wrapped) =~= equal());

    let mut body = new_stream();
    push_discard(&mut body, "other");
    push_core_path(&mut body, "option", "Option");
    push_colon2(&mut body);
    push_word(&mut body, "Some");
    push_group(&mut body, Delim::Paren, wrapped);
    assert(stream_tokens(body) =~= partialord_body());

    let mut items = new_stream();
    push_inline_fn(&mut items, "partial_cmp", both_operands());
    push_arrow(&mut items);
    push_core_path(&mut items, "option", "Option");
    push_mark(&mut items, '<', false);
    push_core_path(&mut items, "cmp", "Ordering");
    push_mark(&mut items, '>', false);
    push_group(&mut items, Delim::Brace, body);
    assert(stream_tokens(items) =~= partialord_items());
    close_implementation(header(input, "cmp", "PartialOrd"), items)
}

/// Generates the implementation of `Ord`.
pub fn expand_ord(input: &PhantomType) -> (tokens: TokenStream)
    ensures
        stream_tokens(tokens) == ord_block(input@),
{
    proof {
        reveal_strlit("cmp");
        reveal_strlit("Ord");
        reveal_strlit("Ordering");
        reveal_strlit("other");
    }
    let mut body = new_stream();
    push_discard(&mut body, "other");
    push_equal(&mut body);
    assert(stream_tokens(body) =~= ord_body());

    let mut items = new_stream();
    push_inline_fn(&mut items, "cmp", both_operands());
    push_arrow(&mut items);
    push_core_path(&mut items, "cmp", "Ordering");
    push_group(&mut items, Delim::Brace, body);
    assert(stream_tokens(items) =~= ord_items());
    close_implementation(header(input, "cmp", "Ord"), items)
}

/// Generates the implementation of `PartialEq`.
pub fn expand_partialeq(input: &PhantomType) -> (tokens: TokenStream)
    ensures
        stream_tokens(tokens) == partialeq_block(input@),
{
    proof {
        reveal_strlit("cmp");
        reveal_strlit("PartialEq");
        reveal_strlit("eq");
        reveal_strlit("bool");
        reveal_strlit("true");
        reveal_strlit("other");
    }
    let mut body = new_stream();
    push_discard(&mut body, "other");
    push_word(&mut body, "true");
    assert(stream_tokens(body) =~= eq_body());

    let mut items = new_stream();
    push_inline_fn(&mut items, "eq", both_operands());
    push_arrow(&mut items);
    push_word(&mut items, "bool");
    push_group(&mut items, Delim::Brace, body);
    assert(stream_tokens(items) =~= partialeq_items());
    close_implementation(header(input, "cmp", "PartialEq"), items)
}

/// Generates the implementation of `Eq`.
pub fn expand_eq(input: &PhantomType) -> (tokens: TokenStream)
    ensures
        stream_tokens(tokens) == eq_block(input@),
{
    proof {
        reveal_strlit("cmp");
        reveal_strlit("Eq");
    }
    close_implementation(header(input, "cmp", "Eq"), new_stream())
}

/// Generates the implementation of `Debug`.
pub fn expand_debug(input: &PhantomType) -> (tokens: TokenStream)
    ensures
        stream_tokens(tokens) == debug_block(input@),
{
    proof {
        reveal_strlit("fmt");
        reveal_strlit("Debug");
        reveal_strlit("Formatter");
        reveal_strlit("Result");
        reveal_strlit("formatter");
        reveal_strlit("write_str");
        reveal_strlit("fn");
        reveal_strlit("mut");
    }
    let string = ident_string(&input.ident);

    let mut arguments = new_stream();
    push_word(&mut arguments, "formatter");
    push_mark(&mut arguments, ',', false);
    push_string(&mut arguments, string.as_str());
    assert(stream_tokens(arguments) =~= seq![
        word("formatter"@),
        mark(','),
        Tok::Literal(string_literal(ident_text(input.ident))),
    ]);

    let mut body = new_stream();
    push_core_path(&mut body, "fmt", "Formatter");
    push_colon2(&mut body);
    push_word(&mut body, "write_str");
    push_group(&mut body, Delim::Paren, arguments);
    assert(stream_tokens(body) =~= debug_body(ident_text(input.ident)));

    let mut parameters = new_stream();
    push_receiver(&mut parameters);
    push_mark(&mut parameters, ',', false);
    push_word(&mut parameters, "formatter");
    push_mark(&mut parameters, ':', false);
    push_mark(&mut parameters, '&', false);
    push_word(&mut parameters, "mut");
    push_core_path(&mut parameters, "fmt", "Formatter");
    assert(stream_tokens(parameters) =~= debug_parameters());

    let mut items = new_stream();
    push_word(&mut items, "fn");
    push_word(&mut items, "fmt");
    push_group(&mut items, Delim::Paren, parameters);
    push_arrow(&mut items);
    push_core_path(&mut items, "fmt", "Result");
    push_group(&mut items, Delim::Brace, body);
    assert(stream_tokens(items) =~= debug_items(ident_text(input.ident)));
    close_implementation(header(input, "fmt", "Debug"), items)
}

/// Generates the implementation that answers one capability.
pub fn apply(derive: Derive, input: &PhantomType) -> (tokens: TokenStream)
    ensures
        stream_tokens(tokens) == block(derive, input@),
{
    match derive {
        Derive::Copy => expand_copy(input),
        Derive::Clone => expand_clone(input),
        Derive::Default => expand_default(input),
        Derive::Hash => expand_hash(input),
        Derive::PartialOrd => expand_partialord(input),
        Derive::Ord => expand_ord(input),
        Derive::PartialEq => expand_partialeq(input),
        Derive::Eq => expand_eq(input),
        Derive::Debug => expand_debug(input),
    }
}

/// Whether an attribute is a derive request.
pub open spec fn is_derive(attr: Attribute) -> bool {
    is_named(attr, "derive"@)
}

/// Whether every derive request among the attributes is well formed.
pub open spec fn well_requested(attrs: Seq<Attribute>) -> bool {
    forall|i: int|
        0 <= i < attrs.len() && is_derive(#[trigger] attrs[i]) ==> requested(attrs[i]) is Some
}

/// Whether `i` is the place of the first derive request that is not well
/// formed.
pub open spec fn first_failing(attrs: Seq<Attribute>, i: int) -> bool {
    &&& 0 <= i < attrs.len()
    &&& is_derive(attrs[i])
    &&& requested(attrs[i]) is None
    &&& well_requested(attrs.take(i))
}

/// What is said of attributes among which a derive request is not well
/// formed: what is said of the first such request.
pub open spec fn expansion_failure(attrs: Seq<Attribute>) -> Diagnosis {
    request_failure(attrs[choose|i: int| first_failing(attrs, i)])
}

/// There is one first derive request that is not well formed, and no
/// other.
pub proof fn lemma_first_failing(attrs: Seq<Attribute>, i: int)
    requires
        first_failing(attrs, i),
    ensures
        (choose|k: int| first_failing(attrs, k)) == i,
{
    let k = choose|k: int| first_failing(attrs, k);
    assert(first_failing(attrs, k));
    if k < i {
        assert(attrs.take(i)[k] == attrs[k]);
    }
    if i < k {
        assert(attrs.take(k)[i] == attrs[i]);
    }
}

/// The implementations that answer a list of capabilities, one for each
/// entry of the list and in its order.
pub open spec fn blocks(derives: Seq<Derive>, declaration: Declaration) -> Seq<Tok>
    decreases derives.len(),
{
    if derives.len() == 0 {
        Seq::empty()
    } else {
        blocks(derives.drop_last(), declaration) + block(derives.last(), declaration)
    }
}

/// The implementations that answer one attribute: those it asks for if
/// it is a derive request, none otherwise.
pub open spec fn answer(attr: Attribute, declaration: Declaration) -> Seq<Tok> {
    if is_derive(attr) {
        match requested(attr) {
            Some(derives) => blocks(derives, declaration),
            None => Seq::empty(),
        }
    } else {
        Seq::empty()
    }
}

/// The implementations that answer the attributes, in their order.
pub open spec fn expansion(attrs: Seq<Attribute>, declaration: Declaration) -> Seq<Tok>
    decreases attrs.len(),
{
    if attrs.len() == 0 {
        Seq::empty()
    } else {
        expansion(attrs.drop_last(), declaration) + answer(attrs.last(), declaration)
    }
}

/// The attributes that are no derive request, in their order.
pub open spec fn passed_on(attrs: Seq<Attribute>) -> Seq<Attribute> {
    attrs.filter(|attr: Attribute| !is_derive(attr))
}

/// The attributes that the references point at.
pub open spec fn referents(references: Seq<&Attribute>) -> Seq<Attribute> {
    references.map_values(|attr: &Attribute| *attr)
}

/// Generates the implementations that answer a list of capabilities.
pub fn expand_list(list: &DeriveList, input: &PhantomType) -> (tokens: TokenStream)
    ensures
        stream_tokens(tokens) == blocks(list.derives@, input@),
{
    let mut expanded = new_stream();
    let mut i: usize = 0;
    while i < list.derives.len()
        invariant
            i <= list.derives.len(),
            stream_tokens(expanded) == blocks(list.derives@.take(i as int), input@),
        decreases list.derives.len() - i,
    {
        let derive = list.derives[i];
        append_stream(&mut expanded, apply(derive, input));
        proof {
            let next = list.derives@.take(i + 1);
            assert(next.drop_last() =~= list.derives@.take(i as int));
            assert(next.last() == derive);
        }
        i += 1;
    }
    assert(list.derives@.take(i as int) =~= list.derives@);
    expanded
}

/// Expands the derive requests among the attributes of a declaration.
///
/// It succeeds exactly where every derive request is well formed. It then
/// returns the implementations that answer the requests, in the order of
/// the attributes and of the capabilities in each, together with the
/// attributes that are no derive request, in their order. Where a request
/// is malformed or names an unknown capability, nothing is generated: the
/// first such request is turned down as a derive violation, and
/// `expansion_failure` tells what its diagnostic says.
pub fn expand<'a>(attrs: &'a [Attribute], input: &PhantomType) -> (r: Result<
    (TokenStream, Vec<&'a Attribute>),
    Rejection,
>)
    ensures
        r is Ok <==> well_requested(attrs@),
        r matches Ok(output) ==> stream_tokens(output.0) == expansion(attrs@, input@) && referents(
            output.1@,
        ) == passed_on(attrs@),
        r matches Err(rejection) ==> rejection.violation == Violation::Derive && diagnosis(
            rejection.diagnostic,
        ) == expansion_failure(attrs@),
{
    let mut expanded = new_stream();
    let mut non_derives: Vec<&'a Attribute> = Vec::new();

    let mut i: usize = 0;
    while i < attrs.len()
        invariant
            i <= attrs.len(),
            well_requested(attrs@.take(i as int)),
            stream_tokens(expanded) == expansion(attrs@.take(i as int), input@),
            referents(non_derives@) == passed_on(attrs@.take(i as int)),
        decreases attrs.len() - i,
    {
        let attr = &attrs[i];
        let ghost before = attrs@.take(i as int);
        let ghost next = attrs@.take(i + 1);
        proof {
            assert(next.drop_last() =~= before);
            assert(next.last() == *attr);
            assert(next =~= before.push(*attr));
            before.lemma_filter_push(*attr, |attr: Attribute| !is_derive(attr));
        }
        if path_is(path_of(attr), "derive") {
            match run_derive_list(attr) {
                Ok(list) => {
                    append_stream(&mut expanded, expand_list(&list, input));
                },
                Err(diagnostic) => {
                    proof {
                        assert(attrs@[i as int] == *attr);
                        assert(first_failing(attrs@, i as int));
                        lemma_first_failing(attrs@, i as int);
                    }
                    return Err(Rejection { violation: Violation::Derive, diagnostic });
                },
            }
        } else {
            let ghost kept = non_derives@;
            non_derives.push(attr);
            assert(referents(non_derives@) =~= referents(kept).push(*attr));
        }
        assert forall|j: int| 0 <= j < next.len() && is_derive(#[trigger] next[j]) implies requested(
            next[j],
        ) is Some by {
            if j < i {
                assert(next[j] == before[j]);
            }
        }
        i += 1;
    }
    assert(attrs@.take(i as int) =~= attrs@);
    Ok((expanded, non_derives))
}

/// One implementation for each capability: a list of `n` capabilities is
/// answered by `n` implementations, each the answer to its entry.
pub proof fn lemma_blocks_push(derives: Seq<Derive>, derive: Derive, declaration: Declaration)
    ensures
        blocks(derives.push(derive), declaration) == blocks(derives, declaration) + block(
            derive,
            declaration,
        ),
{
    assert(derives.push(derive).drop_last() =~= derives);
}

/// The generated comparisons do not look at what they compare. Whatever
/// the declaration and its generics, the braces of the implementation hold
/// the same method: `eq` answers `true`, `cmp` answers `Equal`, and
/// `partial_cmp` answers `Some(Equal)`, each after it has discarded its
/// operand.
pub proof fn lemma_comparisons_report_equal(a: Declaration, b: Declaration)
    ensures
        partialeq_block(a).last() == partialeq_block(b).last(),
        partialeq_block(a).last() == Tok::Group(Delim::Brace, partialeq_items()),
        partialeq_items().last() == Tok::Group(
            Delim::Brace,
            discard("other"@) + seq![word("true"@)],
        ),
        ord_block(a).last() == ord_block(b).last(),
        ord_block(a).last() == Tok::Group(Delim::Brace, ord_items()),
        ord_items().last() == Tok::Group(Delim::Brace, discard("other"@) + equal()),
        partialord_block(a).last() == partialord_block(b).last(),
        partialord_block(a).last() == Tok::Group(Delim::Brace, partialord_items()),
        partialord_items().last() == Tok::Group(
            Delim::Brace,
            discard("other"@) + core_path("option"@, "Option"@) + colon2() + seq![
                word("Some"@),
                Tok::Group(Delim::Paren, equal()),
            ],
        ),
{
}

/// The generated `fmt` writes the declared name and nothing else. Two
/// declarations of the same name get the same method, whatever their
/// generics, and the text it writes is the string literal of that name.
pub proof fn lemma_debug_writes_the_name(a: Declaration, b: Declaration)
    requires
        ident_text(a.ident) == ident_text(b.ident),
    ensures
        debug_block(a).last() == debug_block(b).last(),
        debug_block(a).last() == Tok::Group(Delim::Brace, debug_items(ident_text(a.ident))),
        debug_items(ident_text(a.ident)).last() == Tok::Group(
            Delim::Brace,
            debug_body(ident_text(a.ident)),
        ),
        debug_body(ident_text(a.ident)).last() == Tok::Group(
            Delim::Paren,
            seq![
                word("formatter"@),
                mark(','),
                Tok::Literal(string_literal(ident_text(a.ident))),
            ],
        ),
{
}

} // verus!
