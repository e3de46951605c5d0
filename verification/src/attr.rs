//! What this crate reads of an attribute and of a path.

use crate::error::{error_message, error_place, Diagnosis};
use proc_macro2::Span;
use syn::parse::ParseBuffer;
use syn::{Attribute, Meta, Path};
use vstd::prelude::*;

verus! {

/// `syn::Attribute`, opaque to the verifier.
#[verifier::external_type_specification]
#[verifier::external_body]
pub struct ExAttribute(Attribute);

/// `syn::Path`, opaque to the verifier.
#[verifier::external_type_specification]
#[verifier::external_body]
pub struct ExPath(Path);

/// The path that names an attribute, as `Attribute::path` gives it.
pub uninterp spec fn attr_path(attr: Attribute) -> Path;

/// The path of an attribute that is a path and nothing more, as
/// `#[contra]` is; nothing for one with arguments or a value.
pub uninterp spec fn bare_path(attr: Attribute) -> Option<Path>;

/// The buffer over the arguments of an attribute that is a list, as
/// `#[derive(..)]` is; nothing for an attribute of another form.
pub uninterp spec fn attr_args(attr: Attribute) -> Option<ParseBuffer<'static>>;

/// What `syn` says of an attribute whose arguments are asked for and
/// which is no list.
pub uninterp spec fn attr_args_failure(attr: Attribute) -> Diagnosis;

/// The text of the identifier that a path consists of, for a path of one
/// segment without leading colons or arguments; nothing for any other path.
pub uninterp spec fn path_ident(path: Path) -> Option<Seq<char>>;

/// The spans of the first and of the last token of a path.
pub uninterp spec fn path_extent(path: Path) -> (Span, Span);

/// Whether an attribute is named by the one identifier `name`.
pub open spec fn is_named(attr: Attribute, name: Seq<char>) -> bool {
    path_ident(attr_path(attr)) == Some(name)
}

/// Wraps `Attribute::path`.
#[verifier::external_body]
pub(crate) fn path_of(attr: &Attribute) -> (path: &Path)
    ensures
        *path == attr_path(*attr),
{
    attr.path()
}

/// Tells the forms of `Meta` apart: the path of an attribute of the
/// form `Meta::Path`, nothing for a list or a name with a value.
#[verifier::external_body]
pub(crate) fn bare_path_of(attr: &Attribute) -> (path: Option<&Path>)
    ensures
        path matches Some(found) ==> bare_path(*attr) == Some(*found),
        path is None ==> bare_path(*attr) is None,
{
    match &attr.meta {
        Meta::Path(path) => Some(path),
        Meta::List(_) => None,
        Meta::NameValue(_) => None,
    }
}

/// Wraps `Path::get_ident`, with the identifier written out by
/// `Ident::to_string`: the text of the identifier that the path consists of,
/// nothing for a path that is more than one identifier.
#[verifier::external_body]
pub(crate) fn path_ident_string(path: &Path) -> (text: Option<String>)
    ensures
        text matches Some(found) ==> path_ident(*path) == Some(found@),
        text is None ==> path_ident(*path) is None,
{
    path.get_ident().map(|ident| ident.to_string())
}

/// Whether a text is the given word.
pub fn same_text(text: &String, word: &str) -> (same: bool)
    ensures
        same == (text@ == word@),
{
    let word = word.to_owned();
    *text == word
}

/// Whether a path is the one identifier `name`.
pub fn path_is(path: &Path, name: &str) -> (found: bool)
    ensures
        found == (path_ident(*path) == Some(name@)),
{
    match path_ident_string(path) {
        Some(text) => same_text(&text, name),
        None => false,
    }
}

/// Wraps `syn::Error::new_spanned` for a path: a diagnostic with the
/// given message that reaches from the first to the last token of the path.
#[verifier::external_body]
pub(crate) fn error_at_path(path: &Path, message: &str) -> (error: syn::Error)
    ensures
        error_message(error) == message@,
        error_place(error) == path_extent(*path),
{
    syn::Error::new_spanned(path, message)
}

} // verus!
