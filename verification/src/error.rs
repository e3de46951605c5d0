//! Why an input is turned down, and the diagnostic that says so.

use proc_macro2::Span;
use vstd::prelude::*;

verus! {

/// `syn::Error`, opaque to the verifier: a message and the place it points at.
#[verifier::external_type_specification]
#[verifier::external_body]
pub struct ExError(syn::Error);

/// The message of a diagnostic, as `Error::to_string` gives it.
pub uninterp spec fn error_message(error: syn::Error) -> Seq<char>;

/// The place a diagnostic points at: the spans where it begins and ends.
pub uninterp spec fn error_place(error: syn::Error) -> (Span, Span);

/// What a diagnostic says: its message and the place it points at.
pub ghost struct Diagnosis {
    pub message: Seq<char>,
    pub place: (Span, Span),
}

/// What the diagnostic says.
pub open spec fn diagnosis(error: syn::Error) -> Diagnosis {
    Diagnosis { message: error_message(error), place: error_place(error) }
}

/// A diagnosis with the given message that begins and ends at `span`.
pub open spec fn diagnosis_at(span: Span, message: Seq<char>) -> Diagnosis {
    Diagnosis { message, place: (span, span) }
}

/// The three ways in which an input can be wrong.
#[derive(Clone, Copy, Debug, PartialEq, Eq, Structural)]
pub enum Violation {
    /// The declaration does not follow the grammar of a phantom type.
    Grammar,
    /// A derive request is malformed or names an unknown capability.
    Derive,
    /// The macro was given arguments.
    Argument,
}

/// An input turned down: what kind of fault it has, and the diagnostic to
/// report for it.
pub struct Rejection {
    pub violation: Violation,
    pub diagnostic: syn::Error,
}

impl Rejection {
    /// The text of the diagnostic.
    pub fn message(&self) -> (text: String)
        ensures
            text@ == error_message(self.diagnostic),
    {
        message_string(&self.diagnostic)
    }
}

/// Wraps `syn::Error::new`: a diagnostic with the given message that begins
/// and ends at `span`.
#[verifier::external_body]
pub(crate) fn new_error(span: Span, message: &str) -> (error: syn::Error)
    ensures
        error_message(error) == message@,
        error_place(error) == (span, span),
{
    syn::Error::new(span, message)
}

/// Wraps `ToString::to_string` of `syn::Error`, which writes the message.
#[verifier::external_body]
pub(crate) fn message_string(error: &syn::Error) -> (text: String)
    ensures
        text@ == error_message(*error),
{
    error.to_string()
}

} // verus!
