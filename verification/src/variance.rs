//! The variance of a generic parameter, and the marker type that stands
//! for the parameter in the representation of a phantom type.
//!
//! A parameter is covariant unless an attribute on it says otherwise:
//! `#[contra]` makes it contravariant, `#[invariant]` invariant. These
//! attributes are taken off the parameter; every other attribute stays. Of
//! several such attributes on one parameter the last one decides.

use crate::attr::{bare_path, bare_path_of, path_ident, path_ident_string, same_text};
use crate::token::{
    append_stream, arrow, clone_stream, new_stream, push_arrow, push_group, push_word,
    stream_tokens, Delim, Tok,
};
use proc_macro2::{Ident, TokenStream};
use syn::{Attribute, LifetimeParam, TypeParam};
use vstd::prelude::*;

verus! {

/// `syn::TypeParam`, opaque to the verifier.
#[verifier::external_type_specification]
#[verifier::external_body]
pub struct ExTypeParam(TypeParam);

/// `syn::LifetimeParam`, opaque to the verifier.
#[verifier::external_type_specification]
#[verifier::external_body]
pub struct ExLifetimeParam(LifetimeParam);

/// The attributes of a type parameter.
pub uninterp spec fn type_param_attrs(param: TypeParam) -> Seq<Attribute>;

/// The tokens of a type parameter behind its attributes: its name, its
/// bounds and its default.
pub uninterp spec fn type_param_tokens(param: TypeParam) -> Seq<Tok>;

/// The attributes of a lifetime parameter.
pub uninterp spec fn lifetime_param_attrs(param: LifetimeParam) -> Seq<Attribute>;

/// The tokens of a lifetime parameter behind its attributes: the lifetime
/// and its bounds.
pub uninterp spec fn lifetime_param_tokens(param: LifetimeParam) -> Seq<Tok>;

/// How a phantom type varies with one of its parameters.
#[derive(Clone, Copy, Debug, PartialEq, Eq, Structural)]
pub enum Variance {
    Covariant,
    Contravariant,
    Invariant,
}

/// A generic parameter that can carry a variance attribute.
pub trait HasVarianceAttribute {
    /// The attributes of the parameter.
    spec fn attr_list(&self) -> Seq<Attribute>;

    /// The tokens of the parameter behind its attributes.
    spec fn declared(&self) -> Seq<Tok>;

    /// The list of the parameter's attributes, to be changed in place.
    /// What is done to the list is done to the parameter, and to nothing
    /// else of it.
    fn attrs(&mut self) -> (list: &mut Vec<Attribute>)
        ensures
            list@ == old(self).attr_list(),
            final(self).attr_list() == final(list)@,
            final(self).declared() == old(self).declared(),
    ;
}

/// Hands out the field `attrs` of a `TypeParam`.
#[verifier::external_body]
fn type_param_attrs_mut(param: &mut TypeParam) -> (list: &mut Vec<Attribute>)
    ensures
        list@ == type_param_attrs(*old(param)),
        type_param_attrs(*final(param)) == final(list)@,
        type_param_tokens(*final(param)) == type_param_tokens(*old(param)),
{
    &mut param.attrs
}

/// Hands out the field `attrs` of a `LifetimeParam`.
#[verifier::external_body]
fn lifetime_param_attrs_mut(param: &mut LifetimeParam) -> (list: &mut Vec<Attribute>)
    ensures
        list@ == lifetime_param_attrs(*old(param)),
        lifetime_param_attrs(*final(param)) == final(list)@,
        lifetime_param_tokens(*final(param)) == lifetime_param_tokens(*old(param)),
{
    &mut param.attrs
}

impl HasVarianceAttribute for TypeParam {
    open spec fn attr_list(&self) -> Seq<Attribute> {
        type_param_attrs(*self)
    }

    open spec fn declared(&self) -> Seq<Tok> {
        type_param_tokens(*self)
    }

    fn attrs(&mut self) -> (list: &mut Vec<Attribute>) {
        type_param_attrs_mut(self)
    }
}

impl HasVarianceAttribute for LifetimeParam {
    open spec fn attr_list(&self) -> Seq<Attribute> {
        lifetime_param_attrs(*self)
    }

    open spec fn declared(&self) -> Seq<Tok> {
        lifetime_param_tokens(*self)
    }

    fn attrs(&mut self) -> (list: &mut Vec<Attribute>) {
        lifetime_param_attrs_mut(self)
    }
}

/// The variance that a marker of the given name sets.
pub open spec fn marker_named(name: Seq<char>) -> Option<Variance> {
    if name == "contra"@ {
        Some(Variance::Contravariant)
    } else if name == "invariant"@ {
        Some(Variance::Invariant)
    } else {
        None
    }
}

/// The variance that an attribute sets, if it is one of the two markers:
/// the bare `#[contra]` or the bare `#[invariant]`.
pub open spec fn marker(attr: Attribute) -> Option<Variance> {
    match bare_path(attr) {
        Some(path) => match path_ident(path) {
            Some(name) => marker_named(name),
            None => None,
        },
        None => None,
    }
}

/// The attributes that stay on a parameter: all but the markers, in
/// their order.
pub open spec fn retained(attrs: Seq<Attribute>) -> Seq<Attribute> {
    attrs.filter(|attr: Attribute| marker(attr) is None)
}

/// The variance that the attributes of a parameter give it: that of the
/// last marker among them, covariant where there is none.
pub open spec fn classify(attrs: Seq<Attribute>) -> Variance
    decreases attrs.len(),
{
    if attrs.len() == 0 {
        Variance::Covariant
    } else {
        match marker(attrs.last()) {
            Some(variance) => variance,
            None => classify(attrs.drop_last()),
        }
    }
}

/// The marker type of a parameter: the base itself where the parameter is
/// covariant, the type of a function that takes the base where it is
/// contravariant, the type of a function that takes and returns the base
/// where it is invariant.
pub open spec fn marker_type(variance: Variance, base: Seq<Tok>) -> Seq<Tok> {
    match variance {
        Variance::Covariant => base,
        Variance::Contravariant => seq![Tok::Ident("fn"@), Tok::Group(Delim::Paren, base)],
        Variance::Invariant => seq![Tok::Ident("fn"@), Tok::Group(Delim::Paren, base)] + arrow()
            + base,
    }
}

/// The two markers are found under their own names.
pub proof fn lemma_marker_names()
    ensures
        marker_named("contra"@) == Some(Variance::Contravariant),
        marker_named("invariant"@) == Some(Variance::Invariant),
{
    reveal_strlit("contra");
    reveal_strlit("invariant");
    assert("contra"@.len() == 6);
    assert("invariant"@.len() == 9);
}

impl Variance {
    /// The variance that a marker of the given name sets, if there is such
    /// a marker.
    pub fn from_marker(name: &str) -> (variance: Option<Variance>)
        ensures
            variance == marker_named(name@),
            name@ == "contra"@ ==> variance == Some(Variance::Contravariant),
            name@ == "invariant"@ ==> variance == Some(Variance::Invariant),
    {
        proof {
            lemma_marker_names();
        }
        let name = name.to_owned();
        if same_text(&name, "contra") {
            Some(Variance::Contravariant)
        } else if same_text(&name, "invariant") {
            Some(Variance::Invariant)
        } else {
            None
        }
    }
}

/// Tells what variance an attribute sets, if it is a marker.
pub fn marker_of(attr: &Attribute) -> (variance: Option<Variance>)
    ensures
        variance == marker(*attr),
{
    match bare_path_of(attr) {
        Some(path) => match path_ident_string(path) {
            Some(name) => Variance::from_marker(name.as_str()),
            None => None,
        },
        None => None,
    }
}

/// Takes the markers off a list of attributes and tells the variance
/// that they set.
pub fn strip_markers(attrs: &mut Vec<Attribute>) -> (variance: Variance)
    ensures
        final(attrs)@ == retained(old(attrs)@),
        variance == classify(old(attrs)@),
{
    let mut variance = Variance::Covariant;
    let ghost all = attrs@;
    let ghost mut seen: int = 0;
    let mut i: usize = 0;
    while i < attrs.len()
        invariant
            0 <= seen <= all.len(),
            i <= attrs.len(),
            i == retained(all.take(seen)).len(),
            attrs@ == retained(all.take(seen)) + all.skip(seen),
            variance == classify(all.take(seen)),
        decreases attrs.len() - i,
    {
        proof {
            let next = all.take(seen + 1);
            assert(attrs@[i as int] == all[seen]);
            assert(next.drop_last() =~= all.take(seen));
            assert(next.last() == all[seen]);
            assert(next =~= all.take(seen).push(all[seen]));
            all.take(seen).lemma_filter_push(all[seen], |attr: Attribute| marker(attr) is None);
        }
        match marker_of(&attrs[i]) {
            Some(set) => {
                variance = set;
                attrs.remove(i);
                assert(attrs@ =~= retained(all.take(seen + 1)) + all.skip(seen + 1));
            },
            None => {
                assert(attrs@ =~= retained(all.take(seen + 1)) + all.skip(seen + 1));
                i += 1;
            },
        }
        proof {
            seen = seen + 1;
        }
    }
    proof {
        assert(all.skip(seen).len() == 0);
        assert(all.take(seen) =~= all);
        assert(attrs@ =~= retained(all));
    }
    variance
}

impl Variance {
    /// Makes the marker type of a parameter of this variance from `base`,
    /// the expression that stands for the parameter.
    pub fn transform(self, base: TokenStream) -> (r: TokenStream)
        ensures
            stream_tokens(r) == marker_type(self, stream_tokens(base)),
            self == Variance::Covariant ==> stream_tokens(r) == stream_tokens(base),
    {
        proof {
            reveal_strlit("fn");
        }
        match self {
            Variance::Covariant => base,
            Variance::Contravariant => {
                let mut tokens = new_stream();
                push_word(&mut tokens, "fn");
                push_group(&mut tokens, Delim::Paren, base);
                assert(stream_tokens(tokens) =~= marker_type(self, stream_tokens(base)));
                tokens
            },
            Variance::Invariant => {
                let taken = clone_stream(&base);
                let mut tokens = new_stream();
                push_word(&mut tokens, "fn");
                push_group(&mut tokens, Delim::Paren, taken);
                push_arrow(&mut tokens);
                append_stream(&mut tokens, base);
                assert(stream_tokens(tokens) =~= marker_type(self, stream_tokens(base)));
                tokens
            },
        }
    }
}

/// Works out the variance of a parameter and its marker type.
///
/// The markers are taken off the attributes of the parameter, which is
/// otherwise left as it is. The marker type is the one that the variance
/// of the parameter asks for; it is made from `base` alone, and
/// `type_param` has no part in it.
pub fn apply(param: &mut dyn HasVarianceAttribute, base: TokenStream, type_param: &Ident) -> (r:
    TokenStream)
    ensures
        final(param).attr_list() == retained(old(param).attr_list()),
        final(param).declared() == old(param).declared(),
        stream_tokens(r) == marker_type(classify(old(param).attr_list()), stream_tokens(base)),
{
    let _ = type_param;
    let attrs = param.attrs();
    let variance = strip_markers(attrs);
    variance.transform(base)
}

/// A parameter without a marker is covariant and keeps all its
/// attributes; its marker type is its base, unchanged.
pub proof fn lemma_unmarked_is_covariant(attrs: Seq<Attribute>, base: Seq<Tok>)
    requires
        forall|i: int| 0 <= i < attrs.len() ==> marker(#[trigger] attrs[i]) is None,
    ensures
        classify(attrs) == Variance::Covariant,
        retained(attrs) == attrs,
        marker_type(classify(attrs), base) == base,
    decreases attrs.len(),
{
    if attrs.len() > 0 {
        lemma_unmarked_is_covariant(attrs.drop_last(), base);
        assert(attrs.drop_last().push(attrs.last()) =~= attrs);
        reveal_with_fuel(Seq::filter, 2);
    } else {
        reveal_with_fuel(Seq::filter, 1);
    }
}

/// The last marker decides: behind it no other attribute changes the
/// variance, and before it none matters.
pub proof fn lemma_last_marker_decides(attrs: Seq<Attribute>, i: int)
    requires
        0 <= i < attrs.len(),
        marker(attrs[i]) is Some,
        forall|j: int| i < j < attrs.len() ==> marker(#[trigger] attrs[j]) is None,
    ensures
        Some(classify(attrs)) == marker(attrs[i]),
    decreases attrs.len(),
{
    if i < attrs.len() - 1 {
        lemma_last_marker_decides(attrs.drop_last(), i);
    }
}

/// No marker stays on a parameter, and every other attribute does.
pub proof fn lemma_retained_has_no_marker(attrs: Seq<Attribute>)
    ensures
        forall|i: int|
            0 <= i < retained(attrs).len() ==> marker(#[trigger] retained(attrs)[i]) is None,
        forall|i: int|
            0 <= i < attrs.len() && marker(#[trigger] attrs[i]) is None ==> retained(
                attrs,
            ).contains(attrs[i]),
{
    let keep = |attr: Attribute| marker(attr) is None;
    assert forall|i: int| 0 <= i < retained(attrs).len() implies marker(
        #[trigger] retained(attrs)[i],
    ) is None by {
        attrs.lemma_filter_pred(keep, i);
    }
    assert forall|i: int| 0 <= i < attrs.len() && marker(#[trigger] attrs[i]) is None implies retained(
        attrs,
    ).contains(attrs[i]) by {
        attrs.lemma_filter_contains(keep, i);
    }
}

/// The marker type of a covariant parameter is its base, unchanged. That
/// of a contravariant parameter is the type of a function that takes the
/// base; that of an invariant parameter takes the base and returns it.
pub proof fn lemma_marker_types(base: Seq<Tok>)
    ensures
        marker_type(Variance::Covariant, base) == base,
        marker_type(Variance::Contravariant, base) == seq![
            Tok::Ident("fn"@),
            Tok::Group(Delim::Paren, base),
        ],
        marker_type(Variance::Invariant, base) == marker_type(Variance::Contravariant, base)
            + arrow() + base,
{
}

} // verus!
