//! The declaration of a phantom type and its parser.
//!
//! The grammar is
//! `attributes visibility (struct | enum) identifier <generics> where-clause`
//! and then `;` for a struct or `{}` for an enum. Attributes, visibility,
//! generics and where clause are read by the parsers of `syn`; the order of
//! the pieces, the demand for at least one generic parameter and the empty
//! body are this crate's.

use crate::error::{diagnosis, diagnosis_at, new_error, Diagnosis, Rejection, Violation};
use crate::stream::{
    after, at_end, braces_failure, buffer_of, count_params, exhausted, expected_keyword,
    front_span, generics_with_where, group_span, ident_failure, inside, lead, leftover_failure,
    lookahead1, lookahead_error, missed, param_count, parse_braces, parse_enum, parse_generics,
    parse_ident, parse_outer_attrs, parse_semi, parse_struct, parse_visibility,
    parse_where_clause, peek_enum, peek_lt, peek_struct, reserved_word, run_declaration,
    semi_failure, span_at, syn_generics, syn_generics_failure, syn_outer_attrs,
    syn_outer_attrs_failure, syn_visibility, syn_visibility_failure, syn_where_clause,
    syn_where_clause_failure, with_where_clause, word_at, Lead, Stream,
};
use crate::token::Delim;
use proc_macro2::{Ident, TokenStream};
use syn::parse::ParseBuffer;
use syn::{Attribute, Generics, Visibility};
use vstd::prelude::*;

verus! {

/// The two forms of a phantom type, each with the keyword that was read.
pub enum Kind {
    /// `struct Name<..>;`
    UnitStruct(syn::token::Struct),
    /// `enum Name<..> {}`
    VoidEnum(syn::token::Enum),
}

/// The form of a phantom type, without the keyword's token.
pub ghost enum Shape {
    UnitStruct,
    VoidEnum,
}

impl Kind {
    /// The form that the kind stands for.
    pub open spec fn shape(&self) -> Shape {
        match self {
            Kind::UnitStruct(_) => Shape::UnitStruct,
            Kind::VoidEnum(_) => Shape::VoidEnum,
        }
    }
}

/// A parsed declaration of a phantom type. It holds no field and no
/// variant: the parser accepts none.
pub struct PhantomType {
    pub attrs: Vec<Attribute>,
    pub vis: Visibility,
    pub kind: Kind,
    pub ident: Ident,
    pub generics: Generics,
}

/// The mathematical model of a parsed declaration.
pub ghost struct Declaration {
    pub attrs: Seq<Attribute>,
    pub vis: Visibility,
    pub shape: Shape,
    pub ident: Ident,
    pub generics: Generics,
}

impl View for PhantomType {
    type V = Declaration;

    open spec fn view(&self) -> Declaration {
        Declaration {
            attrs: self.attrs@,
            vis: self.vis,
            shape: self.kind.shape(),
            ident: self.ident,
            generics: self.generics,
        }
    }
}

/// The part of a declaration in front of its generics, and the buffer
/// behind it.
pub ghost struct Head {
    pub attrs: Seq<Attribute>,
    pub vis: Visibility,
    pub shape: Shape,
    pub ident: Ident,
    pub rest: ParseBuffer<'static>,
}

/// The form that the keyword at the front of the buffer announces.
pub open spec fn keyword_shape(buffer: &ParseBuffer) -> Option<Shape> {
    if lead(buffer) == Lead::Word("struct"@) {
        Some(Shape::UnitStruct)
    } else if lead(buffer) == Lead::Word("enum"@) {
        Some(Shape::VoidEnum)
    } else {
        None
    }
}

/// Whether an identifier that may name a type stands at the front.
pub open spec fn names_type(buffer: &ParseBuffer) -> bool {
    lead(buffer) matches Lead::Word(text) && !reserved_word(text)
}

/// Attributes, visibility, keyword and name at the front of a buffer,
/// where all four are there.
pub open spec fn head_spec(buffer: &ParseBuffer) -> Option<Head> {
    match syn_outer_attrs(buffer) {
        None => None,
        Some((attrs, b1)) => match syn_visibility(&b1) {
            None => None,
            Some((vis, b2)) => match keyword_shape(&b2) {
                None => None,
                Some(shape) => {
                    let b3 = after(&b2);
                    if names_type(&b3) {
                        Some(Head { attrs, vis, shape, ident: word_at(&b3), rest: after(&b3) })
                    } else {
                        None
                    }
                },
            },
        },
    }
}

/// The generics of a declaration, where they are there: they open with
/// `<` and declare at least one parameter. With them comes the buffer
/// behind them.
pub open spec fn generics_spec(buffer: &ParseBuffer) -> Option<
    (syn::Generics, ParseBuffer<'static>),
> {
    if lead(buffer) != Lead::Mark('<') {
        None
    } else {
        match syn_generics(buffer) {
            None => None,
            Some((generics, rest)) => if param_count(generics) >= 1 {
                Some((generics, rest))
            } else {
                None
            },
        }
    }
}

/// A declaration up to its where clause, and the buffer at its
/// terminator.
pub open spec fn body_spec(buffer: &ParseBuffer) -> Option<(Declaration, ParseBuffer<'static>)> {
    match head_spec(buffer) {
        None => None,
        Some(head) => match generics_spec(&head.rest) {
            None => None,
            Some((generics, b5)) => match syn_where_clause(&b5) {
                None => None,
                Some((clause, b6)) => Some(
                    (
                        Declaration {
                            attrs: head.attrs,
                            vis: head.vis,
                            shape: head.shape,
                            ident: head.ident,
                            generics: generics_with_where(generics, clause),
                        },
                        b6,
                    ),
                ),
            },
        },
    }
}

/// Whether the terminator of the given form stands at the front: `;`
/// for a struct, braces around nothing for an enum.
pub open spec fn terminated(shape: Shape, buffer: &ParseBuffer) -> bool {
    match shape {
        Shape::UnitStruct => lead(buffer) == Lead::Mark(';'),
        Shape::VoidEnum => lead(buffer) == Lead::Group(Delim::Brace) && at_end(&inside(buffer)),
    }
}

/// What the grammar makes of a buffer: the declaration and the buffer
/// behind it, or nothing where the buffer does not begin with one.
pub open spec fn parse_spec(buffer: &ParseBuffer) -> Option<(Declaration, ParseBuffer<'static>)> {
    match body_spec(buffer) {
        None => None,
        Some((declaration, body)) => if terminated(declaration.shape, &body) {
            Some((declaration, after(&body)))
        } else {
            None
        },
    }
}

/// What is said where the generics are missing or declare no parameter:
/// that there must be generics, at the place where they were looked for.
pub open spec fn must_have_generics(buffer: &ParseBuffer) -> Diagnosis {
    diagnosis_at(span_at(buffer), "must have generics"@)
}

/// What is said of an enum with something between its braces, at those
/// braces.
pub open spec fn must_have_no_variants(buffer: &ParseBuffer) -> Diagnosis {
    diagnosis_at(group_span(buffer), "phantom enum must have 0 variants"@)
}

/// What is said of a buffer that holds no head of a declaration: the
/// diagnostic of the first piece that is not there.
pub open spec fn head_failure(buffer: &ParseBuffer) -> Diagnosis {
    match syn_outer_attrs(buffer) {
        None => syn_outer_attrs_failure(buffer),
        Some((_, b1)) => match syn_visibility(&b1) {
            None => syn_visibility_failure(&b1),
            Some((_, b2)) => if keyword_shape(&b2) is None {
                diagnosis_at(span_at(&b2), expected_keyword(at_end(&b2)))
            } else {
                ident_failure(&after(&b2))
            },
        },
    }
}

/// What is said of a buffer that holds no generics of a declaration.
pub open spec fn generics_failure(buffer: &ParseBuffer) -> Diagnosis {
    if lead(buffer) != Lead::Mark('<') {
        must_have_generics(buffer)
    } else {
        match syn_generics(buffer) {
            None => syn_generics_failure(buffer),
            Some(_) => must_have_generics(buffer),
        }
    }
}

/// What is said of a buffer that does not hold the terminator of the
/// given form.
pub open spec fn terminator_failure(shape: Shape, buffer: &ParseBuffer) -> Diagnosis {
    match shape {
        Shape::UnitStruct => semi_failure(buffer),
        Shape::VoidEnum => if lead(buffer) == Lead::Group(Delim::Brace) {
            must_have_no_variants(buffer)
        } else {
            braces_failure(buffer)
        },
    }
}

/// What is said of a buffer in which the grammar finds no declaration:
/// the diagnostic of the first piece that is not as the grammar asks.
pub open spec fn failure(buffer: &ParseBuffer) -> Diagnosis {
    match head_spec(buffer) {
        None => head_failure(buffer),
        Some(head) => match generics_spec(&head.rest) {
            None => generics_failure(&head.rest),
            Some((_, b5)) => match syn_where_clause(&b5) {
                None => syn_where_clause_failure(&b5),
                Some((_, b6)) => terminator_failure(head.shape, &b6),
            },
        },
    }
}

/// What is said of tokens that are no declaration, the whole of them:
/// the failure of the grammar, or what `syn` says of the tokens left behind
/// a declaration.
pub open spec fn declaration_failure(buffer: &ParseBuffer) -> Diagnosis {
    match parse_spec(buffer) {
        None => failure(buffer),
        Some((_, rest)) => leftover_failure(&rest),
    }
}

/// Whether the buffer holds an enum whose braces enclose something.
pub open spec fn has_variants(buffer: &ParseBuffer) -> bool {
    body_spec(buffer) matches Some((declaration, body)) && declaration.shape == Shape::VoidEnum
        && lead(&body) == Lead::Group(Delim::Brace) && !at_end(&inside(&body))
}

/// Whether the buffer holds the front of a declaration, but no `<`
/// behind its name.
pub open spec fn lacks_generics(buffer: &ParseBuffer) -> bool {
    head_spec(buffer) matches Some(head) && lead(&head.rest) != Lead::Mark('<')
}

/// Whether the buffer holds the front of a declaration and generics
/// behind its name that declare no parameter, as `<>` does.
pub open spec fn lacks_parameters(buffer: &ParseBuffer) -> bool {
    head_spec(buffer) matches Some(head) && lead(&head.rest) == Lead::Mark('<') && (syn_generics(
        &head.rest,
    ) matches Some((generics, _)) && param_count(generics) == 0)
}

/// A grammar violation with the given diagnostic.
fn grammar(diagnostic: syn::Error) -> (rejection: Rejection)
    ensures
        rejection.violation == Violation::Grammar,
        rejection.diagnostic == diagnostic,
{
    Rejection { violation: Violation::Grammar, diagnostic }
}

impl PhantomType {
    /// Parses one declaration from the front of the stream.
    ///
    /// It succeeds exactly where the grammar finds a declaration, returns
    /// that declaration and leaves the stream behind it. An accepted
    /// declaration has at least one generic parameter. Every failure is a
    /// grammar violation, and `failure` tells what its diagnostic says.
    pub fn parse(stream: &mut Stream) -> (r: Result<PhantomType, Rejection>)
        ensures
            r matches Ok(parsed) ==> parse_spec(old(stream).buffer()) == Some(
                (parsed@, *final(stream).buffer()),
            ),
            r matches Ok(parsed) ==> param_count(parsed.generics) >= 1,
            r matches Err(rejection) ==> parse_spec(old(stream).buffer()) is None
                && rejection.violation == Violation::Grammar && diagnosis(rejection.diagnostic)
                == failure(old(stream).buffer()),
    {
        let attrs = match parse_outer_attrs(stream) {
            Ok(attrs) => attrs,
            Err(diagnostic) => return Err(grammar(diagnostic)),
        };
        let vis = match parse_visibility(stream) {
            Ok(vis) => vis,
            Err(diagnostic) => return Err(grammar(diagnostic)),
        };

        let mut lookahead = lookahead1(stream);
        let kind = if peek_struct(&mut lookahead) {
            match parse_struct(stream) {
                Ok(token) => Kind::UnitStruct(token),
                Err(diagnostic) => return Err(grammar(diagnostic)),
            }
        } else if peek_enum(&mut lookahead) {
            match parse_enum(stream) {
                Ok(token) => Kind::VoidEnum(token),
                Err(diagnostic) => return Err(grammar(diagnostic)),
            }
        } else {
            assert(missed(&lookahead) =~= seq!["`struct`"@, "`enum`"@]);
            return Err(grammar(lookahead_error(lookahead)));
        };

        let ident = match parse_ident(stream) {
            Ok(ident) => ident,
            Err(diagnostic) => return Err(grammar(diagnostic)),
        };

        // Generics are required: `<` must stand here before they are read,
        // and they must declare a parameter.
        let place = front_span(stream);
        if !peek_lt(stream) {
            return Err(grammar(new_error(place, "must have generics")));
        }
        let generics = match parse_generics(stream) {
            Ok(generics) => generics,
            Err(diagnostic) => return Err(grammar(diagnostic)),
        };
        if count_params(&generics) == 0 {
            return Err(grammar(new_error(place, "must have generics")));
        }
        let where_clause = match parse_where_clause(stream) {
            Ok(clause) => clause,
            Err(diagnostic) => return Err(grammar(diagnostic)),
        };

        match kind {
            Kind::UnitStruct(_) => {
                match parse_semi(stream) {
                    Ok(_) => {},
                    Err(diagnostic) => return Err(grammar(diagnostic)),
                }
            },
            Kind::VoidEnum(_) => {
                let (empty, span) = match parse_braces(stream) {
                    Ok(found) => found,
                    Err(diagnostic) => return Err(grammar(diagnostic)),
                };
                if !empty {
                    return Err(grammar(new_error(span, "phantom enum must have 0 variants")));
                }
            },
        }

        Ok(
            PhantomType {
                attrs,
                vis,
                kind,
                ident,
                generics: with_where_clause(generics, where_clause),
            },
        )
    }
}

/// Parses the tokens of one declaration.
///
/// The tokens are accepted exactly where the grammar finds a declaration
/// at their front and nothing is left behind it. An accepted declaration
/// has at least one generic parameter. Every failure is a grammar
/// violation, and `declaration_failure` tells what its diagnostic says.
pub fn parse_declaration(input: TokenStream) -> (r: Result<PhantomType, Rejection>)
    ensures
        r matches Ok(parsed) ==> (parse_spec(&buffer_of(input)) matches Some((declaration, rest))
            && parsed@ == declaration && exhausted(&rest)),
        r matches Ok(parsed) ==> param_count(parsed.generics) >= 1,
        r matches Err(rejection) ==> rejection.violation == Violation::Grammar && (parse_spec(
            &buffer_of(input),
        ) matches Some((_, rest)) ==> !exhausted(&rest)) && diagnosis(rejection.diagnostic)
            == declaration_failure(&buffer_of(input)),
{
    match run_declaration(input) {
        Ok(parsed) => Ok(parsed),
        Err(diagnostic) => Err(grammar(diagnostic)),
    }
}

/// Generics are required: whatever the grammar accepts has the `<` of its
/// generics right behind its name and at least one parameter in them. A
/// buffer without the `<`, or with generics that declare no parameter, holds
/// no declaration, and is told that it must have generics.
pub proof fn lemma_generics_are_required(buffer: &ParseBuffer)
    ensures
        parse_spec(buffer) is Some ==> (head_spec(buffer) matches Some(head) && lead(&head.rest)
            == Lead::Mark('<') && (syn_generics(&head.rest) matches Some((generics, _))
            && param_count(generics) >= 1)),
        lacks_generics(buffer) || lacks_parameters(buffer) ==> parse_spec(buffer) is None
            && failure(buffer).message == "must have generics"@,
{
}

/// An enum with something between its braces is no phantom type, and is
/// told so at its braces.
pub proof fn lemma_variants_are_rejected(buffer: &ParseBuffer)
    requires
        has_variants(buffer),
    ensures
        parse_spec(buffer) is None,
        failure(buffer) == must_have_no_variants(&body_spec(buffer)->Some_0.1),
{
}

} // verus!
