use phantom_type::error::{Rejection, Violation};
use phantom_type::parse::{parse_declaration, Kind, PhantomType};
use proc_macro2::{Delimiter, Group, TokenStream, TokenTree};

fn tokens(text: &str) -> TokenStream {
    text.parse().unwrap()
}

fn accept(text: &str) -> PhantomType {
    match parse_declaration(tokens(text)) {
        Ok(parsed) => parsed,
        Err(rejection) => panic!("{} was turned down: {}", text, rejection.message()),
    }
}

fn reject(text: &str) -> Rejection {
    match parse_declaration(tokens(text)) {
        Ok(_) => panic!("{} was accepted", text),
        Err(rejection) => rejection,
    }
}

#[test]
fn test_const() {
    let independent = accept("pub struct Independent<W: ?Sized, const I: u32>;");
    assert_eq!(independent.ident.to_string(), "Independent");
    assert!(matches!(independent.kind, Kind::UnitStruct(_)));
    assert_eq!(independent.generics.params.len(), 2);
    assert!(matches!(independent.generics.params[0], syn::GenericParam::Type(_)));
    assert!(matches!(independent.generics.params[1], syn::GenericParam::Const(_)));

    let dependent = accept("pub struct Dependent<const I: usize, T: Trait<[u8; I]>>;");
    assert_eq!(dependent.ident.to_string(), "Dependent");
    assert_eq!(dependent.generics.params.len(), 2);
    assert!(matches!(dependent.generics.params[0], syn::GenericParam::Const(_)));
    assert!(matches!(dependent.generics.params[1], syn::GenericParam::Type(_)));
}

#[test]
fn unit_struct_is_accepted() {
    let parsed = accept("struct Foo<T>;");
    assert!(parsed.attrs.is_empty());
    assert!(matches!(parsed.vis, syn::Visibility::Inherited));
    assert!(matches!(parsed.kind, Kind::UnitStruct(_)));
    assert_eq!(parsed.ident.to_string(), "Foo");
    assert!(parsed.generics.lt_token.is_some());
    assert_eq!(parsed.generics.params.len(), 1);
    assert!(parsed.generics.where_clause.is_none());
}

#[test]
fn void_enum_is_accepted() {
    let parsed = accept("pub enum Bar<'a, T> {}");
    assert!(matches!(parsed.vis, syn::Visibility::Public(_)));
    assert!(matches!(parsed.kind, Kind::VoidEnum(_)));
    assert_eq!(parsed.ident.to_string(), "Bar");
    assert_eq!(parsed.generics.params.len(), 2);
}

#[test]
fn where_clause_is_kept_in_the_generics() {
    let parsed = accept("struct Bounded<T> where T: Copy;");
    let clause = parsed.generics.where_clause.expect("where clause");
    assert_eq!(clause.predicates.len(), 1);

    let parsed = accept("enum Bounded<T> where T: Copy, T: Send {}");
    assert_eq!(parsed.generics.where_clause.expect("where clause").predicates.len(), 2);
}

#[test]
fn attributes_and_visibility_are_kept() {
    let parsed = accept("#[derive(Copy)] #[doc = \"x\"] pub(crate) struct Foo<T>;");
    assert_eq!(parsed.attrs.len(), 2);
    assert!(parsed.attrs[0].path().is_ident("derive"));
    assert!(parsed.attrs[1].path().is_ident("doc"));
    assert!(matches!(parsed.vis, syn::Visibility::Restricted(_)));
}

#[test]
fn declaration_without_generics_is_rejected() {
    let rejection = reject("struct Foo;");
    assert_eq!(rejection.violation, Violation::Grammar);
    assert_eq!(rejection.message(), "must have generics");
    let span = rejection.diagnostic.span();
    assert_eq!((span.start().line, span.start().column), (1, 10));
    assert_eq!((span.end().line, span.end().column), (1, 11));

    let rejection = reject("enum Foo {}");
    assert_eq!(rejection.violation, Violation::Grammar);
    assert_eq!(rejection.message(), "must have generics");
    let span = rejection.diagnostic.span();
    assert_eq!((span.start().line, span.start().column), (1, 9));
    assert_eq!((span.end().line, span.end().column), (1, 10));

    let rejection = reject("struct Foo");
    assert_eq!(rejection.violation, Violation::Grammar);
    assert_eq!(rejection.message(), "must have generics");

    let rejection = reject("pub struct Foo(u8);");
    assert_eq!(rejection.message(), "must have generics");
}

#[test]
fn generics_without_a_parameter_are_rejected() {
    let rejection = reject("struct Foo<>;");
    assert_eq!(rejection.violation, Violation::Grammar);
    assert_eq!(rejection.message(), "must have generics");
    let span = rejection.diagnostic.span();
    assert_eq!((span.start().line, span.start().column), (1, 10));
    assert_eq!((span.end().line, span.end().column), (1, 11));

    let rejection = reject("pub enum Foo<> {}");
    assert_eq!(rejection.violation, Violation::Grammar);
    assert_eq!(rejection.message(), "must have generics");

    let rejection = reject("struct Foo< > where u8: Copy;");
    assert_eq!(rejection.message(), "must have generics");
}

#[test]
fn the_same_tokens_are_turned_down_in_the_same_words() {
    for text in [
        "",
        "struct",
        "struct Foo",
        "struct Foo<>;",
        "struct Foo<T",
        "struct Foo<T>",
        "enum Foo<T> { A }",
        "#[] struct Foo<T>;",
        "pub(in) struct Foo<T>;",
        "struct Foo<T> where for;",
        "struct Foo<T>; more",
    ] {
        let first = reject(text);
        let second = reject(text);
        assert_eq!(first.violation, second.violation, "{}", text);
        assert_eq!(first.message(), second.message(), "{}", text);
        let (one, other) = (first.diagnostic.span(), second.diagnostic.span());
        assert_eq!(one.start(), other.start(), "{}", text);
        assert_eq!(one.end(), other.end(), "{}", text);
    }
}

#[test]
fn accepted_declarations_have_generics() {
    for text in [
        "struct A<T>;",
        "struct B<'a>;",
        "struct C<const N: usize>;",
        "enum D<T, U> {}",
        "pub struct E<T: ?Sized, const I: u32>;",
    ] {
        let parsed = accept(text);
        assert!(parsed.generics.lt_token.is_some(), "{}", text);
        assert!(parsed.generics.params.len() >= 1, "{}", text);
    }
}

#[test]
fn other_keywords_are_rejected() {
    for text in ["union Foo<T> {}", "fn foo<T>() {}", "type Foo<T> = T;", "Foo<T>;", ""] {
        let rejection = reject(text);
        assert_eq!(rejection.violation, Violation::Grammar, "{}", text);
    }
    assert_eq!(reject("union Foo<T> {}").message(), "expected `struct` or `enum`");
    assert_eq!(reject("#[doc(hidden)] pub Foo<T>;").message(), "expected `struct` or `enum`");
    assert_eq!(reject("").message(), "unexpected end of input, expected `struct` or `enum`");
    assert_eq!(
        reject("#[doc(hidden)] pub(crate)").message(),
        "unexpected end of input, expected `struct` or `enum`"
    );
}

#[test]
fn struct_with_fields_is_rejected() {
    let rejection = reject("struct Foo<T>(T);");
    assert_eq!(rejection.violation, Violation::Grammar);
    assert_eq!(rejection.message(), "expected `;`");

    let rejection = reject("struct Foo<T> { value: T }");
    assert_eq!(rejection.violation, Violation::Grammar);
    assert_eq!(rejection.message(), "expected `;`");

    let rejection = reject("struct Foo<T>");
    assert_eq!(rejection.violation, Violation::Grammar);
    assert_eq!(rejection.message(), "expected `;`");

    let rejection = reject("struct Foo<T> where T: Copy {}");
    assert_eq!(rejection.message(), "expected `;`");
}

#[test]
fn enum_with_variants_is_rejected_at_its_braces() {
    let rejection = reject("enum Foo<T> { A(T) }");
    assert_eq!(rejection.violation, Violation::Grammar);
    assert_eq!(rejection.message(), "phantom enum must have 0 variants");
    let span = rejection.diagnostic.span();
    assert_eq!(span.start().line, 1);
    assert_eq!(span.start().column, 12);
    assert_eq!(span.end().line, 1);
    assert_eq!(span.end().column, 20);

    let rejection = reject("enum Foo<T> { A, B }");
    assert_eq!(rejection.message(), "phantom enum must have 0 variants");

    let rejection = reject("enum Foo<T> { , }");
    assert_eq!(rejection.message(), "phantom enum must have 0 variants");
}

#[test]
fn enum_without_braces_is_rejected() {
    let rejection = reject("enum Foo<T>;");
    assert_eq!(rejection.violation, Violation::Grammar);
    assert_eq!(rejection.message(), "expected curly braces");

    let rejection = reject("enum Foo<T> ()");
    assert_eq!(rejection.message(), "expected curly braces");

    let rejection = reject("enum Foo<T>");
    assert_eq!(rejection.violation, Violation::Grammar);
    assert_eq!(rejection.message(), "unexpected end of input, expected curly braces");
}

#[test]
fn keyword_is_no_name() {
    let rejection = reject("struct fn<T>;");
    assert_eq!(rejection.violation, Violation::Grammar);
    assert_eq!(rejection.message(), "expected identifier, found keyword `fn`");
    let span = rejection.diagnostic.span();
    assert_eq!((span.start().column, span.end().column), (7, 9));

    let rejection = reject("struct _<T>;");
    assert_eq!(rejection.violation, Violation::Grammar);
    assert_eq!(rejection.message(), "expected identifier, found keyword `_`");

    let rejection = reject("struct <T>;");
    assert_eq!(rejection.violation, Violation::Grammar);
    assert_eq!(rejection.message(), "expected identifier");
    let span = rejection.diagnostic.span();
    assert_eq!((span.start().column, span.end().column), (7, 8));

    let rejection = reject("pub enum");
    assert_eq!(rejection.message(), "unexpected end of input, expected identifier");
}

#[test]
fn missing_terminator_is_reported_where_it_should_stand() {
    let rejection = reject("struct Foo<T> {}");
    assert_eq!(rejection.message(), "expected `;`");
    let span = rejection.diagnostic.span();
    assert_eq!((span.start().column, span.end().column), (14, 15));

    let rejection = reject("struct Foo<T> ,");
    assert_eq!(rejection.message(), "expected `;`");
    let span = rejection.diagnostic.span();
    assert_eq!((span.start().column, span.end().column), (14, 15));

    let rejection = reject("enum Foo<T> ;");
    assert_eq!(rejection.message(), "expected curly braces");
    let span = rejection.diagnostic.span();
    assert_eq!((span.start().column, span.end().column), (12, 13));

    let rejection = reject("union Foo<T>;");
    assert_eq!(rejection.message(), "expected `struct` or `enum`");
    let span = rejection.diagnostic.span();
    assert_eq!((span.start().column, span.end().column), (0, 5));
}

#[test]
fn malformed_pieces_are_rejected() {
    for text in [
        "#[] struct Foo<T>;",
        "# struct Foo<T>;",
        "pub(in) struct Foo<T>;",
        "struct Foo<T;",
        "struct Foo<T: >>;",
        "struct Foo<T> where for;",
    ] {
        let rejection = reject(text);
        assert_eq!(rejection.violation, Violation::Grammar, "{}", text);
    }
}

#[test]
fn tokens_behind_the_declaration_are_rejected() {
    let rejection = reject("struct Foo<T>; struct Bar<T>;");
    assert_eq!(rejection.violation, Violation::Grammar);
    assert_eq!(rejection.message(), "unexpected token");

    let rejection = reject("enum Foo<T> {} ;");
    assert_eq!(rejection.violation, Violation::Grammar);
}

fn invisible(inner: TokenStream) -> TokenStream {
    std::iter::once(TokenTree::Group(Group::new(Delimiter::None, inner))).collect()
}

#[test]
fn invisible_groups_are_looked_through() {
    let parsed = parse_declaration(invisible(tokens("pub struct Foo<T>;"))).ok().unwrap();
    assert_eq!(parsed.ident.to_string(), "Foo");
    assert!(matches!(parsed.kind, Kind::UnitStruct(_)));

    let mut input = invisible(tokens("enum"));
    input.extend(invisible(tokens("Bar")));
    input.extend(tokens("<T> {}"));
    let parsed = parse_declaration(input).ok().unwrap();
    assert_eq!(parsed.ident.to_string(), "Bar");
    assert!(matches!(parsed.kind, Kind::VoidEnum(_)));
}

#[test]
fn visibility_that_matched_nothing_is_inherited() {
    let mut input = invisible(TokenStream::new());
    input.extend(tokens("struct Foo<T>;"));
    let parsed = parse_declaration(input).ok().unwrap();
    assert!(matches!(parsed.vis, syn::Visibility::Inherited));
    assert_eq!(parsed.ident.to_string(), "Foo");
}

#[test]
fn invisible_group_between_the_braces_is_something() {
    let mut input = tokens("enum Foo<T>");
    let body = Group::new(Delimiter::Brace, invisible(TokenStream::new()));
    input.extend(std::iter::once(TokenTree::Group(body)));
    let rejection = parse_declaration(input).err().unwrap();
    assert_eq!(rejection.violation, Violation::Grammar);
    assert_eq!(rejection.message(), "phantom enum must have 0 variants");
}

#[test]
fn longer_punctuation_that_opens_with_an_angle_counts_as_generics_asked_for() {
    let rejection = reject("struct Foo<=T>;");
    assert_eq!(rejection.violation, Violation::Grammar);
    assert!(rejection.message() != "must have generics");
}
