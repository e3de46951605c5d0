use phantom_type::args::parse_arguments;
use phantom_type::error::Violation;
use phantom_type::invocation::parse_invocation;
use proc_macro2::{Delimiter, Group, TokenStream, TokenTree};

fn tokens(text: &str) -> TokenStream {
    text.parse().unwrap()
}

#[test]
fn no_argument_is_accepted() {
    assert!(parse_arguments(TokenStream::new()).is_ok());
    assert!(parse_arguments(tokens("   ")).is_ok());
}

#[test]
fn any_argument_is_rejected() {
    for text in ["x", "1", "\"text\"", "x, y", "()", "{}", "[]", ",", "'a", "#[contra]", "::"] {
        match parse_arguments(tokens(text)) {
            Ok(_) => panic!("{} was accepted", text),
            Err(rejection) => {
                assert_eq!(rejection.violation, Violation::Argument, "{}", text);
                assert_eq!(rejection.message(), "unexpected token", "{}", text);
            }
        }
    }
}

#[test]
fn invisible_group_around_nothing_is_no_argument() {
    let group = Group::new(Delimiter::None, TokenStream::new());
    let args: TokenStream = std::iter::once(TokenTree::Group(group)).collect();
    assert!(parse_arguments(args).is_ok());

    let group = Group::new(Delimiter::None, tokens("x"));
    let args: TokenStream = std::iter::once(TokenTree::Group(group)).collect();
    assert!(parse_arguments(args).is_err());
}

#[test]
fn arguments_are_rejected_before_the_declaration_is_read() {
    let rejection = parse_invocation(tokens("x"), tokens("struct Foo<T>;")).err().unwrap();
    assert_eq!(rejection.violation, Violation::Argument);

    let rejection = parse_invocation(tokens("x"), tokens("not a declaration")).err().unwrap();
    assert_eq!(rejection.violation, Violation::Argument);

    let rejection = parse_invocation(tokens("1"), tokens("struct Foo;")).err().unwrap();
    assert_eq!(rejection.violation, Violation::Argument);
}

#[test]
fn invocation_without_arguments_reads_the_declaration() {
    let parsed = parse_invocation(TokenStream::new(), tokens("struct Foo<T>;")).ok().unwrap();
    assert_eq!(parsed.ident.to_string(), "Foo");

    let rejection = parse_invocation(TokenStream::new(), tokens("struct Foo;")).err().unwrap();
    assert_eq!(rejection.violation, Violation::Grammar);
}

#[test]
fn nested_invisible_groups_around_nothing_are_no_argument() {
    let inner = Group::new(Delimiter::None, TokenStream::new());
    let outer = Group::new(Delimiter::None, std::iter::once(TokenTree::Group(inner)).collect());
    let args: TokenStream = std::iter::once(TokenTree::Group(outer)).collect();
    assert!(parse_arguments(args).is_ok());

    let inner = Group::new(Delimiter::Parenthesis, TokenStream::new());
    let outer = Group::new(Delimiter::None, std::iter::once(TokenTree::Group(inner)).collect());
    let args: TokenStream = std::iter::once(TokenTree::Group(outer)).collect();
    let rejection = parse_arguments(args).err().unwrap();
    assert_eq!(rejection.violation, Violation::Argument);
}
