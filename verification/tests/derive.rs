use phantom_type::derive::{
    apply, expand, expand_clone, expand_copy, expand_debug, expand_default, expand_eq,
    expand_hash, expand_list, expand_ord, expand_partialeq, expand_partialord, Derive, DeriveList,
};
use phantom_type::error::Violation;
use phantom_type::parse::{parse_declaration, PhantomType};
use proc_macro2::TokenStream;
use syn::parse::Parser;

fn declaration(text: &str) -> PhantomType {
    match parse_declaration(text.parse().unwrap()) {
        Ok(parsed) => parsed,
        Err(rejection) => panic!("{} was turned down: {}", text, rejection.message()),
    }
}

fn path(text: &str) -> syn::Path {
    syn::Path::parse_mod_style.parse_str(text).unwrap()
}

fn expanded(text: &str) -> (String, Vec<String>) {
    let input = declaration(text);
    match expand(&input.attrs, &input) {
        Ok((tokens, rest)) => (
            tokens.to_string(),
            rest.iter().map(|attr| quote::ToTokens::to_token_stream(attr).to_string()).collect(),
        ),
        Err(rejection) => panic!("{} was turned down: {}", text, rejection.message()),
    }
}

const COPY_FOO: &str = "# [automatically_derived] impl < T > :: core :: marker :: Copy for Foo < T > { }";

const CLONE_FOO: &str = "# [automatically_derived] impl < T > :: core :: clone :: Clone for Foo < T > \
    { # [inline] fn clone (& self) -> Self { Foo } }";

const DEFAULT_FOO: &str = "# [automatically_derived] impl < T > :: core :: default :: Default for Foo < T > \
    { # [inline] fn default () -> Self { Foo } }";

const HASH_FOO: &str = "# [automatically_derived] impl < T > :: core :: hash :: Hash for Foo < T > \
    { # [inline] fn hash < H : :: core :: hash :: Hasher > (& self , hasher : & mut H) { let _ = hasher ; } }";

const PARTIALORD_FOO: &str = "# [automatically_derived] impl < T > :: core :: cmp :: PartialOrd for Foo < T > \
    { # [inline] fn partial_cmp (& self , other : & Self) -> :: core :: option :: Option < :: core :: cmp :: Ordering > \
    { let _ = other ; :: core :: option :: Option :: Some (:: core :: cmp :: Ordering :: Equal) } }";

const ORD_FOO: &str = "# [automatically_derived] impl < T > :: core :: cmp :: Ord for Foo < T > \
    { # [inline] fn cmp (& self , other : & Self) -> :: core :: cmp :: Ordering \
    { let _ = other ; :: core :: cmp :: Ordering :: Equal } }";

const PARTIALEQ_FOO: &str = "# [automatically_derived] impl < T > :: core :: cmp :: PartialEq for Foo < T > \
    { # [inline] fn eq (& self , other : & Self) -> bool { let _ = other ; true } }";

const EQ_FOO: &str = "# [automatically_derived] impl < T > :: core :: cmp :: Eq for Foo < T > { }";

const DEBUG_FOO: &str = "# [automatically_derived] impl < T > :: core :: fmt :: Debug for Foo < T > \
    { fn fmt (& self , formatter : & mut :: core :: fmt :: Formatter) -> :: core :: fmt :: Result \
    { :: core :: fmt :: Formatter :: write_str (formatter , \"Foo\") } }";

#[test]
fn copy_is_a_marker() {
    let input = declaration("struct Foo<T>;");
    assert_eq!(expand_copy(&input).to_string(), COPY_FOO);
}

#[test]
fn clone_names_the_unit_struct() {
    let input = declaration("struct Foo<T>;");
    assert_eq!(expand_clone(&input).to_string(), CLONE_FOO);
}

#[test]
fn clone_matches_on_the_void_enum() {
    let input = declaration("enum Foo<T> {}");
    assert_eq!(
        expand_clone(&input).to_string(),
        "# [automatically_derived] impl < T > :: core :: clone :: Clone for Foo < T > \
         { # [inline] fn clone (& self) -> Self { match * self { } } }"
    );
}

#[test]
fn default_names_the_unit_struct() {
    let input = declaration("struct Foo<T>;");
    assert_eq!(expand_default(&input).to_string(), DEFAULT_FOO);
}

#[test]
fn hash_leaves_the_hasher_alone() {
    let input = declaration("struct Foo<T>;");
    assert_eq!(expand_hash(&input).to_string(), HASH_FOO);
}

#[test]
fn partial_order_is_always_equal() {
    let input = declaration("struct Foo<T>;");
    assert_eq!(expand_partialord(&input).to_string(), PARTIALORD_FOO);
}

#[test]
fn order_is_always_equal() {
    let input = declaration("struct Foo<T>;");
    assert_eq!(expand_ord(&input).to_string(), ORD_FOO);
}

#[test]
fn equality_is_always_true() {
    let input = declaration("struct Foo<T>;");
    assert_eq!(expand_partialeq(&input).to_string(), PARTIALEQ_FOO);
}

#[test]
fn eq_is_a_marker() {
    let input = declaration("struct Foo<T>;");
    assert_eq!(expand_eq(&input).to_string(), EQ_FOO);
}

#[test]
fn debug_writes_the_name() {
    let input = declaration("struct Foo<T>;");
    assert_eq!(expand_debug(&input).to_string(), DEBUG_FOO);
}

#[test]
fn debug_writes_the_same_name_for_other_generics() {
    let plain = expand_debug(&declaration("struct Foo<T>;")).to_string();
    let other = expand_debug(&declaration("enum Foo<'a, U: 'a, const N: usize> where U: Copy {}"))
        .to_string();
    let method = "{ fn fmt (& self , formatter : & mut :: core :: fmt :: Formatter) -> :: core :: fmt :: Result \
        { :: core :: fmt :: Formatter :: write_str (formatter , \"Foo\") } }";
    assert!(plain.ends_with(method));
    assert!(other.ends_with(method));
}

#[test]
fn debug_writes_a_raw_name_as_it_was_declared() {
    let input = declaration("struct r#type<T>;");
    assert!(expand_debug(&input)
        .to_string()
        .ends_with("{ :: core :: fmt :: Formatter :: write_str (formatter , \"r#type\") } }"));
}

#[test]
fn comparisons_are_the_same_for_every_declaration() {
    let one = declaration("struct One<T>;");
    let other = declaration("enum Other<'a, T: ?Sized + 'a, const N: usize> where T: Copy {}");
    for (first, second, method) in [
        (
            expand_partialeq(&one),
            expand_partialeq(&other),
            "{ # [inline] fn eq (& self , other : & Self) -> bool { let _ = other ; true } }",
        ),
        (
            expand_ord(&one),
            expand_ord(&other),
            "{ # [inline] fn cmp (& self , other : & Self) -> :: core :: cmp :: Ordering \
             { let _ = other ; :: core :: cmp :: Ordering :: Equal } }",
        ),
        (
            expand_partialord(&one),
            expand_partialord(&other),
            "{ # [inline] fn partial_cmp (& self , other : & Self) -> \
             :: core :: option :: Option < :: core :: cmp :: Ordering > \
             { let _ = other ; :: core :: option :: Option :: Some (:: core :: cmp :: Ordering :: Equal) } }",
        ),
    ] {
        assert!(first.to_string().ends_with(method));
        assert!(second.to_string().ends_with(method));
    }
}

#[test]
fn implementations_carry_the_generics_and_the_where_clause() {
    let input =
        declaration("pub struct Foo<'a, T: 'a + ?Sized, const N: usize> where T: Clone;");
    assert_eq!(
        expand_copy(&input).to_string(),
        "# [automatically_derived] impl < 'a , T : 'a + ? Sized , const N : usize > \
         :: core :: marker :: Copy for Foo < 'a , T , N > where T : Clone { }"
    );
}

#[test]
fn implementations_carry_const_parameters() {
    let input = declaration("pub struct Independent<W: ?Sized, const I: u32>;");
    assert_eq!(
        expand_eq(&input).to_string(),
        "# [automatically_derived] impl < W : ? Sized , const I : u32 > \
         :: core :: cmp :: Eq for Independent < W , I > { }"
    );
    let input = declaration("pub struct Dependent<const I: usize, T: Trait<[u8; I]>>;");
    assert_eq!(
        expand_eq(&input).to_string(),
        "# [automatically_derived] impl < const I : usize , T : Trait < [u8 ; I] > > \
         :: core :: cmp :: Eq for Dependent < I , T > { }"
    );
}

#[test]
fn apply_answers_each_capability() {
    let input = declaration("struct Foo<T>;");
    let cases = [
        (Derive::Copy, COPY_FOO),
        (Derive::Clone, CLONE_FOO),
        (Derive::Default, DEFAULT_FOO),
        (Derive::Hash, HASH_FOO),
        (Derive::PartialOrd, PARTIALORD_FOO),
        (Derive::Ord, ORD_FOO),
        (Derive::PartialEq, PARTIALEQ_FOO),
        (Derive::Eq, EQ_FOO),
        (Derive::Debug, DEBUG_FOO),
    ];
    for (derive, expected) in cases {
        assert_eq!(apply(derive, &input).to_string(), expected);
    }
}

#[test]
fn three_capabilities_give_three_implementations() {
    let (tokens, rest) = expanded("#[derive(Copy, Clone, Debug)] struct Foo<T>;");
    assert_eq!(tokens, format!("{} {} {}", COPY_FOO, CLONE_FOO, DEBUG_FOO));
    assert!(rest.is_empty());

    let file: syn::File = syn::parse_str(&tokens).unwrap();
    assert_eq!(file.items.len(), 3);
    let mut traits = Vec::new();
    for item in &file.items {
        match item {
            syn::Item::Impl(item) => {
                let (_, path, _) = item.trait_.as_ref().expect("a trait");
                traits.push(path.segments.last().unwrap().ident.to_string());
            }
            _ => panic!("not an implementation"),
        }
    }
    assert_eq!(traits, ["Copy", "Clone", "Debug"]);
}

#[test]
fn every_implementation_is_an_item_of_rust() {
    let cases = [
        (
            "#[derive(Copy, Clone, Default, Hash, PartialOrd, Ord, PartialEq, Eq, Debug)] \
             pub struct Foo<'a, T: 'a + ?Sized, const N: usize> where T: Clone;",
            9,
        ),
        ("#[derive(Copy, Clone, Hash, PartialOrd, Ord, PartialEq, Eq, Debug)] enum Never<T> {}", 8),
    ];
    for (text, count) in cases {
        let (tokens, _) = expanded(text);
        let file: syn::File = syn::parse_str(&tokens).unwrap();
        assert!(file.items.iter().all(|item| matches!(item, syn::Item::Impl(_))));
        assert_eq!(file.items.len(), count);
    }
}

#[test]
fn no_auto_trait_is_implemented() {
    let (tokens, _) = expanded(
        "#[derive(Copy, Clone, Default, Hash, PartialOrd, Ord, PartialEq, Eq, Debug)] struct MyPhantom<T>;",
    );
    let file: syn::File = syn::parse_str(&tokens).unwrap();
    for item in &file.items {
        if let syn::Item::Impl(item) = item {
            assert!(item.unsafety.is_none());
            let (_, path, _) = item.trait_.as_ref().unwrap();
            let name = path.segments.last().unwrap().ident.to_string();
            assert!(name != "Send" && name != "Sync");
        }
    }
}

#[test]
fn no_request_gives_no_implementation() {
    let (tokens, rest) = expanded("struct Foo<T>;");
    assert_eq!(tokens, "");
    assert!(rest.is_empty());

    let (tokens, rest) = expanded("#[derive()] struct Foo<T>;");
    assert_eq!(tokens, "");
    assert!(rest.is_empty());
}

#[test]
fn a_capability_listed_twice_is_answered_twice() {
    let (tokens, _) = expanded("#[derive(Eq, Eq)] struct Foo<T>;");
    assert_eq!(tokens, format!("{} {}", EQ_FOO, EQ_FOO));
}

#[test]
fn a_trailing_comma_is_accepted() {
    let (tokens, _) = expanded("#[derive(Copy,)] struct Foo<T>;");
    assert_eq!(tokens, COPY_FOO);
}

#[test]
fn requests_are_answered_in_source_order() {
    let (tokens, rest) = expanded(
        "#[derive(Debug)] #[doc(hidden)] #[derive(Copy, Eq)] #[allow(dead_code)] struct Foo<T>;",
    );
    assert_eq!(tokens, format!("{} {} {}", DEBUG_FOO, COPY_FOO, EQ_FOO));
    assert_eq!(rest, ["# [doc (hidden)]", "# [allow (dead_code)]"]);
}

#[test]
fn other_attributes_are_handed_back_unchanged() {
    let input = declaration("#[doc = \"text\"] #[derive(Copy)] #[repr(C)] #[derives(x)] struct Foo<T>;");
    let (_, rest) = expand(&input.attrs, &input).ok().unwrap();
    assert_eq!(rest.len(), 3);
    assert!(std::ptr::eq(rest[0], &input.attrs[0]));
    assert!(std::ptr::eq(rest[1], &input.attrs[2]));
    assert!(std::ptr::eq(rest[2], &input.attrs[3]));
}

#[test]
fn attributes_may_come_from_elsewhere() {
    let input = declaration("struct Foo<T>;");
    let other = declaration("#[derive(Eq)] #[doc(hidden)] struct Bar<U>;");
    let (tokens, rest) = expand(&other.attrs, &input).ok().unwrap();
    assert_eq!(tokens.to_string(), EQ_FOO);
    assert_eq!(rest.len(), 1);
}

#[test]
fn unknown_capability_is_an_unsupported_derive() {
    let input = declaration("#[derive(Copy, Serialize, Nope)] struct Foo<T>;");
    let rejection = expand(&input.attrs, &input).err().unwrap();
    assert_eq!(rejection.violation, Violation::Derive);
    assert_eq!(rejection.message(), "unsupported derive");
    let span = rejection.diagnostic.span();
    assert_eq!((span.start().line, span.start().column), (1, 15));
    assert_eq!((span.end().line, span.end().column), (1, 24));
}

#[test]
fn a_longer_path_is_an_unsupported_derive() {
    for text in [
        "#[derive(core::marker::Copy)] struct Foo<T>;",
        "#[derive(::Copy)] struct Foo<T>;",
        "#[derive(copy)] struct Foo<T>;",
        "#[derive(self)] struct Foo<T>;",
    ] {
        let input = declaration(text);
        let rejection = expand(&input.attrs, &input).err().unwrap();
        assert_eq!(rejection.violation, Violation::Derive, "{}", text);
        assert_eq!(rejection.message(), "unsupported derive", "{}", text);
    }
}

#[test]
fn malformed_request_is_a_derive_violation() {
    let cases = [
        ("#[derive(Copy Clone)] struct Foo<T>;", "expected `,`"),
        ("#[derive] struct Foo<T>;", "expected attribute arguments in parentheses: #[derive(...)]"),
        ("#[derive = \"Copy\"] struct Foo<T>;", "expected parentheses: #[derive(...)]"),
        ("#[derive(Copy<T>)] struct Foo<T>;", "expected `,`"),
        ("#[derive(1)] struct Foo<T>;", "expected identifier"),
        ("#[derive(Copy::)] struct Foo<T>;", "unexpected end of input, expected path segment after `::`"),
    ];
    for (text, message) in cases {
        let input = declaration(text);
        let rejection = expand(&input.attrs, &input).err().unwrap();
        assert_eq!(rejection.violation, Violation::Derive, "{}", text);
        assert_eq!(rejection.message(), message, "{}", text);
    }
}

#[test]
fn a_failing_request_leaves_nothing_generated() {
    let input = declaration("#[derive(Copy)] #[derive(Nope)] #[derive(Eq)] struct Foo<T>;");
    assert!(expand(&input.attrs, &input).is_err());
}

#[test]
fn the_first_failing_request_is_reported() {
    let input = declaration("#[derive(Copy Clone)] #[derive(Nope)] struct Foo<T>;");
    let rejection = expand(&input.attrs, &input).err().unwrap();
    assert_eq!(rejection.message(), "expected `,`");

    let input = declaration("#[derive(Nope)] #[derive(Copy Clone)] struct Foo<T>;");
    let rejection = expand(&input.attrs, &input).err().unwrap();
    assert_eq!(rejection.message(), "unsupported derive");
}

#[test]
fn paths_name_capabilities() {
    let cases = [
        ("Copy", Some(Derive::Copy)),
        ("Clone", Some(Derive::Clone)),
        ("Default", Some(Derive::Default)),
        ("Hash", Some(Derive::Hash)),
        ("PartialOrd", Some(Derive::PartialOrd)),
        ("Ord", Some(Derive::Ord)),
        ("PartialEq", Some(Derive::PartialEq)),
        ("Eq", Some(Derive::Eq)),
        ("Debug", Some(Derive::Debug)),
        ("Display", None),
        ("debug", None),
        ("::Debug", None),
        ("fmt::Debug", None),
    ];
    for (text, expected) in cases {
        assert_eq!(Derive::from_path(&path(text)), expected, "{}", text);
    }
}

#[test]
fn lists_of_paths_are_resolved_in_order() {
    let paths = vec![path("Ord"), path("Copy"), path("Ord")];
    let list = DeriveList::from_paths(&paths).ok().unwrap();
    assert_eq!(list.derives, [Derive::Ord, Derive::Copy, Derive::Ord]);

    let list = DeriveList::from_paths(&Vec::new()).ok().unwrap();
    assert!(list.derives.is_empty());

    let paths = vec![path("Ord"), path("Nope"), path("AlsoNope")];
    let rejection = DeriveList::from_paths(&paths).err().unwrap();
    assert_eq!(rejection.violation, Violation::Derive);
    assert_eq!(rejection.message(), "unsupported derive");
}

#[test]
fn lists_are_expanded_entry_by_entry() {
    let input = declaration("struct Foo<T>;");
    let list = DeriveList { derives: vec![Derive::Eq, Derive::Copy] };
    assert_eq!(expand_list(&list, &input).to_string(), format!("{} {}", EQ_FOO, COPY_FOO));
    let list = DeriveList { derives: Vec::new() };
    assert_eq!(expand_list(&list, &input).to_string(), TokenStream::new().to_string());
}

fn only_method(tokens: TokenStream) -> syn::ImplItemFn {
    let item: syn::ItemImpl = syn::parse2(tokens).unwrap();
    assert_eq!(item.items.len(), 1);
    match item.items.into_iter().next().unwrap() {
        syn::ImplItem::Fn(method) => method,
        _ => panic!("not a method"),
    }
}

fn discards_other(statement: &syn::Stmt) -> bool {
    match statement {
        syn::Stmt::Local(local) => {
            let wild = matches!(local.pat, syn::Pat::Wild(_));
            let other = match &local.init {
                Some(init) => match &*init.expr {
                    syn::Expr::Path(path) => path.path.is_ident("other"),
                    _ => false,
                },
                None => false,
            };
            wild && other
        }
        _ => false,
    }
}

fn path_text(path: &syn::Path) -> String {
    let mut text = String::new();
    if path.leading_colon.is_some() {
        text.push_str("::");
    }
    let names: Vec<String> = path.segments.iter().map(|segment| segment.ident.to_string()).collect();
    text.push_str(&names.join("::"));
    text
}

#[test]
fn generated_equality_answers_true_without_reading_an_operand() {
    for text in ["struct Foo<T>;", "enum Foo<'a, T: ?Sized, const N: usize> where T: 'a {}"] {
        let method = only_method(expand_partialeq(&declaration(text)));
        assert_eq!(method.sig.ident.to_string(), "eq");
        assert_eq!(method.block.stmts.len(), 2);
        assert!(discards_other(&method.block.stmts[0]));
        match &method.block.stmts[1] {
            syn::Stmt::Expr(syn::Expr::Lit(literal), None) => match &literal.lit {
                syn::Lit::Bool(value) => assert!(value.value),
                _ => panic!("not a truth value"),
            },
            _ => panic!("not a literal"),
        }
    }
}

#[test]
fn generated_order_answers_equal_without_reading_an_operand() {
    for text in ["struct Foo<T>;", "enum Foo<'a, T: ?Sized, const N: usize> where T: 'a {}"] {
        let method = only_method(expand_ord(&declaration(text)));
        assert_eq!(method.sig.ident.to_string(), "cmp");
        assert_eq!(method.block.stmts.len(), 2);
        assert!(discards_other(&method.block.stmts[0]));
        match &method.block.stmts[1] {
            syn::Stmt::Expr(syn::Expr::Path(path), None) => {
                assert_eq!(path_text(&path.path), "::core::cmp::Ordering::Equal")
            }
            _ => panic!("not a path"),
        }

        let method = only_method(expand_partialord(&declaration(text)));
        assert_eq!(method.sig.ident.to_string(), "partial_cmp");
        assert_eq!(method.block.stmts.len(), 2);
        assert!(discards_other(&method.block.stmts[0]));
        match &method.block.stmts[1] {
            syn::Stmt::Expr(syn::Expr::Call(call), None) => {
                match &*call.func {
                    syn::Expr::Path(path) => {
                        assert_eq!(path_text(&path.path), "::core::option::Option::Some")
                    }
                    _ => panic!("not a path"),
                }
                assert_eq!(call.args.len(), 1);
                match &call.args[0] {
                    syn::Expr::Path(path) => {
                        assert_eq!(path_text(&path.path), "::core::cmp::Ordering::Equal")
                    }
                    _ => panic!("not a path"),
                }
            }
            _ => panic!("not a call"),
        }
    }
}

#[test]
fn generated_debug_writes_the_declared_name() {
    let cases = [
        ("struct Foo<T>;", "Foo"),
        ("enum Foo<'a, T: ?Sized, const N: usize> where T: 'a {}", "Foo"),
        ("struct r#type<T>;", "r#type"),
        ("struct Größe<T>;", "Größe"),
        ("struct __<T>;", "__"),
    ];
    for (text, name) in cases {
        let method = only_method(expand_debug(&declaration(text)));
        assert_eq!(method.sig.ident.to_string(), "fmt");
        assert_eq!(method.block.stmts.len(), 1);
        match &method.block.stmts[0] {
            syn::Stmt::Expr(syn::Expr::Call(call), None) => {
                match &*call.func {
                    syn::Expr::Path(path) => {
                        assert_eq!(path_text(&path.path), "::core::fmt::Formatter::write_str")
                    }
                    _ => panic!("not a path"),
                }
                assert_eq!(call.args.len(), 2);
                match &call.args[1] {
                    syn::Expr::Lit(literal) => match &literal.lit {
                        syn::Lit::Str(value) => assert_eq!(value.value(), name),
                        _ => panic!("not a string"),
                    },
                    _ => panic!("not a literal"),
                }
            }
            _ => panic!("not a call"),
        }
    }
}

#[test]
fn generated_hash_does_nothing() {
    let method = only_method(expand_hash(&declaration("struct Foo<T>;")));
    assert_eq!(method.sig.ident.to_string(), "hash");
    assert_eq!(method.block.stmts.len(), 1);
    match &method.block.stmts[0] {
        syn::Stmt::Local(local) => assert!(matches!(local.pat, syn::Pat::Wild(_))),
        _ => panic!("not a binding"),
    }
}

#[test]
fn generated_markers_have_no_items() {
    let input = declaration("enum Foo<T> {}");
    let item: syn::ItemImpl = syn::parse2(expand_copy(&input)).unwrap();
    assert!(item.items.is_empty());
    let item: syn::ItemImpl = syn::parse2(expand_eq(&input)).unwrap();
    assert!(item.items.is_empty());
}

#[test]
fn names_are_looked_up_among_the_nine() {
    let cases = [
        ("Copy", Some(Derive::Copy)),
        ("Clone", Some(Derive::Clone)),
        ("Default", Some(Derive::Default)),
        ("Hash", Some(Derive::Hash)),
        ("PartialOrd", Some(Derive::PartialOrd)),
        ("Ord", Some(Derive::Ord)),
        ("PartialEq", Some(Derive::PartialEq)),
        ("Eq", Some(Derive::Eq)),
        ("Debug", Some(Derive::Debug)),
        ("", None),
        ("copy", None),
        ("Copy ", None),
        ("Send", None),
        ("Partial", None),
        ("PartialOrdering", None),
        ("r#Copy", None),
    ];
    for (name, expected) in cases {
        assert_eq!(Derive::from_name(name), expected, "{}", name);
    }
}

#[test]
fn raw_identifier_is_no_capability() {
    assert_eq!(Derive::from_path(&path("r#Copy")), None);
    let input = declaration("#[derive(r#Copy)] struct Foo<T>;");
    let rejection = expand(&input.attrs, &input).err().unwrap();
    assert_eq!(rejection.message(), "unsupported derive");
}

#[test]
fn the_same_request_is_turned_down_in_the_same_words() {
    for text in [
        "#[derive(Copy Clone)] struct Foo<T>;",
        "#[derive(Copy, Nope)] struct Foo<T>;",
        "#[derive] struct Foo<T>;",
        "#[derive = \"Copy\"] struct Foo<T>;",
        "#[derive(Copy::)] struct Foo<T>;",
        "#[derive(Eq)] #[derive(1)] struct Foo<T>;",
    ] {
        let input = declaration(text);
        let first = expand(&input.attrs, &input).err().unwrap();
        let second = expand(&input.attrs, &input).err().unwrap();
        assert_eq!(first.violation, second.violation, "{}", text);
        assert_eq!(first.message(), second.message(), "{}", text);
        let (one, other) = (first.diagnostic.span(), second.diagnostic.span());
        assert_eq!(one.start(), other.start(), "{}", text);
        assert_eq!(one.end(), other.end(), "{}", text);
    }
}

#[test]
fn the_same_input_is_expanded_to_the_same_tokens() {
    let input = declaration(
        "#[derive(Copy, Clone, Debug)] #[doc(hidden)] #[derive(Hash)] struct Foo<'a, T: 'a>;",
    );
    let (first, first_rest) = expand(&input.attrs, &input).ok().unwrap();
    let (second, second_rest) = expand(&input.attrs, &input).ok().unwrap();
    assert_eq!(first.to_string(), second.to_string());
    assert_eq!(first_rest.len(), second_rest.len());
    assert!(std::ptr::eq(first_rest[0], second_rest[0]));
}

#[test]
fn a_list_without_commas_is_no_unsupported_derive() {
    let input = declaration("#[derive(Copy Clone)] struct Foo<T>;");
    let rejection = expand(&input.attrs, &input).err().unwrap();
    assert_eq!(rejection.violation, Violation::Derive);
    assert!(rejection.message() != "unsupported derive");
    assert_eq!(rejection.message(), "expected `,`");
}
