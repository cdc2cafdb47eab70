use duchess_macro::argument::{DuchessDeclaration, JavaClass, JavaPackage, JavaPath};
use duchess_macro::parse::{parse_many, Parse, Parser, Token};
use duchess_macro::span_error::SpanError;
use proc_macro2::{Delimiter, Span, TokenStream, TokenTree};

fn delimiters(delimiter: Delimiter) -> Option<(char, char)> {
    match delimiter {
        Delimiter::Parenthesis => Some(('(', ')')),
        Delimiter::Brace => Some(('{', '}')),
        Delimiter::Bracket => Some(('[', ']')),
        Delimiter::None => None,
    }
}

fn flatten(stream: TokenStream, tokens: &mut Vec<Token>) {
    for tree in stream {
        match tree {
            TokenTree::Ident(ident) => {
                tokens.push(Token::Ident { text: ident.to_string(), span: ident.span() })
            }
            TokenTree::Punct(punct) => {
                tokens.push(Token::Punct { ch: punct.as_char(), span: punct.span() })
            }
            TokenTree::Literal(literal) => tokens.push(Token::Other { span: literal.span() }),
            TokenTree::Group(group) => {
                let marks = delimiters(group.delimiter());
                if let Some((open, _)) = marks {
                    tokens.push(Token::Punct { ch: open, span: group.span_open() });
                }
                flatten(group.stream(), tokens);
                if let Some((_, close)) = marks {
                    tokens.push(Token::Punct { ch: close, span: group.span_close() });
                }
            }
        }
    }
}

fn lex(text: &str) -> Vec<Token> {
    let stream: TokenStream = text.parse().unwrap();
    let mut tokens = Vec::new();
    flatten(stream, &mut tokens);
    tokens
}

fn parser(text: &str) -> Parser {
    Parser::new(lex(text))
}

fn declaration(text: &str) -> Result<DuchessDeclaration, SpanError> {
    let mut p = parser(text);
    DuchessDeclaration::parse(&mut p).map(|found| found.unwrap())
}

fn failure<T: Parse + std::fmt::Debug>(text: &str) -> SpanError {
    let mut p = parser(text);
    T::parse(&mut p).unwrap_err()
}

fn blamed(error: &SpanError) -> String {
    error.span.source_text().unwrap()
}

fn column(span: Span) -> usize {
    span.start().column
}

#[test]
fn one_package_with_one_class() {
    let decl = declaration("package a.b; class Foo { * }").unwrap();
    assert_eq!(decl.packages.len(), 1);
    let package = &decl.packages[0];
    assert_eq!(package.package_name.text, "ab");
    assert_eq!(column(package.package_name.span), 8);
    assert_eq!(package.package_name.span.source_text().unwrap(), "a");
    assert_eq!(package.classes.len(), 1);
    assert_eq!(package.classes[0].class_name, "Foo");
    assert_eq!(package.classes[0].members, None);
}

#[test]
fn member_list_in_place_of_star_is_an_error() {
    let error = declaration("package a.b; class Foo { m }").unwrap_err();
    assert_eq!(error.message, "expected '*'");
    assert_eq!(blamed(&error), "m");
    assert_eq!(column(error.span), 25);
    assert_eq!(error.span.byte_range(), 25..26);
}

#[test]
fn empty_input_is_an_empty_declaration() {
    let mut p = parser("");
    let decl = DuchessDeclaration::parse(&mut p).unwrap().unwrap();
    assert!(decl.packages.is_empty());
    assert!(p.peek_token().is_none());
    assert!(p.last_span().is_none());
}

#[test]
fn several_packages_and_classes_keep_their_order() {
    let text = "package java.lang; class Object { * } class String { * } \
                package java.util; package x; class List { * }";
    let decl = declaration(text).unwrap();
    let names: Vec<&str> = decl.packages.iter().map(|p| p.package_name.text.as_str()).collect();
    assert_eq!(names, vec!["javalang", "javautil", "x"]);
    let classes: Vec<Vec<&str>> = decl
        .packages
        .iter()
        .map(|p| p.classes.iter().map(|c| c.class_name.as_str()).collect())
        .collect();
    assert_eq!(classes, vec![vec!["Object", "String"], vec![], vec!["List"]]);
    assert!(decl.packages.iter().all(|p| p.classes.iter().all(|c| c.members.is_none())));
}

#[test]
fn declaration_stops_at_what_is_no_package() {
    let mut p = parser("package a; class B { * } struct C;");
    let decl = DuchessDeclaration::parse(&mut p).unwrap().unwrap();
    assert_eq!(decl.packages.len(), 1);
    assert_eq!(decl.packages[0].classes.len(), 1);
    match p.peek_token() {
        Some(Token::Ident { text, .. }) => assert_eq!(text, "struct"),
        other => panic!("unexpected token {:?}", other),
    }
}

#[test]
fn reparsing_gives_the_same_tree() {
    let text = "package a.b.c; class Foo { * } class Bar { * } package d;";
    let first = declaration(text).unwrap();
    let second = declaration(text).unwrap();
    assert_eq!(first.packages.len(), second.packages.len());
    for (a, b) in first.packages.iter().zip(second.packages.iter()) {
        assert_eq!(a.package_name.text, b.package_name.text);
        assert_eq!(a.package_name.span.start(), b.package_name.span.start());
        assert_eq!(a.classes.len(), b.classes.len());
        for (x, y) in a.classes.iter().zip(b.classes.iter()) {
            assert_eq!(x.class_name, y.class_name);
            assert_eq!(x.members, y.members);
        }
    }
    let e1 = declaration("package a.b; class { * }").unwrap_err();
    let e2 = declaration("package a.b; class { * }").unwrap_err();
    assert_eq!(e1.message, e2.message);
    assert_eq!(e1.span.start(), e2.span.start());
}

#[test]
fn wrong_first_token_is_no_match_and_moves_nothing() {
    let mut p = parser("class Foo { * }");
    assert!(JavaPackage::parse(&mut p).unwrap().is_none());
    assert!(p.last_span().is_none());
    assert!(matches!(p.peek_token(), Some(Token::Ident { text, .. }) if text == "class"));

    let mut p = parser("package a;");
    assert!(JavaClass::parse(&mut p).unwrap().is_none());
    assert!(p.last_span().is_none());
    assert!(matches!(p.peek_token(), Some(Token::Ident { text, .. }) if text == "package"));

    let mut p = parser("; a");
    assert!(JavaPath::parse(&mut p).unwrap().is_none());
    assert!(p.last_span().is_none());
    assert!(matches!(p.peek_token(), Some(Token::Punct { ch: ';', .. })));

    let mut p = parser("");
    assert!(JavaPath::parse(&mut p).unwrap().is_none());
    assert!(JavaClass::parse(&mut p).unwrap().is_none());
    assert!(JavaPackage::parse(&mut p).unwrap().is_none());

    // the alternative can still be tried at the same place
    let mut p = parser("class Foo { * }");
    assert!(JavaPackage::parse(&mut p).unwrap().is_none());
    let class = JavaClass::parse(&mut p).unwrap().unwrap();
    assert_eq!(class.class_name, "Foo");
}

#[test]
fn path_joins_its_segments_without_dots() {
    let mut p = parser("java.lang.Object;");
    let path = JavaPath::parse(&mut p).unwrap().unwrap();
    assert_eq!(path.text, "javalangObject");
    assert_eq!(path.span.source_text().unwrap(), "java");
    assert_eq!(column(path.span), 0);
    assert!(matches!(p.peek_token(), Some(Token::Punct { ch: ';', .. })));

    let mut p = parser("single");
    let path = JavaPath::parse(&mut p).unwrap().unwrap();
    assert_eq!(path.text, "single");
    assert!(p.peek_token().is_none());
}

#[test]
fn path_with_a_dangling_dot_blames_the_dot() {
    let error = failure::<JavaPath>("a.b. ;");
    assert_eq!(error.message, "expected identifier after `.`");
    assert_eq!(blamed(&error), ".");
    assert_eq!(column(error.span), 3);

    let error = failure::<JavaPath>("a.");
    assert_eq!(error.message, "expected identifier after `.`");
    assert_eq!(column(error.span), 1);

    let error = failure::<JavaPackage>("package a.*;");
    assert_eq!(error.message, "expected identifier after `.`");
    assert_eq!(column(error.span), 9);
}

#[test]
fn class_errors_name_what_is_missing() {
    let error = failure::<JavaClass>("class { * }");
    assert_eq!(error.message, "expected class name");
    assert_eq!(blamed(&error), "{");

    let error = failure::<JavaClass>("class Foo ;");
    assert_eq!(error.message, "expected '{' after class name");
    assert_eq!(blamed(&error), ";");

    let error = failure::<JavaClass>("class Foo { }");
    assert_eq!(error.message, "expected '*'");
    assert_eq!(blamed(&error), "}");

    let error = failure::<JavaClass>("class Foo { * * }");
    assert_eq!(error.message, "expected '}' after class methods");
    assert_eq!(column(error.span), 14);

    let error = failure::<JavaClass>("class Foo ( * )");
    assert_eq!(error.message, "expected '{' after class name");
    assert_eq!(blamed(&error), "(");
}

#[test]
fn package_errors_name_what_is_missing() {
    let error = failure::<JavaPackage>("package ;");
    assert_eq!(error.message, "expected package name");
    assert_eq!(blamed(&error), ";");

    let error = failure::<JavaPackage>("package a.b class Foo { * }");
    assert_eq!(error.message, "expected `;` after package name");
    assert_eq!(blamed(&error), "class");

    let error = failure::<JavaPackage>("package a; class Foo { * } class Bar");
    assert_eq!(error.message, "expected '{' after class name");
    assert_eq!(blamed(&error), "Bar");
}

#[test]
fn errors_at_the_end_of_input_blame_the_last_token() {
    let error = failure::<JavaClass>("class");
    assert_eq!(error.message, "expected class name");
    assert_eq!(blamed(&error), "class");

    let error = failure::<JavaClass>("class Foo");
    assert_eq!(error.message, "expected '{' after class name");
    assert_eq!(blamed(&error), "Foo");

    let error = failure::<JavaPackage>("package");
    assert_eq!(error.message, "expected package name");
    assert_eq!(blamed(&error), "package");

    let error = failure::<JavaPackage>("package a.b");
    assert_eq!(error.message, "expected `;` after package name");
    assert_eq!(blamed(&error), "b");
}

#[test]
fn error_in_a_later_unit_fails_the_whole_declaration() {
    let error = declaration("package a; class Foo { * } package b; class Bar { ? }").unwrap_err();
    assert_eq!(error.message, "expected '*'");
    assert_eq!(blamed(&error), "?");
}

#[test]
fn parse_many_collects_until_no_match() {
    let mut p = parser("class A { * } class B { * } package c;");
    let classes: Vec<JavaClass> = parse_many(&mut p).unwrap();
    let names: Vec<&str> = classes.iter().map(|c| c.class_name.as_str()).collect();
    assert_eq!(names, vec!["A", "B"]);
    assert!(matches!(p.peek_token(), Some(Token::Ident { text, .. }) if text == "package"));

    let mut p = parser("package c;");
    let classes: Vec<JavaClass> = parse_many(&mut p).unwrap();
    assert!(classes.is_empty());
    assert!(p.last_span().is_none());

    let mut p = parser("class A { * } class");
    let error = parse_many::<JavaClass>(&mut p).unwrap_err();
    assert_eq!(error.message, "expected class name");
}

#[test]
fn cursor_eats_only_what_was_asked_for() {
    let mut p = parser("package a . 7");
    assert_eq!(p.eat_keyword("class"), None);
    assert_eq!(p.eat_punct('.'), None);
    assert!(p.last_span().is_none());
    assert_eq!(p.eat_keyword("package"), Some(()));
    assert_eq!(p.last_span().unwrap().source_text().unwrap(), "package");
    assert_eq!(p.eat_keyword("a.b"), None);
    assert_eq!(p.eat_ident(), Some("a".to_string()));
    assert_eq!(p.eat_ident(), None);
    assert_eq!(p.eat_punct(';'), None);
    assert_eq!(p.eat_punct('.'), Some(()));
    assert_eq!(p.eat_ident(), None);
    assert_eq!(p.eat_punct('7'), None);
    assert!(matches!(p.peek_token(), Some(Token::Other { .. })));
    assert_eq!(p.last_span().unwrap().source_text().unwrap(), ".");
}

#[test]
fn cursor_error_points_at_next_or_last_token() {
    let mut p = parser("a b");
    let error = p.error("first");
    assert_eq!(error.message, "first");
    assert_eq!(blamed(&error), "a");
    p.eat_ident();
    assert_eq!(blamed(&p.error("second")), "b");
    p.eat_ident();
    let error = p.error("third");
    assert_eq!(error.message, "third");
    assert_eq!(blamed(&error), "b");

    let empty = Parser::new(Vec::new());
    assert_eq!(empty.error("nothing here").message, "nothing here");
}

#[test]
fn token_span_is_the_span_it_was_made_with() {
    let tokens = lex("x + 1");
    let texts: Vec<String> = tokens.iter().map(|t| t.span().source_text().unwrap()).collect();
    assert_eq!(texts, vec!["x", "+", "1"]);
}

#[test]
fn descriptions() {
    assert_eq!(
        DuchessDeclaration::description(),
        "list of classes whose methods you would like to call (e.g., `java.lang.Object`)"
    );
    assert_eq!(JavaPackage::description(), "java package to reflect (e.g., `package foo; ...`)");
    assert_eq!(JavaClass::description(), "java class to reflect (e.g., `class Foo { * }`)");
    assert_eq!(JavaPath::description(), "java class name (e.g., `java.lang.Object`)");
}
