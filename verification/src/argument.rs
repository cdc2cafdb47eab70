//! The declaration of what to reflect: packages, and the classes in them.
//!
//! ```text
//! package java.lang;
//! class Object { * }
//! class String { * }
//! ```

use vstd::prelude::*;
use proc_macro2::Span;
use crate::model::views;
use crate::parse::{
    advances, blames_last_or_next, error_at, fails_close, is_ident, is_keyword, is_punct,
    lemma_many_bounds, lemma_many_fails_close, many, parse_many, Outcome, Parse, Parser,
    TokenView,
};
use crate::span_error::{SpanError, SpanErrorView};

verus! {

/// All that a declaration names.
#[derive(Debug)]
pub struct DuchessDeclaration {
    pub packages: Vec<JavaPackage>,
}

/// One `package` with the classes that follow it.
#[derive(Debug)]
pub struct JavaPackage {
    pub package_name: JavaPath,
    pub classes: Vec<JavaClass>,
}

/// One `class`. `members` is `None` where all members are asked for.
#[derive(Debug)]
pub struct JavaClass {
    pub class_name: String,
    pub members: Option<Vec<String>>,
}

/// A dotted path. `text` holds the segments one behind the other, without
/// the dots; `span` is that of the first segment.
#[derive(Debug)]
pub struct JavaPath {
    pub text: String,
    pub span: Span,
}

/// A declaration as the contracts speak of it.
pub struct DuchessDeclarationView {
    pub packages: Seq<JavaPackageView>,
}

/// A package as the contracts speak of it.
pub struct JavaPackageView {
    pub package_name: JavaPathView,
    pub classes: Seq<JavaClassView>,
}

/// A class as the contracts speak of it.
pub struct JavaClassView {
    pub class_name: Seq<char>,
    pub members: Option<Seq<Seq<char>>>,
}

/// A path as the contracts speak of it.
pub struct JavaPathView {
    pub text: Seq<char>,
    pub span: Span,
}

impl View for JavaPath {
    type V = JavaPathView;

    open spec fn view(&self) -> JavaPathView {
        JavaPathView { text: self.text@, span: self.span }
    }
}

impl View for JavaClass {
    type V = JavaClassView;

    open spec fn view(&self) -> JavaClassView {
        JavaClassView {
            class_name: self.class_name@,
            members: match self.members {
                Some(members) => Some(views(members@)),
                None => None,
            },
        }
    }
}

impl View for JavaPackage {
    type V = JavaPackageView;

    open spec fn view(&self) -> JavaPackageView {
        JavaPackageView { package_name: self.package_name@, classes: views(self.classes@) }
    }
}

impl View for DuchessDeclaration {
    type V = DuchessDeclarationView;

    open spec fn view(&self) -> DuchessDeclarationView {
        DuchessDeclarationView { packages: views(self.packages@) }
    }
}

/// The text of a path whose segments so far make up `text`, continued from
/// `pos`: each `.` there must be followed by one more segment.
pub open spec fn path_tail(tokens: Seq<TokenView>, pos: int, text: Seq<char>) -> Outcome<Seq<char>>
    decreases tokens.len() - pos,
{
    if !is_punct(tokens, pos, '.') {
        Outcome::Matched { value: text, next: pos }
    } else if !is_ident(tokens, pos + 1) {
        Outcome::Failed {
            error: SpanErrorView {
                span: tokens[pos].span(),
                message: "expected identifier after `.`"@,
            },
            at: pos + 1,
        }
    } else {
        path_tail(tokens, pos + 2, text + tokens[pos + 1]->text)
    }
}

/// The path at `pos`: a word, then any number of `.` and a word.
pub open spec fn path_at(tokens: Seq<TokenView>, pos: int) -> Outcome<JavaPathView> {
    if !is_ident(tokens, pos) {
        Outcome::NoMatch
    } else {
        match path_tail(tokens, pos + 1, tokens[pos]->text) {
            Outcome::Matched { value, next } => Outcome::Matched {
                value: JavaPathView { text: value, span: tokens[pos].span() },
                next,
            },
            Outcome::Failed { error, at } => Outcome::Failed { error, at },
            Outcome::NoMatch => Outcome::NoMatch,
        }
    }
}

/// The class at `pos`: `class`, its name, and `{ * }`.
pub open spec fn class_at(tokens: Seq<TokenView>, pos: int) -> Outcome<JavaClassView> {
    if !is_keyword(tokens, pos, "class"@) {
        Outcome::NoMatch
    } else if !is_ident(tokens, pos + 1) {
        Outcome::Failed { error: error_at(tokens, pos + 1, "expected class name"@), at: pos + 1 }
    } else if !is_punct(tokens, pos + 2, '{') {
        Outcome::Failed {
            error: error_at(tokens, pos + 2, "expected '{' after class name"@),
            at: pos + 2,
        }
    } else if !is_punct(tokens, pos + 3, '*') {
        Outcome::Failed { error: error_at(tokens, pos + 3, "expected '*'"@), at: pos + 3 }
    } else if !is_punct(tokens, pos + 4, '}') {
        Outcome::Failed {
            error: error_at(tokens, pos + 4, "expected '}' after class methods"@),
            at: pos + 4,
        }
    } else {
        Outcome::Matched {
            value: JavaClassView { class_name: tokens[pos + 1]->text, members: None },
            next: pos + 5,
        }
    }
}

/// The package at `pos`: `package`, its path, `;`, and the classes behind.
pub open spec fn package_at(tokens: Seq<TokenView>, pos: int) -> Outcome<JavaPackageView> {
    if !is_keyword(tokens, pos, "package"@) {
        Outcome::NoMatch
    } else {
        match path_at(tokens, pos + 1) {
            Outcome::Failed { error, at } => Outcome::Failed { error, at },
            Outcome::NoMatch => Outcome::Failed {
                error: error_at(tokens, pos + 1, "expected package name"@),
                at: pos + 1,
            },
            Outcome::Matched { value: package_name, next } => if !is_punct(tokens, next, ';') {
                Outcome::Failed {
                    error: error_at(tokens, next, "expected `;` after package name"@),
                    at: next,
                }
            } else {
                match many::<JavaClass>(tokens, next + 1) {
                    Outcome::Matched { value: classes, next: end } => Outcome::Matched {
                        value: JavaPackageView { package_name, classes },
                        next: end,
                    },
                    Outcome::Failed { error, at } => Outcome::Failed { error, at },
                    Outcome::NoMatch => Outcome::NoMatch,
                }
            },
        }
    }
}

/// The declaration at `pos`: the packages that stand there, which may be
/// none.
pub open spec fn declaration_at(tokens: Seq<TokenView>, pos: int) -> Outcome<
    DuchessDeclarationView,
> {
    match many::<JavaPackage>(tokens, pos) {
        Outcome::Matched { value: packages, next } => Outcome::Matched {
            value: DuchessDeclarationView { packages },
            next,
        },
        Outcome::Failed { error, at } => Outcome::Failed { error, at },
        Outcome::NoMatch => Outcome::NoMatch,
    }
}

impl Parse for JavaPath {
    open spec fn parsed(tokens: Seq<TokenView>, pos: int) -> Outcome<JavaPathView> {
        path_at(tokens, pos)
    }

    open spec fn described() -> Seq<char> {
        "java class name (e.g., `java.lang.Object`)"@
    }

    fn parse(p: &mut Parser) -> (r: Result<Option<Self>, SpanError>) {
        let ghost tokens = p@.tokens;
        let ghost start = p@.pos;
        assert(Self::parsed(tokens, start) == path_at(tokens, start));
        let mut text: String = match p.eat_ident() {
            Some(text) => text,
            None => {
                return Ok(None);
            },
        };
        let span: Span = p.last_span().unwrap();
        loop
            invariant
                tokens == old(p)@.tokens,
                start == old(p)@.pos,
                p@.tokens == tokens,
                is_ident(tokens, start),
                span == tokens[start].span(),
                start < p@.pos <= tokens.len(),
                path_tail(tokens, p@.pos, text@) == path_tail(tokens, start + 1, tokens[start]->text),
            decreases tokens.len() - p@.pos,
        {
            match p.eat_punct('.') {
                None => {
                    return Ok(Some(JavaPath { text, span }));
                },
                Some(_) => {},
            }
            match p.eat_ident() {
                Some(next) => {
                    text.append(next.as_str());
                },
                None => {
                    return Err(
                        SpanError {
                            span: p.last_span().unwrap(),
                            message: "expected identifier after `.`".to_owned(),
                        },
                    );
                },
            }
        }
    }

    fn description() -> (s: String) {
        "java class name (e.g., `java.lang.Object`)".to_owned()
    }
}

impl Parse for JavaClass {
    open spec fn parsed(tokens: Seq<TokenView>, pos: int) -> Outcome<JavaClassView> {
        class_at(tokens, pos)
    }

    open spec fn described() -> Seq<char> {
        "java class to reflect (e.g., `class Foo { * }`)"@
    }

    fn parse(p: &mut Parser) -> (r: Result<Option<Self>, SpanError>) {
        if p.eat_keyword("class").is_none() {
            return Ok(None);
        }
        let class_name: String = match p.eat_ident() {
            Some(name) => name,
            None => {
                return Err(p.error("expected class name"));
            },
        };
        if p.eat_punct('{').is_none() {
            return Err(p.error("expected '{' after class name"));
        }
        if p.eat_punct('*').is_none() {
            return Err(p.error("expected '*'"));
        }
        if p.eat_punct('}').is_none() {
            return Err(p.error("expected '}' after class methods"));
        }
        Ok(Some(JavaClass { class_name, members: None }))
    }

    fn description() -> (s: String) {
        "java class to reflect (e.g., `class Foo { * }`)".to_owned()
    }
}

impl Parse for JavaPackage {
    open spec fn parsed(tokens: Seq<TokenView>, pos: int) -> Outcome<JavaPackageView> {
        package_at(tokens, pos)
    }

    open spec fn described() -> Seq<char> {
        "java package to reflect (e.g., `package foo; ...`)"@
    }

    fn parse(p: &mut Parser) -> (r: Result<Option<Self>, SpanError>) {
        if p.eat_keyword("package").is_none() {
            return Ok(None);
        }
        let package_name: JavaPath = match JavaPath::parse(p) {
            Ok(Some(path)) => path,
            Ok(None) => {
                return Err(p.error("expected package name"));
            },
            Err(error) => {
                return Err(error);
            },
        };
        if p.eat_punct(';').is_none() {
            return Err(p.error("expected `;` after package name"));
        }
        proof {
            lemma_class_advances();
        }
        match parse_many::<JavaClass>(p) {
            Ok(classes) => Ok(Some(JavaPackage { package_name, classes })),
            Err(error) => Err(error),
        }
    }

    fn description() -> (s: String) {
        "java package to reflect (e.g., `package foo; ...`)".to_owned()
    }
}

impl Parse for DuchessDeclaration {
    open spec fn parsed(tokens: Seq<TokenView>, pos: int) -> Outcome<DuchessDeclarationView> {
        declaration_at(tokens, pos)
    }

    open spec fn described() -> Seq<char> {
        "list of classes whose methods you would like to call (e.g., `java.lang.Object`)"@
    }

    fn parse(p: &mut Parser) -> (r: Result<Option<Self>, SpanError>)
        ensures
            !(r matches Ok(None)),
    {
        proof {
            lemma_package_advances();
        }
        match parse_many::<JavaPackage>(p) {
            Ok(packages) => Ok(Some(DuchessDeclaration { packages })),
            Err(error) => Err(error),
        }
    }

    fn description() -> (s: String) {
        "list of classes whose methods you would like to call (e.g., `java.lang.Object`)".to_owned()
    }
}

/// A path's continuation ends at or behind where it began, within the
/// input.
pub proof fn lemma_path_tail_bounds(tokens: Seq<TokenView>, pos: int, text: Seq<char>)
    requires
        0 <= pos <= tokens.len(),
    ensures
        path_tail(tokens, pos, text) matches Outcome::Matched { next, .. } ==> pos <= next
            <= tokens.len(),
        !(path_tail(tokens, pos, text) is NoMatch),
    decreases tokens.len() - pos,
{
    if is_punct(tokens, pos, '.') && is_ident(tokens, pos + 1) {
        lemma_path_tail_bounds(tokens, pos + 2, text + tokens[pos + 1]->text);
    }
}

/// A class that matches consumes its five tokens.
pub proof fn lemma_class_advances()
    ensures
        advances::<JavaClass>(),
{
}

/// A package that matches consumes at least its keyword.
pub proof fn lemma_package_advances()
    ensures
        advances::<JavaPackage>(),
{
    assert forall|tokens: Seq<TokenView>, pos: int| 0 <= pos <= tokens.len() implies (
    #[trigger] JavaPackage::parsed(tokens, pos) matches Outcome::Matched { next, .. } ==> pos < next
        <= tokens.len()) by {
        if is_keyword(tokens, pos, "package"@) && is_ident(tokens, pos + 1) {
            lemma_path_tail_bounds(tokens, pos + 2, tokens[pos + 1]->text);
            match path_at(tokens, pos + 1) {
                Outcome::Matched { next, .. } => {
                    if is_punct(tokens, next, ';') {
                        lemma_class_advances();
                        lemma_many_bounds::<JavaClass>(tokens, next + 1);
                    }
                },
                _ => {},
            }
        }
    }
}

/// A path is refused without an error exactly where no word stands.
pub proof fn lemma_path_no_match(tokens: Seq<TokenView>, pos: int)
    ensures
        path_at(tokens, pos) is NoMatch <==> !is_ident(tokens, pos),
{
    if is_ident(tokens, pos) {
        lemma_path_tail_bounds(tokens, pos + 1, tokens[pos]->text);
    }
}

/// A class is refused without an error exactly where the word `class` does
/// not stand.
pub proof fn lemma_class_no_match(tokens: Seq<TokenView>, pos: int)
    ensures
        class_at(tokens, pos) is NoMatch <==> !is_keyword(tokens, pos, "class"@),
{
}

/// A package is refused without an error exactly where the word `package`
/// does not stand.
pub proof fn lemma_package_no_match(tokens: Seq<TokenView>, pos: int)
    ensures
        package_at(tokens, pos) is NoMatch <==> !is_keyword(tokens, pos, "package"@),
{
    if is_keyword(tokens, pos, "package"@) {
        lemma_package_advances();
        lemma_path_no_match(tokens, pos + 1);
        match path_at(tokens, pos + 1) {
            Outcome::Matched { next, .. } => {
                lemma_path_tail_bounds(tokens, pos + 2, tokens[pos + 1]->text);
                if is_punct(tokens, next, ';') {
                    lemma_class_advances();
                    lemma_many_bounds::<JavaClass>(tokens, next + 1);
                }
            },
            _ => {},
        }
    }
}

/// A declaration is never refused: every input gives a declaration, which
/// may be empty, or an error.
pub proof fn lemma_declaration_total(tokens: Seq<TokenView>, pos: int)
    requires
        0 <= pos <= tokens.len(),
    ensures
        !(declaration_at(tokens, pos) is NoMatch),
{
    lemma_package_advances();
    lemma_many_bounds::<JavaPackage>(tokens, pos);
}

/// A path's continuation that breaks off blames the `.` consumed last.
pub proof fn lemma_path_tail_fails_close(tokens: Seq<TokenView>, pos: int, text: Seq<char>)
    requires
        0 <= pos <= tokens.len(),
    ensures
        path_tail(tokens, pos, text) matches Outcome::Failed { error, at } ==> pos < at
            <= tokens.len() && error.span == tokens[at - 1].span(),
    decreases tokens.len() - pos,
{
    if is_punct(tokens, pos, '.') && is_ident(tokens, pos + 1) {
        lemma_path_tail_fails_close(tokens, pos + 2, text + tokens[pos + 1]->text);
    }
}

/// An error in a path points at the token consumed last.
pub proof fn lemma_path_fails_close()
    ensures
        fails_close::<JavaPath>(),
{
    assert forall|tokens: Seq<TokenView>, pos: int| 0 <= pos <= tokens.len() implies (
    #[trigger] JavaPath::parsed(tokens, pos) matches Outcome::Failed { error, at }
        ==> blames_last_or_next(tokens, pos, error, at)) by {
        if is_ident(tokens, pos) {
            lemma_path_tail_fails_close(tokens, pos + 1, tokens[pos]->text);
        }
    }
}

/// An error in a class points at the token that is not what the class
/// needs next or, where the input has ended, at the last token.
pub proof fn lemma_class_fails_close()
    ensures
        fails_close::<JavaClass>(),
{
}

/// An error in a package, or in one of its classes, points at the token
/// consumed last or at the one behind it.
pub proof fn lemma_package_fails_close()
    ensures
        fails_close::<JavaPackage>(),
{
    lemma_path_fails_close();
    lemma_class_fails_close();
    lemma_class_advances();
    assert forall|tokens: Seq<TokenView>, pos: int| 0 <= pos <= tokens.len() implies (
    #[trigger] JavaPackage::parsed(tokens, pos) matches Outcome::Failed { error, at }
        ==> blames_last_or_next(tokens, pos, error, at)) by {
        if is_keyword(tokens, pos, "package"@) {
            match JavaPath::parsed(tokens, pos + 1) {
                Outcome::Matched { next, .. } => {
                    lemma_path_tail_bounds(tokens, pos + 2, tokens[pos + 1]->text);
                    if is_punct(tokens, next, ';') {
                        lemma_many_fails_close::<JavaClass>(tokens, next + 1);
                    }
                },
                _ => {},
            }
        }
    }
}

/// An error in a declaration points at the token consumed last or at the
/// one behind it.
pub proof fn lemma_declaration_fails_close()
    ensures
        fails_close::<DuchessDeclaration>(),
{
    lemma_package_advances();
    lemma_package_fails_close();
    assert forall|tokens: Seq<TokenView>, pos: int| 0 <= pos <= tokens.len() implies (
    #[trigger] DuchessDeclaration::parsed(tokens, pos) matches Outcome::Failed { error, at }
        ==> blames_last_or_next(tokens, pos, error, at)) by {
        lemma_many_fails_close::<JavaPackage>(tokens, pos);
    }
}

} // verus!
