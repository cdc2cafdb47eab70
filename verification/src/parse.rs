//! The token cursor that the declaration grammar is read from.

use vstd::prelude::*;
use proc_macro2::Span;
use crate::model::views;
use crate::span::call_site;
use crate::span_error::{SpanError, SpanErrorView};

verus! {

/// One token of a declaration. Delimiters count as punctuation; whatever is
/// neither a word nor punctuation is `Other`.
#[derive(Debug)]
pub enum Token {
    Ident { text: String, span: Span },
    Punct { ch: char, span: Span },
    Other { span: Span },
}

/// A token as the grammar sees it.
pub enum TokenView {
    Ident { text: Seq<char>, span: Span },
    Punct { ch: char, span: Span },
    Other { span: Span },
}

impl TokenView {
    /// Where the token stands in the source.
    pub open spec fn span(self) -> Span {
        match self {
            TokenView::Ident { span, .. } => span,
            TokenView::Punct { span, .. } => span,
            TokenView::Other { span } => span,
        }
    }
}

impl View for Token {
    type V = TokenView;

    open spec fn view(&self) -> TokenView {
        match *self {
            Token::Ident { text, span } => TokenView::Ident { text: text@, span },
            Token::Punct { ch, span } => TokenView::Punct { ch, span },
            Token::Other { span } => TokenView::Other { span },
        }
    }
}

impl Token {
    /// Where the token stands in the source.
    pub fn span(&self) -> (s: Span)
        ensures
            s == self@.span(),
    {
        match self {
            Token::Ident { span, .. } => *span,
            Token::Punct { span, .. } => *span,
            Token::Other { span } => *span,
        }
    }
}

/// Whether a word stands at `pos`.
pub open spec fn is_ident(tokens: Seq<TokenView>, pos: int) -> bool {
    0 <= pos < tokens.len() && tokens[pos] is Ident
}

/// Whether the word `kw` stands at `pos`.
pub open spec fn is_keyword(tokens: Seq<TokenView>, pos: int, kw: Seq<char>) -> bool {
    is_ident(tokens, pos) && tokens[pos]->text == kw
}

/// Whether the punctuation `ch` stands at `pos`.
pub open spec fn is_punct(tokens: Seq<TokenView>, pos: int, ch: char) -> bool {
    0 <= pos < tokens.len() && tokens[pos] is Punct && tokens[pos]->ch == ch
}

/// The span to blame when the token at `pos` is not what was expected: that
/// token's, or, where the input has ended, that of the last token.
pub open spec fn blamed_span(tokens: Seq<TokenView>, pos: int) -> Span {
    if pos < tokens.len() {
        tokens[pos].span()
    } else {
        tokens[pos - 1].span()
    }
}

/// The error that `message` makes at `pos`.
pub open spec fn error_at(tokens: Seq<TokenView>, pos: int, message: Seq<char>) -> SpanErrorView {
    SpanErrorView { span: blamed_span(tokens, pos), message }
}

/// A cursor over the tokens of a declaration.
pub struct Parser {
    tokens: Vec<Token>,
    pos: usize,
}

/// A cursor as the grammar sees it: all the tokens, and how many of them
/// have been consumed.
pub struct ParserView {
    pub tokens: Seq<TokenView>,
    pub pos: int,
}

impl View for Parser {
    type V = ParserView;

    closed spec fn view(&self) -> ParserView {
        ParserView { tokens: views(self.tokens@), pos: self.pos as int }
    }
}

impl Parser {
    #[verifier::type_invariant]
    spec fn in_bounds(self) -> bool {
        self.pos <= self.tokens.len()
    }

    /// A cursor in front of the first of `tokens`.
    pub fn new(tokens: Vec<Token>) -> (p: Parser)
        ensures
            p@.tokens == views(tokens@),
            p@.pos == 0,
    {
        Parser { tokens, pos: 0 }
    }

    /// The next token, if any, without consuming it.
    pub fn peek_token(&self) -> (t: Option<&Token>)
        ensures
            0 <= self@.pos <= self@.tokens.len(),
            match t {
                Some(t) => self@.pos < self@.tokens.len() && t@ == self@.tokens[self@.pos],
                None => self@.pos == self@.tokens.len(),
            },
    {
        proof {
            use_type_invariant(self);
        }
        if self.pos < self.tokens.len() {
            Some(&self.tokens[self.pos])
        } else {
            None
        }
    }

    /// The span of the token consumed last, if any was.
    pub fn last_span(&self) -> (s: Option<Span>)
        ensures
            match s {
                Some(s) => 0 < self@.pos <= self@.tokens.len() && s == self@.tokens[self@.pos - 1].span(),
                None => self@.pos == 0,
            },
    {
        proof {
            use_type_invariant(self);
        }
        if self.pos > 0 {
            Some(self.tokens[self.pos - 1].span())
        } else {
            None
        }
    }

    /// Consumes the next token if it is the word `kw`.
    pub fn eat_keyword(&mut self, kw: &str) -> (r: Option<()>)
        ensures
            final(self)@.tokens == old(self)@.tokens,
            r is Some <==> is_keyword(old(self)@.tokens, old(self)@.pos, kw@),
            final(self)@.pos == if r is Some { old(self)@.pos + 1 } else { old(self)@.pos },
            0 <= final(self)@.pos <= final(self)@.tokens.len(),
    {
        proof {
            use_type_invariant(&*self);
        }
        if self.pos < self.tokens.len() {
            if let Token::Ident { text, .. } = &self.tokens[self.pos] {
                let kw: String = kw.to_owned();
                if *text == kw {
                    self.pos = self.pos + 1;
                    return Some(());
                }
            }
        }
        None
    }

    /// Consumes the next token if it is a word, and hands the word out.
    pub fn eat_ident(&mut self) -> (r: Option<String>)
        ensures
            final(self)@.tokens == old(self)@.tokens,
            r is Some <==> is_ident(old(self)@.tokens, old(self)@.pos),
            r matches Some(text) ==> text@ == old(self)@.tokens[old(self)@.pos]->text,
            final(self)@.pos == if r is Some { old(self)@.pos + 1 } else { old(self)@.pos },
            0 <= final(self)@.pos <= final(self)@.tokens.len(),
    {
        proof {
            use_type_invariant(&*self);
        }
        if self.pos < self.tokens.len() {
            if let Token::Ident { text, .. } = &self.tokens[self.pos] {
                let text: String = text.clone();
                self.pos = self.pos + 1;
                return Some(text);
            }
        }
        None
    }

    /// Consumes the next token if it is the punctuation `ch`.
    pub fn eat_punct(&mut self, ch: char) -> (r: Option<()>)
        ensures
            final(self)@.tokens == old(self)@.tokens,
            r is Some <==> is_punct(old(self)@.tokens, old(self)@.pos, ch),
            final(self)@.pos == if r is Some { old(self)@.pos + 1 } else { old(self)@.pos },
            0 <= final(self)@.pos <= final(self)@.tokens.len(),
    {
        proof {
            use_type_invariant(&*self);
        }
        if self.pos < self.tokens.len() {
            if let Token::Punct { ch: found, .. } = &self.tokens[self.pos] {
                if *found == ch {
                    self.pos = self.pos + 1;
                    return Some(());
                }
            }
        }
        None
    }

    /// An error that says `message` of the next token or, where the input
    /// has ended, of the last one. With no token at all, the error points at
    /// the call site.
    pub fn error(&self, message: &str) -> (e: SpanError)
        ensures
            e@.message == message@,
            self@.tokens.len() > 0 ==> e@ == error_at(self@.tokens, self@.pos, message@),
    {
        proof {
            use_type_invariant(self);
        }
        let span: Span = if self.pos < self.tokens.len() {
            self.tokens[self.pos].span()
        } else if self.pos > 0 {
            self.tokens[self.pos - 1].span()
        } else {
            call_site()
        };
        SpanError { span, message: message.to_owned() }
    }
}

/// What a unit of the grammar makes of the tokens from some position on.
pub enum Outcome<T> {
    /// The unit stands there: its value, and the position behind it.
    Matched { value: T, next: int },
    /// The first token already shows that the unit does not stand there.
    NoMatch,
    /// The unit began and broke off after `at` tokens of the input.
    Failed { error: SpanErrorView, at: int },
}

/// Whether `parse` answered as `outcome` says, having started at `start`
/// and stopped at `end`.
pub open spec fn agrees<T: View>(
    r: Result<Option<T>, SpanError>,
    start: int,
    end: int,
    outcome: Outcome<T::V>,
) -> bool {
    match r {
        Ok(Some(value)) => outcome matches Outcome::Matched { value: v, next } && v == value@
            && next == end,
        Ok(None) => outcome is NoMatch && end == start,
        Err(error) => outcome matches Outcome::Failed { error: e, at } && e == error@ && at == end,
    }
}

/// Whether `parse_many` answered as `outcome` says, having stopped at `end`.
pub open spec fn agrees_many<T: View>(
    r: Result<Vec<T>, SpanError>,
    end: int,
    outcome: Outcome<Seq<T::V>>,
) -> bool {
    match r {
        Ok(values) => outcome matches Outcome::Matched { value: v, next } && v == views(values@)
            && next == end,
        Err(error) => outcome matches Outcome::Failed { error: e, at } && e == error@ && at == end,
    }
}

/// Whether every match of `T` consumes at least one token and stays within
/// the input.
pub open spec fn advances<T: Parse>() -> bool {
    forall|tokens: Seq<TokenView>, pos: int|
        0 <= pos <= tokens.len() ==> (#[trigger] T::parsed(tokens, pos) matches Outcome::Matched {
            next,
            ..
        } ==> pos < next <= tokens.len())
}

/// Whether an error that arose after `at` tokens, in a unit that began at
/// `start`, points at the token consumed last or at the one behind it.
pub open spec fn blames_last_or_next(
    tokens: Seq<TokenView>,
    start: int,
    error: SpanErrorView,
    at: int,
) -> bool {
    &&& start < at <= tokens.len()
    &&& (error.span == tokens[at - 1].span() || (at < tokens.len() && error.span
        == tokens[at].span()))
}

/// Whether every error of `T` arises behind the unit's first token and
/// points at the token consumed last or at the one behind it.
pub open spec fn fails_close<T: Parse>() -> bool {
    forall|tokens: Seq<TokenView>, pos: int|
        0 <= pos <= tokens.len() ==> (#[trigger] T::parsed(tokens, pos) matches Outcome::Failed {
            error,
            at,
        } ==> blames_last_or_next(tokens, pos, error, at))
}

/// The outcome `rest` of a run, with the values `head` put in front of it.
pub open spec fn prefixed<V>(head: Seq<V>, rest: Outcome<Seq<V>>) -> Outcome<Seq<V>> {
    match rest {
        Outcome::Matched { value, next } => Outcome::Matched { value: head + value, next },
        Outcome::Failed { error, at } => Outcome::Failed { error, at },
        Outcome::NoMatch => Outcome::NoMatch,
    }
}

/// The units of kind `T` that stand one behind the other from `pos` on, up
/// to the first position where none begins. An error in one of them is the
/// error of the whole run. A unit that matches without consuming a token
/// would match there for ever: such a run has no values, and is given as
/// "no match".
pub open spec fn many<T: Parse>(tokens: Seq<TokenView>, pos: int) -> Outcome<Seq<T::V>>
    decreases tokens.len() - pos,
{
    match T::parsed(tokens, pos) {
        Outcome::NoMatch => Outcome::Matched { value: Seq::empty(), next: pos },
        Outcome::Failed { error, at } => Outcome::Failed { error, at },
        Outcome::Matched { value, next } => if pos < next <= tokens.len() {
            prefixed(seq![value], many::<T>(tokens, next))
        } else {
            Outcome::NoMatch
        },
    }
}

/// A unit of the declaration grammar.
///
/// A unit answers in one of three ways. It matches, and the cursor stands
/// behind it. It does not match, which its first token alone decides, and
/// the cursor has not moved. Or it began and then broke off: an error.
pub trait Parse: View + Sized {
    /// What the unit makes of `tokens` from `pos` on.
    spec fn parsed(tokens: Seq<TokenView>, pos: int) -> Outcome<Self::V>;

    /// The words of `description`.
    spec fn described() -> Seq<char>;

    /// Reads one unit at the cursor.
    fn parse(p: &mut Parser) -> (r: Result<Option<Self>, SpanError>)
        ensures
            final(p)@.tokens == old(p)@.tokens,
            0 <= final(p)@.pos <= final(p)@.tokens.len(),
            agrees(r, old(p)@.pos, final(p)@.pos, Self::parsed(old(p)@.tokens, old(p)@.pos)),
    ;

    /// What the unit is, for a reader of error messages.
    fn description() -> (s: String)
        ensures
            s@ == Self::described(),
    ;
}

/// Reads units one behind the other until none matches.
pub fn parse_many<T: Parse>(p: &mut Parser) -> (r: Result<Vec<T>, SpanError>)
    requires
        advances::<T>(),
    ensures
        final(p)@.tokens == old(p)@.tokens,
        0 <= final(p)@.pos <= final(p)@.tokens.len(),
        agrees_many(r, final(p)@.pos, many::<T>(old(p)@.tokens, old(p)@.pos)),
{
    let mut values: Vec<T> = Vec::new();
    let ghost tokens = p@.tokens;
    let ghost start = p@.pos;
    proof {
        use_type_invariant(&*p);
    }
    loop
        invariant
            advances::<T>(),
            tokens == old(p)@.tokens,
            start == old(p)@.pos,
            p@.tokens == tokens,
            start <= p@.pos <= tokens.len(),
            many::<T>(tokens, start) == prefixed(views(values@), many::<T>(tokens, p@.pos)),
        decreases tokens.len() - p@.pos,
    {
        match T::parse(p) {
            Err(error) => {
                return Err(error);
            },
            Ok(None) => {
                return Ok(values);
            },
            Ok(Some(value)) => {
                proof {
                    let before = views(values@);
                    assert(views(values@.push(value)) =~= before.push(value@));
                    match many::<T>(tokens, p@.pos) {
                        Outcome::Matched { value: tail, .. } => {
                            assert(before + (seq![value@] + tail) =~= before.push(value@) + tail);
                        },
                        _ => {},
                    }
                }
                values.push(value);
            },
        }
    }
}

/// A run of units that advance ends at or behind where it began, within the
/// input, and never answers "no match".
pub proof fn lemma_many_bounds<T: Parse>(tokens: Seq<TokenView>, pos: int)
    requires
        advances::<T>(),
        0 <= pos <= tokens.len(),
    ensures
        many::<T>(tokens, pos) matches Outcome::Matched { next, .. } ==> pos <= next <= tokens.len(),
        !(many::<T>(tokens, pos) is NoMatch),
    decreases tokens.len() - pos,
{
    match T::parsed(tokens, pos) {
        Outcome::Matched { next, .. } => {
            lemma_many_bounds::<T>(tokens, next);
        },
        _ => {},
    }
}

/// An error in a run is the error of one of its units: it arises behind
/// the start of the run and points at the token consumed last or at the one
/// behind it.
pub proof fn lemma_many_fails_close<T: Parse>(tokens: Seq<TokenView>, pos: int)
    requires
        advances::<T>(),
        fails_close::<T>(),
        0 <= pos <= tokens.len(),
    ensures
        many::<T>(tokens, pos) matches Outcome::Failed { error, at } ==> blames_last_or_next(
            tokens,
            pos,
            error,
            at,
        ),
    decreases tokens.len() - pos,
{
    match T::parsed(tokens, pos) {
        Outcome::Matched { next, .. } => {
            lemma_many_fails_close::<T>(tokens, next);
        },
        _ => {},
    }
}

/// Parsing is a function of the tokens and the position: two runs of
/// `parse` on the same input answer alike, value for value and error for
/// error, and stop at the same place.
pub proof fn lemma_parse_deterministic<T: Parse>(
    tokens: Seq<TokenView>,
    pos: int,
    first: Result<Option<T>, SpanError>,
    first_end: int,
    second: Result<Option<T>, SpanError>,
    second_end: int,
)
    requires
        agrees(first, pos, first_end, T::parsed(tokens, pos)),
        agrees(second, pos, second_end, T::parsed(tokens, pos)),
    ensures
        first_end == second_end,
        match (first, second) {
            (Ok(Some(a)), Ok(Some(b))) => a@ == b@,
            (Ok(None), Ok(None)) => true,
            (Err(a), Err(b)) => a@ == b@,
            _ => false,
        },
{
}

} // verus!
