//! Errors that point at a place in the source.

use vstd::prelude::*;
use proc_macro2::Span;

verus! {

/// A message about the tokens at `span`.
#[derive(Debug)]
pub struct SpanError {
    pub span: Span,
    pub message: String,
}

/// What a `SpanError` says: where, and in which words.
pub struct SpanErrorView {
    pub span: Span,
    pub message: Seq<char>,
}

impl View for SpanError {
    type V = SpanErrorView;

    open spec fn view(&self) -> SpanErrorView {
        SpanErrorView { span: self.span, message: self.message@ }
    }
}

} // verus!
