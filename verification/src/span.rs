//! Source locations.

use vstd::prelude::*;
use proc_macro2::Span;

verus! {

/// `proc_macro2::Span`, a region of source code. A span is carried from the
/// token it came with to the error or the binding that reports it; nothing
/// is read from it.
#[verifier::external_type_specification]
#[verifier::external_body]
pub struct ExSpan(proc_macro2::Span);

/// `proc_macro2::Span::call_site`, the span of the macro invocation itself.
/// Nothing is claimed of the span that comes back.
#[verifier::external_body]
pub(crate) fn call_site() -> Span {
    Span::call_site()
}

} // verus!
