//! Bindings for Java classes, described before any code is written out.
//!
//! A declaration names the packages and classes to reflect; `argument` reads
//! it from the tokens under the cursor of `parse`. What is known of a class,
//! its type parameters and the signatures of its constructors and methods,
//! is held in `class_info`. From that, `codegen` describes what to generate
//! for the class (`binding`): for each signature the generic parameters, the
//! trait bounds of the arguments and the `where` clauses, as `signature`
//! translates them, wildcards included. `class_cache` is the rule by which
//! the generated code looks a class up once and keeps its handle.

pub mod model;
pub mod span;
pub mod span_error;
pub mod text;
pub mod parse;
pub mod argument;
pub mod class_info;
pub mod rust_type;
pub mod signature;
pub mod class_cache;
pub mod binding;
pub mod codegen;
