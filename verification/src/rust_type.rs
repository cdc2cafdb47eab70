//! Rust types as the generated code names them.

use vstd::prelude::*;
use crate::model::views;

verus! {

/// The Rust primitive that stands for a Java scalar.
#[derive(Clone, Copy, Debug, PartialEq, Eq, Structural)]
pub enum Primitive {
    I32,
    I64,
    I16,
    I8,
    F64,
    F32,
    Bool,
}

/// A type in generated code.
#[derive(Debug, PartialEq, Eq)]
pub enum RustType {
    /// A primitive.
    Primitive(Primitive),
    /// The struct generated for a class, by the segments of its path, with
    /// its generic arguments.
    Path { segments: Vec<String>, generics: Vec<RustType> },
    /// A Java array of the given element type.
    JavaArray(Box<RustType>),
    /// A generic parameter of the generated item, by name.
    Generic(String),
}

/// A type in generated code as the contracts speak of it.
pub enum RustTypeView {
    Primitive(Primitive),
    Path { segments: Seq<Seq<char>>, generics: Seq<RustTypeView> },
    JavaArray(Box<RustTypeView>),
    Generic(Seq<char>),
}

impl RustType {
    /// The type, with its names as sequences of characters.
    pub open spec fn model(self) -> RustTypeView
        decreases self,
    {
        match self {
            RustType::Primitive(p) => RustTypeView::Primitive(p),
            RustType::Path { segments, generics } => RustTypeView::Path {
                segments: views(segments@),
                generics: Seq::new(
                    generics.len() as nat,
                    |i: int|
                        if 0 <= i < generics.len() {
                            generics[i].model()
                        } else {
                            arbitrary()
                        },
                ),
            },
            RustType::JavaArray(element) => RustTypeView::JavaArray(Box::new((*element).model())),
            RustType::Generic(name) => RustTypeView::Generic(name@),
        }
    }
}

impl View for RustType {
    type V = RustTypeView;

    open spec fn view(&self) -> RustTypeView {
        self.model()
    }
}

/// What a generated function asks of an argument, or says of its result.
#[derive(Debug, PartialEq, Eq)]
pub enum TraitBound {
    /// Of an argument: it can be turned into a Java object of this type.
    IntoJava(RustType),
    /// Of an argument or a result: it can be turned into a scalar of this
    /// type.
    IntoScalar(RustType),
    /// Of a result: it gives a local reference to an object of this type,
    /// or none.
    IntoOptLocal(RustType),
}

/// A trait bound as the contracts speak of it.
pub enum TraitBoundView {
    IntoJava(RustTypeView),
    IntoScalar(RustTypeView),
    IntoOptLocal(RustTypeView),
}

impl View for TraitBound {
    type V = TraitBoundView;

    open spec fn view(&self) -> TraitBoundView {
        match self {
            TraitBound::IntoJava(ty) => TraitBoundView::IntoJava(ty@),
            TraitBound::IntoScalar(ty) => TraitBoundView::IntoScalar(ty@),
            TraitBound::IntoOptLocal(ty) => TraitBoundView::IntoOptLocal(ty@),
        }
    }
}

/// A `where` clause of a generated function: a reference to the generic
/// parameter `generic` can be turned into a reference to `upcast`.
#[derive(Debug, PartialEq, Eq)]
pub struct WhereBound {
    pub generic: String,
    pub upcast: RustType,
}

/// A `where` clause as the contracts speak of it.
pub struct WhereBoundView {
    pub generic: Seq<char>,
    pub upcast: RustTypeView,
}

impl View for WhereBound {
    type V = WhereBoundView;

    open spec fn view(&self) -> WhereBoundView {
        WhereBoundView { generic: self.generic@, upcast: self.upcast@ }
    }
}

} // verus!
