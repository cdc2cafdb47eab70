//! What is known of a Java class: its name, its generics, and the
//! signatures of its constructors and methods.

use vstd::prelude::*;
use proc_macro2::Span;
use crate::model::views;
use crate::text::{dots_to_slashes, replaced, split, split_at_dots};

verus! {

/// A Java name: of a class, with dots between the packages (`java.lang.Object`),
/// or of a type parameter.
#[derive(Debug, PartialEq, Eq)]
pub struct Id {
    pub data: String,
}

impl View for Id {
    type V = Seq<char>;

    open spec fn view(&self) -> Seq<char> {
        self.data@
    }
}

impl Id {
    /// The name as the JVM looks classes up: with `/` for `.`, like
    /// `java/lang/Object`.
    pub fn to_jni_name(&self) -> (name: String)
        ensures
            name@ == replaced(self@, '.', '/'),
    {
        dots_to_slashes(self.data.as_str())
    }

    /// The path of the struct generated for the class: one segment for each
    /// piece between the dots, the last of them the struct's own name.
    pub fn to_module_name(&self) -> (segments: Vec<String>)
        ensures
            views(segments@) == split(self@, '.'),
    {
        split_at_dots(self.data.as_str())
    }
}

/// A Java scalar type.
#[derive(Clone, Copy, Debug, PartialEq, Eq, Structural)]
pub enum ScalarType {
    Int,
    Long,
    Short,
    Byte,
    F64,
    F32,
    Boolean,
}

/// A Java type.
#[derive(Debug, PartialEq, Eq)]
pub enum Type {
    Ref(RefType),
    Scalar(ScalarType),
}

/// A Java reference type.
#[derive(Debug, PartialEq, Eq)]
pub enum RefType {
    /// A class, with its generic arguments.
    Class(ClassRef),
    /// An array of the given element type.
    Array(Box<RefType>),
    /// A type parameter of the class at hand.
    TypeParameter(Id),
    /// `? extends T`.
    Extends(Box<RefType>),
    /// `? super T`.
    Super(Box<RefType>),
    /// `?`.
    Wildcard,
}

/// A class with its generic arguments.
#[derive(Debug, PartialEq, Eq)]
pub struct ClassRef {
    pub name: Id,
    pub generics: Vec<RefType>,
}

/// How the JVM encodes the argument and result types of a constructor or
/// method. It is handed on as it came.
#[derive(Debug, PartialEq, Eq)]
pub struct Descriptor {
    pub string: String,
}

/// A constructor: the types of its arguments, in order.
#[derive(Debug, PartialEq, Eq)]
pub struct Constructor {
    pub args: Vec<Type>,
    pub descriptor: Descriptor,
}

/// A method: its name, the types of its arguments, in order, and the type
/// of its result, if it has one.
#[derive(Debug, PartialEq, Eq)]
pub struct Method {
    pub name: Id,
    pub args: Vec<Type>,
    pub return_ty: Option<Type>,
    pub descriptor: Descriptor,
}

/// A class: its name, its type parameters, and what can be called on it.
#[derive(Debug, PartialEq, Eq)]
pub struct ClassInfo {
    pub name: Id,
    pub generics: Vec<Id>,
    pub constructors: Vec<Constructor>,
    pub methods: Vec<Method>,
}

/// A class, and the place in the source that asked for it.
#[derive(Debug)]
pub struct SpannedClassInfo {
    pub info: ClassInfo,
    pub span: Span,
}

impl RefType {
    /// Whether a wildcard (`?`, `? extends T`, `? super T`) stands anywhere
    /// in the type.
    pub open spec fn has_wildcard(self) -> bool
        decreases self,
    {
        match self {
            RefType::Class(class) => exists|i: int|
                0 <= i < class.generics.len() && (#[trigger] class.generics[i]).has_wildcard(),
            RefType::Array(element) => (*element).has_wildcard(),
            RefType::TypeParameter(_) => false,
            RefType::Extends(_) => true,
            RefType::Super(_) => true,
            RefType::Wildcard => true,
        }
    }

    /// Whether every type parameter that a translation of the type reads is
    /// one of `declared`. The bound of a `? super T` is not read.
    pub open spec fn declared_in(self, declared: Seq<Seq<char>>) -> bool
        decreases self,
    {
        match self {
            RefType::Class(class) => forall|i: int|
                0 <= i < class.generics.len() ==> (#[trigger] class.generics[i]).declared_in(
                    declared,
                ),
            RefType::Array(element) => (*element).declared_in(declared),
            RefType::TypeParameter(id) => declared.contains(id@),
            RefType::Extends(bound) => (*bound).declared_in(declared),
            RefType::Super(_) => true,
            RefType::Wildcard => true,
        }
    }

    /// Tests `declared_in` against the generics of a class.
    #[verifier::loop_isolation(false)]
    pub fn is_declared_in(&self, generics: &Vec<Id>) -> (b: bool)
        ensures
            b == self.declared_in(views(generics@)),
        decreases self,
    {
        match self {
            RefType::Class(class) => {
                let mut i: usize = 0;
                while i < class.generics.len()
                    invariant
                        i <= class.generics.len(),
                        forall|j: int|
                            0 <= j < i ==> (#[trigger] class.generics[j]).declared_in(
                                views(generics@),
                            ),
                    decreases class.generics.len() - i,
                {
                    if !class.generics[i].is_declared_in(generics) {
                        return false;
                    }
                    i = i + 1;
                }
                true
            },
            RefType::Array(element) => element.is_declared_in(generics),
            RefType::TypeParameter(id) => {
                let mut i: usize = 0;
                while i < generics.len()
                    invariant
                        i <= generics.len(),
                        forall|j: int| 0 <= j < i ==> views(generics@)[j] != id@,
                    decreases generics.len() - i,
                {
                    if generics[i].data == id.data {
                        assert(views(generics@)[i as int] == id@);
                        return true;
                    }
                    i = i + 1;
                }
                false
            },
            RefType::Extends(bound) => bound.is_declared_in(generics),
            RefType::Super(_) => true,
            RefType::Wildcard => true,
        }
    }
}

impl Type {
    /// Whether a wildcard stands anywhere in the type.
    pub open spec fn has_wildcard(self) -> bool {
        match self {
            Type::Ref(ty) => ty.has_wildcard(),
            Type::Scalar(_) => false,
        }
    }

    /// Whether every type parameter that a translation of the type reads is
    /// one of `declared`.
    pub open spec fn declared_in(self, declared: Seq<Seq<char>>) -> bool {
        match self {
            Type::Ref(ty) => ty.declared_in(declared),
            Type::Scalar(_) => true,
        }
    }

    /// Tests `declared_in` against the generics of a class.
    pub fn is_declared_in(&self, generics: &Vec<Id>) -> (b: bool)
        ensures
            b == self.declared_in(views(generics@)),
    {
        match self {
            Type::Ref(ty) => ty.is_declared_in(generics),
            Type::Scalar(_) => true,
        }
    }
}

/// Whether each of `tys` reads only type parameters among `declared`.
pub open spec fn all_declared_in(tys: Seq<Type>, declared: Seq<Seq<char>>) -> bool {
    forall|i: int| 0 <= i < tys.len() ==> (#[trigger] tys[i]).declared_in(declared)
}

/// Tests `all_declared_in` against the generics of a class.
pub fn are_declared_in(tys: &Vec<Type>, generics: &Vec<Id>) -> (b: bool)
    ensures
        b == all_declared_in(tys@, views(generics@)),
{
    let mut i: usize = 0;
    while i < tys.len()
        invariant
            i <= tys.len(),
            forall|j: int| 0 <= j < i ==> (#[trigger] tys[j]).declared_in(views(generics@)),
        decreases tys.len() - i,
    {
        if !tys[i].is_declared_in(generics) {
            return false;
        }
        i = i + 1;
    }
    true
}

impl Constructor {
    /// Whether the arguments read only type parameters among `declared`.
    pub open spec fn declared_in(self, declared: Seq<Seq<char>>) -> bool {
        all_declared_in(self.args@, declared)
    }

    /// Tests `declared_in` against the generics of a class.
    pub fn is_declared_in(&self, generics: &Vec<Id>) -> (b: bool)
        ensures
            b == self.declared_in(views(generics@)),
    {
        are_declared_in(&self.args, generics)
    }
}

impl Method {
    /// Whether the arguments and the result read only type parameters among
    /// `declared`.
    pub open spec fn declared_in(self, declared: Seq<Seq<char>>) -> bool {
        &&& all_declared_in(self.args@, declared)
        &&& self.return_ty matches Some(ty) ==> ty.declared_in(declared)
    }

    /// Whether a binding can be generated for the method: its result holds
    /// no wildcard.
    pub open spec fn supported(self) -> bool {
        self.return_ty matches Some(ty) ==> !ty.has_wildcard()
    }

    /// Tests `declared_in` against the generics of a class.
    pub fn is_declared_in(&self, generics: &Vec<Id>) -> (b: bool)
        ensures
            b == self.declared_in(views(generics@)),
    {
        if !are_declared_in(&self.args, generics) {
            return false;
        }
        match &self.return_ty {
            Some(ty) => ty.is_declared_in(generics),
            None => true,
        }
    }
}

impl ClassInfo {
    /// Whether the signatures of the class name no type parameter but the
    /// class's own.
    pub open spec fn closed(self) -> bool {
        &&& forall|i: int|
            0 <= i < self.constructors.len() ==> (#[trigger] self.constructors[i]).declared_in(
                views(self.generics@),
            )
        &&& forall|i: int|
            0 <= i < self.methods.len() ==> (#[trigger] self.methods[i]).declared_in(
                views(self.generics@),
            )
    }

    /// Tests `closed`.
    pub fn is_closed(&self) -> (b: bool)
        ensures
            b == self.closed(),
    {
        let mut i: usize = 0;
        while i < self.constructors.len()
            invariant
                i <= self.constructors.len(),
                forall|j: int|
                    0 <= j < i ==> (#[trigger] self.constructors[j]).declared_in(
                        views(self.generics@),
                    ),
            decreases self.constructors.len() - i,
        {
            if !self.constructors[i].is_declared_in(&self.generics) {
                return false;
            }
            i = i + 1;
        }
        let mut k: usize = 0;
        while k < self.methods.len()
            invariant
                k <= self.methods.len(),
                forall|j: int|
                    0 <= j < self.constructors.len() ==> (#[trigger] self.constructors[j]).declared_in(
                        views(self.generics@),
                    ),
                forall|j: int|
                    0 <= j < k ==> (#[trigger] self.methods[j]).declared_in(views(self.generics@)),
            decreases self.methods.len() - k,
        {
            if !self.methods[k].is_declared_in(&self.generics) {
                return false;
            }
            k = k + 1;
        }
        true
    }
}

} // verus!
