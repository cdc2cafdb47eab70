//! From the Java types of one signature to the Rust types, generic
//! parameters and `where` clauses of the function generated for it.
//!
//! A Java wildcard becomes a generic parameter of the generated function: an
//! argument of type `ArrayList<?>` is taken as `ArrayList<P0>` for a fresh
//! `P0`, and one of type `ArrayList<? extends Foo>` as `ArrayList<P0>` where
//! a reference to `P0` can be turned into one to `Foo`. That works for what a
//! function takes. It does not work for what it returns, where the caller
//! would have to choose the type that the callee in fact returns: there a
//! wildcard is not supported.

use vstd::prelude::*;
use proc_macro2::Span;
use crate::class_info::{all_declared_in, ClassRef, Id, RefType, ScalarType, Type};
use crate::model::views;
use crate::rust_type::{
    Primitive, RustType, RustTypeView, TraitBound, TraitBoundView, WhereBound, WhereBoundView,
};
use crate::text::{decimal, decimal_string, lemma_decimal_injective, split};

verus! {

/// A wildcard stands where none can be captured.
#[derive(Clone, Copy, Debug, PartialEq, Eq)]
pub struct UnsupportedWildcard;

/// The name of the generic parameter that stands for the type parameter `id`
/// of the class.
pub open spec fn type_parameter_name(id: Seq<char>) -> Seq<char> {
    seq!['J'] + id
}

/// The name of the generic parameter that stands for a captured wildcard,
/// where `index` generic parameters came before it.
pub open spec fn captured_name(index: nat) -> Seq<char> {
    seq!['P'] + decimal(index)
}

/// The Rust primitive for each Java scalar.
pub open spec fn primitive_of(ty: ScalarType) -> Primitive {
    match ty {
        ScalarType::Int => Primitive::I32,
        ScalarType::Long => Primitive::I64,
        ScalarType::Short => Primitive::I16,
        ScalarType::Byte => Primitive::I8,
        ScalarType::F64 => Primitive::F64,
        ScalarType::F32 => Primitive::F32,
        ScalarType::Boolean => Primitive::Bool,
    }
}

/// The Java scalar for each Rust primitive.
pub open spec fn scalar_of(ty: Primitive) -> ScalarType {
    match ty {
        Primitive::I32 => ScalarType::Int,
        Primitive::I64 => ScalarType::Long,
        Primitive::I16 => ScalarType::Short,
        Primitive::I8 => ScalarType::Byte,
        Primitive::F64 => ScalarType::F64,
        Primitive::F32 => ScalarType::F32,
        Primitive::Bool => ScalarType::Boolean,
    }
}

/// The state of the translation of one signature.
pub struct Signature {
    span: Span,
    declared: usize,
    generics: Vec<String>,
    where_bounds: Vec<WhereBound>,
    capture_generics: bool,
}

/// The state of a translation, as the contracts speak of it.
pub struct SignatureView {
    /// The span that the generated code gets.
    pub span: Span,
    /// The type parameters of the class, as Java names them.
    pub declared: Seq<Seq<char>>,
    /// The generic parameters of the generated function: one for each type
    /// parameter of the class, then one for each wildcard captured so far.
    pub generics: Seq<Seq<char>>,
    /// The `where` clauses collected so far.
    pub where_bounds: Seq<WhereBoundView>,
    /// Whether a wildcard may be captured where the translation stands.
    pub capture_generics: bool,
}

impl SignatureView {
    /// The state before anything of a signature is translated: the generic
    /// parameters are those of the class, there is no `where` clause, and
    /// wildcards may be captured.
    pub open spec fn start(span: Span, declared: Seq<Seq<char>>) -> SignatureView {
        SignatureView {
            span,
            declared,
            generics: Seq::new(declared.len(), |i: int| type_parameter_name(declared[i])),
            where_bounds: Seq::empty(),
            capture_generics: true,
        }
    }

    /// The generic parameters begin with those of the class, under their
    /// own names; each one after them bears the name that its place gives
    /// it.
    pub open spec fn wf(self) -> bool {
        &&& self.declared.len() <= self.generics.len()
        &&& forall|i: int|
            0 <= i < self.declared.len() ==> #[trigger] self.generics[i] == type_parameter_name(
                self.declared[i],
            )
        &&& forall|i: int|
            self.declared.len() <= i < self.generics.len() ==> #[trigger] self.generics[i]
                == captured_name(i as nat)
    }

    /// The generic parameters that stand for captured wildcards.
    pub open spec fn captured(self) -> Seq<Seq<char>> {
        self.generics.skip(self.declared.len() as int)
    }

    /// The name of the next generic parameter to capture a wildcard.
    pub open spec fn fresh_name(self) -> Seq<char> {
        captured_name(self.generics.len())
    }

    /// The state with one more captured generic parameter.
    pub open spec fn fresh_generic(self) -> SignatureView {
        SignatureView { generics: self.generics.push(self.fresh_name()), ..self }
    }

    /// The state with one more `where` clause.
    pub open spec fn push_where_bound(self, bound: WhereBoundView) -> SignatureView {
        SignatureView { where_bounds: self.where_bounds.push(bound), ..self }
    }

    /// The Rust type for `ty` where wildcards are captured, and the state
    /// after it.
    ///
    /// A class becomes the struct generated for it, its generic arguments
    /// translated left to right. A type parameter of the class becomes
    /// the generic parameter of its name. Each wildcard becomes a fresh
    /// generic parameter; for `? extends T` a `where` clause ties it to the
    /// translation of `T`, which is made after the parameter is minted and
    /// before the clause is added. `? super T` adds no clause.
    pub open spec fn java_ref_ty(self, ty: RefType) -> (RustTypeView, SignatureView)
        decreases ty,
    {
        match ty {
            RefType::Class(class) => {
                let (generics, after) = self.java_ref_tys(class.generics@);
                (RustTypeView::Path { segments: split(class.name@, '.'), generics }, after)
            },
            RefType::Array(element) => {
                let (element, after) = self.java_ref_ty(*element);
                (RustTypeView::JavaArray(Box::new(element)), after)
            },
            RefType::TypeParameter(id) => (RustTypeView::Generic(type_parameter_name(id@)), self),
            RefType::Extends(bound) => {
                let name = self.fresh_name();
                let (upcast, after) = self.fresh_generic().java_ref_ty(*bound);
                (
                    RustTypeView::Generic(name),
                    after.push_where_bound(WhereBoundView { generic: name, upcast }),
                )
            },
            RefType::Super(_) => (RustTypeView::Generic(self.fresh_name()), self.fresh_generic()),
            RefType::Wildcard => (RustTypeView::Generic(self.fresh_name()), self.fresh_generic()),
        }
    }

    /// The Rust types for `tys`, translated left to right, and the
    /// state after them.
    pub open spec fn java_ref_tys(self, tys: Seq<RefType>) -> (Seq<RustTypeView>, SignatureView)
        decreases tys,
    {
        if tys.len() == 0 {
            (Seq::empty(), self)
        } else {
            let (before, middle) = self.java_ref_tys(tys.drop_last());
            let (last, after) = middle.java_ref_ty(tys.last());
            (before.push(last), after)
        }
    }

    /// The Rust type for `ty` where wildcards are captured, and the state
    /// after it.
    pub open spec fn java_type(self, ty: Type) -> (RustTypeView, SignatureView) {
        match ty {
            Type::Ref(ty) => self.java_ref_ty(ty),
            Type::Scalar(ty) => (RustTypeView::Primitive(primitive_of(ty)), self),
        }
    }

    /// What a function asks of an argument of type `ty`, and the state
    /// after it.
    pub open spec fn input_trait(self, ty: Type) -> (TraitBoundView, SignatureView) {
        match ty {
            Type::Ref(ty) => {
                let (ty, after) = self.java_ref_ty(ty);
                (TraitBoundView::IntoJava(ty), after)
            },
            Type::Scalar(ty) => (
                TraitBoundView::IntoScalar(RustTypeView::Primitive(primitive_of(ty))),
                self,
            ),
        }
    }

    /// What a function asks of arguments of the types `tys`, taken from left
    /// to right, and the state after them.
    pub open spec fn input_traits(self, tys: Seq<Type>) -> (Seq<TraitBoundView>, SignatureView)
        decreases tys.len(),
    {
        if tys.len() == 0 {
            (Seq::empty(), self)
        } else {
            let (before, middle) = self.input_traits(tys.drop_last());
            let (last, after) = middle.input_trait(tys.last());
            (before.push(last), after)
        }
    }

    /// What a function says of a result of type `ty`, which holds no
    /// wildcard.
    pub open spec fn output_trait(self, ty: Type) -> TraitBoundView {
        match ty {
            Type::Ref(ty) => TraitBoundView::IntoOptLocal(self.java_ref_ty(ty).0),
            Type::Scalar(ty) => TraitBoundView::IntoScalar(
                RustTypeView::Primitive(primitive_of(ty)),
            ),
        }
    }
}

impl View for Signature {
    type V = SignatureView;

    closed spec fn view(&self) -> SignatureView {
        SignatureView {
            span: self.span,
            declared: Seq::new(self.declared as nat, |i: int| self.generics[i]@.skip(1)),
            generics: views(self.generics@),
            where_bounds: views(self.where_bounds@),
            capture_generics: self.capture_generics,
        }
    }
}

/// The name of the generic parameter that stands for the type parameter `t`
/// of the class: `J` and the parameter's own name.
pub fn java_type_parameter_ident(t: &Id) -> (name: String)
    ensures
        name@ == type_parameter_name(t@),
{
    let mut name: String = "J".to_owned();
    proof {
        reveal_strlit("J");
    }
    name.append(t.data.as_str());
    name
}

impl Signature {
    /// The state before anything of a signature is translated: the generic
    /// parameters are those of the class, and wildcards may be captured.
    pub fn new(span: Span, generics: &Vec<Id>) -> (sig: Signature)
        ensures
            sig@ == SignatureView::start(span, views(generics@)),
            sig@.wf(),
    {
        let mut names: Vec<String> = Vec::new();
        let mut i: usize = 0;
        while i < generics.len()
            invariant
                i <= generics.len(),
                names.len() == i,
                forall|j: int| 0 <= j < i ==> (#[trigger] names[j])@ == type_parameter_name(generics[j]@),
            decreases generics.len() - i,
        {
            names.push(java_type_parameter_ident(&generics[i]));
            i = i + 1;
        }
        let sig = Signature {
            span,
            declared: generics.len(),
            generics: names,
            where_bounds: Vec::new(),
            capture_generics: true,
        };
        proof {
            assert forall|j: int| 0 <= j < generics.len() implies sig@.declared[j] == (
            #[trigger] generics[j])@ by {
                assert(type_parameter_name(generics[j]@).skip(1) == generics[j]@);
            }
            assert(sig@.declared == views(generics@));
            assert(sig@.generics == SignatureView::start(span, views(generics@)).generics);
            assert(sig@.where_bounds == Seq::<WhereBoundView>::empty());
        }
        sig
    }

    /// The span that the generated code gets.
    pub fn span(&self) -> (span: Span)
        ensures
            span == self@.span,
    {
        self.span
    }

    /// The generic parameters so far: those of the class, then the captured
    /// ones.
    pub fn generics(&self) -> (generics: &Vec<String>)
        ensures
            views(generics@) == self@.generics,
    {
        &self.generics
    }

    /// The `where` clauses so far.
    pub fn where_bounds(&self) -> (bounds: &Vec<WhereBound>)
        ensures
            views(bounds@) == self@.where_bounds,
    {
        &self.where_bounds
    }

    /// Ends the translation and hands out what it collected: the generic
    /// parameters and the `where` clauses.
    pub fn into_parts(self) -> (parts: (Vec<String>, Vec<WhereBound>))
        ensures
            views(parts.0@) == self@.generics,
            views(parts.1@) == self@.where_bounds,
    {
        (self.generics, self.where_bounds)
    }

    /// Mints a generic parameter for a wildcard, where one may be captured.
    pub fn fresh_generic(&mut self) -> (r: Result<String, UnsupportedWildcard>)
        requires
            old(self)@.wf(),
        ensures
            r is Ok <==> old(self)@.capture_generics,
            r matches Ok(name) ==> name@ == old(self)@.fresh_name() && final(self)@ == old(
                self,
            )@.fresh_generic(),
            r is Err ==> final(self)@ == old(self)@,
            final(self)@.wf(),
    {
        if !self.capture_generics {
            Err(UnsupportedWildcard)
        } else {
            let i: usize = self.generics.len();
            let mut name: String = "P".to_owned();
            proof {
                reveal_strlit("P");
                assert(name@ == seq!['P']);
            }
            let digits: String = decimal_string(i);
            name.append(digits.as_str());
            let ghost before = self@;
            self.generics.push(name.clone());
            proof {
                assert(self@.generics == before.generics.push(name@));
                assert(self@.declared == before.declared);
            }
            Ok(name)
        }
    }

    /// Adds a `where` clause to those of the generated function.
    pub fn push_where_bound(&mut self, bound: WhereBound)
        requires
            old(self)@.wf(),
        ensures
            final(self)@ == old(self)@.push_where_bound(bound@),
            final(self)@.wf(),
    {
        let ghost before = self@;
        self.where_bounds.push(bound);
        proof {
            assert(self@.where_bounds == before.where_bounds.push(bound@));
        }
    }

    /// The name of the generic parameter for the type parameter `t`.
    pub fn java_type_parameter_ident(&self, t: &Id) -> (name: String)
        ensures
            name@ == type_parameter_name(t@),
    {
        java_type_parameter_ident(t)
    }

    /// The Rust primitive for a Java scalar.
    pub fn java_scalar_ty(&self, ty: &ScalarType) -> (r: RustType)
        ensures
            r@ == RustTypeView::Primitive(primitive_of(*ty)),
    {
        match ty {
            ScalarType::Int => RustType::Primitive(Primitive::I32),
            ScalarType::Long => RustType::Primitive(Primitive::I64),
            ScalarType::Short => RustType::Primitive(Primitive::I16),
            ScalarType::Byte => RustType::Primitive(Primitive::I8),
            ScalarType::F64 => RustType::Primitive(Primitive::F64),
            ScalarType::F32 => RustType::Primitive(Primitive::F32),
            ScalarType::Boolean => RustType::Primitive(Primitive::Bool),
        }
    }

    /// The Rust type for a Java reference type.
    ///
    /// Where wildcards may be captured this succeeds. Where they may not, it
    /// succeeds if the type holds no wildcard, and else leaves the state as
    /// it was.
    pub fn java_ref_ty(&mut self, ty: &RefType) -> (r: Result<RustType, UnsupportedWildcard>)
        requires
            old(self)@.wf(),
            ty.declared_in(old(self)@.declared),
        ensures
            final(self)@.wf(),
            r is Ok <==> old(self)@.capture_generics || !ty.has_wildcard(),
            r matches Ok(t) ==> (t@, final(self)@) == old(self)@.java_ref_ty(*ty),
            r is Err ==> final(self)@ == old(self)@,
            final(self)@.span == old(self)@.span,
            final(self)@.declared == old(self)@.declared,
            final(self)@.capture_generics == old(self)@.capture_generics,
        decreases ty,
    {
        match ty {
            RefType::Class(class) => self.class_ref_ty(class),
            RefType::Array(element) => {
                match self.java_ref_ty(element) {
                    Ok(element) => Ok(RustType::JavaArray(Box::new(element))),
                    Err(e) => Err(e),
                }
            },
            RefType::TypeParameter(t) => {
                let name: String = self.java_type_parameter_ident(t);
                Ok(RustType::Generic(name))
            },
            RefType::Extends(bound) => {
                let generic: String = match self.fresh_generic() {
                    Ok(generic) => generic,
                    Err(e) => {
                        return Err(e);
                    },
                };
                let upcast: RustType = match self.java_ref_ty(bound) {
                    Ok(upcast) => upcast,
                    Err(e) => {
                        return Err(e);
                    },
                };
                self.push_where_bound(WhereBound { generic: generic.clone(), upcast });
                Ok(RustType::Generic(generic))
            },
            RefType::Super(_) => {
                match self.fresh_generic() {
                    Ok(generic) => Ok(RustType::Generic(generic)),
                    Err(e) => Err(e),
                }
            },
            RefType::Wildcard => {
                match self.fresh_generic() {
                    Ok(generic) => Ok(RustType::Generic(generic)),
                    Err(e) => Err(e),
                }
            },
        }
    }

    /// The struct generated for a class, with the class's generic arguments
    /// translated left to right.
    pub fn class_ref_ty(&mut self, ty: &ClassRef) -> (r: Result<RustType, UnsupportedWildcard>)
        requires
            old(self)@.wf(),
            forall|i: int|
                0 <= i < ty.generics.len() ==> (#[trigger] ty.generics[i]).declared_in(
                    old(self)@.declared,
                ),
        ensures
            final(self)@.wf(),
            r is Ok <==> old(self)@.capture_generics || forall|i: int|
                0 <= i < ty.generics.len() ==> !(#[trigger] ty.generics[i]).has_wildcard(),
            r matches Ok(t) ==> t@ == (RustTypeView::Path {
                segments: split(ty.name@, '.'),
                generics: old(self)@.java_ref_tys(ty.generics@).0,
            }) && final(self)@ == old(self)@.java_ref_tys(ty.generics@).1,
            r is Err ==> final(self)@ == old(self)@,
            final(self)@.span == old(self)@.span,
            final(self)@.declared == old(self)@.declared,
            final(self)@.capture_generics == old(self)@.capture_generics,
        decreases ty,
    {
        let segments: Vec<String> = ty.name.to_module_name();
        let mut generics: Vec<RustType> = Vec::new();
        let mut i: usize = 0;
        while i < ty.generics.len()
            invariant
                i <= ty.generics.len(),
                old(self)@.wf(),
                self@.wf(),
                forall|j: int|
                    0 <= j < ty.generics.len() ==> (#[trigger] ty.generics[j]).declared_in(
                        old(self)@.declared,
                    ),
                self@.span == old(self)@.span,
                self@.declared == old(self)@.declared,
                self@.capture_generics == old(self)@.capture_generics,
                (views(generics@), self@) == old(self)@.java_ref_tys(ty.generics@.take(i as int)),
                !old(self)@.capture_generics ==> self@ == old(self)@,
                !old(self)@.capture_generics ==> forall|j: int|
                    0 <= j < i ==> !(#[trigger] ty.generics[j]).has_wildcard(),
            decreases ty.generics.len() - i,
        {
            let ghost before = self@;
            match self.java_ref_ty(&ty.generics[i]) {
                Ok(generic) => {
                    proof {
                        assert(ty.generics@.take(i as int + 1).drop_last() == ty.generics@.take(
                            i as int,
                        ));
                        if !before.capture_generics {
                            lemma_no_wildcard_no_capture(before, ty.generics[i as int]);
                        }
                    }
                    generics.push(generic);
                },
                Err(e) => {
                    return Err(e);
                },
            }
            i = i + 1;
        }
        assert(ty.generics@.take(i as int) == ty.generics@);
        let r = RustType::Path { segments, generics };
        assert(r@ == (RustTypeView::Path {
            segments: split(ty.name@, '.'),
            generics: old(self)@.java_ref_tys(ty.generics@).0,
        })) by {
            assert(r@->Path_generics =~= views(generics@));
        }
        Ok(r)
    }

    /// The Rust type for a Java type.
    pub fn java_type(&mut self, ty: &Type) -> (r: Result<RustType, UnsupportedWildcard>)
        requires
            old(self)@.wf(),
            ty.declared_in(old(self)@.declared),
        ensures
            final(self)@.wf(),
            r is Ok <==> old(self)@.capture_generics || !ty.has_wildcard(),
            r matches Ok(t) ==> (t@, final(self)@) == old(self)@.java_type(*ty),
            r is Err ==> final(self)@ == old(self)@,
            final(self)@.span == old(self)@.span,
            final(self)@.declared == old(self)@.declared,
            final(self)@.capture_generics == old(self)@.capture_generics,
    {
        match ty {
            Type::Ref(ty) => self.java_ref_ty(ty),
            Type::Scalar(ty) => Ok(self.java_scalar_ty(ty)),
        }
    }

    /// What a generated function asks of an argument of type `ty`. Objects
    /// may be null.
    ///
    /// Wildcards in the type are captured. As a translation starts out
    /// capturing and nothing here switches that off for long, this
    /// succeeds on every argument of a signature.
    pub fn input_trait(&mut self, ty: &Type) -> (r: Result<TraitBound, UnsupportedWildcard>)
        requires
            old(self)@.wf(),
            ty.declared_in(old(self)@.declared),
        ensures
            final(self)@.wf(),
            r is Ok <==> old(self)@.capture_generics || !ty.has_wildcard(),
            r matches Ok(bound) ==> (bound@, final(self)@) == old(self)@.input_trait(*ty),
            r is Err ==> final(self)@ == old(self)@,
            final(self)@.span == old(self)@.span,
            final(self)@.declared == old(self)@.declared,
            final(self)@.capture_generics == old(self)@.capture_generics,
    {
        match ty {
            Type::Ref(ty) => {
                match self.java_ref_ty(ty) {
                    Ok(t) => Ok(TraitBound::IntoJava(t)),
                    Err(e) => Err(e),
                }
            },
            Type::Scalar(ty) => {
                let t: RustType = self.java_scalar_ty(ty);
                Ok(TraitBound::IntoScalar(t))
            },
        }
    }

    /// What a generated function asks of arguments of the types `tys`, taken
    /// from left to right.
    pub fn input_traits(&mut self, tys: &Vec<Type>) -> (r: Result<
        Vec<TraitBound>,
        UnsupportedWildcard,
    >)
        requires
            old(self)@.wf(),
            all_declared_in(tys@, old(self)@.declared),
        ensures
            final(self)@.wf(),
            r is Ok <==> old(self)@.capture_generics || forall|i: int|
                0 <= i < tys.len() ==> !(#[trigger] tys[i]).has_wildcard(),
            r matches Ok(bounds) ==> (views(bounds@), final(self)@) == old(self)@.input_traits(
                tys@,
            ),
            r is Err ==> final(self)@ == old(self)@,
            final(self)@.span == old(self)@.span,
            final(self)@.declared == old(self)@.declared,
            final(self)@.capture_generics == old(self)@.capture_generics,
    {
        let mut bounds: Vec<TraitBound> = Vec::new();
        let mut i: usize = 0;
        while i < tys.len()
            invariant
                i <= tys.len(),
                old(self)@.wf(),
                self@.wf(),
                all_declared_in(tys@, old(self)@.declared),
                self@.span == old(self)@.span,
                self@.declared == old(self)@.declared,
                self@.capture_generics == old(self)@.capture_generics,
                (views(bounds@), self@) == old(self)@.input_traits(tys@.take(i as int)),
                !old(self)@.capture_generics ==> self@ == old(self)@,
                !old(self)@.capture_generics ==> forall|j: int|
                    0 <= j < i ==> !(#[trigger] tys[j]).has_wildcard(),
            decreases tys.len() - i,
        {
            let ghost before = self@;
            match self.input_trait(&tys[i]) {
                Ok(bound) => {
                    proof {
                        assert(tys@.take(i as int + 1).drop_last() == tys@.take(i as int));
                        if !before.capture_generics {
                            lemma_type_without_wildcard(before, tys[i as int]);
                        }
                    }
                    bounds.push(bound);
                },
                Err(e) => {
                    return Err(e);
                },
            }
            i = i + 1;
        }
        assert(tys@.take(i as int) == tys@);
        Ok(bounds)
    }

    /// The Rust type for `ty`, made with capturing switched off. Capturing
    /// is afterwards what it was before, and so is the rest of the state:
    /// with a wildcard anywhere in it the type is refused, and without one
    /// there is nothing to capture.
    pub fn forbid_capture(&mut self, ty: &RefType) -> (r: Result<RustType, UnsupportedWildcard>)
        requires
            old(self)@.wf(),
            ty.declared_in(old(self)@.declared),
        ensures
            final(self)@ == old(self)@,
            r is Ok <==> !ty.has_wildcard(),
            r matches Ok(t) ==> t@ == old(self)@.java_ref_ty(*ty).0,
    {
        let allowed: bool = self.capture_generics;
        self.capture_generics = false;
        let ghost forbidding = self@;
        let r: Result<RustType, UnsupportedWildcard> = self.java_ref_ty(ty);
        proof {
            if r is Ok {
                lemma_no_wildcard_no_capture(forbidding, *ty);
                lemma_no_wildcard_any_state(forbidding, old(self)@, *ty);
            }
        }
        self.capture_generics = allowed;
        r
    }

    /// What a generated function says of a result of type `ty`. Objects may
    /// be null.
    ///
    /// No wildcard is captured for a result: with a wildcard anywhere in it
    /// the type is refused. Either way the state is afterwards what it was
    /// before.
    pub fn output_trait(&mut self, ty: &Type) -> (r: Result<TraitBound, UnsupportedWildcard>)
        requires
            old(self)@.wf(),
            ty.declared_in(old(self)@.declared),
        ensures
            final(self)@ == old(self)@,
            r is Ok <==> !ty.has_wildcard(),
            r matches Ok(bound) ==> bound@ == old(self)@.output_trait(*ty),
    {
        match ty {
            Type::Ref(ty) => {
                match self.forbid_capture(ty) {
                    Ok(t) => Ok(TraitBound::IntoOptLocal(t)),
                    Err(e) => Err(e),
                }
            },
            Type::Scalar(ty) => {
                let t: RustType = self.java_scalar_ty(ty);
                Ok(TraitBound::IntoScalar(t))
            },
        }
    }
}

/// A type without wildcards is translated without a trace in the state: no
/// generic parameter is captured for it and no `where` clause is added.
pub proof fn lemma_no_wildcard_no_capture(sig: SignatureView, ty: RefType)
    requires
        !ty.has_wildcard(),
    ensures
        sig.java_ref_ty(ty).1 == sig,
    decreases ty,
{
    match ty {
        RefType::Class(class) => {
            lemma_no_wildcards_no_capture(sig, class.generics@);
        },
        RefType::Array(element) => {
            lemma_no_wildcard_no_capture(sig, *element);
        },
        _ => {},
    }
}

/// Types without wildcards are translated without a trace in the state.
pub proof fn lemma_no_wildcards_no_capture(sig: SignatureView, tys: Seq<RefType>)
    requires
        forall|i: int| 0 <= i < tys.len() ==> !(#[trigger] tys[i]).has_wildcard(),
    ensures
        sig.java_ref_tys(tys).1 == sig,
    decreases tys,
{
    if tys.len() > 0 {
        lemma_no_wildcards_no_capture(sig, tys.drop_last());
        lemma_no_wildcard_no_capture(sig, tys.last());
    }
}

/// The translation of a type without wildcards does not depend on the state
/// in which it is made.
pub proof fn lemma_no_wildcard_any_state(a: SignatureView, b: SignatureView, ty: RefType)
    requires
        !ty.has_wildcard(),
    ensures
        a.java_ref_ty(ty).0 == b.java_ref_ty(ty).0,
    decreases ty,
{
    match ty {
        RefType::Class(class) => {
            lemma_no_wildcards_any_state(a, b, class.generics@);
        },
        RefType::Array(element) => {
            lemma_no_wildcard_any_state(a, b, *element);
        },
        _ => {},
    }
}

/// The translations of types without wildcards do not depend on the state
/// in which they are made.
pub proof fn lemma_no_wildcards_any_state(a: SignatureView, b: SignatureView, tys: Seq<RefType>)
    requires
        forall|i: int| 0 <= i < tys.len() ==> !(#[trigger] tys[i]).has_wildcard(),
    ensures
        a.java_ref_tys(tys).0 == b.java_ref_tys(tys).0,
    decreases tys,
{
    if tys.len() > 0 {
        lemma_no_wildcards_any_state(a, b, tys.drop_last());
        lemma_no_wildcards_no_capture(a, tys.drop_last());
        lemma_no_wildcards_no_capture(b, tys.drop_last());
        lemma_no_wildcard_any_state(a, b, tys.last());
    }
}

/// A Java type without wildcards leaves no trace in the state, whether it
/// is translated as a type or for the trait bound of an argument.
pub proof fn lemma_type_without_wildcard(sig: SignatureView, ty: Type)
    requires
        !ty.has_wildcard(),
    ensures
        sig.java_type(ty).1 == sig,
        sig.input_trait(ty).1 == sig,
        sig.java_type(ty).1.captured() == sig.captured(),
        sig.java_type(ty).1.where_bounds == sig.where_bounds,
{
    match ty {
        Type::Ref(ty) => {
            lemma_no_wildcard_no_capture(sig, ty);
        },
        Type::Scalar(_) => {},
    }
}

/// The name that a state gives to the next captured wildcard is new: no
/// generic parameter of the class and none captured before bears it. The
/// state with that parameter is well formed again.
pub proof fn lemma_fresh_name_is_new(sig: SignatureView)
    requires
        sig.wf(),
    ensures
        !sig.generics.contains(sig.fresh_name()),
        sig.fresh_generic().wf(),
{
    let fresh = sig.fresh_name();
    assert forall|i: int| 0 <= i < sig.generics.len() implies sig.generics[i] != fresh by {
        if i < sig.declared.len() {
            assert(sig.generics[i][0] == 'J');
        } else {
            if sig.generics[i] == fresh {
                assert(captured_name(i as nat).skip(1) == decimal(i as nat));
                assert(fresh.skip(1) == decimal(sig.generics.len()));
                lemma_decimal_injective(i as nat, sig.generics.len());
            }
        }
    }
}

/// A translation keeps the state well formed, adds to the generic parameters
/// and `where` clauses without touching those that were there, and leaves
/// the rest of the state alone.
pub proof fn lemma_java_ref_ty_grows(sig: SignatureView, ty: RefType)
    requires
        sig.wf(),
    ensures
        sig.java_ref_ty(ty).1.wf(),
        sig.generics.is_prefix_of(sig.java_ref_ty(ty).1.generics),
        sig.where_bounds.is_prefix_of(sig.java_ref_ty(ty).1.where_bounds),
        sig.java_ref_ty(ty).1.span == sig.span,
        sig.java_ref_ty(ty).1.declared == sig.declared,
        sig.java_ref_ty(ty).1.capture_generics == sig.capture_generics,
    decreases ty,
{
    match ty {
        RefType::Class(class) => {
            lemma_java_ref_tys_grow(sig, class.generics@);
        },
        RefType::Array(element) => {
            lemma_java_ref_ty_grows(sig, *element);
        },
        RefType::TypeParameter(_) => {},
        RefType::Extends(bound) => {
            lemma_fresh_name_is_new(sig);
            lemma_java_ref_ty_grows(sig.fresh_generic(), *bound);
        },
        RefType::Super(_) => {
            lemma_fresh_name_is_new(sig);
        },
        RefType::Wildcard => {
            lemma_fresh_name_is_new(sig);
        },
    }
}

/// Translations one after the other keep the state well formed and add to
/// it without touching what was there.
pub proof fn lemma_java_ref_tys_grow(sig: SignatureView, tys: Seq<RefType>)
    requires
        sig.wf(),
    ensures
        sig.java_ref_tys(tys).1.wf(),
        sig.java_ref_tys(tys).0.len() == tys.len(),
        sig.generics.is_prefix_of(sig.java_ref_tys(tys).1.generics),
        sig.where_bounds.is_prefix_of(sig.java_ref_tys(tys).1.where_bounds),
        sig.java_ref_tys(tys).1.span == sig.span,
        sig.java_ref_tys(tys).1.declared == sig.declared,
        sig.java_ref_tys(tys).1.capture_generics == sig.capture_generics,
    decreases tys,
{
    if tys.len() > 0 {
        lemma_java_ref_tys_grow(sig, tys.drop_last());
        lemma_java_ref_ty_grows(sig.java_ref_tys(tys.drop_last()).1, tys.last());
    }
}

/// What `? extends T` does where wildcards are captured. It becomes one
/// generic parameter whose name is new: no parameter of the class bears it
/// and none captured before. Then `T` is translated. Then one `where` clause
/// is added, behind those of `T`, which ties the new parameter to the
/// translation of `T`. Where `T` holds no wildcard, that parameter and that
/// clause are all that the state gains.
pub proof fn lemma_extends_captures_one(sig: SignatureView, bound: RefType)
    requires
        sig.wf(),
    ensures
        ({
            let name = sig.fresh_name();
            let (ty, after) = sig.java_ref_ty(RefType::Extends(Box::new(bound)));
            let (upcast, inner) = sig.fresh_generic().java_ref_ty(bound);
            &&& ty == RustTypeView::Generic(name)
            &&& !sig.generics.contains(name)
            &&& after.wf()
            &&& after.generics == inner.generics
            &&& after.generics.len() > sig.generics.len()
            &&& after.generics.take(sig.generics.len() as int) == sig.generics
            &&& after.generics[sig.generics.len() as int] == name
            &&& after.where_bounds == inner.where_bounds.push(
                WhereBoundView { generic: name, upcast },
            )
            &&& !bound.has_wildcard() ==> {
                &&& after.generics == sig.generics.push(name)
                &&& after.where_bounds == sig.where_bounds.push(
                    WhereBoundView { generic: name, upcast },
                )
                &&& upcast == sig.java_ref_ty(bound).0
            }
        }),
{
    lemma_fresh_name_is_new(sig);
    lemma_java_ref_ty_grows(sig.fresh_generic(), bound);
    if !bound.has_wildcard() {
        lemma_no_wildcard_no_capture(sig.fresh_generic(), bound);
        lemma_no_wildcard_any_state(sig.fresh_generic(), sig, bound);
    }
}

/// The translations of arguments, one after the other, give one trait
/// bound for each argument, keep the state well formed and add to it without
/// touching what was there.
pub proof fn lemma_input_traits_grow(sig: SignatureView, tys: Seq<Type>)
    requires
        sig.wf(),
    ensures
        sig.input_traits(tys).1.wf(),
        sig.input_traits(tys).0.len() == tys.len(),
        sig.generics.is_prefix_of(sig.input_traits(tys).1.generics),
        sig.where_bounds.is_prefix_of(sig.input_traits(tys).1.where_bounds),
        sig.input_traits(tys).1.span == sig.span,
        sig.input_traits(tys).1.declared == sig.declared,
        sig.input_traits(tys).1.capture_generics == sig.capture_generics,
    decreases tys.len(),
{
    if tys.len() > 0 {
        lemma_input_traits_grow(sig, tys.drop_last());
        let middle = sig.input_traits(tys.drop_last()).1;
        match tys.last() {
            Type::Ref(ty) => {
                lemma_java_ref_ty_grows(middle, ty);
            },
            Type::Scalar(_) => {},
        }
    }
}

/// Java scalars and Rust primitives pair up one to one.
pub proof fn lemma_scalars_pair_up(scalar: ScalarType, primitive: Primitive)
    ensures
        scalar_of(primitive_of(scalar)) == scalar,
        primitive_of(scalar_of(primitive)) == primitive,
{
}

} // verus!
