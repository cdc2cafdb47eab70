//! What is generated for a class: the struct, and a function for each
//! constructor and method that can be bound.

use vstd::prelude::*;
use proc_macro2::Span;
use crate::class_cache::CachedClass;
use crate::model::views;
use crate::rust_type::{
    RustType, RustTypeView, TraitBound, TraitBoundView, WhereBound, WhereBoundView,
};

verus! {

/// One step of what a generated constructor does when it is run.
#[derive(Clone, Copy, Debug, PartialEq, Eq)]
pub enum Step {
    /// Evaluate the argument of this index.
    Argument(usize),
    /// Get the class's handle from its cache.
    CachedClass,
    /// Call the Java constructor with the descriptor and the evaluated
    /// arguments.
    NewObject,
    /// Wrap the new object in a reference that is released with the scope
    /// it was made in.
    Local,
}

/// The steps of a constructor with `args` arguments: the arguments are
/// evaluated from left to right, then the class is resolved, the object is
/// made and wrapped.
pub open spec fn construction_steps(args: nat) -> Seq<Step> {
    Seq::new(args, |i: int| Step::Argument(i as usize)) + seq![
        Step::CachedClass,
        Step::NewObject,
        Step::Local,
    ]
}

/// The function `new` generated for a constructor.
#[derive(Debug)]
pub struct ConstructorBinding {
    /// The generic parameters of the `impl`: those of the class, then one for
    /// each captured wildcard.
    pub generics: Vec<String>,
    /// The names of the arguments.
    pub input_names: Vec<String>,
    /// What is asked of each argument.
    pub input_traits: Vec<TraitBound>,
    /// What is asked of the captured generic parameters.
    pub where_bounds: Vec<WhereBound>,
    /// The generated struct with its generic arguments. `new` gives a local
    /// reference to it.
    pub this_type: RustType,
    /// The descriptor of the Java constructor.
    pub descriptor: String,
    /// The span of the generated code.
    pub span: Span,
}

/// A constructor's function as the contracts speak of it.
pub struct ConstructorBindingView {
    pub generics: Seq<Seq<char>>,
    pub input_names: Seq<Seq<char>>,
    pub input_traits: Seq<TraitBoundView>,
    pub where_bounds: Seq<WhereBoundView>,
    pub this_type: RustTypeView,
    pub descriptor: Seq<char>,
    pub span: Span,
}

impl View for ConstructorBinding {
    type V = ConstructorBindingView;

    open spec fn view(&self) -> ConstructorBindingView {
        ConstructorBindingView {
            generics: views(self.generics@),
            input_names: views(self.input_names@),
            input_traits: views(self.input_traits@),
            where_bounds: views(self.where_bounds@),
            this_type: self.this_type@,
            descriptor: self.descriptor@,
            span: self.span,
        }
    }
}

impl ConstructorBinding {
    /// What the generated function does when it is run, step by step.
    pub fn steps(&self) -> (steps: Vec<Step>)
        ensures
            steps@ == construction_steps(self.input_names.len() as nat),
    {
        let n: usize = self.input_names.len();
        let mut steps: Vec<Step> = Vec::new();
        let mut i: usize = 0;
        while i < n
            invariant
                i <= n,
                steps@ == Seq::new(i as nat, |k: int| Step::Argument(k as usize)),
            decreases n - i,
        {
            steps.push(Step::Argument(i));
            i = i + 1;
        }
        steps.push(Step::CachedClass);
        steps.push(Step::NewObject);
        steps.push(Step::Local);
        steps
    }
}

/// The function generated for a method.
#[derive(Debug)]
pub struct MethodBinding {
    /// The name of the method.
    pub name: String,
    /// The generic parameters: those of the class, then one for each
    /// captured wildcard.
    pub generics: Vec<String>,
    /// The names of the arguments.
    pub input_names: Vec<String>,
    /// What is asked of each argument.
    pub input_traits: Vec<TraitBound>,
    /// What is asked of the captured generic parameters.
    pub where_bounds: Vec<WhereBound>,
    /// What is said of the result, if the method has one.
    pub output_trait: Option<TraitBound>,
    /// The generated struct with its generic arguments, on which the method
    /// is called.
    pub this_type: RustType,
    /// The descriptor of the Java method.
    pub descriptor: String,
    /// The span of the generated code.
    pub span: Span,
}

/// A method's function as the contracts speak of it.
pub struct MethodBindingView {
    pub name: Seq<char>,
    pub generics: Seq<Seq<char>>,
    pub input_names: Seq<Seq<char>>,
    pub input_traits: Seq<TraitBoundView>,
    pub where_bounds: Seq<WhereBoundView>,
    pub output_trait: Option<TraitBoundView>,
    pub this_type: RustTypeView,
    pub descriptor: Seq<char>,
    pub span: Span,
}

impl View for MethodBinding {
    type V = MethodBindingView;

    open spec fn view(&self) -> MethodBindingView {
        MethodBindingView {
            name: self.name@,
            generics: views(self.generics@),
            input_names: views(self.input_names@),
            input_traits: views(self.input_traits@),
            where_bounds: views(self.where_bounds@),
            output_trait: match self.output_trait {
                Some(bound) => Some(bound@),
                None => None,
            },
            this_type: self.this_type@,
            descriptor: self.descriptor@,
            span: self.span,
        }
    }
}

/// All that is generated for a class.
#[derive(Debug)]
pub struct ClassBinding {
    /// The name of the generated struct.
    pub struct_name: String,
    /// The cache of the class's handle.
    pub cached_class: CachedClass,
    /// One function for each constructor that can be bound.
    pub constructors: Vec<ConstructorBinding>,
    /// One function for each method that can be bound.
    pub methods: Vec<MethodBinding>,
    /// The span of the generated code.
    pub span: Span,
}

/// What is generated for a class, as the contracts speak of it. The cache
/// is given by the name that it looks up.
pub struct ClassBindingView {
    pub struct_name: Seq<char>,
    pub cached_class: Seq<char>,
    pub constructors: Seq<ConstructorBindingView>,
    pub methods: Seq<MethodBindingView>,
    pub span: Span,
}

impl View for ClassBinding {
    type V = ClassBindingView;

    open spec fn view(&self) -> ClassBindingView {
        ClassBindingView {
            struct_name: self.struct_name@,
            cached_class: self.cached_class@,
            constructors: views(self.constructors@),
            methods: views(self.methods@),
            span: self.span,
        }
    }
}

} // verus!
