//! From what is known of a class to what is generated for it.

use vstd::prelude::*;
use crate::binding::{
    ClassBinding, ClassBindingView, ConstructorBinding, ConstructorBindingView, MethodBinding,
    MethodBindingView,
};
use crate::class_cache::CachedClass;
use crate::class_info::{ClassInfo, Constructor, Method, SpannedClassInfo};
use crate::model::views;
use crate::rust_type::{RustType, RustTypeView, TraitBound};
use crate::signature::{
    captured_name, java_type_parameter_ident, lemma_input_traits_grow, type_parameter_name,
    Signature, SignatureView, UnsupportedWildcard,
};
use crate::text::{decimal, decimal_string, replaced};

verus! {

/// The name of the argument of index `i`: `a0`, `a1`, and so on.
pub open spec fn argument_name(i: nat) -> Seq<char> {
    seq!['a'] + decimal(i)
}

/// The names of `n` arguments.
pub open spec fn argument_names(n: nat) -> Seq<Seq<char>> {
    Seq::new(n, |i: int| argument_name(i as nat))
}

/// The generic parameters that stand for the type parameters of the class.
pub open spec fn generic_names(info: ClassInfo) -> Seq<Seq<char>> {
    Seq::new(info.generics.len() as nat, |i: int| type_parameter_name(info.generics[i]@))
}

/// The generated struct with its generic parameters as arguments.
pub open spec fn this_type(info: ClassInfo) -> RustTypeView {
    RustTypeView::Path {
        segments: seq![info.name@],
        generics: Seq::new(
            info.generics.len() as nat,
            |i: int| RustTypeView::Generic(type_parameter_name(info.generics[i]@)),
        ),
    }
}

/// The translation as it starts for each signature of the class.
pub open spec fn signature_start(class: SpannedClassInfo) -> SignatureView {
    SignatureView::start(class.span, views(class.info.generics@))
}

/// The function generated for a constructor. Its arguments are taken left
/// to right, each wildcard in them captured.
pub open spec fn constructor_binding(
    class: SpannedClassInfo,
    constructor: Constructor,
) -> ConstructorBindingView {
    let (input_traits, after) = signature_start(class).input_traits(constructor.args@);
    ConstructorBindingView {
        generics: after.generics,
        input_names: argument_names(constructor.args.len() as nat),
        input_traits,
        where_bounds: after.where_bounds,
        this_type: this_type(class.info),
        descriptor: constructor.descriptor.string@,
        span: class.span,
    }
}

/// The function generated for a method whose result holds no wildcard. Its
/// arguments are translated as a constructor's are, then its result.
pub open spec fn method_binding(class: SpannedClassInfo, method: Method) -> MethodBindingView {
    let (input_traits, after) = signature_start(class).input_traits(method.args@);
    MethodBindingView {
        name: method.name@,
        generics: after.generics,
        input_names: argument_names(method.args.len() as nat),
        input_traits,
        where_bounds: after.where_bounds,
        output_trait: match method.return_ty {
            Some(ty) => Some(after.output_trait(ty)),
            None => None,
        },
        this_type: this_type(class.info),
        descriptor: method.descriptor.string@,
        span: class.span,
    }
}

/// The functions generated for `methods`: one for each that can be bound,
/// in their order. The others are left out.
pub open spec fn method_bindings(class: SpannedClassInfo, methods: Seq<Method>) -> Seq<
    MethodBindingView,
>
    decreases methods.len(),
{
    if methods.len() == 0 {
        Seq::empty()
    } else if methods.last().supported() {
        method_bindings(class, methods.drop_last()).push(method_binding(class, methods.last()))
    } else {
        method_bindings(class, methods.drop_last())
    }
}

/// All that is generated for a class. Every constructor is bound: a
/// constructor only takes arguments, and in arguments wildcards are
/// captured.
pub open spec fn class_binding(class: SpannedClassInfo) -> ClassBindingView {
    ClassBindingView {
        struct_name: class.info.name@,
        cached_class: replaced(class.info.name@, '.', '/'),
        constructors: Seq::new(
            class.info.constructors.len() as nat,
            |i: int| constructor_binding(class, class.info.constructors[i]),
        ),
        methods: method_bindings(class, class.info.methods@),
        span: class.span,
    }
}

/// The names `a0`, `a1`, ... of `n` arguments.
pub fn input_names(n: usize) -> (names: Vec<String>)
    ensures
        views(names@) == argument_names(n as nat),
{
    let mut names: Vec<String> = Vec::new();
    let mut i: usize = 0;
    while i < n
        invariant
            i <= n,
            names.len() == i,
            forall|k: int| 0 <= k < i ==> (#[trigger] names[k])@ == argument_name(k as nat),
        decreases n - i,
    {
        let mut name: String = "a".to_owned();
        proof {
            reveal_strlit("a");
        }
        let digits: String = decimal_string(i);
        name.append(digits.as_str());
        names.push(name);
        i = i + 1;
    }
    names
}

impl SpannedClassInfo {
    /// All that is generated for the class: the struct, the cache of the
    /// class's handle, and a function for each constructor and each method
    /// that can be bound. A method whose result holds a wildcard is left
    /// out; the rest of the class is bound all the same.
    pub fn into_tokens(self) -> (binding: ClassBinding)
        requires
            self.info.closed(),
        ensures
            binding@ == class_binding(self),
    {
        let struct_name: String = self.struct_name();
        let cached_class: CachedClass = self.cached_class();
        let mut constructors: Vec<ConstructorBinding> = Vec::new();
        let mut i: usize = 0;
        while i < self.info.constructors.len()
            invariant
                self.info.closed(),
                i <= self.info.constructors.len(),
                constructors.len() == i,
                forall|k: int|
                    0 <= k < i ==> (#[trigger] constructors[k])@ == constructor_binding(
                        self,
                        self.info.constructors[k],
                    ),
            decreases self.info.constructors.len() - i,
        {
            match self.constructor(&self.info.constructors[i]) {
                Ok(binding) => {
                    constructors.push(binding);
                },
                Err(_) => {},
            }
            i = i + 1;
        }
        let mut methods: Vec<MethodBinding> = Vec::new();
        let mut k: usize = 0;
        while k < self.info.methods.len()
            invariant
                self.info.closed(),
                k <= self.info.methods.len(),
                views(methods@) == method_bindings(self, self.info.methods@.take(k as int)),
            decreases self.info.methods.len() - k,
        {
            proof {
                assert(self.info.methods@.take(k as int + 1).drop_last()
                    == self.info.methods@.take(k as int));
            }
            match self.method(&self.info.methods[k]) {
                Ok(binding) => {
                    methods.push(binding);
                },
                Err(_) => {},
            }
            k = k + 1;
        }
        proof {
            assert(self.info.methods@.take(k as int) == self.info.methods@);
            assert(views(constructors@) == class_binding(self).constructors);
        }
        ClassBinding { struct_name, cached_class, constructors, methods, span: self.span }
    }

    /// The cache that the generated code declares for the class's handle.
    pub fn cached_class(&self) -> (cache: CachedClass)
        ensures
            cache@ == replaced(self.info.name@, '.', '/'),
    {
        CachedClass { jni_class_name: self.jni_class_name() }
    }

    /// The function generated for a constructor.
    pub fn constructor(&self, constructor: &Constructor) -> (r: Result<
        ConstructorBinding,
        UnsupportedWildcard,
    >)
        requires
            constructor.declared_in(views(self.info.generics@)),
        ensures
            r matches Ok(binding) && binding@ == constructor_binding(*self, *constructor),
    {
        let mut sig: Signature = Signature::new(self.span, &self.info.generics);
        let input_traits: Vec<TraitBound> = match sig.input_traits(&constructor.args) {
            Ok(input_traits) => input_traits,
            Err(e) => {
                return Err(e);
            },
        };
        let input_names: Vec<String> = input_names(constructor.args.len());
        let this_type: RustType = self.this_type();
        let descriptor: String = constructor.descriptor.string.clone();
        let (generics, where_bounds) = sig.into_parts();
        Ok(
            ConstructorBinding {
                generics,
                input_names,
                input_traits,
                where_bounds,
                this_type,
                descriptor,
                span: self.span,
            },
        )
    }

    /// The function generated for a method, unless its result holds a
    /// wildcard.
    pub fn method(&self, method: &Method) -> (r: Result<MethodBinding, UnsupportedWildcard>)
        requires
            method.declared_in(views(self.info.generics@)),
        ensures
            r is Ok <==> method.supported(),
            r matches Ok(binding) ==> binding@ == method_binding(*self, *method),
    {
        let mut sig: Signature = Signature::new(self.span, &self.info.generics);
        let input_traits: Vec<TraitBound> = match sig.input_traits(&method.args) {
            Ok(input_traits) => input_traits,
            Err(e) => {
                return Err(e);
            },
        };
        let output_trait: Option<TraitBound> = match &method.return_ty {
            Some(ty) => {
                match sig.output_trait(ty) {
                    Ok(bound) => Some(bound),
                    Err(e) => {
                        return Err(e);
                    },
                }
            },
            None => None,
        };
        let input_names: Vec<String> = input_names(method.args.len());
        let name: String = method.name.data.clone();
        let this_type: RustType = self.this_type();
        let descriptor: String = method.descriptor.string.clone();
        let (generics, where_bounds) = sig.into_parts();
        Ok(
            MethodBinding {
                name,
                generics,
                input_names,
                input_traits,
                where_bounds,
                output_trait,
                this_type,
                descriptor,
                span: self.span,
            },
        )
    }

    /// The name of the generated struct: that of the class.
    pub fn struct_name(&self) -> (name: String)
        ensures
            name@ == self.info.name@,
    {
        self.info.name.data.clone()
    }

    /// The generic parameters that stand for the type parameters of the
    /// class.
    pub fn generic_names(&self) -> (names: Vec<String>)
        ensures
            views(names@) == generic_names(self.info),
    {
        let mut names: Vec<String> = Vec::new();
        let mut i: usize = 0;
        while i < self.info.generics.len()
            invariant
                i <= self.info.generics.len(),
                names.len() == i,
                forall|k: int|
                    0 <= k < i ==> (#[trigger] names[k])@ == type_parameter_name(
                        self.info.generics[k]@,
                    ),
            decreases self.info.generics.len() - i,
        {
            names.push(java_type_parameter_ident(&self.info.generics[i]));
            i = i + 1;
        }
        names
    }

    /// The generated struct with its generic parameters as arguments.
    pub fn this_type(&self) -> (ty: RustType)
        ensures
            ty@ == this_type(self.info),
    {
        let mut segments: Vec<String> = Vec::new();
        segments.push(self.struct_name());
        let names: Vec<String> = self.generic_names();
        let mut generics: Vec<RustType> = Vec::new();
        let mut i: usize = 0;
        while i < names.len()
            invariant
                i <= names.len(),
                generics.len() == i,
                forall|k: int|
                    0 <= k < i ==> (#[trigger] generics[k])@ == RustTypeView::Generic(names[k]@),
            decreases names.len() - i,
        {
            generics.push(RustType::Generic(names[i].clone()));
            i = i + 1;
        }
        let ty = RustType::Path { segments, generics };
        proof {
            assert(views(names@).len() == generic_names(self.info).len());
            assert forall|k: int| 0 <= k < names.len() implies names[k]@ == type_parameter_name(
                self.info.generics[k]@,
            ) by {
                assert(views(names@)[k] == generic_names(self.info)[k]);
            }
            assert(ty@->Path_segments =~= seq![self.info.name@]);
            assert(ty@->Path_generics =~= this_type(self.info)->Path_generics);
        }
        ty
    }

    /// The name of the class as the JVM looks it up, like `java/lang/Object`.
    pub fn jni_class_name(&self) -> (name: String)
        ensures
            name@ == replaced(self.info.name@, '.', '/'),
    {
        self.info.name.to_jni_name()
    }
}

/// The shape of a constructor's function. Its generic parameters are those
/// of the class, in the class's order, and behind them the captured ones,
/// each named after its place. Each argument has a name and a trait bound.
pub proof fn lemma_constructor_binding_shape(class: SpannedClassInfo, constructor: Constructor)
    ensures
        ({
            let binding = constructor_binding(class, constructor);
            let declared = generic_names(class.info);
            &&& declared.is_prefix_of(binding.generics)
            &&& forall|i: int|
                declared.len() <= i < binding.generics.len() ==> #[trigger] binding.generics[i]
                    == captured_name(i as nat)
            &&& binding.input_names.len() == constructor.args.len()
            &&& binding.input_traits.len() == constructor.args.len()
        }),
{
    lemma_input_traits_grow(signature_start(class), constructor.args@);
}

} // verus!
