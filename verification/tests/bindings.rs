use duchess_macro::binding::{ClassBinding, Step};
use duchess_macro::class_cache::CachedClass;
use duchess_macro::class_info::{
    ClassInfo, ClassRef, Constructor, Descriptor, Id, Method, RefType, ScalarType,
    SpannedClassInfo, Type,
};
use duchess_macro::rust_type::{Primitive, RustType, TraitBound, WhereBound};
use duchess_macro::signature::UnsupportedWildcard;
use proc_macro2::Span;

fn id(name: &str) -> Id {
    Id { data: name.to_string() }
}

fn class(name: &str, generics: Vec<RefType>) -> RefType {
    RefType::Class(ClassRef { name: id(name), generics })
}

fn path(segments: &[&str], generics: Vec<RustType>) -> RustType {
    RustType::Path { segments: segments.iter().map(|s| s.to_string()).collect(), generics }
}

fn generic(name: &str) -> RustType {
    RustType::Generic(name.to_string())
}

fn constructor(args: Vec<Type>, descriptor: &str) -> Constructor {
    Constructor { args, descriptor: Descriptor { string: descriptor.to_string() } }
}

fn method(name: &str, args: Vec<Type>, return_ty: Option<Type>, descriptor: &str) -> Method {
    Method {
        name: id(name),
        args,
        return_ty,
        descriptor: Descriptor { string: descriptor.to_string() },
    }
}

fn spanned(
    name: &str,
    generics: &[&str],
    constructors: Vec<Constructor>,
    methods: Vec<Method>,
) -> SpannedClassInfo {
    SpannedClassInfo {
        info: ClassInfo {
            name: id(name),
            generics: generics.iter().map(|g| id(g)).collect(),
            constructors,
            methods,
        },
        span: Span::call_site(),
    }
}

fn bind(class: SpannedClassInfo) -> ClassBinding {
    assert!(class.info.is_closed());
    class.into_tokens()
}

#[test]
fn constructor_with_one_bounded_wildcard() {
    let extends_x = Type::Ref(RefType::Extends(Box::new(class("X", vec![]))));
    let info = spanned("Foo", &[], vec![constructor(vec![extends_x], "(LX;)V")], vec![]);
    let binding = bind(info);
    assert_eq!(binding.struct_name, "Foo");
    assert_eq!(binding.constructors.len(), 1);
    let new = &binding.constructors[0];
    assert_eq!(new.generics, vec!["P0"]);
    assert_eq!(new.input_names, vec!["a0"]);
    assert_eq!(new.input_traits, vec![TraitBound::IntoJava(generic("P0"))]);
    assert_eq!(
        new.where_bounds,
        vec![WhereBound { generic: "P0".to_string(), upcast: path(&["X"], vec![]) }]
    );
    assert_eq!(new.this_type, path(&["Foo"], vec![]));
    assert_eq!(new.descriptor, "(LX;)V");
}

#[test]
fn wildcard_in_a_result_drops_only_that_binding() {
    let plain = vec![Type::Ref(class("java.lang.String", vec![])), Type::Ref(class("X", vec![]))];
    let info = spanned(
        "Foo",
        &[],
        vec![constructor(plain, "(Ljava/lang/String;LX;)V")],
        vec![
            method("first", vec![], Some(Type::Ref(RefType::Wildcard)), "()Ljava/lang/Object;"),
            method(
                "second",
                vec![Type::Ref(class("X", vec![]))],
                Some(Type::Ref(class("Y", vec![]))),
                "(LX;)LY;",
            ),
        ],
    );
    assert_eq!(
        info.method(&info.info.methods[0]).map(|b| b.name),
        Err(UnsupportedWildcard)
    );
    let binding = bind(info);
    assert_eq!(binding.constructors.len(), 1);
    assert_eq!(
        binding.constructors[0].input_traits,
        vec![
            TraitBound::IntoJava(path(&["java", "lang", "String"], vec![])),
            TraitBound::IntoJava(path(&["X"], vec![])),
        ]
    );
    assert!(binding.constructors[0].generics.is_empty());
    assert!(binding.constructors[0].where_bounds.is_empty());
    assert_eq!(binding.methods.len(), 1);
    let second = &binding.methods[0];
    assert_eq!(second.name, "second");
    assert_eq!(second.input_traits, vec![TraitBound::IntoJava(path(&["X"], vec![]))]);
    assert_eq!(second.output_trait, Some(TraitBound::IntoOptLocal(path(&["Y"], vec![]))));
    assert_eq!(second.descriptor, "(LX;)LY;");
}

#[test]
fn every_constructor_is_bound_wildcards_or_not() {
    let info = spanned(
        "java.util.ArrayList",
        &["E"],
        vec![
            constructor(vec![], "()V"),
            constructor(vec![Type::Scalar(ScalarType::Int)], "(I)V"),
            constructor(
                vec![Type::Ref(class(
                    "java.util.Collection",
                    vec![RefType::Extends(Box::new(RefType::TypeParameter(id("E"))))],
                ))],
                "(Ljava/util/Collection;)V",
            ),
            constructor(
                vec![Type::Ref(RefType::Wildcard), Type::Ref(RefType::Wildcard)],
                "(Ljava/lang/Object;Ljava/lang/Object;)V",
            ),
        ],
        vec![],
    );
    for c in &info.info.constructors {
        assert!(info.constructor(c).is_ok());
    }
    let binding = bind(info);
    assert_eq!(binding.struct_name, "java.util.ArrayList");
    assert_eq!(
        binding.cached_class,
        CachedClass { jni_class_name: "java/util/ArrayList".to_string() }
    );
    assert_eq!(binding.constructors.len(), 4);
    let descriptors: Vec<&str> =
        binding.constructors.iter().map(|c| c.descriptor.as_str()).collect();
    assert_eq!(
        descriptors,
        vec!["()V", "(I)V", "(Ljava/util/Collection;)V", "(Ljava/lang/Object;Ljava/lang/Object;)V"]
    );
    let this = path(&["java.util.ArrayList"], vec![generic("JE")]);
    for c in &binding.constructors {
        assert_eq!(c.this_type, this);
        assert_eq!(c.generics[0], "JE");
        assert_eq!(c.input_names.len(), c.input_traits.len());
    }
    assert_eq!(binding.constructors[0].generics, vec!["JE"]);
    assert!(binding.constructors[0].input_names.is_empty());
    assert_eq!(
        binding.constructors[1].input_traits,
        vec![TraitBound::IntoScalar(RustType::Primitive(Primitive::I32))]
    );
    let third = &binding.constructors[2];
    assert_eq!(third.generics, vec!["JE", "P1"]);
    assert_eq!(
        third.input_traits,
        vec![TraitBound::IntoJava(path(&["java", "util", "Collection"], vec![generic("P1")]))]
    );
    assert_eq!(
        third.where_bounds,
        vec![WhereBound { generic: "P1".to_string(), upcast: generic("JE") }]
    );
    // each signature starts afresh: the captures of one do not show in the next
    let fourth = &binding.constructors[3];
    assert_eq!(fourth.generics, vec!["JE", "P1", "P2"]);
    assert_eq!(fourth.input_names, vec!["a0", "a1"]);
    assert_eq!(
        fourth.input_traits,
        vec![TraitBound::IntoJava(generic("P1")), TraitBound::IntoJava(generic("P2"))]
    );
    assert!(fourth.where_bounds.is_empty());
}

#[test]
fn method_captures_in_arguments_but_not_in_the_result() {
    let info = spanned(
        "Foo",
        &["T"],
        vec![],
        vec![
            method(
                "put",
                vec![
                    Type::Ref(RefType::Extends(Box::new(class("K", vec![])))),
                    Type::Scalar(ScalarType::F64),
                ],
                Some(Type::Ref(RefType::TypeParameter(id("T")))),
                "(LK;D)Ljava/lang/Object;",
            ),
            method("size", vec![], Some(Type::Scalar(ScalarType::Int)), "()I"),
            method("clear", vec![], None, "()V"),
            method(
                "keys",
                vec![Type::Ref(RefType::Wildcard)],
                Some(Type::Ref(class("Set", vec![RefType::Super(Box::new(class("K", vec![])))]))),
                "(Ljava/lang/Object;)LSet;",
            ),
        ],
    );
    let binding = bind(info);
    let bound: Vec<&str> = binding.methods.iter().map(|m| m.name.as_str()).collect();
    assert_eq!(bound, vec!["put", "size", "clear"]);
    let put = &binding.methods[0];
    assert_eq!(put.generics, vec!["JT", "P1"]);
    assert_eq!(put.input_names, vec!["a0", "a1"]);
    assert_eq!(
        put.input_traits,
        vec![
            TraitBound::IntoJava(generic("P1")),
            TraitBound::IntoScalar(RustType::Primitive(Primitive::F64)),
        ]
    );
    assert_eq!(
        put.where_bounds,
        vec![WhereBound { generic: "P1".to_string(), upcast: path(&["K"], vec![]) }]
    );
    assert_eq!(put.output_trait, Some(TraitBound::IntoOptLocal(generic("JT"))));
    assert_eq!(put.this_type, path(&["Foo"], vec![generic("JT")]));
    let size = &binding.methods[1];
    assert_eq!(
        size.output_trait,
        Some(TraitBound::IntoScalar(RustType::Primitive(Primitive::I32)))
    );
    assert_eq!(size.generics, vec!["JT"]);
    let clear = &binding.methods[2];
    assert_eq!(clear.output_trait, None);
    assert_eq!(clear.descriptor, "()V");
}

#[test]
fn parts_of_a_class_binding() {
    let info = spanned("java.util.Map", &["K", "V"], vec![], vec![]);
    assert_eq!(info.struct_name(), "java.util.Map");
    assert_eq!(info.generic_names(), vec!["JK", "JV"]);
    assert_eq!(info.this_type(), path(&["java.util.Map"], vec![generic("JK"), generic("JV")]));
    assert_eq!(info.jni_class_name(), "java/util/Map");
    assert_eq!(info.cached_class().jni_class_name, "java/util/Map");
    let plain = spanned("Object", &[], vec![], vec![]);
    assert_eq!(plain.this_type(), path(&["Object"], vec![]));
    assert!(plain.generic_names().is_empty());
    let binding = bind(plain);
    assert!(binding.constructors.is_empty());
    assert!(binding.methods.is_empty());
}

#[test]
fn constructor_steps_evaluate_arguments_first_and_in_order() {
    let args = vec![
        Type::Scalar(ScalarType::Short),
        Type::Ref(class("X", vec![])),
        Type::Scalar(ScalarType::Byte),
    ];
    let info = spanned("Foo", &[], vec![constructor(args, "(SLX;B)V"), constructor(vec![], "()V")], vec![]);
    let binding = bind(info);
    assert_eq!(
        binding.constructors[0].steps(),
        vec![
            Step::Argument(0),
            Step::Argument(1),
            Step::Argument(2),
            Step::CachedClass,
            Step::NewObject,
            Step::Local,
        ]
    );
    assert_eq!(
        binding.constructors[1].steps(),
        vec![Step::CachedClass, Step::NewObject, Step::Local]
    );
}

#[test]
fn closed_class_names_only_its_own_type_parameters() {
    let t = || Type::Ref(RefType::TypeParameter(id("T")));
    let u = || Type::Ref(RefType::TypeParameter(id("U")));
    assert!(spanned("A", &["T"], vec![constructor(vec![t()], "")], vec![]).info.is_closed());
    assert!(!spanned("A", &["T"], vec![constructor(vec![t(), u()], "")], vec![]).info.is_closed());
    assert!(!spanned("A", &[], vec![], vec![method("m", vec![t()], None, "")]).info.is_closed());
    assert!(!spanned("A", &["T"], vec![], vec![method("m", vec![t()], Some(u()), "")])
        .info
        .is_closed());
    assert!(spanned("A", &["T", "U"], vec![], vec![method("m", vec![t()], Some(u()), "")])
        .info
        .is_closed());
    let c = constructor(vec![u()], "");
    assert!(!c.is_declared_in(&vec![id("T")]));
    assert!(c.is_declared_in(&vec![id("U")]));
    let m = method("m", vec![], Some(t()), "");
    assert!(m.is_declared_in(&vec![id("T")]));
    assert!(!m.is_declared_in(&vec![]));
}
