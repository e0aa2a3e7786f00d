use cpp_bindgen::caption_strategy::{MethodCaptionStrategy, TypeCaptionStrategy, method_caption};
use cpp_bindgen::cpp_data::{
    CppBaseSpecifier, CppData, CppOriginLocation, CppTemplateInstantiation,
    CppTemplateInstantiations, CppTypeData, CppTypeKind, CppVisibility,
    TemplateArgumentsDeclaration,
};
use cpp_bindgen::cpp_ffi_data::{
    CompleteType, ConversionError, CppTypeRole, IndirectionChange, cpp_to_ffi_type,
};
use cpp_bindgen::cpp_ffi_generator::{
    CGenerator, CppAndFfiMethod, Diagnostic, GenerationError, c_base_name, header_base_name,
    method_allowed,
};
use cpp_bindgen::cpp_method::{
    CppFunctionArgument, CppMethod, CppMethodClassMembership, CppMethodKind, CppOperator,
};
use cpp_bindgen::cpp_type::{
    CppBuiltInNumericType, CppType, CppTypeBase, CppTypeClassBase, CppTypeIndirection,
    type_caption, types_equal,
};

fn t_builtin(k: CppBuiltInNumericType) -> CppType {
    CppType {
        base: CppTypeBase::BuiltInNumeric(k),
        indirection: CppTypeIndirection::Plain,
        is_const: false,
        is_const2: false,
    }
}

fn t_int() -> CppType {
    t_builtin(CppBuiltInNumericType::Int)
}

fn t_double() -> CppType {
    t_builtin(CppBuiltInNumericType::Double)
}

fn t_void() -> CppType {
    CppType {
        base: CppTypeBase::Void,
        indirection: CppTypeIndirection::Plain,
        is_const: false,
        is_const2: false,
    }
}

fn t_class(name: &str, indirection: CppTypeIndirection, is_const: bool) -> CppType {
    CppType {
        base: CppTypeBase::Class(CppTypeClassBase {
            name: name.to_string(),
            template_arguments: None,
        }),
        indirection,
        is_const,
        is_const2: false,
    }
}

fn arg(name: &str, ty: CppType, has_default: bool) -> CppFunctionArgument {
    CppFunctionArgument { name: name.to_string(), argument_type: ty, has_default_value: has_default }
}

struct MemberSpec {
    class: &'static str,
    kind: CppMethodKind,
    visibility: CppVisibility,
    is_virtual: bool,
    is_pure_virtual: bool,
    is_const: bool,
    is_signal: bool,
}

fn member(class: &'static str) -> MemberSpec {
    MemberSpec {
        class,
        kind: CppMethodKind::Regular,
        visibility: CppVisibility::Public,
        is_virtual: false,
        is_pure_virtual: false,
        is_const: false,
        is_signal: false,
    }
}

fn method(name: &str, include_file: &str, m: Option<MemberSpec>, ret: CppType,
          args: Vec<CppFunctionArgument>) -> CppMethod {
    CppMethod {
        name: name.to_string(),
        class_membership: m.map(|spec| CppMethodClassMembership {
            class_type: CppTypeClassBase { name: spec.class.to_string(), template_arguments: None },
            kind: spec.kind,
            is_virtual: spec.is_virtual,
            is_pure_virtual: spec.is_pure_virtual,
            is_const: spec.is_const,
            is_static: false,
            visibility: spec.visibility,
            is_signal: spec.is_signal,
            is_slot: false,
            fake: None,
        }),
        operator: None,
        return_type: ret,
        arguments: args,
        arguments_before_omitting: None,
        allows_variadic_arguments: false,
        include_file: include_file.to_string(),
        origin_location: None,
        template_arguments: None,
        template_arguments_values: None,
        declaration_code: None,
        inheritance_chain: vec![],
        doc: None,
        is_ffi_whitelisted: false,
        is_unsafe_static_cast: false,
    }
}

fn class_decl(name: &str, include_file: &str, bases: Vec<&str>) -> CppTypeData {
    CppTypeData {
        name: name.to_string(),
        include_file: include_file.to_string(),
        origin_location: CppOriginLocation {
            include_file_path: include_file.to_string(),
            line: 1,
            column: 1,
        },
        kind: CppTypeKind::Class {
            bases: bases
                .into_iter()
                .map(|b| CppBaseSpecifier {
                    base_type: t_class(b, CppTypeIndirection::Plain, false),
                    is_virtual: false,
                    visibility: CppVisibility::Public,
                })
                .collect(),
            fields: vec![],
            template_arguments: None,
            using_directives: vec![],
        },
        doc: None,
    }
}

fn empty_data() -> CppData {
    CppData {
        types: vec![],
        methods: vec![],
        template_instantiations: vec![],
        signal_argument_types: vec![],
        dependencies: vec![],
    }
}

fn run(data: CppData) -> Result<cpp_bindgen::cpp_ffi_generator::CppAndFfiData, GenerationError> {
    let gen = CGenerator::new(data, "demo".to_string());
    let mut diags: Vec<Diagnostic> = Vec::new();
    gen.generate_all(&mut diags)
}

fn all_names(d: &cpp_bindgen::cpp_ffi_generator::CppAndFfiData) -> Vec<String> {
    let mut names = Vec::new();
    for h in &d.cpp_ffi_headers {
        for m in &h.methods {
            names.push(m.c_name.clone());
        }
    }
    names
}

// Filter determinism: a private method never appears in any header's
// output, whatever else it is.
#[test]
fn private_methods_never_emitted() {
    let mut data = empty_data();
    data.types.push(class_decl("W", "w.h", vec![]));
    let mut secret = member("W");
    secret.visibility = CppVisibility::Private;
    data.methods.push(method("secret", "w.h", Some(secret), t_void(), vec![]));
    data.methods.push(method("open_it", "w.h", Some(member("W")), t_void(), vec![]));
    let out = run(data).expect("run");
    let names = all_names(&out);
    assert_eq!(names, vec!["W_open_it".to_string()]);
}

#[test]
fn protected_and_signal_methods_never_emitted() {
    let mut data = empty_data();
    data.types.push(class_decl("W", "w.h", vec![]));
    let mut prot = member("W");
    prot.visibility = CppVisibility::Protected;
    data.methods.push(method("guarded", "w.h", Some(prot), t_void(), vec![]));
    let mut sig = member("W");
    sig.is_signal = true;
    data.methods.push(method("changed", "w.h", Some(sig), t_void(), vec![]));
    let out = run(data).expect("run");
    assert!(all_names(&out).is_empty());
}

// Abstract propagation: C derives B derives A, A declares a pure virtual
// f() that nobody overrides, so B and C are abstract and no constructor of
// theirs is emitted.
#[test]
fn abstract_propagation() {
    let mut data = empty_data();
    data.types.push(class_decl("A", "a.h", vec![]));
    data.types.push(class_decl("B", "a.h", vec!["A"]));
    data.types.push(class_decl("C", "a.h", vec!["B"]));
    let mut pv = member("A");
    pv.is_virtual = true;
    pv.is_pure_virtual = true;
    data.methods.push(method("f", "a.h", Some(pv), t_void(), vec![]));
    let mut ctor_b = member("B");
    ctor_b.kind = CppMethodKind::Constructor;
    data.methods.push(method("B", "a.h", Some(ctor_b), t_void(), vec![]));
    let mut ctor_c = member("C");
    ctor_c.kind = CppMethodKind::Constructor;
    data.methods.push(method("C", "a.h", Some(ctor_c), t_void(), vec![]));

    let gen = CGenerator::new(data, "demo".to_string());
    let mut diags: Vec<Diagnostic> = Vec::new();
    let b_pure = gen.get_pure_virtual_methods(&"B".to_string(), &mut diags).expect("resolve B");
    let c_pure = gen.get_pure_virtual_methods(&"C".to_string(), &mut diags).expect("resolve C");
    assert_eq!(b_pure.len(), 1);
    assert_eq!(c_pure.len(), 1);
    assert_eq!(b_pure[0].name, "f");

    let out = gen.generate_all(&mut diags).expect("run");
    for name in all_names(&out) {
        assert!(!name.contains("constructor"), "unexpected constructor: {}", name);
    }
}

// Override shadowing: B declares g(int) over A's virtual g(int); resolving
// B's methods yields exactly one g, attributed to B.
#[test]
fn override_shadowing() {
    let mut data = empty_data();
    data.types.push(class_decl("A", "a.h", vec![]));
    data.types.push(class_decl("B", "a.h", vec!["A"]));
    let mut base_g = member("A");
    base_g.is_virtual = true;
    data.methods.push(method("g", "a.h", Some(base_g), t_void(), vec![arg("x", t_int(), false)]));
    data.methods.push(method("g", "a.h", Some(member("B")), t_void(), vec![arg(
        "x",
        t_int(),
        false,
    )]));
    let gen = CGenerator::new(data, "demo".to_string());
    let mut diags: Vec<Diagnostic> = Vec::new();
    let methods = gen.get_all_methods(&"B".to_string(), &mut diags).expect("resolve");
    let gs: Vec<&CppMethod> = methods.iter().filter(|m| m.name == "g").collect();
    assert_eq!(gs.len(), 1);
    assert_eq!(
        gs[0].class_membership.as_ref().unwrap().class_type.name,
        "B".to_string()
    );
}

// A genuinely inherited method is collected from the base.
#[test]
fn inherited_method_collected() {
    let mut data = empty_data();
    data.types.push(class_decl("A", "a.h", vec![]));
    data.types.push(class_decl("B", "a.h", vec!["A"]));
    data.methods.push(method("only_in_a", "a.h", Some(member("A")), t_void(), vec![]));
    let gen = CGenerator::new(data, "demo".to_string());
    let mut diags: Vec<Diagnostic> = Vec::new();
    let methods = gen.get_all_methods(&"B".to_string(), &mut diags).expect("resolve");
    assert_eq!(methods.len(), 1);
    assert_eq!(methods[0].name, "only_in_a");
}

// Default-argument expansion: h(int a, int b = 0) yields exactly two
// candidates, h(int, int) and h(int), both eligible on their own.
#[test]
fn default_argument_expansion() {
    let m = method(
        "h",
        "w.h",
        Some(member("W")),
        t_void(),
        vec![arg("a", t_int(), false), arg("b", t_int(), true)],
    );
    let cands = m.to_ffi_signatures(&vec![]).expect("signatures");
    assert_eq!(cands.len(), 2);
    assert_eq!(cands[0].cpp_method.arguments.len(), 2);
    assert_eq!(cands[1].cpp_method.arguments.len(), 1);
    assert!(cands[0].cpp_method.arguments_before_omitting.is_none());
    let before = cands[1].cpp_method.arguments_before_omitting.as_ref().expect("untrimmed");
    assert_eq!(before.len(), 2);
    assert!(method_allowed(&cands[0].cpp_method, &vec![], &vec![], &vec![]).is_none());
    assert!(method_allowed(&cands[1].cpp_method, &vec![], &vec![], &vec![]).is_none());
}

// Disambiguation stability: f(int) and f(double) collide on the base name
// and get identical names on every run over the same input.
#[test]
fn disambiguation_stability() {
    let build = || {
        let mut data = empty_data();
        data.types.push(class_decl("X", "x.h", vec![]));
        data.methods.push(method("f", "x.h", Some(member("X")), t_void(), vec![arg(
            "a",
            t_int(),
            false,
        )]));
        data.methods.push(method("f", "x.h", Some(member("X")), t_void(), vec![arg(
            "a",
            t_double(),
            false,
        )]));
        data
    };
    let out1 = run(build()).expect("first run");
    let out2 = run(build()).expect("second run");
    let names1 = all_names(&out1);
    let names2 = all_names(&out2);
    assert_eq!(names1, names2);
    assert_eq!(names1, vec!["X_f_double".to_string(), "X_f_int".to_string()]);
}

// Disambiguation failure: two indistinguishable candidates abort the run
// instead of getting arbitrary suffixes.
#[test]
fn disambiguation_failure_is_fatal() {
    let mut data = empty_data();
    data.types.push(class_decl("X", "x.h", vec![]));
    data.methods.push(method("f", "x.h", Some(member("X")), t_void(), vec![arg(
        "a",
        t_int(),
        false,
    )]));
    data.methods.push(method("f", "x.h", Some(member("X")), t_void(), vec![arg(
        "b",
        t_int(),
        false,
    )]));
    let r = run(data);
    assert!(matches!(r, Err(GenerationError::DisambiguationFailed)));
}

// Conversion round trip: NoChange keeps the type identical; value and
// reference conversions keep the class identity.
#[test]
fn conversion_round_trip() {
    let ct = CompleteType::synthesize(&t_int(), CppTypeRole::NotReturnType, false).expect("int");
    assert_eq!(ct.cpp_to_ffi_conversion, IndirectionChange::NoChange);
    assert!(types_equal(&ct.cpp_type, &ct.cpp_ffi_type));

    let by_value = t_class("QPoint", CppTypeIndirection::Plain, false);
    let ct = CompleteType::synthesize(&by_value, CppTypeRole::NotReturnType, true).expect("value");
    assert_eq!(ct.cpp_to_ffi_conversion, IndirectionChange::ValueToPointer);
    assert_eq!(ct.cpp_ffi_type.indirection, CppTypeIndirection::Ptr);
    match &ct.cpp_ffi_type.base {
        CppTypeBase::Class(cb) => assert_eq!(cb.name, "QPoint"),
        other => panic!("not a class base: {:?}", other),
    }

    let by_ref = t_class("QPoint", CppTypeIndirection::Ref, true);
    let ct = CompleteType::synthesize(&by_ref, CppTypeRole::NotReturnType, true).expect("ref");
    assert_eq!(ct.cpp_to_ffi_conversion, IndirectionChange::ReferenceToPointer);
    assert_eq!(ct.cpp_ffi_type.indirection, CppTypeIndirection::Ptr);
    match &ct.cpp_ffi_type.base {
        CppTypeBase::Class(cb) => assert_eq!(cb.name, "QPoint"),
        other => panic!("not a class base: {:?}", other),
    }
}

// The flags wrapper converts to a plain unsigned integer.
#[test]
fn flags_wrapper_converts_to_uint() {
    let flags = t_class("QFlags", CppTypeIndirection::Plain, false);
    let (ffi, conv) = cpp_to_ffi_type(&flags, CppTypeRole::NotReturnType).expect("flags");
    assert_eq!(conv, IndirectionChange::QFlagsToUInt);
    assert!(types_equal(&ffi, &t_builtin(CppBuiltInNumericType::UInt)));
}

// Synthesis failures, one per reason.
#[test]
fn conversion_errors() {
    let tp = CppType {
        base: CppTypeBase::TemplateParameter { nested_level: 0, index: 0 },
        indirection: CppTypeIndirection::Plain,
        is_const: false,
        is_const2: false,
    };
    assert!(matches!(
        cpp_to_ffi_type(&tp, CppTypeRole::NotReturnType),
        Err(ConversionError::TemplateParameter)
    ));

    let mut rv = t_int();
    rv.indirection = CppTypeIndirection::RValueRef;
    assert!(matches!(
        cpp_to_ffi_type(&rv, CppTypeRole::NotReturnType),
        Err(ConversionError::UnsupportedIndirection)
    ));

    let fp_base = CppTypeBase::FunctionPointer(cpp_bindgen::cpp_type::CppFunctionPointerType {
        return_type: Box::new(t_void()),
        arguments: vec![t_int()],
        allows_variadic_arguments: false,
    });
    let fp_ptr = CppType {
        base: fp_base,
        indirection: CppTypeIndirection::Ptr,
        is_const: false,
        is_const2: false,
    };
    assert!(matches!(
        cpp_to_ffi_type(&fp_ptr, CppTypeRole::NotReturnType),
        Err(ConversionError::FunctionPointerIndirection)
    ));

    let fp_inner = CppTypeBase::FunctionPointer(cpp_bindgen::cpp_type::CppFunctionPointerType {
        return_type: Box::new(t_void()),
        arguments: vec![t_class("QPoint", CppTypeIndirection::Plain, false)],
        allows_variadic_arguments: false,
    });
    let fp_bad = CppType {
        base: fp_inner,
        indirection: CppTypeIndirection::Plain,
        is_const: false,
        is_const2: false,
    };
    assert!(matches!(
        cpp_to_ffi_type(&fp_bad, CppTypeRole::NotReturnType),
        Err(ConversionError::FunctionPointerInnerConversion)
    ));
}

// Ordering: the emitted per-header order is identical across runs and
// sorted by symbol name; headers are sorted by header name.
#[test]
fn ordering_is_deterministic() {
    let build = || {
        let mut data = empty_data();
        data.types.push(class_decl("Z", "z.h", vec![]));
        data.types.push(class_decl("M", "m.h", vec![]));
        data.methods.push(method("beta", "z.h", Some(member("Z")), t_void(), vec![]));
        data.methods.push(method("alpha", "z.h", Some(member("Z")), t_void(), vec![]));
        data.methods.push(method("mid", "m.h", Some(member("M")), t_void(), vec![]));
        data
    };
    let out1 = run(build()).expect("first");
    let out2 = run(build()).expect("second");
    let headers1: Vec<String> =
        out1.cpp_ffi_headers.iter().map(|h| h.include_file.clone()).collect();
    let headers2: Vec<String> =
        out2.cpp_ffi_headers.iter().map(|h| h.include_file.clone()).collect();
    assert_eq!(headers1, vec!["m.h".to_string(), "z.h".to_string()]);
    assert_eq!(headers1, headers2);
    assert_eq!(all_names(&out1), all_names(&out2));
    assert_eq!(
        all_names(&out1),
        vec!["M_mid".to_string(), "Z_alpha".to_string(), "Z_beta".to_string()]
    );
}

// Fatal resolver conditions: an inheritance cycle and a base that is not a
// class.
#[test]
fn inheritance_cycle_is_fatal() {
    let mut data = empty_data();
    data.types.push(class_decl("A", "a.h", vec!["B"]));
    data.types.push(class_decl("B", "a.h", vec!["A"]));
    data.methods.push(method("m", "a.h", Some(member("A")), t_void(), vec![]));
    let r = run(data);
    assert!(matches!(r, Err(GenerationError::InheritanceCycle)));
}

#[test]
fn base_that_is_an_enum_is_fatal() {
    let mut data = empty_data();
    data.types.push(CppTypeData {
        name: "E".to_string(),
        include_file: "a.h".to_string(),
        origin_location: CppOriginLocation {
            include_file_path: "a.h".to_string(),
            line: 1,
            column: 1,
        },
        kind: CppTypeKind::Enum { values: vec![] },
        doc: None,
    });
    data.types.push(class_decl("A", "a.h", vec!["E"]));
    let r = run(data);
    assert!(matches!(r, Err(GenerationError::BaseNotClass)));
}

// A base with no type information only abandons that branch.
#[test]
fn unknown_base_is_not_fatal() {
    let mut data = empty_data();
    data.types.push(class_decl("A", "a.h", vec!["Mystery"]));
    data.methods.push(method("own", "a.h", Some(member("A")), t_void(), vec![]));
    let out = run(data).expect("run");
    assert_eq!(all_names(&out), vec!["A_own".to_string()]);
}

// Template classes and template methods are filtered out.
#[test]
fn template_class_members_are_skipped() {
    let mut data = empty_data();
    let mut tpl = class_decl("V", "v.h", vec![]);
    if let CppTypeKind::Class { ref mut template_arguments, .. } = tpl.kind {
        *template_arguments = Some(TemplateArgumentsDeclaration {
            nested_level: 0,
            names: vec!["T".to_string()],
        });
    }
    data.types.push(tpl);
    data.methods.push(method("push", "v.h", Some(member("V")), t_void(), vec![]));
    let mut tm = method("generic", "v.h", None, t_void(), vec![]);
    tm.template_arguments = Some(TemplateArgumentsDeclaration {
        nested_level: 0,
        names: vec!["T".to_string()],
    });
    data.methods.push(tm);
    let gen = CGenerator::new(data, "demo".to_string());
    assert!(gen.cpp_data.is_template_class(&"V".to_string()));
    let mut diags: Vec<Diagnostic> = Vec::new();
    let out = gen.generate_all(&mut diags).expect("run");
    assert!(all_names(&out).is_empty());
}

// Exact symbol names: constructors, destructors, operators and free
// functions each get their documented shape.
#[test]
fn base_name_shapes() {
    let mut ctor = member("X");
    ctor.kind = CppMethodKind::Constructor;
    let m = method("X", "x.h", Some(ctor), t_void(), vec![]);
    assert_eq!(c_base_name(&m, &"x".to_string()), "X_constructor");

    let mut dtor = member("X");
    dtor.kind = CppMethodKind::Destructor;
    let m = method("~X", "x.h", Some(dtor), t_void(), vec![]);
    assert_eq!(c_base_name(&m, &"x".to_string()), "X_destructor");

    let mut m = method("operator+", "x.h", Some(member("X")), t_int(), vec![]);
    m.operator = Some(CppOperator::Addition);
    assert_eq!(c_base_name(&m, &"x".to_string()), "X_operator_add");

    let m = method("global_fn", "x.h", None, t_void(), vec![]);
    assert_eq!(c_base_name(&m, &"x".to_string()), "x_G_global_fn");
}

#[test]
fn header_base_name_strips_suffix() {
    assert_eq!(header_base_name(&"qwidget.h".to_string()), "qwidget");
    assert_eq!(header_base_name(&"QString".to_string()), "QString");
    assert_eq!(header_base_name(&".h".to_string()), "");
}

#[test]
fn captions_follow_strategies() {
    let m = method(
        "h",
        "w.h",
        Some(member("W")),
        t_void(),
        vec![arg("a", t_int(), false), arg("b", t_double(), false)],
    );
    assert_eq!(
        method_caption(&m, MethodCaptionStrategy::ArgumentsOnly(TypeCaptionStrategy::Short)),
        "int_double"
    );
    let mut cm = member("W");
    cm.is_const = true;
    let m2 = method("h", "w.h", Some(cm), t_void(), vec![]);
    assert_eq!(method_caption(&m2, MethodCaptionStrategy::ConstOnly), "const");
    assert_eq!(
        method_caption(&m2, MethodCaptionStrategy::ConstAndArguments(TypeCaptionStrategy::Short)),
        "const_"
    );
}

#[test]
fn full_type_caption_spells_constness_and_indirection() {
    let t = t_class("QPoint", CppTypeIndirection::Ref, true);
    assert_eq!(type_caption(&t, true), "const_QPoint_ref");
    assert_eq!(type_caption(&t, false), "QPoint");
}

#[test]
fn structural_type_equality() {
    assert!(types_equal(&t_int(), &t_int()));
    assert!(!types_equal(&t_int(), &t_double()));
    let a = t_class("QPoint", CppTypeIndirection::Ptr, false);
    let b = t_class("QPoint", CppTypeIndirection::Ptr, false);
    let c = t_class("QPoint", CppTypeIndirection::Ptr, true);
    assert!(types_equal(&a, &b));
    assert!(!types_equal(&a, &c));
}

#[test]
fn argument_types_equal_ignores_names_and_defaults() {
    let m1 = method("f", "x.h", None, t_void(), vec![arg("a", t_int(), false)]);
    let m2 = method("f", "x.h", None, t_void(), vec![arg("b", t_int(), true)]);
    let m3 = method("f", "x.h", None, t_void(), vec![arg("a", t_double(), false)]);
    assert!(m1.argument_types_equal(&m2));
    assert!(!m1.argument_types_equal(&m3));
}

#[test]
fn split_by_headers_buckets_by_include_file() {
    let mut data = empty_data();
    data.types.push(class_decl("A", "a.h", vec![]));
    data.types.push(class_decl("B", "b.h", vec![]));
    data.methods.push(method("fa", "a.h", Some(member("A")), t_void(), vec![]));
    data.methods.push(method("fb", "b.h", Some(member("B")), t_void(), vec![]));
    data.methods.push(method("fa2", "a.h", Some(member("A")), t_void(), vec![]));
    let buckets = data.split_by_headers();
    assert_eq!(buckets.len(), 2);
    let a = buckets.iter().find(|b| b.0 == "a.h").expect("a.h bucket");
    let b = buckets.iter().find(|b| b.0 == "b.h").expect("b.h bucket");
    assert_eq!(a.1.methods.len(), 2);
    assert_eq!(b.1.methods.len(), 1);
    assert_eq!(a.1.types.len(), 1);
    assert_eq!(b.1.types.len(), 1);
    assert_eq!(b.1.methods[0].name, "fb");
}

// The whole result also carries back the input and the partition.
#[test]
fn result_carries_input_back() {
    let mut data = empty_data();
    data.types.push(class_decl("A", "a.h", vec![]));
    data.methods.push(method("fa", "a.h", Some(member("A")), t_void(), vec![]));
    let out = run(data).expect("run");
    assert_eq!(out.cpp_data.methods.len(), 1);
    assert_eq!(out.cpp_data_by_headers.len(), 1);
    assert_eq!(out.cpp_ffi_headers.len(), 1);
    assert_eq!(out.cpp_ffi_headers[0].include_file, "a.h");
    assert_eq!(out.cpp_ffi_headers[0].include_file_base_name, "a");
    let m: &CppAndFfiMethod = &out.cpp_ffi_headers[0].methods[0];
    assert_eq!(m.c_name, "A_fa");
    assert_eq!(m.arguments_ffi.len(), 0);
}

// A class that overrides the pure virtual method is not abstract, so its
// constructor is emitted.
#[test]
fn overriding_class_is_not_abstract() {
    let mut data = empty_data();
    data.types.push(class_decl("A", "a.h", vec![]));
    data.types.push(class_decl("B", "a.h", vec!["A"]));
    let mut pv = member("A");
    pv.is_virtual = true;
    pv.is_pure_virtual = true;
    data.methods.push(method("f", "a.h", Some(pv), t_void(), vec![]));
    let mut over = member("B");
    over.is_virtual = true;
    data.methods.push(method("f", "a.h", Some(over), t_void(), vec![]));
    let mut ctor = member("B");
    ctor.kind = CppMethodKind::Constructor;
    data.methods.push(method("B", "a.h", Some(ctor), t_void(), vec![]));

    let gen = CGenerator::new(data, "demo".to_string());
    let mut diags: Vec<Diagnostic> = Vec::new();
    let b_pure = gen.get_pure_virtual_methods(&"B".to_string(), &mut diags).expect("resolve B");
    assert!(b_pure.is_empty());
    let out = gen.generate_all(&mut diags).expect("run");
    assert!(all_names(&out).contains(&"B_constructor".to_string()));
}

// A conversion operator's symbol names the target type.
#[test]
fn conversion_operator_names_its_target() {
    let mut m = method("operator int", "x.h", Some(member("X")), t_int(), vec![]);
    m.operator = Some(CppOperator::Conversion(t_int()));
    assert_eq!(c_base_name(&m, &"x".to_string()), "X_operator_convert_int");
}

// A member of a template class survives when its class occurrence is a
// registered instantiation, and only then.
#[test]
fn registered_instantiation_members_survive() {
    let mut data = empty_data();
    let mut tpl = class_decl("V", "v.h", vec![]);
    if let CppTypeKind::Class { ref mut template_arguments, .. } = tpl.kind {
        *template_arguments = Some(TemplateArgumentsDeclaration {
            nested_level: 0,
            names: vec!["T".to_string()],
        });
    }
    data.types.push(tpl);
    data.template_instantiations.push(CppTemplateInstantiations {
        class_name: "V".to_string(),
        instantiations: vec![CppTemplateInstantiation { template_arguments: vec![t_int()] }],
    });
    // A method of the registered instantiation V<int>.
    let mut bound = method("size", "v.h", Some(member("V")), t_int(), vec![]);
    if let Some(ref mut m) = bound.class_membership {
        m.class_type.template_arguments = Some(vec![t_int()]);
    }
    data.methods.push(bound);
    // A method of the unregistered instantiation V<double>.
    let mut unbound = method("clear", "v.h", Some(member("V")), t_void(), vec![]);
    if let Some(ref mut m) = unbound.class_membership {
        m.class_type.template_arguments = Some(vec![t_double()]);
    }
    data.methods.push(unbound);
    let out = run(data).expect("run");
    assert_eq!(all_names(&out), vec!["V_size".to_string()]);
}

// Two base-name groups whose disambiguated names meet make the run fail
// instead of emitting a duplicate symbol.
#[test]
fn cross_group_name_collision_is_fatal() {
    let mut data = empty_data();
    data.types.push(class_decl("X", "x.h", vec![]));
    data.methods.push(method("f_int", "x.h", Some(member("X")), t_void(), vec![]));
    data.methods.push(method("f", "x.h", Some(member("X")), t_void(), vec![arg(
        "a",
        t_int(),
        false,
    )]));
    data.methods.push(method("f", "x.h", Some(member("X")), t_void(), vec![arg(
        "a",
        t_double(),
        false,
    )]));
    let r = run(data);
    assert!(matches!(r, Err(GenerationError::DisambiguationFailed)));
}
