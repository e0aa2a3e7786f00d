//! The C++ side of the type algebra: structural descriptions of C++ types,
//! their mathematical models, and the conversion of one type occurrence into
//! its ABI-safe shim representation.

use vstd::prelude::*;

verus! {

/// Indirection applied to a base C++ type.
#[derive(Debug, Clone, Copy, PartialEq, Eq, Structural)]
pub enum CppTypeIndirection {
    /// No indirection.
    Plain,
    /// Pointer, like `int*`.
    Ptr,
    /// Reference, like `int&`.
    Ref,
    /// Reference to pointer, like `int*&`.
    PtrRef,
    /// Pointer to pointer, like `int**`.
    PtrPtr,
    /// R-value reference, like `Class&&`.
    RValueRef,
}

/// Built-in C++ numeric types.
#[derive(Debug, Clone, Copy, PartialEq, Eq, Structural)]
pub enum CppBuiltInNumericType {
    Bool,
    Char,
    SChar,
    UChar,
    WChar,
    Char16,
    Char32,
    Short,
    UShort,
    Int,
    UInt,
    Long,
    ULong,
    LongLong,
    ULongLong,
    Int128,
    UInt128,
    Float,
    Double,
    LongDouble,
}

/// Information about a fixed-size primitive type.
#[derive(Debug, Clone, Copy, PartialEq, Eq, Structural)]
pub enum CppSpecificNumericTypeKind {
    Integer { is_signed: bool },
    FloatingPoint,
}

/// Base of a C++ class type: its qualified name and, for template classes,
/// the types used as template arguments.
#[derive(Debug)]
pub struct CppTypeClassBase {
    /// Name, including namespaces and nested classes, separated with `::`.
    pub name: String,
    /// For template classes, the C++ types used as template arguments.
    pub template_arguments: Option<Vec<CppType>>,
}

/// A C++ function pointer type.
#[derive(Debug)]
pub struct CppFunctionPointerType {
    /// Return type of the function.
    pub return_type: Box<CppType>,
    /// Argument types of the function.
    pub arguments: Vec<CppType>,
    /// Whether the argument list is terminated with `...`.
    pub allows_variadic_arguments: bool,
}

/// Base C++ type. `CppType` adds indirection and constness.
#[derive(Debug)]
pub enum CppTypeBase {
    /// `void`.
    Void,
    /// A built-in primitive type, like `int`.
    BuiltInNumeric(CppBuiltInNumericType),
    /// A fixed-size primitive type, like `int64_t`.
    SpecificNumeric { name: String, bits: i32, kind: CppSpecificNumericTypeKind },
    /// A pointer-sized integer, like `intptr_t`.
    PointerSizedInteger { name: String, is_signed: bool },
    /// An enum type.
    Enum { name: String },
    /// A class type.
    Class(CppTypeClassBase),
    /// A template parameter, like `T` inside the declaration of a template.
    TemplateParameter { nested_level: i32, index: i32 },
    /// A function pointer type.
    FunctionPointer(CppFunctionPointerType),
}

/// A C++ type: a base type with indirection and constness.
#[derive(Debug)]
pub struct CppType {
    /// The base type.
    pub base: CppTypeBase,
    /// Indirection applied to the base type.
    pub indirection: CppTypeIndirection,
    /// Whether the type has a `const` qualifier.
    pub is_const: bool,
    /// Whether the second indirection is `const`, as in `int* const*`.
    pub is_const2: bool,
}

// ----------------------------------------------------------------------
// Mathematical models. A model replaces every string by its character
// sequence and every vector by a sequence, so that two types with equal
// models are structurally the same C++ type.

/// Model of a class base.
pub ghost struct ClassBaseModel {
    pub name: Seq<char>,
    pub template_arguments: Option<Seq<TypeModel>>,
}

/// Model of a base type.
pub ghost enum BaseModel {
    Void,
    BuiltInNumeric(CppBuiltInNumericType),
    SpecificNumeric { name: Seq<char>, bits: i32, kind: CppSpecificNumericTypeKind },
    PointerSizedInteger { name: Seq<char>, is_signed: bool },
    Enum { name: Seq<char> },
    Class(ClassBaseModel),
    TemplateParameter { nested_level: i32, index: i32 },
    FunctionPointer { return_type: Box<TypeModel>, arguments: Seq<TypeModel>, allows_variadic_arguments: bool },
}

/// Model of a C++ type.
pub ghost struct TypeModel {
    pub base: BaseModel,
    pub indirection: CppTypeIndirection,
    pub is_const: bool,
    pub is_const2: bool,
}

/// The model of a C++ type: its structure with strings as char sequences.
pub open spec fn type_model(t: CppType) -> TypeModel
    decreases t, 0int, 0int,
{
    TypeModel {
        base: base_model(t.base),
        indirection: t.indirection,
        is_const: t.is_const,
        is_const2: t.is_const2,
    }
}

/// The model of a base type.
pub open spec fn base_model(b: CppTypeBase) -> BaseModel
    decreases b, 1int, 0int,
{
    match b {
        CppTypeBase::Void => BaseModel::Void,
        CppTypeBase::BuiltInNumeric(k) => BaseModel::BuiltInNumeric(k),
        CppTypeBase::SpecificNumeric { name, bits, kind } => BaseModel::SpecificNumeric {
            name: name@,
            bits,
            kind,
        },
        CppTypeBase::PointerSizedInteger { name, is_signed } => BaseModel::PointerSizedInteger {
            name: name@,
            is_signed,
        },
        CppTypeBase::Enum { name } => BaseModel::Enum { name: name@ },
        CppTypeBase::Class(cb) => BaseModel::Class(class_base_model(cb)),
        CppTypeBase::TemplateParameter { nested_level, index } => BaseModel::TemplateParameter {
            nested_level,
            index,
        },
        CppTypeBase::FunctionPointer(f) => BaseModel::FunctionPointer {
            return_type: Box::new(type_model(*f.return_type)),
            arguments: type_models_from(f.arguments@, 0),
            allows_variadic_arguments: f.allows_variadic_arguments,
        },
    }
}

/// The model of a class base.
pub open spec fn class_base_model(cb: CppTypeClassBase) -> ClassBaseModel
    decreases cb, 1int, 0int,
{
    ClassBaseModel {
        name: cb.name@,
        template_arguments: match cb.template_arguments {
            Some(v) => Some(type_models_from(v@, 0)),
            None => None,
        },
    }
}

/// The models of the types of `s` from position `i` on.
pub open spec fn type_models_from(s: Seq<CppType>, i: int) -> Seq<TypeModel>
    decreases s, 2int, s.len() - i,
{
    if i < 0 || i >= s.len() {
        Seq::empty()
    } else {
        seq![type_model(s[i])] + type_models_from(s, i + 1)
    }
}

/// The model sequence of types from position `i` has one element per type.
pub proof fn lemma_type_models_from(s: Seq<CppType>, i: int)
    requires
        0 <= i <= s.len(),
    ensures
        type_models_from(s, i).len() == s.len() - i,
        forall|k: int|
            0 <= k < s.len() - i ==> type_models_from(s, i)[k] == type_model(s[i + k]),
    decreases s.len() - i,
{
    if i < s.len() {
        lemma_type_models_from(s, i + 1);
    }
}

/// The model of a whole type vector.
pub open spec fn type_vec_model(v: Vec<CppType>) -> Seq<TypeModel> {
    type_models_from(v@, 0)
}


// ----------------------------------------------------------------------
// Structural equality, decided in executable code and meaning equality of
// the models.

/// Decides whether two C++ types are structurally equal.
pub fn types_equal(a: &CppType, b: &CppType) -> (r: bool)
    ensures
        r == (type_model(*a) == type_model(*b)),
    decreases *a, 0int, 0int,
{
    a.indirection == b.indirection && a.is_const == b.is_const && a.is_const2 == b.is_const2
        && bases_equal(&a.base, &b.base)
}

/// Decides whether two base types are structurally equal.
fn bases_equal(a: &CppTypeBase, b: &CppTypeBase) -> (r: bool)
    ensures
        r == (base_model(*a) == base_model(*b)),
    decreases *a, 1int, 0int,
{
    match (a, b) {
        (CppTypeBase::Void, CppTypeBase::Void) => true,
        (CppTypeBase::BuiltInNumeric(x), CppTypeBase::BuiltInNumeric(y)) => x == y,
        (
            CppTypeBase::SpecificNumeric { name: n1, bits: b1, kind: k1 },
            CppTypeBase::SpecificNumeric { name: n2, bits: b2, kind: k2 },
        ) => n1.eq(n2) && b1 == b2 && k1 == k2,
        (
            CppTypeBase::PointerSizedInteger { name: n1, is_signed: s1 },
            CppTypeBase::PointerSizedInteger { name: n2, is_signed: s2 },
        ) => n1.eq(n2) && s1 == s2,
        (CppTypeBase::Enum { name: n1 }, CppTypeBase::Enum { name: n2 }) => n1.eq(n2),
        (CppTypeBase::Class(c1), CppTypeBase::Class(c2)) => class_bases_equal(c1, c2),
        (
            CppTypeBase::TemplateParameter { nested_level: l1, index: i1 },
            CppTypeBase::TemplateParameter { nested_level: l2, index: i2 },
        ) => l1 == l2 && i1 == i2,
        (CppTypeBase::FunctionPointer(f1), CppTypeBase::FunctionPointer(f2)) => {
            types_equal(&f1.return_type, &f2.return_type)
                && f1.allows_variadic_arguments == f2.allows_variadic_arguments
                && type_vecs_equal(&f1.arguments, &f2.arguments)
        },
        _ => false,
    }
}

/// Decides whether two class bases are structurally equal.
pub fn class_bases_equal(a: &CppTypeClassBase, b: &CppTypeClassBase) -> (r: bool)
    ensures
        r == (class_base_model(*a) == class_base_model(*b)),
    decreases *a, 1int, 0int,
{
    if !a.name.eq(&b.name) {
        return false;
    }
    match (&a.template_arguments, &b.template_arguments) {
        (Option::None, Option::None) => true,
        (Option::Some(v1), Option::Some(v2)) => type_vecs_equal(v1, v2),
        _ => false,
    }
}

/// Decides whether two type vectors are pointwise structurally equal.
pub fn type_vecs_equal(x: &Vec<CppType>, y: &Vec<CppType>) -> (r: bool)
    ensures
        r == (type_vec_model(*x) == type_vec_model(*y)),
    decreases x@, 2int, 0int,
{
    proof {
        lemma_type_models_from(x@, 0);
        lemma_type_models_from(y@, 0);
    }
    if x.len() != y.len() {
        return false;
    }
    let mut i: usize = 0;
    while i < x.len()
        invariant
            x@.len() == y@.len(),
            i <= x@.len(),
            forall|j: int| 0 <= j < i ==> type_model(x@[j]) == type_model(y@[j]),
            type_models_from(x@, 0).len() == x@.len(),
            type_models_from(y@, 0).len() == y@.len(),
            forall|k: int| 0 <= k < x@.len() ==> type_models_from(x@, 0)[k] == type_model(x@[k]),
            forall|k: int| 0 <= k < y@.len() ==> type_models_from(y@, 0)[k] == type_model(y@[k]),
        decreases x@.len() - i,
    {
        if !types_equal(&x[i], &y[i]) {
            assert(type_models_from(x@, 0)[i as int] != type_models_from(y@, 0)[i as int]);
            return false;
        }
        i += 1;
    }
    assert(type_models_from(x@, 0) =~= type_models_from(y@, 0));
    true
}

// ----------------------------------------------------------------------
// Cloning, preserving the model.

impl Clone for CppType {
    /// Clones the type; the copy has the same model.
    fn clone(&self) -> (r: Self)
        ensures
            type_model(r) == type_model(*self),
        decreases *self, 0int, 0int,
    {
        CppType {
            base: clone_base(&self.base),
            indirection: self.indirection,
            is_const: self.is_const,
            is_const2: self.is_const2,
        }
    }
}

/// Clones a base type; the copy has the same model.
pub fn clone_base(b: &CppTypeBase) -> (r: CppTypeBase)
    ensures
        base_model(r) == base_model(*b),
    decreases *b, 1int, 0int,
{
    match b {
        CppTypeBase::Void => CppTypeBase::Void,
        CppTypeBase::BuiltInNumeric(k) => CppTypeBase::BuiltInNumeric(*k),
        CppTypeBase::SpecificNumeric { name, bits, kind } => CppTypeBase::SpecificNumeric {
            name: name.clone(),
            bits: *bits,
            kind: *kind,
        },
        CppTypeBase::PointerSizedInteger { name, is_signed } => CppTypeBase::PointerSizedInteger {
            name: name.clone(),
            is_signed: *is_signed,
        },
        CppTypeBase::Enum { name } => CppTypeBase::Enum { name: name.clone() },
        CppTypeBase::Class(cb) => CppTypeBase::Class(cb.clone()),
        CppTypeBase::TemplateParameter { nested_level, index } => CppTypeBase::TemplateParameter {
            nested_level: *nested_level,
            index: *index,
        },
        CppTypeBase::FunctionPointer(f) => CppTypeBase::FunctionPointer(CppFunctionPointerType {
            return_type: Box::new((&*f.return_type).clone()),
            arguments: clone_types(&f.arguments),
            allows_variadic_arguments: f.allows_variadic_arguments,
        }),
    }
}

impl Clone for CppTypeClassBase {
    /// Clones the class base; the copy has the same model.
    fn clone(&self) -> (r: Self)
        ensures
            class_base_model(r) == class_base_model(*self),
        decreases *self, 1int, 0int,
    {
        CppTypeClassBase {
            name: self.name.clone(),
            template_arguments: match &self.template_arguments {
                Option::None => Option::None,
                Option::Some(v) => Option::Some(clone_types(v)),
            },
        }
    }
}

/// Clones a type vector; the copy has the same model.
pub fn clone_types(v: &Vec<CppType>) -> (r: Vec<CppType>)
    ensures
        type_vec_model(r) == type_vec_model(*v),
        r@.len() == v@.len(),
        forall|j: int| 0 <= j < v@.len() ==> type_model(r@[j]) == type_model(v@[j]),
    decreases v@, 2int, 0int,
{
    proof {
        lemma_type_models_from(v@, 0);
    }
    let mut r: Vec<CppType> = Vec::new();
    let mut i: usize = 0;
    while i < v.len()
        invariant
            i <= v@.len(),
            r@.len() == i,
            forall|j: int| 0 <= j < i ==> type_model(r@[j]) == type_model(v@[j]),
        decreases v@.len() - i,
    {
        r.push(v[i].clone());
        i += 1;
    }
    proof {
        lemma_type_models_from(r@, 0);
        assert(type_models_from(r@, 0) =~= type_models_from(v@, 0));
    }
    r
}


// ----------------------------------------------------------------------
// Captions: short textual discriminators derived from a type, used to
// disambiguate colliding shim symbol names.

/// The caption of a built-in numeric type.
pub open spec fn spec_builtin_caption(k: CppBuiltInNumericType) -> Seq<char> {
    match k {
        CppBuiltInNumericType::Bool => "bool"@,
        CppBuiltInNumericType::Char => "char"@,
        CppBuiltInNumericType::SChar => "schar"@,
        CppBuiltInNumericType::UChar => "uchar"@,
        CppBuiltInNumericType::WChar => "wchar"@,
        CppBuiltInNumericType::Char16 => "char16"@,
        CppBuiltInNumericType::Char32 => "char32"@,
        CppBuiltInNumericType::Short => "short"@,
        CppBuiltInNumericType::UShort => "ushort"@,
        CppBuiltInNumericType::Int => "int"@,
        CppBuiltInNumericType::UInt => "uint"@,
        CppBuiltInNumericType::Long => "long"@,
        CppBuiltInNumericType::ULong => "ulong"@,
        CppBuiltInNumericType::LongLong => "longlong"@,
        CppBuiltInNumericType::ULongLong => "ulonglong"@,
        CppBuiltInNumericType::Int128 => "int128"@,
        CppBuiltInNumericType::UInt128 => "uint128"@,
        CppBuiltInNumericType::Float => "float"@,
        CppBuiltInNumericType::Double => "double"@,
        CppBuiltInNumericType::LongDouble => "longdouble"@,
    }
}

/// The caption of a base type: its name, kept verbatim.
pub open spec fn spec_base_caption(b: BaseModel) -> Seq<char> {
    match b {
        BaseModel::Void => "void"@,
        BaseModel::BuiltInNumeric(k) => spec_builtin_caption(k),
        BaseModel::SpecificNumeric { name, .. } => name,
        BaseModel::PointerSizedInteger { name, .. } => name,
        BaseModel::Enum { name } => name,
        BaseModel::Class(cb) => cb.name,
        BaseModel::TemplateParameter { .. } => "T"@,
        BaseModel::FunctionPointer { .. } => "func"@,
    }
}

/// The caption suffix naming a type's indirection.
pub open spec fn spec_indirection_caption(i: CppTypeIndirection) -> Seq<char> {
    match i {
        CppTypeIndirection::Plain => ""@,
        CppTypeIndirection::Ptr => "_ptr"@,
        CppTypeIndirection::Ref => "_ref"@,
        CppTypeIndirection::PtrRef => "_ptr_ref"@,
        CppTypeIndirection::PtrPtr => "_ptr_ptr"@,
        CppTypeIndirection::RValueRef => "_rvalue_ref"@,
    }
}

/// The caption of a type: its base name alone, or, in full form, with a
/// constness prefix and an indirection suffix.
pub open spec fn spec_type_caption(m: TypeModel, full: bool) -> Seq<char> {
    if full {
        (if m.is_const {
            "const_"@
        } else {
            ""@
        }) + spec_base_caption(m.base) + spec_indirection_caption(m.indirection)
    } else {
        spec_base_caption(m.base)
    }
}

/// Returns the caption of a base type.
fn base_caption(b: &CppTypeBase) -> (r: String)
    ensures
        r@ == spec_base_caption(base_model(*b)),
{
    match b {
        CppTypeBase::Void => String::from_str("void"),
        CppTypeBase::BuiltInNumeric(k) => match k {
            CppBuiltInNumericType::Bool => String::from_str("bool"),
            CppBuiltInNumericType::Char => String::from_str("char"),
            CppBuiltInNumericType::SChar => String::from_str("schar"),
            CppBuiltInNumericType::UChar => String::from_str("uchar"),
            CppBuiltInNumericType::WChar => String::from_str("wchar"),
            CppBuiltInNumericType::Char16 => String::from_str("char16"),
            CppBuiltInNumericType::Char32 => String::from_str("char32"),
            CppBuiltInNumericType::Short => String::from_str("short"),
            CppBuiltInNumericType::UShort => String::from_str("ushort"),
            CppBuiltInNumericType::Int => String::from_str("int"),
            CppBuiltInNumericType::UInt => String::from_str("uint"),
            CppBuiltInNumericType::Long => String::from_str("long"),
            CppBuiltInNumericType::ULong => String::from_str("ulong"),
            CppBuiltInNumericType::LongLong => String::from_str("longlong"),
            CppBuiltInNumericType::ULongLong => String::from_str("ulonglong"),
            CppBuiltInNumericType::Int128 => String::from_str("int128"),
            CppBuiltInNumericType::UInt128 => String::from_str("uint128"),
            CppBuiltInNumericType::Float => String::from_str("float"),
            CppBuiltInNumericType::Double => String::from_str("double"),
            CppBuiltInNumericType::LongDouble => String::from_str("longdouble"),
        },
        CppTypeBase::SpecificNumeric { name, .. } => name.clone(),
        CppTypeBase::PointerSizedInteger { name, .. } => name.clone(),
        CppTypeBase::Enum { name } => name.clone(),
        CppTypeBase::Class(cb) => cb.name.clone(),
        CppTypeBase::TemplateParameter { .. } => String::from_str("T"),
        CppTypeBase::FunctionPointer(_) => String::from_str("func"),
    }
}

/// Returns the caption of a type, short or full.
pub fn type_caption(t: &CppType, full: bool) -> (r: String)
    ensures
        r@ == spec_type_caption(type_model(*t), full),
{
    let base = base_caption(&t.base);
    if !full {
        return base;
    }
    let mut r = if t.is_const {
        String::from_str("const_")
    } else {
        String::from_str("")
    };
    r.append(base.as_str());
    let suffix = match t.indirection {
        CppTypeIndirection::Plain => "",
        CppTypeIndirection::Ptr => "_ptr",
        CppTypeIndirection::Ref => "_ref",
        CppTypeIndirection::PtrRef => "_ptr_ref",
        CppTypeIndirection::PtrPtr => "_ptr_ptr",
        CppTypeIndirection::RValueRef => "_rvalue_ref",
    };
    r.append(suffix);
    r
}

} // verus!
