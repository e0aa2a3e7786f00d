//! The conversion synthesizer: for one C++ type occurrence (an argument or
//! a return value), derives the ABI-safe shim type, the conversion rule
//! between the C++ and shim representations, and the paired host-language
//! API and FFI types with their conversion rule.

use vstd::prelude::*;

use crate::cpp_type::{
    BaseModel, CppBuiltInNumericType, base_model, class_base_model, CppType, CppTypeBase, CppTypeIndirection, TypeModel,
    clone_base, lemma_type_models_from, type_model, type_vec_model,
};
use crate::cpp_method::{
    ArgModel, CppMethod, MethodModel, arg_model, args_model_from, clone_arguments_prefix,
    lemma_args_model_from, method_model,
};
use crate::rust_type::{
    RustIndirectionModel, RustType, RustTypeIndirection, RustTypeModel,
    lemma_rust_type_models_from, rust_indirection_model, rust_name_one, rust_type_model,
    rust_type_models_from,
};

verus! {

/// Where a type occurrence stands in a method signature. A class returned
/// by value gets a fresh object through the shim, while a class argument
/// passed by value is handed to the shim as a pointer to const.
#[derive(Debug, Clone, Copy, PartialEq, Eq, Structural)]
pub enum CppTypeRole {
    /// The occurrence is the method's return type.
    ReturnType,
    /// The occurrence is an argument type.
    NotReturnType,
}

/// How a C++ value differs from its shim representation.
#[derive(Debug, Clone, Copy, PartialEq, Eq, Structural)]
pub enum IndirectionChange {
    /// The two types are identical.
    NoChange,
    /// The C++ side is a class value; the shim side is a pointer to it.
    ValueToPointer,
    /// The C++ side is a reference; the shim side is a pointer.
    ReferenceToPointer,
    /// The C++ side is a bit-flags wrapper; the shim side is an unsigned
    /// integer.
    QFlagsToUInt,
}

/// How a host-language API value differs from its FFI representation.
#[derive(Debug, Clone, Copy, PartialEq, Eq, Structural)]
pub enum RustToCTypeConversion {
    /// The two types are identical.
    NoChange,
    /// A reference becomes a raw pointer.
    RefToPtr,
    /// An optional reference becomes a possibly null raw pointer.
    OptionRefToPtr,
    /// An owned value becomes a raw pointer to it.
    ValueToPtr,
    /// An owned, boxed value becomes a raw pointer to it.
    CppBoxToPtr,
    /// A flag-set value becomes a plain unsigned integer.
    QFlagsToUInt,
}

/// Why a type occurrence cannot be given a shim representation. Each of
/// these drops the surrounding method with a diagnostic; none is fatal for
/// the run.
#[derive(Debug, Clone, Copy, PartialEq, Eq, Structural)]
pub enum ConversionError {
    /// A bare template parameter reached synthesis.
    TemplateParameter,
    /// A function pointer type carries indirection or constness of its own.
    FunctionPointerIndirection,
    /// A type inside a function pointer would itself need a conversion.
    FunctionPointerInnerConversion,
    /// The combination of base type and indirection has no shim form.
    UnsupportedIndirection,
}

/// The full conversion record for one type occurrence.
#[derive(Debug)]
pub struct CompleteType {
    /// The original C++ type.
    pub cpp_type: CppType,
    /// The ABI-safe C++ type the shim uses.
    pub cpp_ffi_type: CppType,
    /// How the original C++ value relates to the shim value.
    pub cpp_to_ffi_conversion: IndirectionChange,
    /// The host-language type matching the shim type.
    pub rust_ffi_type: RustType,
    /// The host-language type the public API uses.
    pub rust_api_type: RustType,
    /// How the API value relates to the FFI value.
    pub rust_api_to_c_conversion: RustToCTypeConversion,
}

// ----------------------------------------------------------------------
// The C++ side: shim type and conversion rule, as a function of the type's
// model.

/// The name of the recognized bit-flags wrapper class.
pub open spec fn spec_flags_class_name() -> Seq<char> {
    "QFlags"@
}

/// The shim type and conversion for one occurrence of type `m` in role
/// `role`, or the reason there is none.
pub open spec fn spec_cpp_to_ffi(m: TypeModel, role: CppTypeRole) -> Result<
    (TypeModel, IndirectionChange),
    ConversionError,
>
    decreases m, 0int, 0int,
{
    match m.base {
        BaseModel::TemplateParameter { .. } => Err(ConversionError::TemplateParameter),
        BaseModel::FunctionPointer { return_type, arguments, .. } => {
            if !(m.indirection is Plain) {
                Err(ConversionError::FunctionPointerIndirection)
            } else if spec_ffi_passthrough(*return_type) && spec_ffi_passthrough_all(arguments, 0) {
                Ok((m, IndirectionChange::NoChange))
            } else {
                Err(ConversionError::FunctionPointerInnerConversion)
            }
        },
        BaseModel::Class(cb) => {
            if cb.name == spec_flags_class_name() && m.indirection is Plain {
                Ok(
                    (
                        TypeModel {
                            base: BaseModel::BuiltInNumeric(CppBuiltInNumericType::UInt),
                            indirection: CppTypeIndirection::Plain,
                            is_const: false,
                            is_const2: false,
                        },
                        IndirectionChange::QFlagsToUInt,
                    ),
                )
            } else {
                match m.indirection {
                    CppTypeIndirection::Plain => Ok(
                        (
                            TypeModel {
                                base: m.base,
                                indirection: CppTypeIndirection::Ptr,
                                is_const: role is NotReturnType,
                                is_const2: false,
                            },
                            IndirectionChange::ValueToPointer,
                        ),
                    ),
                    CppTypeIndirection::Ref => Ok(
                        (
                            TypeModel {
                                base: m.base,
                                indirection: CppTypeIndirection::Ptr,
                                is_const: m.is_const,
                                is_const2: false,
                            },
                            IndirectionChange::ReferenceToPointer,
                        ),
                    ),
                    CppTypeIndirection::Ptr => Ok((m, IndirectionChange::NoChange)),
                    CppTypeIndirection::PtrPtr => Ok((m, IndirectionChange::NoChange)),
                    _ => Err(ConversionError::UnsupportedIndirection),
                }
            }
        },
        _ => {
            // Void, built-in numerics, fixed-size numerics, pointer-sized
            // integers and enums are trivially copyable: only a reference
            // needs rewriting.
            match m.indirection {
                CppTypeIndirection::Ref => Ok(
                    (
                        TypeModel {
                            base: m.base,
                            indirection: CppTypeIndirection::Ptr,
                            is_const: m.is_const,
                            is_const2: false,
                        },
                        IndirectionChange::ReferenceToPointer,
                    ),
                ),
                CppTypeIndirection::RValueRef => Err(ConversionError::UnsupportedIndirection),
                CppTypeIndirection::PtrRef => Err(ConversionError::UnsupportedIndirection),
                _ => Ok((m, IndirectionChange::NoChange)),
            }
        },
    }
}

/// True when an occurrence of `m` inside a function pointer needs no
/// conversion at all: its shim type is `m` itself.
pub open spec fn spec_ffi_passthrough(m: TypeModel) -> bool
    decreases m, 1int, 0int,
{
    spec_cpp_to_ffi(m, CppTypeRole::NotReturnType) == Ok::<_, ConversionError>(
        (m, IndirectionChange::NoChange),
    )
}

/// True when every type of `s` from position `i` on passes through.
pub open spec fn spec_ffi_passthrough_all(s: Seq<TypeModel>, i: int) -> bool
    decreases s, 2int, s.len() - i,
{
    if i < 0 || i >= s.len() {
        true
    } else {
        spec_ffi_passthrough(s[i]) && spec_ffi_passthrough_all(s, i + 1)
    }
}

/// Whatever the role: a successful conversion with `NoChange` returns the
/// type itself, and a value or reference conversion keeps the base type —
/// in particular the class identity — unchanged.
pub proof fn lemma_conversion_round_trip(m: TypeModel, role: CppTypeRole)
    ensures
        spec_cpp_to_ffi(m, role) matches Ok(fc) ==> {
            &&& (fc.1 == IndirectionChange::NoChange ==> fc.0 == m)
            &&& (fc.1 == IndirectionChange::ValueToPointer ==> fc.0.base == m.base)
            &&& (fc.1 == IndirectionChange::ReferenceToPointer ==> fc.0.base == m.base)
        },
{
}

// ----------------------------------------------------------------------
// Executable synthesis of the C++ shim type.

/// Decides whether `t` passes through a function pointer unchanged.
fn ffi_passthrough(t: &CppType) -> (r: bool)
    ensures
        r == spec_ffi_passthrough(type_model(*t)),
    decreases *t, 3int, 0int,
{
    match &t.base {
        CppTypeBase::TemplateParameter { .. } => false,
        CppTypeBase::FunctionPointer(f) => {
            t.indirection == CppTypeIndirection::Plain && ffi_passthrough(&f.return_type)
                && ffi_passthrough_all(&f.arguments)
        },
        CppTypeBase::Class(cb) => {
            if string_is(&cb.name, "QFlags") && t.indirection == CppTypeIndirection::Plain {
                false
            } else {
                t.indirection == CppTypeIndirection::Ptr || t.indirection
                    == CppTypeIndirection::PtrPtr
            }
        },
        _ => {
            t.indirection == CppTypeIndirection::Plain || t.indirection == CppTypeIndirection::Ptr
                || t.indirection == CppTypeIndirection::PtrPtr
        },
    }
}

/// Decides whether every type of `v` passes through unchanged.
fn ffi_passthrough_all(v: &Vec<CppType>) -> (r: bool)
    ensures
        r == spec_ffi_passthrough_all(type_vec_model(*v), 0),
    decreases v@, 4int, 0int,
{
    proof {
        lemma_type_models_from(v@, 0);
        lemma_ffi_passthrough_all_index(type_vec_model(*v));
    }
    let mut i: usize = 0;
    while i < v.len()
        invariant
            i <= v@.len(),
            type_vec_model(*v).len() == v@.len(),
            forall|k: int|
                0 <= k < v@.len() ==> type_vec_model(*v)[k] == type_model(v@[k]),
            forall|j: int| 0 <= j < i ==> spec_ffi_passthrough(type_model(v@[j])),
            spec_ffi_passthrough_all(type_vec_model(*v), 0) <==> (forall|k: int|
                0 <= k < v@.len() ==> spec_ffi_passthrough(type_vec_model(*v)[k])),
        decreases v@.len() - i,
    {
        if !ffi_passthrough(&v[i]) {
            proof {
                assert(!spec_ffi_passthrough(type_vec_model(*v)[i as int]));
            }
            return false;
        }
        i += 1;
    }
    true
}

/// Passing through from position `i` means every later element passes
/// through.
proof fn lemma_ffi_passthrough_all_index(s: Seq<TypeModel>)
    ensures
        spec_ffi_passthrough_all(s, 0) <==> (forall|k: int|
            0 <= k < s.len() ==> spec_ffi_passthrough(s[k])),
{
    lemma_ffi_passthrough_all_index_from(s, 0);
}

/// Helper for `lemma_ffi_passthrough_all_index`, generalized over the start.
proof fn lemma_ffi_passthrough_all_index_from(s: Seq<TypeModel>, i: int)
    requires
        0 <= i <= s.len(),
    ensures
        spec_ffi_passthrough_all(s, i) <==> (forall|k: int|
            i <= k < s.len() ==> spec_ffi_passthrough(s[k])),
    decreases s.len() - i,
{
    if i < s.len() {
        lemma_ffi_passthrough_all_index_from(s, i + 1);
    }
}

/// Decides whether `s` spells exactly the given literal.
pub fn string_is(s: &String, lit: &str) -> (r: bool)
    ensures
        r == (s@ == lit@),
{
    let l = String::from_str(lit);
    s.eq(&l)
}

/// Derives the shim type and conversion rule for one occurrence of `t` in
/// role `role`, exactly as `spec_cpp_to_ffi` states it.
pub fn cpp_to_ffi_type(t: &CppType, role: CppTypeRole) -> (r: Result<
    (CppType, IndirectionChange),
    ConversionError,
>)
    ensures
        r matches Ok(fc) ==> spec_cpp_to_ffi(type_model(*t), role) == Ok::<_, ConversionError>(
            (type_model(fc.0), fc.1),
        ),
        r matches Err(e) ==> spec_cpp_to_ffi(type_model(*t), role) == Err::<
            (TypeModel, IndirectionChange),
            _,
        >(e),
{
    match &t.base {
        CppTypeBase::TemplateParameter { .. } => Err(ConversionError::TemplateParameter),
        CppTypeBase::FunctionPointer(f) => {
            if t.indirection != CppTypeIndirection::Plain {
                Err(ConversionError::FunctionPointerIndirection)
            } else if ffi_passthrough(&f.return_type) && ffi_passthrough_all(&f.arguments) {
                Ok((t.clone(), IndirectionChange::NoChange))
            } else {
                Err(ConversionError::FunctionPointerInnerConversion)
            }
        },
        CppTypeBase::Class(cb) => {
            proof {
                assert(base_model(t.base) == BaseModel::Class(class_base_model(*cb)));
            }
            if string_is(&cb.name, "QFlags") && t.indirection == CppTypeIndirection::Plain {
                Ok(
                    (
                        CppType {
                            base: CppTypeBase::BuiltInNumeric(CppBuiltInNumericType::UInt),
                            indirection: CppTypeIndirection::Plain,
                            is_const: false,
                            is_const2: false,
                        },
                        IndirectionChange::QFlagsToUInt,
                    ),
                )
            } else {
                match t.indirection {
                    CppTypeIndirection::Plain => Ok(
                        (
                            CppType {
                                base: clone_base(&t.base),
                                indirection: CppTypeIndirection::Ptr,
                                is_const: role == CppTypeRole::NotReturnType,
                                is_const2: false,
                            },
                            IndirectionChange::ValueToPointer,
                        ),
                    ),
                    CppTypeIndirection::Ref => Ok(
                        (
                            CppType {
                                base: clone_base(&t.base),
                                indirection: CppTypeIndirection::Ptr,
                                is_const: t.is_const,
                                is_const2: false,
                            },
                            IndirectionChange::ReferenceToPointer,
                        ),
                    ),
                    CppTypeIndirection::Ptr => Ok((t.clone(), IndirectionChange::NoChange)),
                    CppTypeIndirection::PtrPtr => Ok((t.clone(), IndirectionChange::NoChange)),
                    _ => Err(ConversionError::UnsupportedIndirection),
                }
            }
        },
        _ => {
            match t.indirection {
                CppTypeIndirection::Ref => Ok(
                    (
                        CppType {
                            base: clone_base(&t.base),
                            indirection: CppTypeIndirection::Ptr,
                            is_const: t.is_const,
                            is_const2: false,
                        },
                        IndirectionChange::ReferenceToPointer,
                    ),
                ),
                CppTypeIndirection::RValueRef => Err(ConversionError::UnsupportedIndirection),
                CppTypeIndirection::PtrRef => Err(ConversionError::UnsupportedIndirection),
                _ => Ok((t.clone(), IndirectionChange::NoChange)),
            }
        },
    }
}


// ----------------------------------------------------------------------
// The host-language side: the FFI type matching the shim type, and the API
// type with its conversion rule.

/// The single-part host-language name of a built-in C++ numeric type.
pub open spec fn builtin_rust_name(k: CppBuiltInNumericType) -> Seq<char> {
    match k {
        CppBuiltInNumericType::Bool => "bool"@,
        CppBuiltInNumericType::Char => "c_char"@,
        CppBuiltInNumericType::SChar => "c_schar"@,
        CppBuiltInNumericType::UChar => "c_uchar"@,
        CppBuiltInNumericType::WChar => "wchar_t"@,
        CppBuiltInNumericType::Char16 => "c_char16"@,
        CppBuiltInNumericType::Char32 => "c_char32"@,
        CppBuiltInNumericType::Short => "c_short"@,
        CppBuiltInNumericType::UShort => "c_ushort"@,
        CppBuiltInNumericType::Int => "c_int"@,
        CppBuiltInNumericType::UInt => "c_uint"@,
        CppBuiltInNumericType::Long => "c_long"@,
        CppBuiltInNumericType::ULong => "c_ulong"@,
        CppBuiltInNumericType::LongLong => "c_longlong"@,
        CppBuiltInNumericType::ULongLong => "c_ulonglong"@,
        CppBuiltInNumericType::Int128 => "i128"@,
        CppBuiltInNumericType::UInt128 => "u128"@,
        CppBuiltInNumericType::Float => "c_float"@,
        CppBuiltInNumericType::Double => "c_double"@,
        CppBuiltInNumericType::LongDouble => "c_longdouble"@,
    }
}

/// Returns the host-language name of a built-in numeric type.
fn builtin_rust_name_of(k: CppBuiltInNumericType) -> (r: String)
    ensures
        r@ == builtin_rust_name(k),
{
    match k {
        CppBuiltInNumericType::Bool => String::from_str("bool"),
        CppBuiltInNumericType::Char => String::from_str("c_char"),
        CppBuiltInNumericType::SChar => String::from_str("c_schar"),
        CppBuiltInNumericType::UChar => String::from_str("c_uchar"),
        CppBuiltInNumericType::WChar => String::from_str("wchar_t"),
        CppBuiltInNumericType::Char16 => String::from_str("c_char16"),
        CppBuiltInNumericType::Char32 => String::from_str("c_char32"),
        CppBuiltInNumericType::Short => String::from_str("c_short"),
        CppBuiltInNumericType::UShort => String::from_str("c_ushort"),
        CppBuiltInNumericType::Int => String::from_str("c_int"),
        CppBuiltInNumericType::UInt => String::from_str("c_uint"),
        CppBuiltInNumericType::Long => String::from_str("c_long"),
        CppBuiltInNumericType::ULong => String::from_str("c_ulong"),
        CppBuiltInNumericType::LongLong => String::from_str("c_longlong"),
        CppBuiltInNumericType::ULongLong => String::from_str("c_ulonglong"),
        CppBuiltInNumericType::Int128 => String::from_str("i128"),
        CppBuiltInNumericType::UInt128 => String::from_str("u128"),
        CppBuiltInNumericType::Float => String::from_str("c_float"),
        CppBuiltInNumericType::Double => String::from_str("c_double"),
        CppBuiltInNumericType::LongDouble => String::from_str("c_longdouble"),
    }
}

/// How shim-side C++ indirection appears in the host language: references
/// have already been turned into pointers by the C++ conversion.
pub open spec fn spec_ffi_indirection(i: CppTypeIndirection) -> RustIndirectionModel {
    match i {
        CppTypeIndirection::Plain => RustIndirectionModel::Plain,
        CppTypeIndirection::Ptr => RustIndirectionModel::Ptr,
        CppTypeIndirection::PtrPtr => RustIndirectionModel::PtrPtr,
        CppTypeIndirection::Ref => RustIndirectionModel::Ptr,
        CppTypeIndirection::PtrRef => RustIndirectionModel::PtrPtr,
        CppTypeIndirection::RValueRef => RustIndirectionModel::Ptr,
    }
}

/// Maps shim-side indirection to the host language.
fn ffi_indirection_of(i: CppTypeIndirection) -> (r: RustTypeIndirection)
    ensures
        rust_indirection_model(r) == spec_ffi_indirection(i),
{
    match i {
        CppTypeIndirection::Plain => RustTypeIndirection::Plain,
        CppTypeIndirection::Ptr => RustTypeIndirection::Ptr,
        CppTypeIndirection::PtrPtr => RustTypeIndirection::PtrPtr,
        CppTypeIndirection::Ref => RustTypeIndirection::Ptr,
        CppTypeIndirection::PtrRef => RustTypeIndirection::PtrPtr,
        CppTypeIndirection::RValueRef => RustTypeIndirection::Ptr,
    }
}

/// A named host-language type without generics, carrying `m`'s constness
/// and indirection.
pub open spec fn spec_named_ffi_type(name: Seq<char>, m: TypeModel) -> RustTypeModel {
    RustTypeModel::Common {
        base: seq![name],
        generic_arguments: None,
        is_const: m.is_const,
        is_const2: m.is_const2,
        indirection: spec_ffi_indirection(m.indirection),
    }
}

/// The host-language type matching a shim-side C++ type. Class and enum
/// names are kept verbatim as single-part names; a later naming pass of the
/// rendering collaborator maps them to crate-local identifiers.
pub open spec fn spec_rust_ffi_type(m: TypeModel) -> RustTypeModel
    decreases m, 3int, 0int,
{
    match m.base {
        BaseModel::Void => {
            if m.indirection is Plain {
                RustTypeModel::Void
            } else {
                spec_named_ffi_type("c_void"@, m)
            }
        },
        BaseModel::BuiltInNumeric(k) => spec_named_ffi_type(builtin_rust_name(k), m),
        BaseModel::SpecificNumeric { name, .. } => spec_named_ffi_type(name, m),
        BaseModel::PointerSizedInteger { is_signed, .. } => spec_named_ffi_type(
            if is_signed {
                "isize"@
            } else {
                "usize"@
            },
            m,
        ),
        BaseModel::Enum { name } => spec_named_ffi_type(name, m),
        BaseModel::Class(cb) => RustTypeModel::Common {
            base: seq![cb.name],
            generic_arguments: match cb.template_arguments {
                Some(args) => Some(spec_rust_ffi_types_from(args, 0)),
                None => None,
            },
            is_const: m.is_const,
            is_const2: m.is_const2,
            indirection: spec_ffi_indirection(m.indirection),
        },
        BaseModel::TemplateParameter { .. } => RustTypeModel::Void,
        BaseModel::FunctionPointer { return_type, arguments, .. } => {
            RustTypeModel::FunctionPointer {
                return_type: Box::new(spec_rust_ffi_type(*return_type)),
                arguments: spec_rust_ffi_types_from(arguments, 0),
            }
        },
    }
}

/// The host-language types of the shim-side types of `s` from position `i`.
pub open spec fn spec_rust_ffi_types_from(s: Seq<TypeModel>, i: int) -> Seq<RustTypeModel>
    decreases s, 4int, s.len() - i,
{
    if i < 0 || i >= s.len() {
        Seq::empty()
    } else {
        seq![spec_rust_ffi_type(s[i])] + spec_rust_ffi_types_from(s, i + 1)
    }
}

/// The host-type sequence from position `i` has one element per type.
pub proof fn lemma_spec_rust_ffi_types_from(s: Seq<TypeModel>, i: int)
    requires
        0 <= i <= s.len(),
    ensures
        spec_rust_ffi_types_from(s, i).len() == s.len() - i,
        forall|k: int|
            0 <= k < s.len() - i ==> spec_rust_ffi_types_from(s, i)[k] == spec_rust_ffi_type(
                s[i + k],
            ),
    decreases s.len() - i,
{
    if i < s.len() {
        lemma_spec_rust_ffi_types_from(s, i + 1);
    }
}

/// Derives the host-language type matching a shim-side C++ type.
pub fn rust_ffi_type_of(t: &CppType) -> (r: RustType)
    ensures
        rust_type_model(r) == spec_rust_ffi_type(type_model(*t)),
    decreases *t, 5int, 0int,
{
    match &t.base {
        CppTypeBase::Void => {
            if t.indirection == CppTypeIndirection::Plain {
                RustType::Void
            } else {
                named_ffi_type(String::from_str("c_void"), t)
            }
        },
        CppTypeBase::BuiltInNumeric(k) => named_ffi_type(builtin_rust_name_of(*k), t),
        CppTypeBase::SpecificNumeric { name, .. } => named_ffi_type(name.clone(), t),
        CppTypeBase::PointerSizedInteger { is_signed, .. } => named_ffi_type(
            if *is_signed {
                String::from_str("isize")
            } else {
                String::from_str("usize")
            },
            t,
        ),
        CppTypeBase::Enum { name } => named_ffi_type(name.clone(), t),
        CppTypeBase::Class(cb) => {
            proof {
                assert(base_model(t.base) == BaseModel::Class(class_base_model(*cb)));
            }
            RustType::Common {
                base: rust_name_one(cb.name.clone()),
                generic_arguments: match &cb.template_arguments {
                    Option::Some(args) => Option::Some(rust_ffi_types_of(args)),
                    Option::None => Option::None,
                },
                is_const: t.is_const,
                is_const2: t.is_const2,
                indirection: ffi_indirection_of(t.indirection),
            }
        },
        CppTypeBase::TemplateParameter { .. } => RustType::Void,
        CppTypeBase::FunctionPointer(f) => {
            proof {
                assert(type_model(*t).base == base_model(t.base));
            }
            RustType::FunctionPointer {
                return_type: Box::new(rust_ffi_type_of(&f.return_type)),
                arguments: rust_ffi_types_of(&f.arguments),
            }
        },
    }
}

/// A named host-language type without generics, for `t`'s constness and
/// indirection.
fn named_ffi_type(name: String, t: &CppType) -> (r: RustType)
    ensures
        rust_type_model(r) == spec_named_ffi_type(name@, type_model(*t)),
{
    let r = RustType::Common {
        base: rust_name_one(name),
        generic_arguments: Option::None,
        is_const: t.is_const,
        is_const2: t.is_const2,
        indirection: ffi_indirection_of(t.indirection),
    };
    r
}

/// Derives the host-language types of a vector of shim-side C++ types.
fn rust_ffi_types_of(v: &Vec<CppType>) -> (r: Vec<RustType>)
    ensures
        rust_type_models_from(r@, 0) == spec_rust_ffi_types_from(type_vec_model(*v), 0),
    decreases v@, 6int, 0int,
{
    proof {
        lemma_type_models_from(v@, 0);
        lemma_spec_rust_ffi_types_from(type_vec_model(*v), 0);
    }
    let mut r: Vec<RustType> = Vec::new();
    let mut i: usize = 0;
    while i < v.len()
        invariant
            i <= v@.len(),
            r@.len() == i,
            type_vec_model(*v).len() == v@.len(),
            forall|k: int| 0 <= k < v@.len() ==> type_vec_model(*v)[k] == type_model(v@[k]),
            forall|j: int|
                0 <= j < i ==> rust_type_model(r@[j]) == spec_rust_ffi_type(type_model(v@[j])),
        decreases v@.len() - i,
    {
        let e = rust_ffi_type_of(&v[i]);
        r.push(e);
        i += 1;
    }
    proof {
        lemma_rust_type_models_from(r@, 0);
        assert(rust_type_models_from(r@, 0) =~= spec_rust_ffi_types_from(type_vec_model(*v), 0));
    }
    r
}


// ----------------------------------------------------------------------
// The host-language API type and its conversion rule.

/// Replaces the indirection of a named host-language type; any other shape
/// is returned unchanged.
pub open spec fn spec_with_indirection(t: RustTypeModel, ind: RustIndirectionModel) -> RustTypeModel {
    match t {
        RustTypeModel::Common { base, generic_arguments, is_const, is_const2, indirection } => {
            RustTypeModel::Common { base, generic_arguments, is_const, is_const2, indirection: ind }
        },
        _ => t,
    }
}

/// The host-language API type and the API-to-FFI conversion for one
/// occurrence: `m` is the original C++ type's model, `f` the shim type's
/// model, `conv` the C++-side conversion, and `is_deletable` whether the
/// class (for a class passed by value) has an accessible destructor.
pub open spec fn spec_rust_api(
    m: TypeModel,
    f: TypeModel,
    conv: IndirectionChange,
    is_deletable: bool,
) -> (RustTypeModel, RustToCTypeConversion) {
    match conv {
        IndirectionChange::NoChange => (spec_rust_ffi_type(f), RustToCTypeConversion::NoChange),
        IndirectionChange::ValueToPointer => {
            if is_deletable {
                (
                    RustTypeModel::Common {
                        base: seq!["CppBox"@],
                        generic_arguments: Some(
                            seq![
                                spec_with_indirection(
                                    spec_rust_ffi_type(f),
                                    RustIndirectionModel::Plain,
                                ),
                            ],
                        ),
                        is_const: false,
                        is_const2: false,
                        indirection: RustIndirectionModel::Plain,
                    },
                    RustToCTypeConversion::CppBoxToPtr,
                )
            } else {
                (spec_rust_ffi_type(f), RustToCTypeConversion::NoChange)
            }
        },
        IndirectionChange::ReferenceToPointer => (
            spec_with_indirection(spec_rust_ffi_type(f), RustIndirectionModel::Ref(None)),
            RustToCTypeConversion::RefToPtr,
        ),
        IndirectionChange::QFlagsToUInt => (
            RustTypeModel::Common {
                base: seq!["Flags"@],
                generic_arguments: match m.base {
                    BaseModel::Class(cb) => match cb.template_arguments {
                        Some(args) => Some(spec_rust_ffi_types_from(args, 0)),
                        None => None,
                    },
                    _ => None,
                },
                is_const: false,
                is_const2: false,
                indirection: RustIndirectionModel::Plain,
            },
            RustToCTypeConversion::QFlagsToUInt,
        ),
    }
}

/// Replaces the indirection of a named host-language type.
fn with_indirection(t: RustType, ind: RustTypeIndirection) -> (r: RustType)
    ensures
        rust_type_model(r) == spec_with_indirection(rust_type_model(t), rust_indirection_model(ind)),
{
    match t {
        RustType::Common { base, generic_arguments, is_const, is_const2, indirection: _ } => {
            RustType::Common { base, generic_arguments, is_const, is_const2, indirection: ind }
        },
        other => other,
    }
}

impl CompleteType {
    /// Derives the full conversion record for one occurrence of `t` in role
    /// `role`. `is_deletable` says whether the type's class, if `t` is a
    /// class passed by value, has an accessible destructor; without one the
    /// host API never owns such a value and keeps the raw pointer. Fails
    /// exactly where the shim-type derivation fails, with the same error.
    pub fn synthesize(t: &CppType, role: CppTypeRole, is_deletable: bool) -> (r: Result<
        CompleteType,
        ConversionError,
    >)
        ensures
            r matches Ok(ct) ==> {
                &&& type_model(ct.cpp_type) == type_model(*t)
                &&& spec_cpp_to_ffi(type_model(*t), role) == Ok::<_, ConversionError>(
                    (type_model(ct.cpp_ffi_type), ct.cpp_to_ffi_conversion),
                )
                &&& rust_type_model(ct.rust_ffi_type) == spec_rust_ffi_type(
                    type_model(ct.cpp_ffi_type),
                )
                &&& (rust_type_model(ct.rust_api_type), ct.rust_api_to_c_conversion)
                    == spec_rust_api(
                    type_model(*t),
                    type_model(ct.cpp_ffi_type),
                    ct.cpp_to_ffi_conversion,
                    is_deletable,
                )
            },
            r matches Err(e) ==> spec_cpp_to_ffi(type_model(*t), role) == Err::<
                (TypeModel, IndirectionChange),
                _,
            >(e),
    {
        let (ffi_type, conversion) = match cpp_to_ffi_type(t, role) {
            Ok(fc) => fc,
            Err(e) => {
                return Err(e);
            },
        };
        let rust_ffi_type = rust_ffi_type_of(&ffi_type);
        let (rust_api_type, rust_api_to_c_conversion): (RustType, RustToCTypeConversion) =
            match conversion {
            IndirectionChange::NoChange => (
                rust_ffi_type_of(&ffi_type),
                RustToCTypeConversion::NoChange,
            ),
            IndirectionChange::ValueToPointer => {
                if is_deletable {
                    let inner = with_indirection(
                        rust_ffi_type_of(&ffi_type),
                        RustTypeIndirection::Plain,
                    );
                    let mut generics: Vec<RustType> = Vec::new();
                    generics.push(inner);
                    proof {
                        lemma_rust_type_models_from(generics@, 0);
                        assert(rust_type_models_from(generics@, 0) =~= seq![
                            rust_type_model(generics@[0]),
                        ]);
                    }
                    let boxed = RustType::Common {
                        base: rust_name_one(String::from_str("CppBox")),
                        generic_arguments: Option::Some(generics),
                        is_const: false,
                        is_const2: false,
                        indirection: RustTypeIndirection::Plain,
                    };
                    (boxed, RustToCTypeConversion::CppBoxToPtr)
                } else {
                    (rust_ffi_type_of(&ffi_type), RustToCTypeConversion::NoChange)
                }
            },
            IndirectionChange::ReferenceToPointer => (
                with_indirection(
                    rust_ffi_type_of(&ffi_type),
                    RustTypeIndirection::Ref { lifetime: Option::None },
                ),
                RustToCTypeConversion::RefToPtr,
            ),
            IndirectionChange::QFlagsToUInt => {
                let generics: Option<Vec<RustType>> = match &t.base {
                    CppTypeBase::Class(cb) => {
                        proof {
                            assert(base_model(t.base) == BaseModel::Class(class_base_model(*cb)));
                        }
                        match &cb.template_arguments {
                            Option::Some(args) => Option::Some(rust_ffi_types_of(args)),
                            Option::None => Option::None,
                        }
                    },
                    _ => Option::None,
                };
                let flags = RustType::Common {
                    base: rust_name_one(String::from_str("Flags")),
                    generic_arguments: generics,
                    is_const: false,
                    is_const2: false,
                    indirection: RustTypeIndirection::Plain,
                };
                (flags, RustToCTypeConversion::QFlagsToUInt)
            },
        };
        Ok(
            CompleteType {
                cpp_type: t.clone(),
                cpp_ffi_type: ffi_type,
                cpp_to_ffi_conversion: conversion,
                rust_ffi_type,
                rust_api_type,
                rust_api_to_c_conversion,
            },
        )
    }
}



// ----------------------------------------------------------------------
// Per-method synthesis: every method yields one shim-signature candidate,
// plus one more per omissible suffix of default-valued trailing arguments.

/// One shim-signature candidate: a method (possibly with trailing defaulted
/// arguments dropped) together with the conversion record of its return
/// value and of each argument.
#[derive(Debug)]
pub struct CppMethodWithFfiSignature {
    /// The method, as the candidate binds it.
    pub cpp_method: CppMethod,
    /// The conversion record of the return value.
    pub return_type_ffi: CompleteType,
    /// The conversion records of the arguments, in order.
    pub arguments_ffi: Vec<CompleteType>,
}

/// How many trailing arguments of `args` carry default values and may be
/// omitted.
pub open spec fn spec_trailing_defaults(args: Seq<ArgModel>) -> int
    decreases args.len(),
{
    if args.len() == 0 {
        0int
    } else if args.last().has_default_value {
        1int + spec_trailing_defaults(args.drop_last())
    } else {
        0int
    }
}

/// The trailing-default count never exceeds the argument count.
pub proof fn lemma_trailing_defaults_bound(args: Seq<ArgModel>)
    ensures
        0 <= spec_trailing_defaults(args) <= args.len(),
    decreases args.len(),
{
    if args.len() > 0 && args.last().has_default_value {
        lemma_trailing_defaults_bound(args.drop_last());
    }
}

/// True when some class passed by value whose name is in `deletable` is
/// the base of `m`; only such classes may be owned by the host API.
pub open spec fn spec_is_deletable_for(deletable: Seq<String>, m: TypeModel) -> bool {
    match m.base {
        BaseModel::Class(cb) => exists|i: int|
            #![trigger deletable[i]]
            0 <= i < deletable.len() && deletable[i]@ == cb.name,
        _ => false,
    }
}

/// Decides whether `t`'s class name stands in `deletable`.
fn deletable_for(deletable: &Vec<String>, t: &CppType) -> (r: bool)
    ensures
        r == spec_is_deletable_for(deletable@, type_model(*t)),
{
    match &t.base {
        CppTypeBase::Class(cb) => {
            proof {
                assert(base_model(t.base) == BaseModel::Class(class_base_model(*cb)));
            }
            let mut i: usize = 0;
            while i < deletable.len()
                invariant
                    i <= deletable@.len(),
                    type_model(*t).base == BaseModel::Class(class_base_model(*cb)),
                    forall|j: int| 0 <= j < i ==> #[trigger] deletable@[j]@ != cb.name@,
                decreases deletable@.len() - i,
            {
                if deletable[i].eq(&cb.name) {
                    proof {
                        let w = deletable@[i as int];
                        assert(w@ == class_base_model(*cb).name);
                    }
                    return true;
                }
                i += 1;
            }
            false
        },
        _ => false,
    }
}

/// The conversion record `ct` is exactly what synthesis derives for an
/// occurrence of type model `m` in role `role`, with deletability decided
/// by `deletable`.
pub open spec fn spec_complete_matches(
    deletable: Seq<String>,
    m: TypeModel,
    role: CppTypeRole,
    ct: CompleteType,
) -> bool {
    &&& type_model(ct.cpp_type) == m
    &&& spec_cpp_to_ffi(m, role) == Ok::<_, ConversionError>(
        (type_model(ct.cpp_ffi_type), ct.cpp_to_ffi_conversion),
    )
    &&& rust_type_model(ct.rust_ffi_type) == spec_rust_ffi_type(type_model(ct.cpp_ffi_type))
    &&& (rust_type_model(ct.rust_api_type), ct.rust_api_to_c_conversion) == spec_rust_api(
        m,
        type_model(ct.cpp_ffi_type),
        ct.cpp_to_ffi_conversion,
        spec_is_deletable_for(deletable, m),
    )
}

/// The candidate `c` is the `k`-th overload synthesized from a method with
/// model `mm`: its method keeps every attribute of `mm` but drops the last
/// `k` arguments, recording the untrimmed list when `k > 0`, and it carries
/// exact conversion records for its return value and each kept argument.
pub open spec fn spec_candidate_matches(
    deletable: Seq<String>,
    mm: MethodModel,
    k: int,
    c: CppMethodWithFfiSignature,
) -> bool {
    let cm = method_model(c.cpp_method);
    &&& cm.name == mm.name
    &&& cm.class_membership == mm.class_membership
    &&& cm.operator == mm.operator
    &&& cm.return_type == mm.return_type
    &&& cm.arguments == mm.arguments.take(mm.arguments.len() - k)
    &&& cm.allows_variadic_arguments == mm.allows_variadic_arguments
    &&& cm.include_file == mm.include_file
    &&& cm.has_template_arguments == mm.has_template_arguments
    &&& (k > 0 ==> cm.arguments_before_omitting == Some(mm.arguments))
    &&& (k == 0 ==> cm.arguments_before_omitting == mm.arguments_before_omitting)
    &&& cm.is_unsafe_static_cast == mm.is_unsafe_static_cast
    &&& spec_complete_matches(deletable, mm.return_type, CppTypeRole::ReturnType, c.return_type_ffi)
    &&& c.arguments_ffi@.len() == mm.arguments.len() - k
    &&& (forall|i: int|
        0 <= i < mm.arguments.len() - k ==> spec_complete_matches(
            deletable,
            mm.arguments[i].argument_type,
            CppTypeRole::NotReturnType,
            #[trigger] c.arguments_ffi@[i],
        ))
}

/// The model of the `k`-th overload candidate synthesized from a method
/// with model `mm`: the method itself with the last `k` arguments dropped
/// and, for a trimmed candidate, the untrimmed list recorded.
pub open spec fn spec_candidate_model(mm: MethodModel, k: int) -> MethodModel {
    MethodModel {
        name: mm.name,
        class_membership: mm.class_membership,
        operator: mm.operator,
        return_type: mm.return_type,
        arguments: mm.arguments.take(mm.arguments.len() - k),
        arguments_before_omitting: if k > 0 {
            Some(mm.arguments)
        } else {
            mm.arguments_before_omitting
        },
        allows_variadic_arguments: mm.allows_variadic_arguments,
        include_file: mm.include_file,
        has_template_arguments: mm.has_template_arguments,
        is_unsafe_static_cast: mm.is_unsafe_static_cast,
    }
}

/// A candidate that matches is exactly the `k`-th overload: its method's
/// model is pinned outright.
pub proof fn lemma_candidate_model(
    deletable: Seq<String>,
    mm: MethodModel,
    k: int,
    c: CppMethodWithFfiSignature,
)
    requires
        0 <= k,
        spec_candidate_matches(deletable, mm, k, c),
    ensures
        method_model(c.cpp_method) == spec_candidate_model(mm, k),
{
    let cm = method_model(c.cpp_method);
    let target = spec_candidate_model(mm, k);
    if k == 0 {
        assert(cm.arguments_before_omitting == mm.arguments_before_omitting);
    } else {
        assert(cm.arguments_before_omitting == Some(mm.arguments));
    }
    assert(cm.name == target.name);
    assert(cm.class_membership == target.class_membership);
    assert(cm.operator == target.operator);
    assert(cm.return_type == target.return_type);
    assert(cm.arguments == target.arguments);
    assert(cm.arguments_before_omitting == target.arguments_before_omitting);
    assert(cm.allows_variadic_arguments == target.allows_variadic_arguments);
    assert(cm.include_file == target.include_file);
    assert(cm.has_template_arguments == target.has_template_arguments);
    assert(cm.is_unsafe_static_cast == target.is_unsafe_static_cast);
}

impl CppMethod {
    /// Synthesizes the shim-signature candidates of this method: the full
    /// signature first, then one candidate per omissible suffix of
    /// default-valued trailing arguments, each tagged with the untrimmed
    /// argument list. `deletable` names the classes with an accessible
    /// destructor. Fails, with the first error met, exactly when the return
    /// type or any argument type has no shim representation.
    pub fn to_ffi_signatures(&self, deletable: &Vec<String>) -> (r: Result<
        Vec<CppMethodWithFfiSignature>,
        ConversionError,
    >)
        ensures
            r is Ok <==> spec_cpp_to_ffi(method_model(*self).return_type, CppTypeRole::ReturnType)
                is Ok && (forall|i: int|
                0 <= i < method_model(*self).arguments.len() ==> spec_cpp_to_ffi(
                    #[trigger] method_model(*self).arguments[i].argument_type,
                    CppTypeRole::NotReturnType,
                ) is Ok),
            r matches Ok(v) ==> {
                &&& v@.len() == 1 + spec_trailing_defaults(method_model(*self).arguments)
                &&& (forall|k: int|
                    0 <= k < v@.len() ==> spec_candidate_matches(
                        deletable@,
                        method_model(*self),
                        k,
                        #[trigger] v@[k],
                    ))
            },
    {
        proof {
            lemma_args_model_from(self.arguments@, 0);
            lemma_trailing_defaults_bound(method_model(*self).arguments);
        }
        // Check that every occurrence has a shim representation.
        match CompleteType::synthesize(&self.return_type, CppTypeRole::ReturnType, deletable_for(
            deletable,
            &self.return_type,
        )) {
            Ok(_) => {},
            Err(e) => {
                proof {
                    assert(spec_cpp_to_ffi(
                        method_model(*self).return_type,
                        CppTypeRole::ReturnType,
                    ) is Err);
                }
                return Err(e);
            },
        }
        let mut i: usize = 0;
        while i < self.arguments.len()
            invariant
                i <= self.arguments@.len(),
                args_model_from(self.arguments@, 0).len() == self.arguments@.len(),
                forall|k: int|
                    0 <= k < self.arguments@.len() ==> #[trigger] args_model_from(
                        self.arguments@,
                        0,
                    )[k] == arg_model(self.arguments@[k]),
                forall|j: int|
                    0 <= j < i ==> spec_cpp_to_ffi(
                        #[trigger] args_model_from(self.arguments@, 0)[j].argument_type,
                        CppTypeRole::NotReturnType,
                    ) is Ok,
            decreases self.arguments@.len() - i,
        {
            match CompleteType::synthesize(
                &self.arguments[i].argument_type,
                CppTypeRole::NotReturnType,
                deletable_for(deletable, &self.arguments[i].argument_type),
            ) {
                Ok(_) => {},
                Err(e) => {
                    proof {
                        assert(spec_cpp_to_ffi(
                            method_model(*self).arguments[i as int].argument_type,
                            CppTypeRole::NotReturnType,
                        ) is Err);
                    }
                    return Err(e);
                },
            }
            i += 1;
        }
        // Count the omissible suffix.
        let n = self.arguments.len();
        proof {
            assert(method_model(*self).arguments.take(n as int) =~= method_model(
                *self,
            ).arguments);
        }
        let mut suffix: usize = 0;
        while suffix < n && self.arguments[n - suffix - 1].has_default_value
            invariant
                suffix <= n,
                n == self.arguments@.len(),
                args_model_from(self.arguments@, 0).len() == n,
                forall|k: int|
                    0 <= k < self.arguments@.len() ==> #[trigger] args_model_from(
                        self.arguments@,
                        0,
                    )[k] == arg_model(self.arguments@[k]),
                spec_trailing_defaults(method_model(*self).arguments) == suffix
                    + spec_trailing_defaults(
                    method_model(*self).arguments.take(n - suffix),
                ),
            decreases n - suffix,
        {
            proof {
                let args = method_model(*self).arguments;
                let t = args.take(n - suffix as int);
                assert(t.last() == args[n - suffix - 1]);
                assert(t.drop_last() =~= args.take(n - (suffix + 1) as int));
            }
            suffix += 1;
        }
        proof {
            let args = method_model(*self).arguments;
            let t = args.take(n - suffix as int);
            if suffix < n {
                assert(t.last() == args[n - suffix - 1]);
                assert(spec_trailing_defaults(t) == 0);
            } else {
                assert(t =~= Seq::empty());
            }
            assert(spec_trailing_defaults(args) == suffix as int);
        }
        // Build the candidates, full signature first.
        let mut result: Vec<CppMethodWithFfiSignature> = Vec::new();
        let mut k: usize = 0;
        while k < suffix
            invariant
                suffix <= n,
                n == self.arguments@.len(),
                k <= suffix,
                result@.len() == k,
                args_model_from(self.arguments@, 0).len() == n,
                forall|q: int|
                    0 <= q < self.arguments@.len() ==> #[trigger] args_model_from(
                        self.arguments@,
                        0,
                    )[q] == arg_model(self.arguments@[q]),
                spec_cpp_to_ffi(method_model(*self).return_type, CppTypeRole::ReturnType) is Ok,
                forall|j: int|
                    0 <= j < n ==> spec_cpp_to_ffi(
                        #[trigger] args_model_from(self.arguments@, 0)[j].argument_type,
                        CppTypeRole::NotReturnType,
                    ) is Ok,
                forall|q: int|
                    0 <= q < k ==> spec_candidate_matches(
                        deletable@,
                        method_model(*self),
                        q,
                        #[trigger] result@[q],
                    ),
            decreases suffix - k,
        {
            let cand = self.make_candidate(n - k, k > 0, deletable);
            result.push(cand);
            k += 1;
        }
        let last = self.make_candidate(n - suffix, suffix > 0, deletable);
        result.push(last);
        Ok(result)
    }

    /// Builds the candidate that keeps the first `keep` arguments.
    /// `trimmed` says whether any argument was dropped; a trimmed candidate
    /// records the untrimmed argument list.
    fn make_candidate(&self, keep: usize, trimmed: bool, deletable: &Vec<String>) -> (c:
        CppMethodWithFfiSignature)
        requires
            keep <= self.arguments@.len(),
            trimmed <==> keep < self.arguments@.len(),
            spec_cpp_to_ffi(method_model(*self).return_type, CppTypeRole::ReturnType) is Ok,
            forall|i: int|
                0 <= i < method_model(*self).arguments.len() ==> spec_cpp_to_ffi(
                    #[trigger] method_model(*self).arguments[i].argument_type,
                    CppTypeRole::NotReturnType,
                ) is Ok,
        ensures
            spec_candidate_matches(
                deletable@,
                method_model(*self),
                self.arguments@.len() - keep,
                c,
            ),
    {
        proof {
            lemma_args_model_from(self.arguments@, 0);
        }
        let mut method = self.clone();
        method.arguments = clone_arguments_prefix(&self.arguments, keep);
        if trimmed {
            let full = clone_arguments_prefix(&self.arguments, self.arguments.len());
            proof {
                assert(args_model_from(self.arguments@, 0).take(self.arguments@.len() as int)
                    =~= args_model_from(self.arguments@, 0));
            }
            method.arguments_before_omitting = Option::Some(full);
        }
        let return_type_ffi = match CompleteType::synthesize(
            &self.return_type,
            CppTypeRole::ReturnType,
            deletable_for(deletable, &self.return_type),
        ) {
            Ok(ct) => ct,
            Err(_) => {
                proof {
                    assert(false);
                }
                unreached()
            },
        };
        let mut arguments_ffi: Vec<CompleteType> = Vec::new();
        let mut i: usize = 0;
        while i < keep
            invariant
                keep <= self.arguments@.len(),
                i <= keep,
                arguments_ffi@.len() == i,
                args_model_from(self.arguments@, 0).len() == self.arguments@.len(),
                forall|q: int|
                    0 <= q < self.arguments@.len() ==> #[trigger] args_model_from(
                        self.arguments@,
                        0,
                    )[q] == arg_model(self.arguments@[q]),
                forall|j: int|
                    0 <= j < method_model(*self).arguments.len() ==> spec_cpp_to_ffi(
                        #[trigger] method_model(*self).arguments[j].argument_type,
                        CppTypeRole::NotReturnType,
                    ) is Ok,
                forall|j: int|
                    0 <= j < i ==> spec_complete_matches(
                        deletable@,
                        method_model(*self).arguments[j].argument_type,
                        CppTypeRole::NotReturnType,
                        #[trigger] arguments_ffi@[j],
                    ),
            decreases keep - i,
        {
            let ct = match CompleteType::synthesize(
                &self.arguments[i].argument_type,
                CppTypeRole::NotReturnType,
                deletable_for(deletable, &self.arguments[i].argument_type),
            ) {
                Ok(ct) => ct,
                Err(_) => {
                    proof {
                        assert(spec_cpp_to_ffi(
                            method_model(*self).arguments[i as int].argument_type,
                            CppTypeRole::NotReturnType,
                        ) is Ok);
                        assert(false);
                    }
                    unreached()
                },
            };
            arguments_ffi.push(ct);
            i += 1;
        }
        CppMethodWithFfiSignature { cpp_method: method, return_type_ffi, arguments_ffi }
    }
}

} // verus!
