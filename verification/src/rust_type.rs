//! The host-language side of the type algebra: identifiers and type shapes
//! of the generated wrapper crate, with their mathematical models.

use vstd::prelude::*;

verus! {

/// A host-language identifier, as a list of name parts: for a regular name
/// the first part names the crate, the last part is the entity's own name.
/// Built-in types are a single part, like `i32`.
#[derive(Debug)]
pub struct RustName {
    /// The parts of the name.
    pub parts: Vec<String>,
}

/// Indirection of a host-language type.
#[derive(Debug)]
pub enum RustTypeIndirection {
    /// No indirection.
    Plain,
    /// A raw pointer.
    Ptr,
    /// A reference, with an optional named lifetime.
    Ref { lifetime: Option<String> },
    /// A raw pointer to a raw pointer.
    PtrPtr,
    /// A raw pointer behind a reference.
    PtrRef { lifetime: Option<String> },
}

/// A host-language type.
#[derive(Debug)]
pub enum RustType {
    /// The unit-like void type.
    Void,
    /// A named type with optional generic arguments, constness and
    /// indirection.
    Common {
        base: RustName,
        generic_arguments: Option<Vec<RustType>>,
        is_const: bool,
        is_const2: bool,
        indirection: RustTypeIndirection,
    },
    /// A function pointer type.
    FunctionPointer { return_type: Box<RustType>, arguments: Vec<RustType> },
}

// ----------------------------------------------------------------------
// Models.

/// Model of a host-language identifier: its parts as character sequences.
pub open spec fn rust_name_model(n: RustName) -> Seq<Seq<char>> {
    Seq::new(n.parts@.len(), |i: int| n.parts@[i]@)
}

/// Model of indirection, with lifetimes as character sequences.
pub ghost enum RustIndirectionModel {
    Plain,
    Ptr,
    Ref(Option<Seq<char>>),
    PtrPtr,
    PtrRef(Option<Seq<char>>),
}

/// The model of a host-language type's indirection.
pub open spec fn rust_indirection_model(ind: RustTypeIndirection) -> RustIndirectionModel {
    match ind {
        RustTypeIndirection::Plain => RustIndirectionModel::Plain,
        RustTypeIndirection::Ptr => RustIndirectionModel::Ptr,
        RustTypeIndirection::Ref { lifetime } => RustIndirectionModel::Ref(
            match lifetime {
                Some(s) => Some(s@),
                None => None,
            },
        ),
        RustTypeIndirection::PtrPtr => RustIndirectionModel::PtrPtr,
        RustTypeIndirection::PtrRef { lifetime } => RustIndirectionModel::PtrRef(
            match lifetime {
                Some(s) => Some(s@),
                None => None,
            },
        ),
    }
}

/// Model of a host-language type.
pub ghost enum RustTypeModel {
    Void,
    Common {
        base: Seq<Seq<char>>,
        generic_arguments: Option<Seq<RustTypeModel>>,
        is_const: bool,
        is_const2: bool,
        indirection: RustIndirectionModel,
    },
    FunctionPointer { return_type: Box<RustTypeModel>, arguments: Seq<RustTypeModel> },
}

/// The model of a host-language type.
pub open spec fn rust_type_model(t: RustType) -> RustTypeModel
    decreases t, 0int, 0int,
{
    match t {
        RustType::Void => RustTypeModel::Void,
        RustType::Common { base, generic_arguments, is_const, is_const2, indirection } => {
            RustTypeModel::Common {
                base: rust_name_model(base),
                generic_arguments: match generic_arguments {
                    Some(v) => Some(rust_type_models_from(v@, 0)),
                    None => None,
                },
                is_const,
                is_const2,
                indirection: rust_indirection_model(indirection),
            }
        },
        RustType::FunctionPointer { return_type, arguments } => RustTypeModel::FunctionPointer {
            return_type: Box::new(rust_type_model(*return_type)),
            arguments: rust_type_models_from(arguments@, 0),
        },
    }
}

/// The models of the types of `s` from position `i` on.
pub open spec fn rust_type_models_from(s: Seq<RustType>, i: int) -> Seq<RustTypeModel>
    decreases s, 1int, s.len() - i,
{
    if i < 0 || i >= s.len() {
        Seq::empty()
    } else {
        seq![rust_type_model(s[i])] + rust_type_models_from(s, i + 1)
    }
}

/// The model sequence from position `i` has one element per type.
pub proof fn lemma_rust_type_models_from(s: Seq<RustType>, i: int)
    requires
        0 <= i <= s.len(),
    ensures
        rust_type_models_from(s, i).len() == s.len() - i,
        forall|k: int|
            0 <= k < s.len() - i ==> rust_type_models_from(s, i)[k] == rust_type_model(s[i + k]),
    decreases s.len() - i,
{
    if i < s.len() {
        lemma_rust_type_models_from(s, i + 1);
    }
}

/// Builds a single-part host-language name.
pub fn rust_name_one(part: String) -> (r: RustName)
    ensures
        rust_name_model(r) =~= seq![part@],
{
    let mut parts: Vec<String> = Vec::new();
    parts.push(part);
    RustName { parts }
}

} // verus!
