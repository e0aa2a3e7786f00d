//! Records describing the generated host-language wrapper crate: its
//! wrapper types, enum variants and export information. The rendering
//! collaborator consumes these; the generator only carries them.

use vstd::prelude::*;

use crate::cpp_data::CppTypeDoc;
use crate::cpp_ffi_data::CompleteType;
use crate::cpp_type::CppType;
use crate::rust_type::RustName;

verus! {

/// Documentation of one C++ enum variant, kept beside the generated
/// host-language variant.
#[derive(Debug)]
pub struct CppEnumValueDocItem {
    /// The C++ name of the variant.
    pub variant_name: String,
    /// The documentation content.
    pub doc: Option<String>,
}

/// One variant of a generated host-language enum.
#[derive(Debug)]
pub struct RustEnumValue {
    /// The variant's identifier.
    pub name: String,
    /// The variant's value.
    pub value: i64,
    /// Documentation of the corresponding C++ variants.
    pub cpp_docs: Vec<CppEnumValueDocItem>,
    /// True when the variant only exists because single-variant enums are
    /// not supported.
    pub is_dummy: bool,
}

/// A generated wrapper that lets the event system call back into the host
/// language.
#[derive(Debug)]
pub struct RustQtSlotWrapper {
    /// The conversion records of the callback's arguments.
    pub arguments: Vec<CompleteType>,
    /// Identifier of the receiver.
    pub receiver_id: String,
    /// The public name of the wrapper type.
    pub public_type_name: String,
    /// The name of the callback function type.
    pub callback_name: String,
}

/// What kind of host-language wrapper a C++ type becomes.
#[derive(Debug)]
pub enum RustTypeWrapperKind {
    /// An enum wrapper.
    Enum {
        /// The generated variants.
        values: Vec<RustEnumValue>,
        /// True when the C++ enum is also used through the bit-flags
        /// wrapper, so the flag-set API is generated for it.
        is_flaggable: bool,
    },
    /// A struct wrapper holding the C++ value inline.
    Struct {
        /// Name of the generated constant holding the C++ type's size.
        size_const_name: String,
        /// True when the C++ type has an accessible destructor, so owned
        /// values can be deleted from the host language.
        is_deletable: bool,
    },
    /// A pointer-only wrapper: values are never held inline.
    EmptyEnum {
        /// True when the C++ type has an accessible destructor.
        is_deletable: bool,
        /// The callback wrapper generated for the type, if any.
        slot_wrapper: Option<RustQtSlotWrapper>,
    },
}

/// Exported information about one generated wrapper type.
#[derive(Debug)]
pub struct RustProcessedTypeInfo {
    /// Full name of the C++ type behind the wrapper.
    pub cpp_name: String,
    /// Documentation of the C++ type.
    pub cpp_doc: Option<CppTypeDoc>,
    /// Template arguments, when the C++ type is a template instantiation.
    pub cpp_template_arguments: Option<Vec<CppType>>,
    /// The kind of wrapper generated.
    pub kind: RustTypeWrapperKind,
    /// The wrapper's own identifier.
    pub rust_name: RustName,
    /// True when the wrapper is public.
    pub is_public: bool,
}

/// Exported information about a whole generated crate, for crates that
/// build on top of it.
#[derive(Debug)]
pub struct RustExportInfo {
    /// Name of the generated crate.
    pub crate_name: String,
    /// Version of the generated crate.
    pub crate_version: String,
    /// The generated wrapper types.
    pub rust_types: Vec<RustProcessedTypeInfo>,
}

} // verus!
