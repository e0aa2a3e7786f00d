//! Core of a cross-language binding generator for C++ libraries.
//!
//! Given a structured description of a C++ API surface (types, methods,
//! inheritance), the crate derives the C-linkage shim layer and the
//! host-language wrapper signatures: it resolves inherited and pure virtual
//! methods, filters out methods that cannot be exposed, synthesizes an
//! ABI-safe signature for every method occurrence, and assigns every shim
//! function a unique, deterministically ordered symbol name.

pub mod caption_strategy;
pub mod cpp_build_config;
pub mod cpp_data;
pub mod cpp_ffi_data;
pub mod cpp_ffi_generator;
pub mod cpp_method;
pub mod cpp_type;
pub mod order;
pub mod rust_info;
pub mod rust_type;
pub mod target;
