//! Boundary layer for embedding a WebAssembly engine: typed value and type
//! marshalling across a C-compatible boundary, namespace-based import
//! resolution, descriptor enumeration for module introspection, a handle
//! registry for engine-owned objects, an instance call path, and a
//! bounds-checked typed view over linear memory.

use vstd::prelude::*;

pub mod error;
pub mod exports;
pub mod imports;
pub mod instance;
pub mod memory;
pub mod module_info;
pub mod registry;
pub mod utf8;
pub mod values;

verus! {

/// Status of a fallible boundary operation. On `WASMER_ERROR` the caller
/// queries the last-error channel for a diagnostic.
#[allow(non_camel_case_types)]
#[derive(Clone, Copy, PartialEq, Eq, Debug, Structural)]
pub enum wasmer_result_t {
    WASMER_OK,
    WASMER_ERROR,
}

/// The kind of an import or export capability.
#[allow(non_camel_case_types)]
#[derive(Clone, Copy, PartialEq, Eq, Debug, Structural)]
pub enum wasmer_import_export_kind {
    WASM_FUNCTION,
    WASM_GLOBAL,
    WASM_MEMORY,
    WASM_TABLE,
}

} // verus!
