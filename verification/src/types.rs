//! Plain value types shared across the management layer: value-type tags,
//! engine option tags, and size limits.

use vstd::prelude::*;

verus! {

/// The type tag of a wire value.
#[allow(non_camel_case_types)]
#[derive(Clone, Copy, Debug, PartialEq, Eq, Structural)]
pub enum WasmEdgeValType {
    WasmEdge_ValType_I32,
    WasmEdge_ValType_I64,
    WasmEdge_ValType_F32,
    WasmEdge_ValType_F64,
    WasmEdge_ValType_V128,
    WasmEdge_ValType_FuncRef,
    WasmEdge_ValType_ExternRef,
}

/// A WebAssembly proposal that a configuration can switch on.
#[allow(non_camel_case_types)]
#[derive(Clone, Copy, Debug, PartialEq, Eq, Structural)]
pub enum WasmEdgeProposal {
    WasmEdge_Proposal_BulkMemoryOperations,
    WasmEdge_Proposal_ReferenceTypes,
    WasmEdge_Proposal_SIMD,
    WasmEdge_Proposal_TailCall,
    WasmEdge_Proposal_Annotations,
    WasmEdge_Proposal_Memory64,
    WasmEdge_Proposal_Threads,
    WasmEdge_Proposal_ExceptionHandling,
    WasmEdge_Proposal_FunctionReferences,
}

/// A host capability that a configuration can register.
#[allow(non_camel_case_types)]
#[derive(Clone, Copy, Debug, PartialEq, Eq, Structural)]
pub enum HostRegistration {
    WasmEdge_HostRegistration_Wasi,
    WasmEdge_HostRegistration_WasmEdge_Process,
}

/// The optimization level the ahead-of-time compiler runs at.
#[allow(non_camel_case_types)]
#[derive(Clone, Copy, Debug, PartialEq, Eq, Structural)]
pub enum CompilerOptimizationLevel {
    WasmEdge_CompilerOptimizationLevel_O0,
    WasmEdge_CompilerOptimizationLevel_O1,
    WasmEdge_CompilerOptimizationLevel_O2,
    WasmEdge_CompilerOptimizationLevel_O3,
    WasmEdge_CompilerOptimizationLevel_Os,
    WasmEdge_CompilerOptimizationLevel_Oz,
}

/// The reference type a table holds.
#[allow(non_camel_case_types)]
#[derive(Clone, Copy, Debug, PartialEq, Eq, Structural)]
pub enum WasmEdgeRefType {
    WasmEdge_RefType_FuncRef,
    WasmEdge_RefType_ExternRef,
}

/// Whether a global may be written after creation.
#[allow(non_camel_case_types)]
#[derive(Clone, Copy, Debug, PartialEq, Eq, Structural)]
pub enum WasmEdgeMutability {
    WasmEdge_Mutability_Const,
    WasmEdge_Mutability_Var,
}

/// A size limit of a table or a memory: a minimum, and optionally a maximum.
#[allow(non_snake_case)]
#[derive(Clone, Copy, Debug, PartialEq, Eq, Structural)]
pub struct WasmEdgeLimit {
    /// Whether `Max` is meaningful.
    pub HasMax: bool,
    /// The initial number of elements or pages.
    pub Min: u32,
    /// The largest number of elements or pages, read only when `HasMax`.
    pub Max: u32,
}

} // verus!
