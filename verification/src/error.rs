//! Translation of native result codes into structured error values.
//!
//! Every fallible call against the engine yields a `{code, message}` pair.
//! Code `0` denotes success; code `1` is a guest-triggered termination that
//! is treated as a successful outcome for propagation purposes; every other
//! code denotes a specific failure category.

use vstd::prelude::*;

verus! {

/// Result code of a successful call.
pub const CODE_SUCCESS: usize = 0;
/// Result code of a guest-triggered termination; propagated as success.
pub const CODE_TERMINATED: usize = 1;
/// Result code of a generic runtime failure.
pub const CODE_FAILED: usize = 2;
/// Result code used when a name holds an interior NUL byte.
pub const CODE_NULL_ERROR: usize = 3;
/// Result code of an operation attempted in the wrong workflow phase.
pub const CODE_WRONG_WORKFLOW: usize = 4;
/// Result code of an invocation of an unknown function name.
pub const CODE_FUNC_NOT_FOUND: usize = 5;
/// Result code of a load from a path that does not resolve.
pub const CODE_INVALID_PATH: usize = 32;
/// Result code of a caller-side usage error, rejected before the engine.
pub const CODE_USAGE_ERROR: usize = 49;
/// Result code of a module registration under an already-taken name.
pub const CODE_MODULE_NAME_CONFLICT: usize = 96;
/// Result code of a lookup through a module name that is not registered.
pub const CODE_WRONG_INSTANCE_ADDRESS: usize = 128;
/// Result code of an invocation whose arguments do not match the signature.
pub const CODE_FUNC_SIG_MISMATCH: usize = 131;
/// Result code of an out-of-bounds table access.
pub const CODE_TABLE_OUT_OF_BOUNDS: usize = 135;
/// Result code of an out-of-bounds memory access.
pub const CODE_MEMORY_OUT_OF_BOUNDS: usize = 136;
/// Result code of an execution that exhausted the installed cost limit.
pub const CODE_COST_LIMIT_EXCEEDED: usize = 137;

/// A structured engine error: a result code together with its message.
#[derive(Debug)]
pub struct WasmEdgeError {
    /// The failure category, one of the `CODE_` constants.
    pub code: usize,
    /// The human-readable description attached to the failure.
    pub message: String,
}

/// Whether a native result code is propagated as success.
///
/// Code `0` is success proper; code `1` is a guest-triggered termination
/// that is by design reported as a successful outcome, not as an error.
pub open spec fn code_is_success(code: usize) -> bool {
    code == CODE_SUCCESS || code == CODE_TERMINATED
}

impl WasmEdgeError {
    /// Builds the error value for a native result code, attaching the
    /// category's description. The description is never empty, whatever
    /// the code.
    pub fn from_code(code: usize) -> (r: WasmEdgeError)
        ensures
            r.code == code,
            r.message@.len() > 0,
    {
        let message: String = if code == CODE_SUCCESS {
            proof { reveal_strlit("success"); }
            "success".to_owned()
        } else if code == CODE_TERMINATED {
            proof { reveal_strlit("terminated"); }
            "terminated".to_owned()
        } else if code == CODE_FAILED {
            proof { reveal_strlit("generic runtime failure"); }
            "generic runtime failure".to_owned()
        } else if code == CODE_NULL_ERROR {
            proof { reveal_strlit("name holds an interior NUL byte"); }
            "name holds an interior NUL byte".to_owned()
        } else if code == CODE_WRONG_WORKFLOW {
            proof { reveal_strlit("wrong VM workflow"); }
            "wrong VM workflow".to_owned()
        } else if code == CODE_FUNC_NOT_FOUND {
            proof { reveal_strlit("wasm function not found"); }
            "wasm function not found".to_owned()
        } else if code == CODE_INVALID_PATH {
            proof { reveal_strlit("invalid path"); }
            "invalid path".to_owned()
        } else if code == CODE_MODULE_NAME_CONFLICT {
            proof { reveal_strlit("module name conflict"); }
            "module name conflict".to_owned()
        } else if code == CODE_WRONG_INSTANCE_ADDRESS {
            proof { reveal_strlit("wrong instance address"); }
            "wrong instance address".to_owned()
        } else if code == CODE_FUNC_SIG_MISMATCH {
            proof { reveal_strlit("function signature mismatch"); }
            "function signature mismatch".to_owned()
        } else if code == CODE_TABLE_OUT_OF_BOUNDS {
            proof { reveal_strlit("out of bounds table access"); }
            "out of bounds table access".to_owned()
        } else if code == CODE_MEMORY_OUT_OF_BOUNDS {
            proof { reveal_strlit("out of bounds memory access"); }
            "out of bounds memory access".to_owned()
        } else if code == CODE_COST_LIMIT_EXCEEDED {
            proof { reveal_strlit("cost limit exceeded"); }
            "cost limit exceeded".to_owned()
        } else {
            proof { reveal_strlit("unknown error"); }
            "unknown error".to_owned()
        };
        WasmEdgeError { code, message }
    }

    /// Builds the error value for a native result code with the message
    /// the engine attached to it.
    pub fn with_message(code: usize, message: String) -> (r: WasmEdgeError)
        ensures
            r.code == code,
            r.message == message,
    {
        WasmEdgeError { code, message }
    }
}

impl From<String> for WasmEdgeError {
    /// A bare message denotes a caller-side usage error.
    fn from(message: String) -> (r: WasmEdgeError) {
        WasmEdgeError { code: CODE_USAGE_ERROR, message }
    }
}

impl vstd::std_specs::convert::FromSpecImpl<String> for WasmEdgeError {
    open spec fn obeys_from_spec() -> bool {
        true
    }

    open spec fn from_spec(message: String) -> WasmEdgeError {
        WasmEdgeError { code: CODE_USAGE_ERROR, message }
    }
}

/// The result type of every fallible operation of this layer.
pub type WasmEdgeResult<T> = Result<T, WasmEdgeError>;

} // verus!
