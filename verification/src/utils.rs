//! Checking native result codes at the call boundary.

use vstd::prelude::*;
use crate::error::{code_is_success, WasmEdgeError, WasmEdgeResult};

verus! {

/// Turns a native result code into this layer's result: success and
/// guest-triggered termination both propagate as success; every other code
/// becomes its category's error value, message attached.
pub fn check(code: usize) -> (r: WasmEdgeResult<()>)
    ensures
        r is Ok <==> code_is_success(code),
        r matches Err(e) ==> e.code == code && e.message@.len() > 0,
{
    if code == crate::error::CODE_SUCCESS || code == crate::error::CODE_TERMINATED {
        Ok(())
    } else {
        Err(WasmEdgeError::from_code(code))
    }
}

} // verus!
