//! The runtime bridge: the trait through which the engine or the host
//! executes a resolved function body, and the verified handling of what
//! comes back.
//!
//! The management layer resolves names, checks signatures and phases, and
//! truncates results; what a function body actually computes is the
//! runtime's business. A runtime is handed the dispatch key of a resolved
//! function and its checked arguments, and reports a result code, a
//! message, and the produced values.

use vstd::prelude::*;
use crate::error::{code_is_success, WasmEdgeError, WasmEdgeResult, CODE_FUNC_SIG_MISMATCH};
use crate::instance::function::FunctionInstanceContext;
use crate::types::WasmEdgeValType;
use crate::value::WasmEdgeValue;

verus! {

/// What a dispatched function body reported: a result code (`0` success,
/// `1` guest-triggered termination, anything else a failure), a message,
/// and the values it produced.
pub struct HostCallOutcome {
    /// The result code of the body.
    pub code: usize,
    /// The message attached to the result.
    pub message: String,
    /// The values the body produced.
    pub values: Vec<WasmEdgeValue>,
}

/// A runtime that executes resolved function bodies: the engine for wasm
/// functions, the host for host-provided ones. Implementations are the
/// caller's; nothing is assumed of what they compute.
pub trait HostRuntime {
    /// Executes the body dispatched under `func_id` on checked arguments.
    fn invoke(&mut self, func_id: u64, params: &Vec<WasmEdgeValue>) -> HostCallOutcome;
}

/// Whether arguments carry exactly the parameter types of a signature.
pub open spec fn params_match_types(
    params: Seq<WasmEdgeValue>,
    types: Seq<WasmEdgeValType>,
) -> bool {
    params.len() == types.len() && (forall|i: int|
        0 <= i < params.len() ==> params[i].ty == types[i])
}

/// Checks arguments against parameter types: the arity must agree and each
/// argument must carry the expected type tag, never coerced.
pub fn check_params(params: &Vec<WasmEdgeValue>, types: &Vec<WasmEdgeValType>) -> (r: bool)
    ensures
        r == params_match_types(params@, types@),
{
    if params.len() != types.len() {
        return false;
    }
    let mut i: usize = 0;
    while i < params.len()
        invariant
            i <= params@.len(),
            params@.len() == types@.len(),
            forall|j: int| 0 <= j < i ==> params@[j].ty == types@[j],
        decreases params@.len() - i,
    {
        if !(params[i].ty == types[i]) {
            return false;
        }
        i = i + 1;
    }
    true
}

/// The values kept when a result buffer of `capacity` slots receives
/// `values`: everything, or the leading `capacity` of them.
pub open spec fn truncated_values(
    values: Seq<WasmEdgeValue>,
    capacity: nat,
) -> Seq<WasmEdgeValue> {
    if values.len() <= capacity {
        values
    } else {
        values.take(capacity as int)
    }
}

/// Turns a dispatched body's outcome into the caller's result.
///
/// A success or a guest-triggered termination yields the produced values,
/// truncated to the caller's result capacity — discarding trailing results
/// is a supported usage and never an error, including a capacity of zero.
/// Any other code propagates as the error the body reported.
pub fn finish_invocation(outcome: HostCallOutcome, result_capacity: usize) -> (r: WasmEdgeResult<
    Vec<WasmEdgeValue>,
>)
    ensures
        r is Ok <==> code_is_success(outcome.code),
        r matches Ok(vals) ==> vals@ == truncated_values(outcome.values@, result_capacity as nat),
        r matches Err(e) ==> e.code == outcome.code && e.message == outcome.message,
{
    if outcome.code == crate::error::CODE_SUCCESS || outcome.code == crate::error::CODE_TERMINATED {
        let mut vals = outcome.values;
        if vals.len() > result_capacity {
            vals.truncate(result_capacity);
        }
        Ok(vals)
    } else {
        Err(WasmEdgeError::with_message(outcome.code, outcome.message))
    }
}

/// Checks arguments against a resolved function's signature and, when they
/// fit, dispatches the call and hands back the truncated results.
pub(crate) fn dispatch<H: HostRuntime>(
    fi: &FunctionInstanceContext,
    runtime: &mut H,
    params: &Vec<WasmEdgeValue>,
    result_capacity: usize,
) -> (r: WasmEdgeResult<Vec<WasmEdgeValue>>)
    ensures
        !params_match_types(params@, fi.ty_spec().params_spec()) ==> (r matches Err(e) && e.code
            == CODE_FUNC_SIG_MISMATCH),
        r is Ok ==> params_match_types(params@, fi.ty_spec().params_spec()) && r->Ok_0@.len()
            <= result_capacity,
{
    if !check_params(params, fi.function_type().params_vec()) {
        return Err(WasmEdgeError::from_code(CODE_FUNC_SIG_MISMATCH));
    }
    let outcome = runtime.invoke(fi.func_id(), params);
    finish_invocation(outcome, result_capacity)
}

} // verus!
