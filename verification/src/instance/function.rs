//! Function signatures, host function handles, and the non-owning function
//! views that registry lookups hand out.

use vstd::prelude::*;
use crate::error::{WasmEdgeError, WasmEdgeResult, CODE_USAGE_ERROR};
use crate::types::WasmEdgeValType;

verus! {

broadcast use vstd::seq_lib::group_seq_properties, vstd::prelude::Seq::lemma_take_succ_push;

/// Copies a vector of value-type tags.
fn copy_types(src: &Vec<WasmEdgeValType>) -> (r: Vec<WasmEdgeValType>)
    ensures
        r@ == src@,
{
    let mut out: Vec<WasmEdgeValType> = Vec::new();
    let mut i: usize = 0;
    while i < src.len()
        invariant
            i <= src@.len(),
            out@ == src@.take(i as int),
        decreases src@.len() - i,
    {
        out.push(src[i]);
        i = i + 1;
    }
    proof {
        assert(src@.take(src@.len() as int) == src@);
    }
    out
}

/// Copies the first `n` value-type tags of a vector.
fn copy_types_prefix(src: &Vec<WasmEdgeValType>, n: usize) -> (r: Vec<WasmEdgeValType>)
    requires
        n <= src@.len(),
    ensures
        r@ == src@.take(n as int),
{
    let mut out: Vec<WasmEdgeValType> = Vec::new();
    let mut i: usize = 0;
    while i < n
        invariant
            i <= n <= src@.len(),
            out@ == src@.take(i as int),
        decreases n - i,
    {
        out.push(src[i]);
        i = i + 1;
    }
    out
}

/// The signature of a function: its parameter types and its return types.
pub struct FunctionTypeContext {
    params: Vec<WasmEdgeValType>,
    results: Vec<WasmEdgeValType>,
}

impl FunctionTypeContext {
    /// The parameter types of the signature.
    pub closed spec fn params_spec(&self) -> Seq<WasmEdgeValType> {
        self.params@
    }

    /// The return types of the signature.
    pub closed spec fn returns_spec(&self) -> Seq<WasmEdgeValType> {
        self.results@
    }

    /// Builds a signature from parameter and return types; an absent list
    /// stands for the empty one.
    pub fn create(
        params: Option<&[WasmEdgeValType]>,
        results: Option<&[WasmEdgeValType]>,
    ) -> (r: Option<FunctionTypeContext>)
        ensures
            r is Some,
            r->Some_0.params_spec() == (match params {
                Some(p) => p@,
                None => Seq::<WasmEdgeValType>::empty(),
            }),
            r->Some_0.returns_spec() == (match results {
                Some(t) => t@,
                None => Seq::<WasmEdgeValType>::empty(),
            }),
    {
        let params = match params {
            Some(p) => vstd::slice::slice_to_vec(p),
            None => Vec::new(),
        };
        let results = match results {
            Some(t) => vstd::slice::slice_to_vec(t),
            None => Vec::new(),
        };
        Some(FunctionTypeContext { params, results })
    }

    /// The number of parameters of the signature.
    pub fn parameters_len(&self) -> (r: usize)
        ensures
            r == self.params_spec().len(),
    {
        self.params.len()
    }

    /// Copies the first `limit` parameter types into a fresh vector and
    /// reports the total parameter count.
    ///
    /// The capacity must lie between 1 and the parameter count inclusive;
    /// a zero or over-large capacity is a usage error rejected locally.
    pub fn parameters(&self, limit: usize) -> (r: WasmEdgeResult<(usize, Vec<WasmEdgeValType>)>)
        ensures
            r is Ok <==> 1 <= limit <= self.params_spec().len(),
            r matches Ok(out) ==> out.0 == self.params_spec().len() && out.1@
                == self.params_spec().take(limit as int),
            r matches Err(e) ==> e.code == CODE_USAGE_ERROR,
    {
        if 0 < limit && limit <= self.params.len() {
            let out = copy_types_prefix(&self.params, limit);
            Ok((self.params.len(), out))
        } else {
            proof { reveal_strlit("the buffer length must be between 1 and the total count"); }
            Err(WasmEdgeError::with_message(
                CODE_USAGE_ERROR,
                "the buffer length must be between 1 and the total count".to_owned(),
            ))
        }
    }

    /// The number of returns of the signature.
    pub fn returns_len(&self) -> (r: usize)
        ensures
            r == self.returns_spec().len(),
    {
        self.results.len()
    }

    /// Copies the first `limit` return types into a fresh vector and
    /// reports the total return count, under the same capacity contract as
    /// `parameters`.
    pub fn returns_list(&self, limit: usize) -> (r: WasmEdgeResult<(usize, Vec<WasmEdgeValType>)>)
        ensures
            r is Ok <==> 1 <= limit <= self.returns_spec().len(),
            r matches Ok(out) ==> out.0 == self.returns_spec().len() && out.1@
                == self.returns_spec().take(limit as int),
            r matches Err(e) ==> e.code == CODE_USAGE_ERROR,
    {
        if 0 < limit && limit <= self.results.len() {
            let out = copy_types_prefix(&self.results, limit);
            Ok((self.results.len(), out))
        } else {
            proof { reveal_strlit("the buffer length must be between 1 and the total count"); }
            Err(WasmEdgeError::with_message(
                CODE_USAGE_ERROR,
                "the buffer length must be between 1 and the total count".to_owned(),
            ))
        }
    }

    /// The parameter types, lent for checking arguments.
    pub(crate) fn params_vec(&self) -> (r: &Vec<WasmEdgeValType>)
        ensures
            r@ == self.params_spec(),
    {
        &self.params
    }

    /// Hands the parts of the signature to the structure that consumes it.
    pub(crate) fn into_parts(self) -> (r: (Vec<WasmEdgeValType>, Vec<WasmEdgeValType>))
        ensures
            r.0@ == self.params_spec(),
            r.1@ == self.returns_spec(),
    {
        (self.params, self.results)
    }

    /// Copies the signature.
    pub fn duplicate(&self) -> (r: FunctionTypeContext)
        ensures
            r.params_spec() == self.params_spec(),
            r.returns_spec() == self.returns_spec(),
    {
        FunctionTypeContext { params: copy_types(&self.params), results: copy_types(&self.results) }
    }
}

/// A host-provided function offered to modules: its signature, the key the
/// host runtime dispatches on, and its execution cost.
///
/// The handle owns its signature until an import builder consumes it.
pub struct HostFunctionContext {
    ty: FunctionTypeContext,
    func_id: u64,
    cost: u64,
}

impl HostFunctionContext {
    /// The signature of the host function.
    pub closed spec fn ty_spec(&self) -> &FunctionTypeContext {
        &self.ty
    }

    /// The key under which the host runtime dispatches this function.
    pub closed spec fn func_id_spec(&self) -> u64 {
        self.func_id
    }

    /// The cost charged against the statistics when this function runs.
    pub closed spec fn cost_spec(&self) -> u64 {
        self.cost
    }

    /// Builds a host function handle over a signature, a dispatch key, and
    /// a cost.
    pub fn create(func_type: &FunctionTypeContext, func_id: u64, cost: u64) -> (r: Option<
        HostFunctionContext,
    >)
        ensures
            r is Some,
            r->Some_0.ty_spec().params_spec() == func_type.params_spec(),
            r->Some_0.ty_spec().returns_spec() == func_type.returns_spec(),
            r->Some_0.func_id_spec() == func_id,
            r->Some_0.cost_spec() == cost,
    {
        Some(HostFunctionContext { ty: func_type.duplicate(), func_id, cost })
    }

    /// Hands the parts of the handle to the structure that consumes it.
    pub(crate) fn into_parts(self) -> (r: (FunctionTypeContext, u64, u64))
        ensures
            r.0.params_spec() == self.ty_spec().params_spec(),
            r.0.returns_spec() == self.ty_spec().returns_spec(),
            r.1 == self.func_id_spec(),
            r.2 == self.cost_spec(),
    {
        (self.ty, self.func_id, self.cost)
    }
}

/// A non-owning view of a function that a registry owns: its name was
/// resolved, and the view carries the signature, dispatch key and cost of
/// the resolved function. Destroying it is nobody's duty.
pub struct FunctionInstanceContext {
    ty: FunctionTypeContext,
    func_id: u64,
    cost: u64,
}

impl FunctionInstanceContext {
    /// The signature of the viewed function.
    pub closed spec fn ty_spec(&self) -> &FunctionTypeContext {
        &self.ty
    }

    /// The dispatch key of the viewed function.
    pub closed spec fn func_id_spec(&self) -> u64 {
        self.func_id
    }

    /// The cost of the viewed function.
    pub closed spec fn cost_spec(&self) -> u64 {
        self.cost
    }

    /// Builds a view from the parts a registry resolved.
    pub(crate) fn from_parts(ty: FunctionTypeContext, func_id: u64, cost: u64) -> (r:
        FunctionInstanceContext)
        ensures
            r.ty_spec().params_spec() == ty.params_spec(),
            r.ty_spec().returns_spec() == ty.returns_spec(),
            r.func_id_spec() == func_id,
            r.cost_spec() == cost,
    {
        FunctionInstanceContext { ty, func_id, cost }
    }

    /// The signature of the viewed function.
    pub fn function_type(&self) -> (r: &FunctionTypeContext)
        ensures
            r.params_spec() == self.ty_spec().params_spec(),
            r.returns_spec() == self.ty_spec().returns_spec(),
    {
        &self.ty
    }

    /// The dispatch key of the viewed function.
    pub fn func_id(&self) -> (r: u64)
        ensures
            r == self.func_id_spec(),
    {
        self.func_id
    }

    /// The cost of the viewed function.
    pub fn cost(&self) -> (r: u64)
        ensures
            r == self.cost_spec(),
    {
        self.cost
    }
}

} // verus!
