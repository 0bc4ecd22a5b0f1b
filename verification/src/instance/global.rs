//! Global instances: a typed value together with its mutability.

use vstd::prelude::*;
use crate::types::{WasmEdgeMutability, WasmEdgeValType};
use crate::value::WasmEdgeValue;

verus! {

/// A global instance: one typed value, constant or variable.
pub struct GlobalInstanceContext {
    value: WasmEdgeValue,
    mutability: WasmEdgeMutability,
}

impl GlobalInstanceContext {
    /// The current value of the global.
    pub closed spec fn value_spec(&self) -> WasmEdgeValue {
        self.value
    }

    /// Whether the global may be written after creation.
    pub closed spec fn mutability_spec(&self) -> WasmEdgeMutability {
        self.mutability
    }

    /// Builds a global holding `value`, constant or variable.
    pub fn create(value: WasmEdgeValue, mutable: WasmEdgeMutability) -> (r: Option<
        GlobalInstanceContext,
    >)
        ensures
            r is Some,
            r->Some_0.value_spec() == value,
            r->Some_0.mutability_spec() == mutable,
    {
        Some(GlobalInstanceContext { value, mutability: mutable })
    }

    /// The type tag of the held value.
    pub fn val_type(&self) -> (r: WasmEdgeValType)
        ensures
            r == self.value_spec().ty,
    {
        self.value.ty
    }

    /// The mutability of the global.
    pub fn mutability(&self) -> (r: WasmEdgeMutability)
        ensures
            r == self.mutability_spec(),
    {
        self.mutability
    }

    /// The current value of the global.
    pub fn value(&self) -> (r: WasmEdgeValue)
        ensures
            r == self.value_spec(),
    {
        self.value
    }

    /// Writes the global. The write takes effect only on a variable global
    /// and only when the new value carries the global's type tag; on a
    /// constant global, or under a mismatched tag, the value is silently
    /// kept, as the engine keeps it.
    pub fn value_mut(&mut self, value: WasmEdgeValue)
        ensures
            final(self).mutability_spec() == old(self).mutability_spec(),
            final(self).value_spec() == (if old(self).mutability_spec()
                == WasmEdgeMutability::WasmEdge_Mutability_Var && value.ty
                == old(self).value_spec().ty {
                value
            } else {
                old(self).value_spec()
            }),
    {
        let writable = match self.mutability {
            WasmEdgeMutability::WasmEdge_Mutability_Var => true,
            WasmEdgeMutability::WasmEdge_Mutability_Const => false,
        };
        if writable && value.ty == self.value.ty {
            self.value = value;
        }
    }

    /// Copies the global.
    pub fn duplicate(&self) -> (r: GlobalInstanceContext)
        ensures
            r.value_spec() == self.value_spec(),
            r.mutability_spec() == self.mutability_spec(),
    {
        GlobalInstanceContext { value: self.value, mutability: self.mutability }
    }
}

} // verus!
