//! Table instances: a growable run of reference values of one type.

use vstd::prelude::*;
use crate::error::{
    WasmEdgeError, WasmEdgeResult, CODE_FAILED, CODE_TABLE_OUT_OF_BOUNDS,
};
use crate::types::{WasmEdgeLimit, WasmEdgeRefType, WasmEdgeValType};
use crate::value::WasmEdgeValue;

verus! {

broadcast use vstd::seq_lib::group_seq_properties, vstd::prelude::Seq::lemma_take_succ_push;

/// The type tag of values a table of the given reference type holds.
pub open spec fn ref_val_type(rt: WasmEdgeRefType) -> WasmEdgeValType {
    match rt {
        WasmEdgeRefType::WasmEdge_RefType_FuncRef => WasmEdgeValType::WasmEdge_ValType_FuncRef,
        WasmEdgeRefType::WasmEdge_RefType_ExternRef => WasmEdgeValType::WasmEdge_ValType_ExternRef,
    }
}

/// The null reference a fresh table slot holds.
pub open spec fn null_ref(rt: WasmEdgeRefType) -> WasmEdgeValue {
    WasmEdgeValue { bits: 0, ty: ref_val_type(rt) }
}

/// A table instance: its reference type, its creation limit, and its slots.
pub struct TableInstanceContext {
    ref_type: WasmEdgeRefType,
    limit: WasmEdgeLimit,
    data: Vec<WasmEdgeValue>,
}

impl TableInstanceContext {
    /// The reference type of the table.
    pub closed spec fn ref_type_spec(&self) -> WasmEdgeRefType {
        self.ref_type
    }

    /// The limit the table was created with.
    pub closed spec fn limit_spec(&self) -> WasmEdgeLimit {
        self.limit
    }

    /// The slots of the table.
    pub closed spec fn data_spec(&self) -> Seq<WasmEdgeValue> {
        self.data@
    }

    /// Builds a table of `limit.Min` slots, each holding the null reference.
    pub fn create(ref_type: WasmEdgeRefType, limit: WasmEdgeLimit) -> (r: Option<
        TableInstanceContext,
    >)
        ensures
            r is Some,
            r->Some_0.ref_type_spec() == ref_type,
            r->Some_0.limit_spec() == limit,
            r->Some_0.data_spec().len() == limit.Min,
            forall|i: int|
                0 <= i < limit.Min ==> r->Some_0.data_spec()[i] == null_ref(ref_type),
    {
        let mut data: Vec<WasmEdgeValue> = Vec::new();
        let n = limit.Min;
        let mut i: u32 = 0;
        while i < n
            invariant
                i <= n,
                data@.len() == i,
                forall|j: int| 0 <= j < i ==> data@[j] == null_ref(ref_type),
            decreases n - i,
        {
            let tag = match ref_type {
                WasmEdgeRefType::WasmEdge_RefType_FuncRef =>
                    WasmEdgeValType::WasmEdge_ValType_FuncRef,
                WasmEdgeRefType::WasmEdge_RefType_ExternRef =>
                    WasmEdgeValType::WasmEdge_ValType_ExternRef,
            };
            data.push(WasmEdgeValue { bits: 0, ty: tag });
            i = i + 1;
        }
        Some(TableInstanceContext { ref_type, limit, data })
    }

    /// The reference type of the table.
    pub fn get_ref_type(&self) -> (r: WasmEdgeRefType)
        ensures
            r == self.ref_type_spec(),
    {
        self.ref_type
    }

    /// Writes a slot. The value must carry the table's reference type, else
    /// the engine's mismatched-value-type failure is reported; a slot index
    /// at or past the size is an out-of-bounds table access.
    pub fn set_data(&mut self, data: WasmEdgeValue, offset: usize) -> (r: WasmEdgeResult<()>)
        ensures
            r is Ok <==> (data.ty == ref_val_type(old(self).ref_type_spec()) && offset < old(self).data_spec().len()),
            r is Ok ==> final(self).data_spec() == old(self).data_spec().update(
                offset as int,
                data,
            ),
            r is Err ==> *final(self) == *old(self),
            r matches Err(e) ==> (e.code == CODE_FAILED || e.code == CODE_TABLE_OUT_OF_BOUNDS),
            r matches Err(e) ==> (e.code == CODE_TABLE_OUT_OF_BOUNDS <==> (data.ty == ref_val_type(
                old(self).ref_type_spec(),
            ) && offset >= old(self).data_spec().len())),
            final(self).ref_type_spec() == old(self).ref_type_spec(),
            final(self).limit_spec() == old(self).limit_spec(),
    {
        let expected = match self.ref_type {
            WasmEdgeRefType::WasmEdge_RefType_FuncRef => WasmEdgeValType::WasmEdge_ValType_FuncRef,
            WasmEdgeRefType::WasmEdge_RefType_ExternRef =>
                WasmEdgeValType::WasmEdge_ValType_ExternRef,
        };
        if !(data.ty == expected) {
            proof { reveal_strlit("mismatched value type"); }
            return Err(WasmEdgeError::with_message(CODE_FAILED, "mismatched value type".to_owned()));
        }
        if offset >= self.data.len() {
            return Err(WasmEdgeError::from_code(CODE_TABLE_OUT_OF_BOUNDS));
        }
        self.data[offset] = data;
        Ok(())
    }

    /// Reads a slot into `data`; a slot index at or past the size is an
    /// out-of-bounds table access and leaves `data` unchanged.
    pub fn get_data(&self, data: &mut WasmEdgeValue, offset: usize) -> (r: WasmEdgeResult<()>)
        ensures
            r is Ok <==> offset < self.data_spec().len(),
            r is Ok ==> *final(data) == self.data_spec()[offset as int],
            r is Err ==> *final(data) == *old(data),
            r matches Err(e) ==> e.code == CODE_TABLE_OUT_OF_BOUNDS,
    {
        if offset < self.data.len() {
            *data = self.data[offset];
            Ok(())
        } else {
            Err(WasmEdgeError::from_code(CODE_TABLE_OUT_OF_BOUNDS))
        }
    }

    /// The current number of slots.
    pub fn get_size(&self) -> (r: usize)
        ensures
            r == self.data_spec().len(),
    {
        self.data.len()
    }

    /// Grows the table by `size` slots, each holding the null reference.
    /// The engine grows past the creation maximum, and so does this layer;
    /// only a size that cannot be represented is rejected.
    pub fn grow(&mut self, size: usize) -> (r: WasmEdgeResult<()>)
        ensures
            r is Ok <==> old(self).data_spec().len() + size <= usize::MAX,
            r is Ok ==> final(self).data_spec().len() == old(self).data_spec().len() + size,
            r is Ok ==> final(self).data_spec().take(old(self).data_spec().len() as int) == old(self).data_spec(),
            r is Ok ==> forall|i: int|
                old(self).data_spec().len() <= i < final(self).data_spec().len() ==> final(self).data_spec()[i] == null_ref(old(self).ref_type_spec()),
            r is Err ==> *final(self) == *old(self),
            r matches Err(e) ==> e.code == CODE_TABLE_OUT_OF_BOUNDS,
            final(self).ref_type_spec() == old(self).ref_type_spec(),
            final(self).limit_spec() == old(self).limit_spec(),
    {
        let current = self.data.len();
        if usize::MAX - current < size {
            return Err(WasmEdgeError::from_code(CODE_TABLE_OUT_OF_BOUNDS));
        }
        let target = current + size;
        while self.data.len() < target
            invariant
                current + size == target,
                current <= self.data@.len() <= target,
                self.data@.take(current as int) == old(self).data_spec(),
                self.ref_type == old(self).ref_type_spec(),
                self.limit == old(self).limit_spec(),
                current == old(self).data_spec().len(),
                forall|i: int|
                    current <= i < self.data@.len() ==> self.data@[i] == null_ref(
                        old(self).ref_type_spec(),
                    ),
            decreases target - self.data@.len(),
        {
            let tag = match self.ref_type {
                WasmEdgeRefType::WasmEdge_RefType_FuncRef =>
                    WasmEdgeValType::WasmEdge_ValType_FuncRef,
                WasmEdgeRefType::WasmEdge_RefType_ExternRef =>
                    WasmEdgeValType::WasmEdge_ValType_ExternRef,
            };
            self.data.push(WasmEdgeValue { bits: 0, ty: tag });
            proof {
                assert(self.data@.take(current as int) =~= old(self).data_spec());
            }
        }
        Ok(())
    }
}

} // verus!
