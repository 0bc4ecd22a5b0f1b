//! Memory instances: pages of zero-initialized bytes with bounds-checked
//! reads and writes.

use vstd::prelude::*;
use crate::error::{WasmEdgeError, WasmEdgeResult, CODE_MEMORY_OUT_OF_BOUNDS};
use crate::types::WasmEdgeLimit;

verus! {

broadcast use vstd::seq_lib::group_seq_properties, vstd::prelude::Seq::lemma_take_succ_push;

/// The number of bytes in one memory page.
pub const PAGE_SIZE: usize = 65536;

/// A memory instance: its creation limit and its bytes.
pub struct MemoryInstanceContext {
    limit: WasmEdgeLimit,
    pages: usize,
    data: Vec<u8>,
}

impl MemoryInstanceContext {
    /// The limit the memory was created with.
    pub closed spec fn limit_spec(&self) -> WasmEdgeLimit {
        self.limit
    }

    /// The current number of pages.
    pub closed spec fn pages_spec(&self) -> usize {
        self.pages
    }

    /// The bytes of the memory.
    pub closed spec fn data_spec(&self) -> Seq<u8> {
        self.data@
    }

    /// The memory always holds exactly its pages' worth of bytes.
    pub open spec fn wf(&self) -> bool {
        self.data_spec().len() == self.pages_spec() * PAGE_SIZE
    }

    /// Appends `count` pages of zero bytes to `data`.
    fn push_zero_pages(data: &mut Vec<u8>, count: usize) -> (r: bool)
        ensures
            r <==> old(data)@.len() + count * PAGE_SIZE <= usize::MAX,
            r ==> final(data)@.len() == old(data)@.len() + count * PAGE_SIZE,
            r ==> final(data)@.take(old(data)@.len() as int) == old(data)@,
            r ==> forall|i: int|
                old(data)@.len() <= i < final(data)@.len() ==> final(data)@[i] == 0u8,
            !r ==> final(data)@ == old(data)@,
    {
        let extra = match count.checked_mul(PAGE_SIZE) {
            Some(e) => e,
            None => {
                return false;
            },
        };
        let current = data.len();
        if usize::MAX - current < extra {
            return false;
        }
        let target = current + extra;
        while data.len() < target
            invariant
                current <= data@.len() <= target,
                current == old(data)@.len(),
                current + extra == target,
                extra == count * PAGE_SIZE,
                data@.take(current as int) == old(data)@,
                forall|i: int| current <= i < data@.len() ==> data@[i] == 0u8,
            decreases target - data@.len(),
        {
            data.push(0u8);
            proof {
                assert(data@.take(current as int) =~= old(data)@);
            }
        }
        true
    }

    /// Builds a memory of `limit.Min` pages of zero bytes; a page count
    /// whose byte size cannot be represented yields no instance, as an
    /// allocation the engine cannot make.
    pub fn create(limit: WasmEdgeLimit) -> (r: Option<MemoryInstanceContext>)
        ensures
            r is Some <==> limit.Min * PAGE_SIZE <= usize::MAX,
            r matches Some(m) ==> {
                &&& m.limit_spec() == limit
                &&& m.pages_spec() == limit.Min
                &&& m.wf()
                &&& forall|i: int| 0 <= i < m.data_spec().len() ==> m.data_spec()[i] == 0u8
            },
    {
        let mut data: Vec<u8> = Vec::new();
        let pages = limit.Min as usize;
        if !Self::push_zero_pages(&mut data, pages) {
            return None;
        }
        Some(MemoryInstanceContext { limit, pages, data })
    }

    /// Writes `data` at `offset`; a write that would run past the end is an
    /// out-of-bounds memory access and changes nothing.
    pub fn set_data(&mut self, data: &[u8], offset: usize) -> (r: WasmEdgeResult<()>)
        ensures
            r is Ok <==> offset + data@.len() <= old(self).data_spec().len(),
            r is Ok ==> {
                &&& final(self).data_spec().len() == old(self).data_spec().len()
                &&& forall|i: int|
                    0 <= i < offset ==> final(self).data_spec()[i] == old(self).data_spec()[i]
                &&& forall|i: int|
                    offset <= i < offset + data@.len() ==> final(self).data_spec()[i] == data@[i
                        - offset]
                &&& forall|i: int|
                    offset + data@.len() <= i < old(self).data_spec().len() ==> final(self).data_spec()[i] == old(self).data_spec()[i]
            },
            r is Err ==> *final(self) == *old(self),
            r matches Err(e) ==> e.code == CODE_MEMORY_OUT_OF_BOUNDS,
            final(self).limit_spec() == old(self).limit_spec(),
            final(self).pages_spec() == old(self).pages_spec(),
    {
        let len = data.len();
        if len > self.data.len() || offset > self.data.len() - len {
            return Err(WasmEdgeError::from_code(CODE_MEMORY_OUT_OF_BOUNDS));
        }
        let bound = self.data.len();
        let mut i: usize = 0;
        while i < len
            invariant
                i <= len,
                offset + len <= bound,
                bound == self.data@.len(),
                self.data@.len() == old(self).data_spec().len(),
                self.limit == old(self).limit_spec(),
                self.pages == old(self).pages_spec(),
                len == data@.len(),
                forall|j: int| 0 <= j < offset ==> self.data@[j] == old(self).data_spec()[j],
                forall|j: int|
                    offset <= j < offset + i ==> self.data@[j] == data@[j - offset],
                forall|j: int|
                    offset + len <= j < self.data@.len() ==> self.data@[j] == old(self).data_spec()[j],
                forall|j: int|
                    offset + i <= j < offset + len ==> self.data@[j] == old(self).data_spec()[j],
            decreases len - i,
        {
            let b = *vstd::slice::slice_index_get(data, i);
            self.data[offset + i] = b;
            i = i + 1;
        }
        Ok(())
    }

    /// Reads `data.len()` bytes at `offset` into `data`; a read that would
    /// run past the end is an out-of-bounds memory access and leaves `data`
    /// unchanged.
    pub fn get_data(&self, data: &mut Vec<u8>, offset: usize) -> (r: WasmEdgeResult<()>)
        ensures
            r is Ok <==> offset + old(data)@.len() <= self.data_spec().len(),
            r is Ok ==> final(data)@ == self.data_spec().subrange(
                offset as int,
                offset + old(data)@.len(),
            ),
            r is Err ==> *final(data) == *old(data),
            r matches Err(e) ==> e.code == CODE_MEMORY_OUT_OF_BOUNDS,
    {
        let len = data.len();
        if len > self.data.len() || offset > self.data.len() - len {
            return Err(WasmEdgeError::from_code(CODE_MEMORY_OUT_OF_BOUNDS));
        }
        let bound = self.data.len();
        let mut i: usize = 0;
        while i < len
            invariant
                i <= len,
                offset + len <= bound,
                bound == self.data@.len(),
                data@.len() == len,
                old(data)@.len() == len,
                forall|j: int| 0 <= j < i ==> data@[j] == self.data@[offset + j],
                forall|j: int| i <= j < len ==> data@[j] == old(data)@[j],
            decreases len - i,
        {
            let b = self.data[offset + i];
            data[i] = b;
            i = i + 1;
        }
        proof {
            assert(data@ =~= self.data_spec().subrange(offset as int, offset + old(data)@.len()));
        }
        Ok(())
    }

    /// The current number of pages.
    pub fn page_size(&self) -> (r: usize)
        ensures
            r == self.pages_spec(),
    {
        self.pages
    }

    /// Grows the memory by `page` zero pages; growing past the creation
    /// maximum, or to a byte size that cannot be represented, is an
    /// out-of-bounds memory access and changes nothing.
    pub fn grow_page(&mut self, page: usize) -> (r: WasmEdgeResult<()>)
        requires
            old(self).wf(),
        ensures
            final(self).wf(),
            r is Ok ==> final(self).pages_spec() == old(self).pages_spec() + page,
            r is Ok ==> final(self).data_spec().take(old(self).data_spec().len() as int) == old(self).data_spec(),
            r is Ok ==> forall|i: int|
                old(self).data_spec().len() <= i < final(self).data_spec().len() ==> final(self).data_spec()[i] == 0u8,
            r is Err ==> final(self).data_spec() == old(self).data_spec() && final(self).pages_spec() == old(self).pages_spec(),
            r matches Err(e) ==> e.code == CODE_MEMORY_OUT_OF_BOUNDS,
            old(self).limit_spec().HasMax && old(self).pages_spec() + page > old(self).limit_spec().Max ==> r is Err,
            final(self).limit_spec() == old(self).limit_spec(),
    {
        if usize::MAX - self.pages < page {
            return Err(WasmEdgeError::from_code(CODE_MEMORY_OUT_OF_BOUNDS));
        }
        let target_pages = self.pages + page;
        if self.limit.HasMax {
            let max = self.limit.Max as usize;
            if target_pages > max {
                return Err(WasmEdgeError::from_code(CODE_MEMORY_OUT_OF_BOUNDS));
            }
        }
        if !Self::push_zero_pages(&mut self.data, page) {
            return Err(WasmEdgeError::from_code(CODE_MEMORY_OUT_OF_BOUNDS));
        }
        self.pages = target_pages;
        proof {
            vstd::arithmetic::mul::lemma_mul_is_distributive_add_other_way(
                PAGE_SIZE as int,
                old(self).pages_spec() as int,
                page as int,
            );
        }
        Ok(())
    }
}

} // verus!
