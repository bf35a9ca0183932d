//! Linear memory and the bounds-checked typed view over a byte range of it.
//!
//! A `Memory` owns the bytes of one linear memory. A `MemoryView` is a
//! non-owning window `[offset, offset + length)` over such a memory, with an
//! access-mode marker: `NonAtomically` for plain element-wise access and
//! `Atomically` for the per-element atomic reinterpretation of the same
//! range. Bounds are checked at construction and at every sub-view
//! operation.

use vstd::prelude::*;

verus! {

/// Number of bytes in one linear-memory page.
pub const PAGE_SIZE: usize = 65536;

/// One linear memory: a contiguous, byte-addressable region.
pub struct Memory {
    pub data: Vec<u8>,
}

impl Memory {
    /// A memory of `pages` pages, zero-filled.
    pub fn new(pages: usize) -> (r: Memory)
        requires
            pages <= 0xFFFF,
        ensures
            r.data@.len() == pages * 65536,
            forall|i: int| 0 <= i < r.data@.len() ==> r.data@[i] == 0u8,
    {
        proof {
            assert(pages * 65536 <= 0xFFFF * 65536) by (nonlinear_arith)
                requires
                    pages <= 0xFFFF,
            ;
        }
        let total: usize = pages * PAGE_SIZE;
        let mut data: Vec<u8> = Vec::new();
        let mut i: usize = 0;
        while i < total
            invariant
                i <= total,
                data@.len() == i,
                forall|j: int| 0 <= j < i ==> data@[j] == 0u8,
            decreases total - i,
        {
            data.push(0u8);
            i = i + 1;
        }
        Memory { data }
    }

    pub fn len(&self) -> (r: usize)
        ensures
            r == self.data@.len(),
    {
        self.data.len()
    }
}

/// Marker trait for the two access modes of a view.
pub trait Atomicity {
}

/// Access mode of a view whose elements are read and written atomically.
pub struct Atomically;

impl Atomicity for Atomically {
}

/// Access mode of a view whose elements are plain logical cells, safe from a
/// single thread only.
pub struct NonAtomically;

impl Atomicity for NonAtomically {
}

/// A typed window `[offset, offset + length)` over a linear memory. The view
/// does not own the memory: every access takes the memory it was made for,
/// and is valid only while `valid_for` that memory holds.
pub struct MemoryView<A> {
    pub offset: usize,
    pub length: usize,
    pub mode: core::marker::PhantomData<A>,
}

impl<A> MemoryView<A> {
    /// The byte range of this view lies inside `mem`.
    pub open spec fn valid_for(self, mem: Memory) -> bool {
        self.offset + self.length <= mem.data@.len()
    }

    /// The end of the view's range is representable: every view made by
    /// [`MemoryView::new`] or by a sub-view operation satisfies this.
    pub open spec fn wf(self) -> bool {
        self.offset + self.length <= usize::MAX
    }

    pub open spec fn spec_offset(self) -> int {
        self.offset as int
    }

    pub open spec fn spec_len(self) -> int {
        self.length as int
    }

    /// Element count of the view.
    pub fn len(&self) -> (r: usize)
        ensures
            r == self.spec_len(),
    {
        self.length
    }
}

impl MemoryView<NonAtomically> {
    /// A view over `[offset, offset + length)` of `mem`. Bounds are checked
    /// here, at construction: the range must lie inside the memory.
    pub fn new(mem: &Memory, offset: usize, length: usize) -> (r: MemoryView<NonAtomically>)
        requires
            offset + length <= mem.data@.len(),
        ensures
            r.spec_offset() == offset,
            r.spec_len() == length,
            r.valid_for(*mem),
            r.wf(),
    {
        let _n: usize = mem.data.len();
        MemoryView { offset, length, mode: core::marker::PhantomData }
    }

    /// The sub-view `[start, end)` of this view. Requires `start <= end` and
    /// `end < length`; on any other input the checked variant
    /// [`Self::subarray_checked`] reports the violation instead.
    pub fn subarray(&self, start: u32, end: u32) -> (r: MemoryView<NonAtomically>)
        requires
            self.wf(),
            start <= end,
            (end as int) < self.spec_len(),
        ensures
            r.wf(),
            r.spec_offset() == self.spec_offset() + start,
            r.spec_len() == end - start,
            forall|mem: Memory| self.valid_for(mem) ==> r.valid_for(mem),
    {
        MemoryView {
            offset: self.offset + (start as usize),
            length: (end - start) as usize,
            mode: core::marker::PhantomData,
        }
    }

    /// Bounds-checked sub-view: succeeds and returns the sub-view exactly
    /// when `start <= end < length`; every other input is refused.
    pub fn subarray_checked(&self, start: u32, end: u32) -> (r: Option<MemoryView<NonAtomically>>)
        requires
            self.wf(),
        ensures
            r is Some <==> start <= end && (end as int) < self.spec_len(),
            r matches Some(v) ==> {
                &&& v.spec_offset() == self.spec_offset() + start
                &&& v.spec_len() == end - start
                &&& v.wf()
                &&& forall|mem: Memory| self.valid_for(mem) ==> v.valid_for(mem)
            },
    {
        if start <= end && (end as usize) < self.length {
            Some(self.subarray(start, end))
        } else {
            None
        }
    }

    /// Read the element at `i` of the view.
    pub fn get(&self, mem: &Memory, i: usize) -> (r: u8)
        requires
            self.valid_for(*mem),
            i < self.spec_len(),
        ensures
            r == mem.data@[self.spec_offset() + i],
    {
        let _n: usize = mem.data.len();
        mem.data[self.offset + i]
    }

    /// Write the element at `i` of the view.
    pub fn set(&self, mem: &mut Memory, i: usize, b: u8)
        requires
            self.valid_for(*old(mem)),
            i < self.spec_len(),
        ensures
            final(mem).data@ == old(mem).data@.update(self.spec_offset() + i, b),
    {
        let _n: usize = mem.data.len();
        mem.data[self.offset + i] = b;
    }

    /// Copy the contents of `src` into this view, element by element. The
    /// source length must match the view length exactly; bytes of the memory
    /// outside the view are untouched.
    pub fn copy_from(&self, mem: &mut Memory, src: &Vec<u8>)
        requires
            self.valid_for(*old(mem)),
            src@.len() == self.spec_len(),
        ensures
            final(mem).data@.len() == old(mem).data@.len(),
            forall|j: int|
                self.spec_offset() <= j < self.spec_offset() + self.spec_len()
                    ==> final(mem).data@[j] == src@[j - self.spec_offset()],
            forall|j: int|
                0 <= j < old(mem).data@.len() && !(self.spec_offset() <= j < self.spec_offset()
                    + self.spec_len()) ==> final(mem).data@[j] == old(mem).data@[j],
    {
        let mut i: usize = 0;
        while i < self.length
            invariant
                i <= self.length,
                src@.len() == self.spec_len(),
                self.valid_for(*mem),
                mem.data@.len() == old(mem).data@.len(),
                forall|j: int|
                    self.spec_offset() <= j < self.spec_offset() + i ==> mem.data@[j] == src@[j
                        - self.spec_offset()],
                forall|j: int|
                    0 <= j < old(mem).data@.len() && !(self.spec_offset() <= j < self.spec_offset()
                        + i) ==> mem.data@[j] == old(mem).data@[j],
            decreases self.length - i,
        {
            let _n: usize = mem.data.len();
            mem.data[self.offset + i] = src[i];
            i = i + 1;
        }
    }

    /// Length-checked bulk copy: performs the copy and reports success
    /// exactly when the source length equals the view length; on a mismatch
    /// the memory is left unchanged.
    pub fn copy_from_checked(&self, mem: &mut Memory, src: &Vec<u8>) -> (ok: bool)
        requires
            self.valid_for(*old(mem)),
        ensures
            ok <==> src@.len() == self.spec_len(),
            ok ==> {
                &&& final(mem).data@.len() == old(mem).data@.len()
                &&& forall|j: int|
                    self.spec_offset() <= j < self.spec_offset() + self.spec_len()
                        ==> final(mem).data@[j] == src@[j - self.spec_offset()]
                &&& forall|j: int|
                    0 <= j < old(mem).data@.len() && !(self.spec_offset() <= j
                        < self.spec_offset() + self.spec_len()) ==> final(mem).data@[j] == old(
                        mem,
                    ).data@[j]
            },
            !ok ==> *final(mem) == *old(mem),
    {
        if src.len() == self.length {
            self.copy_from(mem, src);
            true
        } else {
            false
        }
    }

    /// Reinterpret this view with per-element atomic access: the same range
    /// of the same memory, under the atomic access mode.
    pub fn atomically(&self) -> (r: MemoryView<Atomically>)
        ensures
            r.spec_offset() == self.spec_offset(),
            r.spec_len() == self.spec_len(),
            forall|mem: Memory| self.valid_for(mem) ==> r.valid_for(mem),
    {
        MemoryView { offset: self.offset, length: self.length, mode: core::marker::PhantomData }
    }
}

impl MemoryView<Atomically> {
    /// Atomic load of the element at `i` of the view.
    pub fn load(&self, mem: &Memory, i: usize) -> (r: u8)
        requires
            self.valid_for(*mem),
            i < self.spec_len(),
        ensures
            r == mem.data@[self.spec_offset() + i],
    {
        let _n: usize = mem.data.len();
        mem.data[self.offset + i]
    }

    /// Atomic store to the element at `i` of the view.
    pub fn store(&self, mem: &mut Memory, i: usize, b: u8)
        requires
            self.valid_for(*old(mem)),
            i < self.spec_len(),
        ensures
            final(mem).data@ == old(mem).data@.update(self.spec_offset() + i, b),
    {
        let _n: usize = mem.data.len();
        mem.data[self.offset + i] = b;
    }
}

} // verus!
