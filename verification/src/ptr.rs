//! Typed-pointer primitives over the target's address space.
//!
//! A pointer pairs an absolute address with the byte size of the element it
//! points at; `offset` scales by that size, `read` and `index` fetch one
//! element's bytes.  The 64-bit family wraps all arithmetic at the 64-bit
//! address-space boundary.  The 32-bit family holds a 32-bit address whose
//! byte offsets wrap at 32 bits, while `index` widens to 64-bit arithmetic
//! before scaling, mirroring how such pointers behave on a 64-bit reader.

use vstd::prelude::*;
use crate::mem::{sread_bytes, wadd, wmul, ProcessMemory, TargetView};

verus! {

/// A typed pointer into a 64-bit target: an absolute address plus the byte
/// size of the pointed-at element.
#[derive(Clone, Copy, PartialEq, Eq, Structural)]
pub struct MonoPtr64 {
    /// Absolute address in the target.
    pub addr: u64,
    /// Byte size of one pointed-at element.
    pub elem: u64,
}

/// The pointer `p.offset(n)`: `n` elements past `p`, wrapping at the 64-bit
/// address-space boundary.
pub open spec fn ptr64_offset(p: MonoPtr64, n: u64) -> MonoPtr64 {
    MonoPtr64 { addr: wadd(p.addr, wmul(n, p.elem)), elem: p.elem }
}

/// The bytes `p.read(mem)` yields: one element at `p`'s address.
pub open spec fn ptr64_read(v: TargetView, p: MonoPtr64) -> Option<Seq<u8>> {
    sread_bytes(v, p.addr, p.elem as nat)
}

/// The bytes `p.index(mem, i)` yields: one element at `i` elements past `p`.
pub open spec fn ptr64_index(v: TargetView, p: MonoPtr64, i: u64) -> Option<Seq<u8>> {
    sread_bytes(v, wadd(p.addr, wmul(i, p.elem)), p.elem as nat)
}

/// Indexing the `i`-th element reads exactly the bytes that offsetting by
/// `i` elements and then reading does.
pub proof fn lemma_index_is_offset_read(v: TargetView, p: MonoPtr64, i: u64)
    ensures
        ptr64_index(v, p, i) == ptr64_read(v, ptr64_offset(p, i)),
{
}

impl MonoPtr64 {
    /// A pointer at `addr` whose elements are `elem` bytes wide.
    pub fn new(addr: u64, elem: u64) -> (r: MonoPtr64)
        ensures
            r == (MonoPtr64 { addr, elem }),
    {
        MonoPtr64 { addr, elem }
    }

    /// The absolute address.
    pub fn get(&self) -> (r: u64)
        ensures
            r == self.addr,
    {
        self.addr
    }

    /// Whether the pointer is the null address.
    pub fn is_null(&self) -> (r: bool)
        ensures
            r == (self.addr == 0),
    {
        self.addr == 0
    }

    /// `n` elements past this pointer.
    pub fn offset(&self, n: u64) -> (r: MonoPtr64)
        ensures
            r == ptr64_offset(*self, n),
    {
        MonoPtr64 { addr: self.addr.wrapping_add(n.wrapping_mul(self.elem)), elem: self.elem }
    }

    /// `bytes` bytes past this pointer, keeping the element size.
    pub fn byte_offset(&self, bytes: u64) -> (r: MonoPtr64)
        ensures
            r == (MonoPtr64 { addr: wadd(self.addr, bytes), elem: self.elem }),
    {
        MonoPtr64 { addr: self.addr.wrapping_add(bytes), elem: self.elem }
    }

    /// The same address retyped to elements of `elem` bytes.
    pub fn cast(&self, elem: u64) -> (r: MonoPtr64)
        ensures
            r == (MonoPtr64 { addr: self.addr, elem }),
    {
        MonoPtr64 { addr: self.addr, elem }
    }

    /// One element's bytes at this pointer's address.
    pub fn read(&self, p: &ProcessMemory) -> (r: Option<Vec<u8>>)
        requires
            self.elem <= usize::MAX,
        ensures
            match r {
                Some(b) => ptr64_read(p@, *self) == Some(b@),
                None => ptr64_read(p@, *self) is None,
            },
    {
        p.read_bytes(self.addr, self.elem as usize)
    }

    /// One element's bytes, `i` elements past this pointer.
    pub fn index(&self, p: &ProcessMemory, i: u64) -> (r: Option<Vec<u8>>)
        requires
            self.elem <= usize::MAX,
        ensures
            match r {
                Some(b) => ptr64_index(p@, *self, i) == Some(b@),
                None => ptr64_index(p@, *self, i) is None,
            },
    {
        p.read_bytes(self.addr.wrapping_add(i.wrapping_mul(self.elem)), self.elem as usize)
    }

    /// A fixed window of `n` bytes at this pointer, the raw material of a
    /// C-string comparison.
    pub fn read_str(&self, p: &ProcessMemory, n: usize) -> (r: Option<Vec<u8>>)
        ensures
            match r {
                Some(b) => sread_bytes(p@, self.addr, n as nat) == Some(b@),
                None => sread_bytes(p@, self.addr, n as nat) is None,
            },
    {
        p.read_bytes(self.addr, n)
    }
}

/// A typed pointer into a 32-bit target: a 32-bit absolute address plus the
/// byte size of the pointed-at element.
#[derive(Clone, Copy, PartialEq, Eq, Structural)]
pub struct MonoPtr32 {
    /// Absolute address in the target, 32 bits wide.
    pub addr: u32,
    /// Byte size of one pointed-at element.
    pub elem: u32,
}

/// The bytes `p.read(mem)` yields: one element at `p`'s widened address.
pub open spec fn ptr32_read(v: TargetView, p: MonoPtr32) -> Option<Seq<u8>> {
    sread_bytes(v, p.addr as u64, p.elem as nat)
}

/// The bytes `p.index(mem, i)` yields; the scaling is performed in 64-bit
/// arithmetic after widening the address.
pub open spec fn ptr32_index(v: TargetView, p: MonoPtr32, i: u64) -> Option<Seq<u8>> {
    sread_bytes(v, wadd(p.addr as u64, wmul(i, p.elem as u64)), p.elem as nat)
}

impl MonoPtr32 {
    /// A pointer at `addr` whose elements are `elem` bytes wide.
    pub fn new(addr: u32, elem: u32) -> (r: MonoPtr32)
        ensures
            r == (MonoPtr32 { addr, elem }),
    {
        MonoPtr32 { addr, elem }
    }

    /// The absolute address, widened.
    pub fn get(&self) -> (r: u64)
        ensures
            r == self.addr as u64,
    {
        self.addr as u64
    }

    /// Whether the pointer is the null address.
    pub fn is_null(&self) -> (r: bool)
        ensures
            r == (self.addr == 0),
    {
        self.addr == 0
    }

    /// `bytes` bytes past this pointer, wrapping at the 32-bit boundary.
    pub fn byte_offset(&self, bytes: u32) -> (r: MonoPtr32)
        ensures
            r == (MonoPtr32 {
                addr: vstd::wrapping::u32_specs::wrapping_add(self.addr, bytes),
                elem: self.elem,
            }),
    {
        MonoPtr32 { addr: self.addr.wrapping_add(bytes), elem: self.elem }
    }

    /// The same address retyped to elements of `elem` bytes.
    pub fn cast(&self, elem: u32) -> (r: MonoPtr32)
        ensures
            r == (MonoPtr32 { addr: self.addr, elem }),
    {
        MonoPtr32 { addr: self.addr, elem }
    }

    /// One element's bytes at this pointer's address.
    pub fn read(&self, p: &ProcessMemory) -> (r: Option<Vec<u8>>)
        ensures
            match r {
                Some(b) => ptr32_read(p@, *self) == Some(b@),
                None => ptr32_read(p@, *self) is None,
            },
    {
        p.read_bytes(self.addr as u64, self.elem as usize)
    }

    /// One element's bytes, `i` elements past this pointer.
    pub fn index(&self, p: &ProcessMemory, i: u64) -> (r: Option<Vec<u8>>)
        ensures
            match r {
                Some(b) => ptr32_index(p@, *self, i) == Some(b@),
                None => ptr32_index(p@, *self, i) is None,
            },
    {
        p.read_bytes(
            (self.addr as u64).wrapping_add(i.wrapping_mul(self.elem as u64)),
            self.elem as usize,
        )
    }

    /// A fixed window of `n` bytes at this pointer, the raw material of a
    /// C-string comparison.
    pub fn read_str(&self, p: &ProcessMemory, n: usize) -> (r: Option<Vec<u8>>)
        ensures
            match r {
                Some(b) => sread_bytes(p@, self.addr as u64, n as nat) == Some(b@),
                None => sread_bytes(p@, self.addr as u64, n as nat) is None,
            },
    {
        p.read_bytes(self.addr as u64, n)
    }
}

} // verus!
