//! Addresses, access flags and the descriptor of a mapping request.

use vstd::prelude::*;

verus! {

pub type PhysAddr = usize;

pub type VirtAddr = usize;

/// Access flags of a memory region, as a set of bits.
#[derive(Clone, Copy, Debug, PartialEq, Eq, Structural)]
pub struct MemFlags {
    bits: u64,
}

pub const MEM_READ: u64 = 1;

pub const MEM_WRITE: u64 = 2;

pub const MEM_EXECUTE: u64 = 4;

pub const MEM_IO: u64 = 8;

impl View for MemFlags {
    type V = u64;

    closed spec fn view(&self) -> u64 {
        self.bits
    }
}

impl MemFlags {
    /// The flags with exactly the bits of `bits`; reserved bits are kept.
    pub fn from_bits(bits: u64) -> (f: MemFlags)
        ensures
            f@ == bits,
    {
        MemFlags { bits }
    }

    pub fn empty() -> (f: MemFlags)
        ensures
            f@ == 0,
    {
        MemFlags { bits: 0 }
    }

    pub fn read() -> (f: MemFlags)
        ensures
            f@ == MEM_READ,
    {
        MemFlags { bits: MEM_READ }
    }

    pub fn write() -> (f: MemFlags)
        ensures
            f@ == MEM_WRITE,
    {
        MemFlags { bits: MEM_WRITE }
    }

    pub fn execute() -> (f: MemFlags)
        ensures
            f@ == MEM_EXECUTE,
    {
        MemFlags { bits: MEM_EXECUTE }
    }

    pub fn io() -> (f: MemFlags)
        ensures
            f@ == MEM_IO,
    {
        MemFlags { bits: MEM_IO }
    }

    pub fn bits(&self) -> (bits: u64)
        ensures
            bits == self@,
    {
        self.bits
    }

    /// Whether every bit of `other` is set in `self`.
    pub fn contains(&self, other: MemFlags) -> (b: bool)
        ensures
            b == (self@ & other@ == other@),
    {
        self.bits & other.bits == other.bits
    }

    /// The flags set in `self` or in `other`.
    pub fn union(self, other: MemFlags) -> (f: MemFlags)
        ensures
            f@ == self@ | other@,
    {
        MemFlags { bits: self.bits | other.bits }
    }
}

/// A union holds both of its operands, and holds a flag only if one of them does.
pub proof fn lemma_union_contains(a: MemFlags, b: MemFlags, c: MemFlags)
    ensures
        (a@ | b@) & a@ == a@,
        (a@ | b@) & b@ == b@,
        (a@ | b@) & c@ == (a@ & c@) | (b@ & c@),
{
    let x = a@;
    let y = b@;
    let z = c@;
    assert((x | y) & x == x) by (bit_vector);
    assert((x | y) & y == y) by (bit_vector);
    assert((x | y) & z == (x & z) | (y & z)) by (bit_vector);
}

/// A request to map `size` bytes of physical memory at `phys_start` to the
/// virtual address `start`, at a fixed offset, with the access rights `flags`.
#[derive(Clone, Copy, Debug, PartialEq, Eq, Structural)]
pub struct MemoryRegion {
    pub start: VirtAddr,
    pub phys_start: PhysAddr,
    pub size: usize,
    pub flags: MemFlags,
}

impl MemoryRegion {
    pub fn new_with_offset_mapper(
        start_vaddr: VirtAddr,
        start_paddr: PhysAddr,
        size: usize,
        flags: MemFlags,
    ) -> (region: MemoryRegion)
        ensures
            region == (MemoryRegion { start: start_vaddr, phys_start: start_paddr, size, flags }),
    {
        MemoryRegion { start: start_vaddr, phys_start: start_paddr, size, flags }
    }
}

} // verus!
