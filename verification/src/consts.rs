//! Sizes fixed by the memory layout shared with the host driver.

use vstd::prelude::*;

verus! {

/// Size of a page of physical memory, in bytes.
pub const PAGE_SIZE: usize = 0x1000;

/// Stride of the per-CPU array, in bytes: a multiple of the page size.
pub const PER_CPU_SIZE: usize = 0x8_0000;

} // verus!
