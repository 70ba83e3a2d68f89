//! Address spaces.

use vstd::prelude::*;

verus! {

/// How the kernel sees memory: all of physical memory is mapped at an offset
/// (`vaddr = paddr + phys_offset`), and the kernel image, its heap with it, at
/// another (`paddr = vaddr - kernel_offset`).
#[derive(Debug, Clone, Copy, PartialEq, Eq, Structural)]
pub struct MemoryMapper {
    phys_offset: u64,
    kernel_offset: u64,
}

impl MemoryMapper {
    /// Offset at which physical memory is mapped.
    pub closed spec fn phys(&self) -> u64 {
        self.phys_offset
    }

    /// Offset of the kernel image.
    pub closed spec fn kernel(&self) -> u64 {
        self.kernel_offset
    }

    pub fn new(phys_offset: u64, kernel_offset: u64) -> (memory: Self)
        ensures
            memory.phys() == phys_offset,
            memory.kernel() == kernel_offset,
    {
        MemoryMapper { phys_offset, kernel_offset }
    }

    /// Offset at which physical memory is mapped.
    pub fn phys_offset(&self) -> (offset: u64)
        ensures
            offset == self.phys(),
    {
        self.phys_offset
    }

    /// Offset of the kernel image.
    pub fn kernel_offset(&self) -> (offset: u64)
        ensures
            offset == self.kernel(),
    {
        self.kernel_offset
    }
}

/// A mapper tells the offsets that it was made with, each in its place.
pub proof fn offsets_are_told(phys: u64, kernel: u64, memory: MemoryMapper, p: u64, k: u64)
    requires
        call_ensures(MemoryMapper::new, (phys, kernel), memory),
        call_ensures(MemoryMapper::phys_offset, (&memory,), p),
        call_ensures(MemoryMapper::kernel_offset, (&memory,), k),
    ensures
        p == phys,
        k == kernel,
{
}

} // verus!
