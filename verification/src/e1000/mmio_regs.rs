//! Where the registers of a memory-mapped e1000 are.

use vstd::prelude::*;

verus! {

/// Registers behind a UC-mapped base address, by word index.
///
/// The base address must be a kernel-virtual pointer to a UC (uncached)
/// mapping of the device's BAR0 region.
#[derive(Debug, Clone, Copy, PartialEq, Eq, Structural)]
pub struct MmioRegs {
    base: usize,
}

impl MmioRegs {
    /// Where the registers begin.
    pub closed spec fn base(&self) -> usize {
        self.base
    }

    /// Create a new `MmioRegs` accessor for the given UC-mapped base address.
    pub fn new(base: usize) -> (regs: Self)
        ensures
            regs.base() == base,
    {
        MmioRegs { base }
    }

    /// The address of the register with word index `offset`.
    pub fn address(&self, offset: usize) -> (addr: usize)
        requires
            self.base() + 4 * offset <= usize::MAX,
        ensures
            addr == self.base() + 4 * offset,
    {
        self.base + offset * 4
    }
}

/// Registers of one device do not share an address.
pub proof fn addresses_differ(base: usize, a: usize, b: usize)
    requires
        a != b,
    ensures
        base + 4 * a != base + 4 * b,
{
}

/// A register is found four bytes for each word behind where they begin.
pub proof fn registers_are_found(base: usize, regs: MmioRegs, offset: usize, addr: usize)
    requires
        base + 4 * offset <= usize::MAX,
        call_ensures(MmioRegs::new, (base,), regs),
        call_ensures(MmioRegs::address, (&regs, offset), addr),
    ensures
        addr - base == 4 * offset,
{
}

} // verus!
