//! DMA memory.

use vstd::prelude::*;

verus! {

/// A physically contiguous region and the address it is mapped at.
#[derive(Debug, Clone, Copy, PartialEq, Eq, Structural)]
pub struct DmaRegion {
    pub vaddr: usize,
    pub paddr: usize,
    pub size: usize,
}

// ── DMA memory from the heap ────────────────────────────────────────────

/// DMA allocator over the kernel heap, with offset-mapped memory: heap memory
/// is at `paddr + kernel_offset` where the kernel allocates it, and at
/// `paddr + phys_offset` where devices' memory is used.
#[derive(Debug, Clone, Copy, PartialEq, Eq, Structural)]
pub struct BootDmaAllocator {
    pub kernel_offset: u64,
    pub phys_offset: u64,
}

impl BootDmaAllocator {
    /// Whether heap memory at `heap_vaddr` can be a region.
    pub open spec fn covers(&self, heap_vaddr: int) -> bool {
        &&& self.kernel_offset <= heap_vaddr <= usize::MAX
        &&& heap_vaddr - self.kernel_offset + self.phys_offset <= usize::MAX
    }

    /// The region that heap memory at `heap_vaddr` makes.
    pub open spec fn region(&self, heap_vaddr: int, size: usize) -> DmaRegion {
        DmaRegion {
            vaddr: (heap_vaddr - self.kernel_offset + self.phys_offset) as usize,
            paddr: (heap_vaddr - self.kernel_offset) as usize,
            size,
        }
    }

    /// The region that `size` bytes of zeroed heap memory at `heap_vaddr` make.
    pub fn alloc_coherent(&self, heap_vaddr: usize, size: usize) -> (region: DmaRegion)
        requires
            self.covers(heap_vaddr as int),
        ensures
            region == self.region(heap_vaddr as int, size),
    {
        let paddr: u64 = heap_vaddr as u64 - self.kernel_offset;
        let vaddr: u64 = paddr + self.phys_offset;
        DmaRegion { vaddr: vaddr as usize, paddr: paddr as usize, size }
    }

    /// The heap memory that makes up a region, to be freed.
    pub fn free_coherent(&self, region: &DmaRegion) -> (heap_vaddr: usize)
        requires
            self.phys_offset <= region.vaddr,
            region.vaddr - self.phys_offset + self.kernel_offset <= usize::MAX,
        ensures
            heap_vaddr == region.vaddr - self.phys_offset + self.kernel_offset,
    {
        let paddr: u64 = region.vaddr as u64 - self.phys_offset;
        let heap_vaddr: u64 = paddr + self.kernel_offset;
        heap_vaddr as usize
    }
}

/// Freeing a region gives back the memory that it was made of.
pub proof fn region_round_trip(dma: BootDmaAllocator, heap_vaddr: int, size: usize)
    requires
        dma.covers(heap_vaddr),
    ensures
        dma.phys_offset <= dma.region(heap_vaddr, size).vaddr,
        dma.region(heap_vaddr, size).vaddr - dma.phys_offset + dma.kernel_offset == heap_vaddr,
        dma.region(heap_vaddr, size).vaddr == dma.region(heap_vaddr, size).paddr + dma.phys_offset,
        dma.region(heap_vaddr, size).size == size,
{
}

// ── DMA memory from a pool ──────────────────────────────────────────────

/// A range of physical memory, as the bootloader reports it.
#[derive(Debug, Clone, Copy, PartialEq, Eq, Structural)]
pub struct MemoryRange {
    pub base: u64,
    pub length: u64,
    /// Whether the kernel may use it.
    pub usable: bool,
}

/// Whether a range can be the pool: it is usable, not empty, and ends below
/// 4 GiB.
pub open spec fn can_be_pool(range: MemoryRange) -> bool {
    range.usable && range.length > 0 && range.base + range.length <= 0xFFFF_FFFF
}

/// `i` is the range to take for the pool: the first of the longest that can be.
pub open spec fn is_pool_range(ranges: Seq<MemoryRange>, i: int) -> bool {
    &&& 0 <= i < ranges.len()
    &&& can_be_pool(ranges[i])
    &&& forall|j: int|
        0 <= j < ranges.len() && can_be_pool(#[trigger] ranges[j]) ==> ranges[j].length
            <= ranges[i].length
    &&& forall|j: int|
        0 <= j < i && can_be_pool(#[trigger] ranges[j]) ==> ranges[j].length < ranges[i].length
}

/// No range can be the pool.
pub open spec fn no_pool_range(ranges: Seq<MemoryRange>) -> bool {
    forall|i: int| 0 <= i < ranges.len() ==> !can_be_pool(#[trigger] ranges[i])
}

/// Physical page allocator over one range of memory. It hands memory out from
/// the bottom up and takes none back.
#[derive(Debug, Clone, Copy, PartialEq, Eq, Structural)]
pub struct DmaPool {
    next: usize,
    end: usize,
}

/// Take a pool from the memory map: the first of the longest usable ranges
/// below 4 GiB. There is none only where no range is usable, not empty, and
/// ends below 4 GiB.
pub fn init_dma_pool(ranges: &[MemoryRange]) -> (r: Option<DmaPool>)
    ensures
        match r {
            Some(pool) => exists|i: int| #[trigger]
                is_pool_range(ranges@, i) && pool.next() == ranges@[i].base && pool.end()
                    == ranges@[i].base + ranges@[i].length,
            None => forall|i: int| 0 <= i < ranges@.len() ==> !can_be_pool(#[trigger] ranges@[i]),
        },
        r is None ==> no_pool_range(ranges@),
{
    let n: usize = ranges.len();
    let mut best: usize = 0;
    let mut best_len: u64 = 0;
    let mut i: usize = 0;
    while i < n
        invariant
            i <= n,
            n == ranges@.len(),
            best_len == 0 ==> forall|j: int| 0 <= j < i ==> !can_be_pool(#[trigger] ranges@[j]),
            best_len > 0 ==> {
                &&& best < i
                &&& can_be_pool(ranges@[best as int])
                &&& ranges@[best as int].length == best_len
                &&& forall|j: int|
                    0 <= j < i && can_be_pool(#[trigger] ranges@[j]) ==> ranges@[j].length
                        <= best_len
                &&& forall|j: int|
                    0 <= j < best && can_be_pool(#[trigger] ranges@[j]) ==> ranges@[j].length
                        < best_len
            },
        decreases n - i,
    {
        let range: MemoryRange = ranges[i];
        if range.usable && range.length > best_len && range.base <= 0xFFFF_FFFF && range.length
            <= 0xFFFF_FFFF - range.base {
            best = i;
            best_len = range.length;
        }
        i += 1;
    }
    if best_len == 0 {
        return None;
    }
    let range: MemoryRange = ranges[best];
    assert(is_pool_range(ranges@, best as int));
    Some(DmaPool { next: range.base as usize, end: (range.base + range.length) as usize })
}

/// `x` rounded up so that the bits below `align` are clear.
pub open spec fn align_up(x: usize, align: usize) -> usize {
    ((x + align - 1) as usize) & !((align - 1) as usize)
}

/// For an alignment that is a power of two, rounding up clears the bits below
/// it, and goes up by less than the alignment.
pub proof fn align_up_is_least(x: usize, align: usize)
    requires
        align > 0,
        align & (align - 1) as usize == 0,
        x + align - 1 <= usize::MAX,
    ensures
        align_up(x, align) & (align - 1) as usize == 0,
        x <= align_up(x, align) <= x + align - 1,
{
    let mask = (align - 1) as usize;
    let sum = (x + align - 1) as usize;
    assert((sum & !mask) & mask == 0) by (bit_vector);
    assert(sum & !mask <= sum && sum - (sum & !mask) <= mask) by (bit_vector);
}

impl DmaPool {
    /// The first byte that has not been handed out.
    pub closed spec fn next(&self) -> usize {
        self.next
    }

    /// Where the pool ends.
    pub closed spec fn end(&self) -> usize {
        self.end
    }

    /// Whether a request can be met.
    pub open spec fn fits(&self, size: usize, align: usize) -> bool {
        align_up(self.next(), align) + size <= self.end()
    }

    /// Hand out `size` bytes, aligned to `align`, and say where they are:
    /// physical memory is mapped at `hhdm_offset`. The caller zeroes them.
    /// `None` if the pool is exhausted.
    pub fn alloc_coherent(&mut self, size: usize, align: usize, hhdm_offset: usize) -> (r: Option<
        DmaRegion,
    >)
        requires
            align > 0,
            old(self).next() + align <= usize::MAX,
            old(self).end() + hhdm_offset <= usize::MAX,
        ensures
            final(self).end() == old(self).end(),
            match r {
                Some(region) => {
                    &&& old(self).fits(size, align)
                    &&& region.paddr == align_up(old(self).next(), align)
                    &&& region.vaddr == region.paddr + hhdm_offset
                    &&& region.size == size
                    &&& final(self).next() == region.paddr + size
                },
                None => !old(self).fits(size, align) && final(self).next() == old(self).next(),
            },
    {
        let aligned: usize = (self.next + align - 1) & !(align - 1);
        if aligned > self.end || size > self.end - aligned {
            return None;
        }
        let paddr: usize = aligned;
        self.next = aligned + size;
        Some(DmaRegion { vaddr: paddr + hhdm_offset, paddr, size })
    }
}

/// A region that is handed out after `first` begins where `first` ends or
/// beyond, and so shares no byte with it.
pub proof fn regions_are_disjoint(first: DmaRegion, second: DmaRegion, align: usize)
    requires
        align > 0,
        align & (align - 1) as usize == 0,
        first.paddr + first.size + align <= usize::MAX,
        second.paddr == align_up((first.paddr + first.size) as usize, align),
    ensures
        first.paddr + first.size <= second.paddr,
        second.paddr & (align - 1) as usize == 0,
{
    align_up_is_least((first.paddr + first.size) as usize, align);
}

// ── What allocation comes to ────────────────────────────────────────────

/// A region of heap memory is found by the CPU and by the device at the same
/// memory: its physical address lies below where the heap has it by the one
/// offset, and below where it is mapped by the other. Freed, it gives back the
/// memory that it was made of.
pub proof fn heap_region_is_the_memory(
    dma: &BootDmaAllocator,
    heap_vaddr: usize,
    size: usize,
    region: DmaRegion,
    freed: usize,
)
    requires
        dma.kernel_offset <= heap_vaddr,
        heap_vaddr - dma.kernel_offset + dma.phys_offset <= usize::MAX,
        call_ensures(BootDmaAllocator::alloc_coherent, (dma, heap_vaddr, size), region),
    ensures
        region.paddr + dma.kernel_offset == heap_vaddr,
        region.vaddr == region.paddr + dma.phys_offset,
        region.size == size,
        call_ensures(BootDmaAllocator::free_coherent, (dma, &region), freed) ==> freed
            == heap_vaddr,
{
}

/// The pool is the whole of a range that is usable, not empty and below 4 GiB,
/// and no such range is longer, nor as long and earlier. There is none only
/// where there is no such range.
pub proof fn pool_is_the_longest_range(ranges: &[MemoryRange], r: Option<DmaPool>)
    requires
        call_ensures(init_dma_pool, (ranges,), r),
    ensures
        match r {
            Some(pool) => exists|i: int|
                {
                    &&& 0 <= i < ranges@.len()
                    &&& (#[trigger] ranges@[i]).usable
                    &&& ranges@[i].length > 0
                    &&& ranges@[i].base + ranges@[i].length <= 0xFFFF_FFFF
                    &&& pool.next() == ranges@[i].base
                    &&& pool.end() == ranges@[i].base + ranges@[i].length
                    &&& forall|j: int|
                        0 <= j < ranges@.len() && (#[trigger] ranges@[j]).usable && ranges@[j].base
                            + ranges@[j].length <= 0xFFFF_FFFF ==> ranges@[j].length
                            <= ranges@[i].length && (j < i ==> ranges@[j].length
                            < ranges@[i].length)
                },
            None => forall|j: int|
                0 <= j < ranges@.len() && (#[trigger] ranges@[j]).usable && ranges@[j].base
                    + ranges@[j].length <= 0xFFFF_FFFF ==> ranges@[j].length == 0,
        },
{
    match r {
        Some(pool) => {
            let i = choose|i: int| #[trigger]
                is_pool_range(ranges@, i) && pool.next() == ranges@[i].base && pool.end()
                    == ranges@[i].base + ranges@[i].length;
            assert(can_be_pool(ranges@[i]));
            assert forall|j: int|
                0 <= j < ranges@.len() && (#[trigger] ranges@[j]).usable && ranges@[j].base
                    + ranges@[j].length <= 0xFFFF_FFFF implies ranges@[j].length
                <= ranges@[i].length && (j < i ==> ranges@[j].length < ranges@[i].length) by {
                if ranges@[j].length > 0 {
                    assert(can_be_pool(ranges@[j]));
                }
            }
        },
        None => {
            assert(no_pool_range(ranges@));
        },
    }
}

/// Nothing that is aligned lies between a number and that number rounded up.
proof fn nothing_aligned_is_below(x: usize, align: usize, p: usize)
    requires
        align > 0,
        align & (align - 1) as usize == 0,
        x + align - 1 <= usize::MAX,
        x <= p,
        p & (align - 1) as usize == 0,
    ensures
        align_up(x, align) <= p,
{
    let mask = (align - 1) as usize;
    let sum = (x + align - 1) as usize;
    let top = (p + mask) as int;
    if sum & !mask > p {
        assert(sum & !mask <= sum && (sum & !mask) & mask == 0) by (bit_vector);
        let q = sum & !mask;
        assert(q - p <= mask);
        let d = (q - p) as usize;
        assert(d == 0) by (bit_vector)
            requires
                q & mask == 0,
                p & mask == 0,
                q >= p,
                d == q - p,
                d <= mask,
                align & mask == 0,
                align > 0,
                mask == align - 1,
        ;
    }
}

/// What a pool hands out: `size` bytes that it has not handed out yet, within
/// it, at the lowest address that is aligned, mapped at the offset; and the next
/// are handed out behind them. It refuses only where no aligned address is left
/// that has room.
pub proof fn pool_hands_out_the_lowest(
    size: usize,
    align: usize,
    hhdm: usize,
    r: Option<DmaRegion>,
)
    requires
        align > 0,
        align & (align - 1) as usize == 0,
    ensures
        forall|pool: &mut DmaPool| #[trigger]
            call_ensures(DmaPool::alloc_coherent, (pool, size, align, hhdm), r) && (*pool).next()
                + align <= usize::MAX && (*pool).end() + hhdm <= usize::MAX ==> {
                &&& (*final(pool)).end() == (*pool).end()
                &&& match r {
                    Some(region) => {
                        &&& region.paddr & (align - 1) as usize == 0
                        &&& (*pool).next() <= region.paddr < (*pool).next() + align
                        &&& region.paddr + size <= (*pool).end()
                        &&& region.vaddr == region.paddr + hhdm
                        &&& region.size == size
                        &&& (*final(pool)).next() == region.paddr + size
                    },
                    None => (*final(pool)).next() == (*pool).next() && forall|p: usize|
                        (*pool).next() <= p && #[trigger] (p & (align - 1) as usize) == 0 ==> p
                            + size > (*pool).end(),
                }
            },
{
    assert forall|pool: &mut DmaPool| #[trigger]
        call_ensures(DmaPool::alloc_coherent, (pool, size, align, hhdm), r) && (*pool).next()
            + align <= usize::MAX && (*pool).end() + hhdm <= usize::MAX implies match r {
        Some(region) => {
            &&& region.paddr & (align - 1) as usize == 0
            &&& (*pool).next() <= region.paddr < (*pool).next() + align
        },
        None => (*final(pool)).next() == (*pool).next() && forall|p: usize|
            (*pool).next() <= p && #[trigger] (p & (align - 1) as usize) == 0 ==> p + size
                > (*pool).end(),
    } by {
        align_up_is_least((*pool).next(), align);
        if r is None {
            assert forall|p: usize|
                (*pool).next() <= p && #[trigger] (p & (align - 1) as usize) == 0 implies p + size
                > (*pool).end() by {
                nothing_aligned_is_below((*pool).next(), align, p);
            }
        }
    }
}

} // verus!
