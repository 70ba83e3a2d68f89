use embclox::dma::{init_dma_pool, BootDmaAllocator, DmaRegion, MemoryRange};

fn usable(base: u64, length: u64) -> MemoryRange {
    MemoryRange { base, length, usable: true }
}

#[test]
fn heap_regions_round_trip() {
    let dma = BootDmaAllocator { kernel_offset: 0x1000, phys_offset: 0x9000_0000 };
    let region = dma.alloc_coherent(0x5000, 256);
    assert_eq!(region, DmaRegion { vaddr: 0x9000_4000, paddr: 0x4000, size: 256 });
    assert_eq!(dma.free_coherent(&region), 0x5000);
}

#[test]
fn pool_takes_the_first_longest_range() {
    let ranges = [
        usable(0x1000, 0x8000),
        MemoryRange { base: 0x10_0000, length: 0x100_0000, usable: false },
        usable(0x20_0000, 0x40_0000),
        usable(0x80_0000, 0x40_0000),
        // Above 4 GiB, and one that ends on the last byte below.
        usable(0x1_0000_0000, 0x8000_0000),
        usable(0xFFFF_0000, 0x1_0000),
    ];
    let mut pool = init_dma_pool(&ranges).unwrap();
    let region = pool.alloc_coherent(0x40_0000, 4096, 0).unwrap();
    assert_eq!(region.paddr, 0x20_0000);
    assert!(pool.alloc_coherent(1, 1, 0).is_none());
}

#[test]
fn pool_needs_a_range() {
    assert!(init_dma_pool(&[]).is_none());
    let reserved = [MemoryRange { base: 0, length: 0x1000, usable: false }];
    assert!(init_dma_pool(&reserved).is_none());
    assert!(init_dma_pool(&[usable(0x1000, 0)]).is_none());
    assert!(init_dma_pool(&[usable(0xFFFF_F000, 0x1000)]).is_none());
    assert!(init_dma_pool(&[usable(0xFFFF_F000, 0xFFF)]).is_some());
    // Ranges that do not fit the address space are passed over.
    assert!(init_dma_pool(&[usable(u64::MAX, 2)]).is_none());
    assert!(init_dma_pool(&[usable(2, u64::MAX)]).is_none());
}

#[test]
fn pool_regions_are_aligned_and_apart() {
    let mut pool = init_dma_pool(&[usable(0x1001, 0x9000)]).unwrap();
    let a = pool.alloc_coherent(100, 4096, 0x8000_0000).unwrap();
    assert_eq!(a, DmaRegion { vaddr: 0x8000_2000, paddr: 0x2000, size: 100 });
    let b = pool.alloc_coherent(8, 16, 0x8000_0000).unwrap();
    assert_eq!(b.paddr, 0x2070);
    let c = pool.alloc_coherent(0x1000, 4096, 0x8000_0000).unwrap();
    assert_eq!(c.paddr, 0x3000);
    assert!(a.paddr + a.size <= b.paddr && b.paddr + b.size <= c.paddr);
    // A request that does not fit leaves the pool as it is.
    assert!(pool.alloc_coherent(0x7000, 4096, 0x8000_0000).is_none());
    assert_eq!(pool.alloc_coherent(0x6000, 4096, 0).unwrap().paddr, 0x4000);
    assert_eq!(pool.alloc_coherent(1, 1, 0).unwrap().paddr, 0xA000);
    assert!(pool.alloc_coherent(1, 1, 0).is_none());
}
