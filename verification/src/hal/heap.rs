//! The kernel heap.

use vstd::prelude::*;

verus! {

/// Size of the area that is set aside for the heap: 4 MiB.
pub const HEAP_SIZE: usize = 4 * 1024 * 1024;

/// Whether a heap of `size` bytes can be made: it is not empty and fits the
/// area.
pub fn is_heap_size(size: usize) -> (r: bool)
    ensures
        r == (0 < size <= HEAP_SIZE),
{
    0 < size && size <= HEAP_SIZE
}

/// A heap can be made of one byte up to 4 MiB, and of no other size.
pub proof fn heap_sizes(size: usize, r: bool)
    requires
        call_ensures(is_heap_size, (size,), r),
    ensures
        r <==> size != 0 && size <= 4194304,
{
}

} // verus!
