//! IDT vector allocation for driver-installed ISRs.
//!
//! `VectorAllocator` hands out free vectors from a fixed pool, honouring an
//! explicit exclusion list at construction so the kernel's reserved vectors
//! (APIC timer = 32, spurious = 39, optional SynIC SINT2 = 34) can never be
//! re-issued to a PCI driver.
//!
//! One allocator covers the whole system: the IDT is shared across all CPUs,
//! so vector 33 is the same IDT slot wherever it's delivered. Driver placement
//! on a specific CPU is an IOAPIC routing decision.

use vstd::prelude::*;

verus! {

/// Logical CPU identity.
///
/// `CpuId::Ap(n)` carries the bootloader's sequential `processor_id`, not the
/// LAPIC ID. The LAPIC ID is kept in the per-CPU table
/// ([`CpuLocals`](super::cpu_local::CpuLocals)).
#[derive(Debug, Clone, Copy, PartialEq, Eq, Structural)]
pub enum CpuId {
    /// The boot CPU (`processor_id == 0`).
    Bsp,
    /// An application processor with sequential `processor_id`.
    Ap(u8),
}

/// Receipt for an installed interrupt handler: the IDT vector it was assigned
/// and the CPU it will be delivered to.
#[derive(Debug, Clone, Copy, PartialEq, Eq, Structural)]
pub struct InstalledIsr {
    pub vector: u8,
    pub cpu_id: CpuId,
}

/// Whether bit `i` of `used` is set.
spec fn taken(used: u32, i: u32) -> bool {
    used & (1u32 << i) != 0
}

proof fn bit_set(used: u32, i: u32, j: u32)
    requires
        i < 32,
        j < 32,
    ensures
        taken(used | (1u32 << i), j) == (taken(used, j) || i == j),
{
    assert((used | (1u32 << i)) & (1u32 << j) != 0 <==> (used & (1u32 << j) != 0 || i == j))
        by (bit_vector)
        requires
            i < 32,
            j < 32,
    ;
}

/// Fixed-pool IDT vector allocator.
///
/// Constructed over the standard external-interrupt range (default `33..=47`,
/// the 15 vectors above the APIC timer that the IOAPIC can route to), with an
/// explicit list of vectors already claimed by the kernel.
pub struct VectorAllocator {
    /// Bit `i` set => vector `start + i` is taken.
    used: u32,
    start: u8,
    end: u8,
}

/// The vectors `start..=end` without those of `reserved`.
pub open spec fn pool(start: u8, end: u8, reserved: Seq<u8>) -> Set<u8> {
    Set::new(|v: u8| start <= v <= end && !reserved.contains(v))
}

/// The least member of a set of vectors.
pub open spec fn is_least(vectors: Set<u8>, v: u8) -> bool {
    &&& vectors.contains(v)
    &&& forall|w: u8| #[trigger] vectors.contains(w) ==> v <= w
}

impl VectorAllocator {
    #[verifier::type_invariant]
    spec fn wf(self) -> bool {
        &&& 32 <= self.start <= self.end
        &&& self.end - self.start < 32
    }

    /// The vectors that are still to be had.
    pub closed spec fn free(&self) -> Set<u8> {
        Set::new(|v: u8| self.start <= v <= self.end && !taken(self.used, (v - self.start) as u32))
    }

    /// Default external-interrupt range: vectors `33..=47`.
    ///
    /// 32 is the APIC timer and 39 is the spurious vector; both should appear
    /// in `reserved` if `start <= them <= end`.
    pub fn new(start: u8, end: u8, reserved: &[u8]) -> (alloc: Self)
        requires
            32 <= start <= end,
            end - start < 32,
        ensures
            alloc.free() == pool(start, end, reserved@),
    {
        let mut used: u32 = 0;
        let n: usize = reserved.len();
        let mut k: usize = 0;
        proof {
            assert forall|j: u32| j < 32 implies !taken(0, j) by {
                assert(0u32 & (1u32 << j) == 0) by (bit_vector);
            }
        }
        while k < n
            invariant
                k <= n,
                n == reserved@.len(),
                32 <= start <= end,
                end - start < 32,
                forall|v: u8|
                    #![trigger reserved@.take(k as int).contains(v)]
                    start <= v <= end ==> taken(used, (v - start) as u32) == reserved@.take(
                        k as int,
                    ).contains(v),
            decreases n - k,
        {
            let v: u8 = reserved[k];
            let ghost before = used;
            if start <= v && v <= end {
                let bit: u32 = (v - start) as u32;
                used = used | (1u32 << bit);
            }
            proof {
                let head = reserved@.take(k as int);
                let next = reserved@.take(k + 1);
                assert(next =~= head.push(v));
                assert forall|w: u8| #![trigger next.contains(w)] start <= w <= end implies taken(used, (w - start) as u32)
                    == next.contains(w) by {
                    assert(taken(before, (w - start) as u32) == head.contains(w));
                    if start <= v <= end {
                        bit_set(before, (v - start) as u32, (w - start) as u32);
                    }
                    if head.contains(w) {
                        let i = head.index_of(w);
                        assert(next[i] == w);
                    }
                    if w == v {
                        assert(next[k as int] == w);
                    }
                    if next.contains(w) && w != v {
                        let i = next.index_of(w);
                        assert(head[i] == w);
                    }
                }
            }
            k += 1;
        }
        let alloc = VectorAllocator { used, start, end };
        proof {
            assert(reserved@.take(n as int) =~= reserved@);
            assert(alloc.free() =~= pool(start, end, reserved@)) by {
                assert forall|v: u8| alloc.free().contains(v) == pool(start, end, reserved@).contains(
                    v,
                ) by {
                    if start <= v <= end {
                        assert(taken(used, (v - start) as u32) == reserved@.take(n as int).contains(
                            v,
                        ));
                    }
                }
            }
        }
        alloc
    }

    /// Allocate the next free IDT vector. Returns `None` if the pool is
    /// exhausted.
    ///
    /// IDT vectors are a system-wide scarce resource (one shared IDT across
    /// all CPUs); the allocator returns the bare `u8` and the caller stamps
    /// the [`InstalledIsr`] with the target [`CpuId`] it routed the IOAPIC
    /// entry to.
    pub fn allocate(&mut self) -> (r: Option<u8>)
        ensures
            match r {
                Some(v) => is_least(old(self).free(), v) && final(self).free()
                    == old(self).free().remove(v),
                None => old(self).free() == Set::<u8>::empty() && final(self).free()
                    == old(self).free(),
            },
    {
        proof {
            use_type_invariant(&*self);
        }
        let span: u32 = (self.end - self.start) as u32 + 1;
        let mut i: u32 = 0;
        while i < span
            invariant
                i <= span <= 32,
                self.wf(),
                *self == *old(self),
                span == self.end - self.start + 1,
                forall|j: u32| j < i ==> #[trigger] taken(self.used, j),
            decreases span - i,
        {
            if self.used & (1u32 << i) == 0 {
                let ghost before = *self;
                let v: u8 = self.start + i as u8;
                self.used = self.used | (1u32 << i);
                proof {
                    assert(before.free().contains(v));
                    assert(self.free() =~= before.free().remove(v)) by {
                        assert forall|w: u8| self.free().contains(w) == before.free().remove(v).contains(w) by {
                            if self.start <= w <= self.end {
                                bit_set(before.used, i, (w - self.start) as u32);
                            }
                        }
                    }
                    assert forall|w: u8| #[trigger] before.free().contains(w) implies v <= w by {
                        assert(taken(before.used, (w - self.start) as u32) == false);
                    }
                }
                return Some(v);
            }
            i += 1;
        }
        proof {
            assert(self.free() =~= Set::<u8>::empty());
        }
        None
    }

    /// Returns the count of vectors still available.
    pub fn free_count(&self) -> (count: u32)
        ensures
            self.free().finite(),
            count == self.free().len(),
    {
        proof {
            use_type_invariant(self);
        }
        let span: u32 = (self.end - self.start) as u32 + 1;
        let mut count: u32 = 0;
        let mut i: u32 = 0;
        let ghost mut seen = Set::<u8>::empty();
        while i < span
            invariant
                i <= span <= 32,
                self.wf(),
                span == self.end - self.start + 1,
                count <= i,
                seen.finite(),
                count == seen.len(),
                forall|v: u8| seen.contains(v) <==> self.free().contains(v) && v < self.start + i,
            decreases span - i,
        {
            if self.used & (1u32 << i) == 0 {
                count += 1;
                proof {
                    let v = (self.start + i) as u8;
                    assert(self.free().contains(v));
                    seen = seen.insert(v);
                }
            } else {
                proof {
                    assert(taken(self.used, i));
                }
            }
            i += 1;
        }
        proof {
            assert(seen =~= self.free());
        }
        count
    }
}

/// A vector that the kernel has reserved is not among those to be had, and
/// one that was handed out is not handed out again: what is free afterwards
/// is free before, without the vector itself.
pub proof fn allocation_never_repeats(before: Set<u8>, v: u8, start: u8, end: u8, reserved: Seq<u8>)
    requires
        before.subset_of(pool(start, end, reserved)),
        is_least(before, v),
    ensures
        start <= v <= end,
        !reserved.contains(v),
        before.remove(v).subset_of(pool(start, end, reserved)),
        !before.remove(v).contains(v),
        before.finite() ==> before.remove(v).len() == before.len() - 1,
{
    assert(pool(start, end, reserved).contains(v));
}

/// A new allocator has every vector of its range but the reserved ones.
pub proof fn only_reserved_are_withheld(
    start: u8,
    end: u8,
    reserved: &[u8],
    alloc: VectorAllocator,
)
    requires
        32 <= start <= end,
        end - start < 32,
        call_ensures(VectorAllocator::new, (start, end, reserved), alloc),
    ensures
        forall|v: u8|
            #[trigger] alloc.free().contains(v) <==> start <= v <= end && forall|i: int|
                0 <= i < reserved@.len() ==> #[trigger] reserved@[i] != v,
{
    assert forall|v: u8|
        #[trigger] alloc.free().contains(v) <==> start <= v <= end && forall|i: int|
            0 <= i < reserved@.len() ==> #[trigger] reserved@[i] != v by {
        assert(alloc.free().contains(v) == pool(start, end, reserved@).contains(v));
        if reserved@.contains(v) {
            assert(reserved@[reserved@.index_of(v)] == v);
        }
    }
}

/// The vector that is handed out was free, is the lowest that was, and is free
/// no more; every other is as before. None is handed out only where none is
/// free.
pub proof fn lowest_free_vector_is_handed_out(r: Option<u8>)
    ensures
        forall|alloc: &mut VectorAllocator| #[trigger]
            call_ensures(VectorAllocator::allocate, (alloc,), r) ==> match r {
                Some(v) => {
                    &&& (*alloc).free().contains(v)
                    &&& !(*final(alloc)).free().contains(v)
                    &&& forall|w: u8| w < v ==> !#[trigger] (*alloc).free().contains(w)
                    &&& forall|w: u8|
                        w != v ==> (#[trigger] (*final(alloc)).free().contains(w) <==> (
                        *alloc).free().contains(w))
                },
                None => forall|w: u8|
                    !#[trigger] (*alloc).free().contains(w) && !(*final(alloc)).free().contains(w),
            },
{
}

/// One vector handed out is one fewer to be had.
pub proof fn free_vectors_are_counted(before: u32, v: u8, after: u32)
    ensures
        forall|alloc: &mut VectorAllocator| #[trigger]
            call_ensures(VectorAllocator::allocate, (alloc,), Some(v)) && call_ensures(
                VectorAllocator::free_count,
                (&*alloc,),
                before,
            ) && call_ensures(VectorAllocator::free_count, (&*final(alloc),), after) ==> after
                == before - 1,
        forall|alloc: &mut VectorAllocator| #[trigger]
            call_ensures(VectorAllocator::allocate, (alloc,), None::<u8>) && call_ensures(
                VectorAllocator::free_count,
                (&*alloc,),
                before,
            ) ==> before == 0,
{
    assert forall|alloc: &mut VectorAllocator| #[trigger]
        call_ensures(VectorAllocator::allocate, (alloc,), None::<u8>) && call_ensures(
            VectorAllocator::free_count,
            (&*alloc,),
            before,
        ) implies before == 0 by {
        assert((*alloc).free() =~= Set::<u8>::empty());
    }
}

} // verus!
