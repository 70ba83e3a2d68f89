//! Heartbeat counters of the application processors.

use crate::hal::cpu_local::MAX_CPUS;
use vstd::prelude::*;

verus! {

/// `heapless::Vec`, a vector with a fixed capacity.
#[verifier::external_type_specification]
#[verifier::external_body]
#[verifier::reject_recursive_types(T)]
pub struct ExHeaplessVec<T, const N: usize>(heapless::Vec<T, N>);

/// What such a vector holds.
pub uninterp spec fn held(v: heapless::Vec<usize, MAX_CPUS>) -> Seq<usize>;

/// `heapless::Vec::new`: the vector is empty.
#[verifier::external_body]
fn heapless_new() -> (v: heapless::Vec<usize, MAX_CPUS>)
    ensures
        held(v) == Seq::<usize>::empty(),
{
    heapless::Vec::new()
}

/// `heapless::Vec::push`: a vector that is not full holds the item at its end;
/// one that is full is left as it is, and the item comes back.
#[verifier::external_body]
fn heapless_push(v: &mut heapless::Vec<usize, MAX_CPUS>, item: usize) -> (r: Result<(), usize>)
    ensures
        match r {
            Ok(_) => held(*old(v)).len() < MAX_CPUS && held(*final(v)) == held(*old(v)).push(item),
            Err(back) => held(*old(v)).len() >= MAX_CPUS && held(*final(v)) == held(*old(v)) && back
                == item,
        },
{
    v.push(item)
}

/// A snapshot of the heartbeat counters, as many of them as there are CPUs at
/// most.
pub fn snapshot(counters: &[usize]) -> (counts: heapless::Vec<usize, MAX_CPUS>)
    ensures
        held(counts) == if counters@.len() <= MAX_CPUS {
            counters@
        } else {
            counters@.take(MAX_CPUS as int)
        },
{
    let n: usize = counters.len();
    let mut counts = heapless_new();
    let mut i: usize = 0;
    assert(held(counts) =~= counters@.take(0));
    while i < n
        invariant
            i <= n,
            n == counters@.len(),
            held(counts) == counters@.take(
                if i <= MAX_CPUS {
                    i as int
                } else {
                    MAX_CPUS as int
                },
            ),
        decreases n - i,
    {
        let ghost before = held(counts);
        let pushed = heapless_push(&mut counts, counters[i]);
        proof {
            if i < MAX_CPUS {
                assert(held(counts) =~= counters@.take(i + 1));
            }
        }
        i += 1;
    }
    assert(counters@.take(n as int) =~= counters@);
    counts
}

/// A snapshot holds the counters one by one, in their order, up to the eighth.
pub proof fn snapshot_holds_the_counters(
    counters: &[usize],
    counts: heapless::Vec<usize, MAX_CPUS>,
)
    requires
        call_ensures(snapshot, (counters,), counts),
    ensures
        held(counts).len() <= 8,
        held(counts).len() == counters@.len() || (held(counts).len() == 8 && counters@.len() > 8),
        forall|i: int| 0 <= i < held(counts).len() ==> #[trigger] held(counts)[i] == counters@[i],
{
}

} // verus!
