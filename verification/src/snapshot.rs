//! Memory samples of the running process and their per-thread difference.

use vstd::prelude::*;

verus! {

/// Process-wide memory use at one moment, in bytes.
#[derive(Clone, Copy, Debug, PartialEq, Eq, Structural)]
pub struct MemorySnapshot {
    /// Size of the virtual address space.
    pub virtual_bytes: usize,
    /// Resident physical memory.
    pub physical_bytes: usize,
}

/// Why a measurement could not be completed. Each of these ends the run:
/// nothing is retried and no partial result is reported.
#[derive(Clone, Copy, Debug, PartialEq, Eq, Structural)]
pub enum MeasureError {
    /// The host cannot tell how much memory the process uses.
    SnapshotUnavailable,
    /// The operating system refused to create a worker thread.
    SpawnFailed,
    /// A worker thread panicked or could not be joined.
    JoinFailed,
}

/// Calls `memory_stats::memory_stats`, which asks the operating system how
/// much memory the current process uses, and copies the two counters it
/// reports. The result is `None` where the host cannot be asked. Nothing is
/// claimed of the counters: they are whatever the system says at that moment.
#[verifier::external_body]
pub(crate) fn sample_process() -> Option<MemorySnapshot> {
    memory_stats::memory_stats().map(
        |stats| MemorySnapshot {
            virtual_bytes: stats.virtual_mem,
            physical_bytes: stats.physical_mem,
        },
    )
}

/// Growth from `before` to `after`, shared evenly among `threads` threads.
/// A counter that went down counts as no growth.
pub open spec fn share_of_growth(after: int, before: int, threads: int) -> int {
    if after <= before {
        0
    } else {
        (after - before) / threads
    }
}

/// The per-thread difference of two samples, field by field.
pub open spec fn difference_spec(a: MemorySnapshot, b: MemorySnapshot, threads: int)
    -> MemorySnapshot {
    MemorySnapshot {
        virtual_bytes: share_of_growth(a.virtual_bytes as int, b.virtual_bytes as int, threads)
            as usize,
        physical_bytes: share_of_growth(a.physical_bytes as int, b.physical_bytes as int, threads)
            as usize,
    }
}

/// How much each of `threads` threads added between sample `b` and the later
/// sample `a`. Where a counter of `a` lies below that of `b`, the field is 0.
pub fn difference(a: MemorySnapshot, b: MemorySnapshot, threads: usize) -> (delta: MemorySnapshot)
    requires
        threads > 0,
    ensures
        delta == difference_spec(a, b, threads as int),
        delta.virtual_bytes == share_of_growth(
            a.virtual_bytes as int,
            b.virtual_bytes as int,
            threads as int,
        ),
        delta.physical_bytes == share_of_growth(
            a.physical_bytes as int,
            b.physical_bytes as int,
            threads as int,
        ),
{
    let physical_bytes: usize = a.physical_bytes.saturating_sub(b.physical_bytes) / threads;
    let virtual_bytes: usize = a.virtual_bytes.saturating_sub(b.virtual_bytes) / threads;
    proof {
        lemma_share_of_growth_bounds(
            a.virtual_bytes as int,
            b.virtual_bytes as int,
            threads as int,
        );
        lemma_share_of_growth_bounds(
            a.physical_bytes as int,
            b.physical_bytes as int,
            threads as int,
        );
    }
    MemorySnapshot { virtual_bytes, physical_bytes }
}

/// A share of growth is never negative and never more than the later
/// reading, whatever the earlier reading was; it is 0 exactly when the growth
/// is smaller than the number of threads, which includes every reading that
/// went down.
pub proof fn lemma_share_of_growth_bounds(after: int, before: int, threads: int)
    requires
        0 <= after,
        0 <= before,
        0 < threads,
    ensures
        0 <= share_of_growth(after, before, threads) <= after,
        after <= before ==> share_of_growth(after, before, threads) == 0,
        share_of_growth(after, before, threads) == 0 <==> after - before < threads,
        before <= after ==> threads * share_of_growth(after, before, threads) <= after - before
            < threads * share_of_growth(after, before, threads) + threads,
{
    if after > before {
        let growth = after - before;
        assert(0 <= growth / threads <= growth && (growth / threads == 0 <==> growth < threads)
            && threads * (growth / threads) <= growth < threads * (growth / threads) + threads)
            by (nonlinear_arith)
            requires
                0 < growth,
                0 < threads,
        ;
    }
}

/// The difference of two samples never underflows: each field lies between 0
/// and the later sample's field, and is 0 wherever the later sample reads
/// less than the earlier one.
pub proof fn lemma_difference_never_underflows(a: MemorySnapshot, b: MemorySnapshot, threads: int)
    requires
        0 < threads,
    ensures
        0 <= difference_spec(a, b, threads).virtual_bytes <= a.virtual_bytes,
        0 <= difference_spec(a, b, threads).physical_bytes <= a.physical_bytes,
        a.virtual_bytes <= b.virtual_bytes ==> difference_spec(a, b, threads).virtual_bytes == 0,
        a.physical_bytes <= b.physical_bytes ==> difference_spec(a, b, threads).physical_bytes
            == 0,
        difference_spec(a, b, threads).virtual_bytes == share_of_growth(
            a.virtual_bytes as int,
            b.virtual_bytes as int,
            threads,
        ),
        difference_spec(a, b, threads).physical_bytes == share_of_growth(
            a.physical_bytes as int,
            b.physical_bytes as int,
            threads,
        ),
{
    lemma_share_of_growth_bounds(a.virtual_bytes as int, b.virtual_bytes as int, threads);
    lemma_share_of_growth_bounds(a.physical_bytes as int, b.physical_bytes as int, threads);
}

} // verus!
