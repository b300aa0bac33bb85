//! What a worker thread runs, and the barrier at which workers and the
//! measuring thread meet.
//!
//! Every workload does its work first and then waits at the barrier twice.
//! While the workers stand at the first wait the measuring thread samples the
//! process; the second wait keeps them alive until it has done so.

use std::sync::Arc;
use std::sync::Barrier;
use vstd::prelude::*;

verus! {

/// `std::sync::Barrier`, carried through as an opaque value.
#[verifier::external_type_specification]
#[verifier::external_body]
pub struct ExBarrier(Barrier);

/// `std::hint::black_box` hands its argument back unchanged; it only keeps the
/// compiler from optimising the value away.
pub assume_specification<T>[ std::hint::black_box::<T> ](dummy: T) -> (kept: T)
    ensures
        kept == dummy,
;

/// Calls `std::sync::Barrier::new` for `parties` threads. Nothing is claimed
/// of the barrier that comes back.
#[verifier::external_body]
fn new_barrier(parties: usize) -> Barrier {
    Barrier::new(parties)
}

/// Calls `Arc::clone`: the new handle points to the same barrier.
#[verifier::external_body]
fn share_barrier(barrier: &Arc<Barrier>) -> (shared: Arc<Barrier>)
    ensures
        shared == *barrier,
{
    Arc::clone(barrier)
}

/// Calls `std::sync::Barrier::wait`, which blocks until as many threads wait
/// as the barrier was made for. Whether this thread was the last to arrive is
/// not reported.
#[verifier::external_body]
fn wait_at(barrier: &Arc<Barrier>) {
    barrier.wait();
}

/// Number of workers in a standard run.
pub const THREADS: usize = 1000;

/// Size of the buffer that the allocating workload puts on its stack in a
/// standard run: 1 MiB.
pub const LARGE_BUFFER_BYTES: usize = 1_048_576;

/// Stack size given to every worker: 1 GiB, far more than any workload of a
/// standard run puts on it.
pub const WORKER_STACK_BYTES: usize = 1_073_741_824;

/// A stack is large enough for a workload with a buffer of `buffer_bytes`
/// when it has at least twice that size.
pub open spec fn stack_suffices_spec(stack_bytes: nat, buffer_bytes: nat) -> bool {
    stack_bytes >= 2 * buffer_bytes
}

/// Whether a worker with a stack of `stack_bytes` can run the allocating
/// workload with a buffer of `buffer_bytes`: the stack has to have at least
/// twice the buffer's size.
pub fn stack_suffices(stack_bytes: usize, buffer_bytes: usize) -> (enough: bool)
    ensures
        enough == stack_suffices_spec(stack_bytes as nat, buffer_bytes as nat),
{
    stack_bytes / 2 >= buffer_bytes
}

/// The stack of a standard run is large enough for its buffer, and a stack
/// that is smaller than the buffer never is.
pub proof fn lemma_stack_must_exceed_buffer(stack_bytes: nat, buffer_bytes: nat)
    ensures
        stack_suffices_spec(WORKER_STACK_BYTES as nat, LARGE_BUFFER_BYTES as nat),
        stack_suffices_spec(stack_bytes, buffer_bytes) && buffer_bytes > 0 ==> stack_bytes
            > buffer_bytes,
        stack_bytes < buffer_bytes ==> !stack_suffices_spec(stack_bytes, buffer_bytes),
{
}

/// How many threads meet at the barrier of a measurement with `threads`
/// workers: the workers and the measuring thread.
pub open spec fn parties_for(threads: nat) -> nat {
    threads + 1
}

/// A barrier together with the number of parties it was made for.
pub struct RendezvousBarrier {
    barrier: Arc<Barrier>,
    parties: usize,
}

impl RendezvousBarrier {
    /// The number of threads that have to wait before any of them goes on.
    pub closed spec fn parties(&self) -> nat {
        self.parties as nat
    }

    /// The barrier that every handle given out by `handle` points to.
    pub closed spec fn shared(&self) -> Barrier {
        *self.barrier
    }

    /// A fresh barrier for `threads` workers and the measuring thread.
    pub fn for_workers(threads: usize) -> (barrier: RendezvousBarrier)
        requires
            threads < usize::MAX,
        ensures
            barrier.parties() == parties_for(threads as nat),
    {
        let parties: usize = threads + 1;
        RendezvousBarrier { barrier: Arc::new(new_barrier(parties)), parties }
    }

    /// The number of threads that have to wait before any of them goes on.
    pub fn party_count(&self) -> (parties: usize)
        ensures
            parties == self.parties(),
    {
        self.parties
    }

    /// Another handle to the same barrier, to be moved into a worker.
    pub fn handle(&self) -> (handle: Arc<Barrier>)
        ensures
            *handle == self.shared(),
    {
        share_barrier(&self.barrier)
    }

    /// Waits until all parties have arrived.
    pub fn wait(&self) {
        wait_at(&self.barrier)
    }
}

/// The workers alone never open the barrier: with `threads` workers, any
/// number of arrivals up to `threads` is short of the parties waited for, and
/// one more arrival, that of the measuring thread, completes them.
pub proof fn lemma_barrier_needs_the_measuring_thread(threads: nat, arrivals: nat)
    requires
        arrivals <= threads,
    ensures
        arrivals < parties_for(threads),
        threads + 1 == parties_for(threads),
{
}

/// The idle workload: no work, two waits.
pub fn small_thread(barrier: Arc<Barrier>) {
    wait_at(&barrier);
    wait_at(&barrier);
}

/// The allocating workload: puts `S` bytes on the stack, then waits twice.
/// The thread that runs it needs a stack of more than `S` bytes.
pub fn large_thread<const S: usize>(barrier: Arc<Barrier>) {
    large_allocate::<S>();
    wait_at(&barrier);
    wait_at(&barrier);
}

/// Fills a buffer of `S` zero bytes on the stack and keeps the compiler from
/// dropping it as unused.
#[inline(never)]
pub fn large_allocate<const S: usize>() {
    std::hint::black_box([0u8; S]);
}

} // verus!
