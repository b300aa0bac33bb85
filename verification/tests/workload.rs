use std::sync::Arc;
use std::sync::Barrier;
use thread_memory::harness::perform;
use thread_memory::harness::Action;
use thread_memory::harness::Event;
use thread_memory::snapshot::MeasureError;
use thread_memory::snapshot::MemorySnapshot;
use thread_memory::workload::large_allocate;
use thread_memory::workload::large_thread;
use thread_memory::workload::small_thread;
use thread_memory::workload::stack_suffices;
use thread_memory::workload::RendezvousBarrier;
use thread_memory::workload::LARGE_BUFFER_BYTES;
use thread_memory::workload::THREADS;
use thread_memory::workload::WORKER_STACK_BYTES;

#[test]
fn barrier_counts_the_workers_and_the_measuring_thread() {
    assert_eq!(RendezvousBarrier::for_workers(4).party_count(), 5);
    assert_eq!(RendezvousBarrier::for_workers(1000).party_count(), 1001);
    assert_eq!(RendezvousBarrier::for_workers(0).party_count(), 1);
}

#[test]
fn barrier_without_workers_does_not_block() {
    let barrier = RendezvousBarrier::for_workers(0);
    barrier.wait();
    barrier.wait();
}

#[test]
fn small_thread_waits_twice() {
    let barrier = Arc::new(Barrier::new(1));
    small_thread(Arc::clone(&barrier));
    assert_eq!(Arc::strong_count(&barrier), 1);
}

#[test]
fn large_thread_waits_twice() {
    let barrier = Arc::new(Barrier::new(1));
    large_thread::<4096>(Arc::clone(&barrier));
    assert_eq!(Arc::strong_count(&barrier), 1);
}

#[test]
fn large_allocate_returns() {
    large_allocate::<0>();
    large_allocate::<1>();
    large_allocate::<65536>();
}

#[test]
fn perform_leaves_spawn_and_join_to_the_driver() {
    let barrier = RendezvousBarrier::for_workers(0);
    assert_eq!(perform(Action::Spawn, &barrier), None);
    assert_eq!(perform(Action::Join, &barrier), None);
    assert_eq!(perform(Action::Abort(MeasureError::JoinFailed), &barrier), None);
    let nothing = MemorySnapshot { virtual_bytes: 0, physical_bytes: 0 };
    assert_eq!(perform(Action::Report { during: nothing, after: nothing }, &barrier), None);
}

#[test]
fn perform_waits_at_the_barrier() {
    let barrier = RendezvousBarrier::for_workers(0);
    assert_eq!(perform(Action::Wait, &barrier), Some(Event::Released));
}

#[test]
fn perform_samples_the_process() {
    let barrier = RendezvousBarrier::for_workers(0);
    let event = perform(Action::Sample, &barrier);
    assert!(matches!(event, Some(Event::Sampled(_))));
    if let Some(Event::Sampled(Some(sample))) = event {
        assert!(sample.virtual_bytes > 0);
        assert!(sample.physical_bytes > 0);
        assert!(sample.physical_bytes <= sample.virtual_bytes);
    }
}

#[test]
fn stack_must_be_twice_the_buffer() {
    assert!(stack_suffices(2_097_152, 1_048_576));
    assert!(!stack_suffices(2_097_151, 1_048_576));
    assert!(stack_suffices(0, 0));
    assert!(stack_suffices(usize::MAX, usize::MAX / 2));
    assert!(!stack_suffices(usize::MAX, usize::MAX / 2 + 1));
}

#[test]
fn stack_smaller_than_the_buffer_is_refused() {
    assert!(!stack_suffices(1_048_575, 1_048_576));
    assert!(!stack_suffices(524_288, 1_048_576));
}

#[test]
fn standard_run_has_room_for_its_buffer() {
    assert_eq!(THREADS, 1000);
    assert_eq!(LARGE_BUFFER_BYTES, 1024 * 1024);
    assert_eq!(WORKER_STACK_BYTES, 1024 * 1024 * 1024);
    assert!(stack_suffices(WORKER_STACK_BYTES, LARGE_BUFFER_BYTES));
}
