use thread_memory::snapshot::difference;
use thread_memory::snapshot::MemorySnapshot;

fn sample(virtual_bytes: usize, physical_bytes: usize) -> MemorySnapshot {
    MemorySnapshot { virtual_bytes, physical_bytes }
}

#[test]
fn difference_divides_growth_by_thread_count() {
    let before = sample(1_000, 500);
    let after = sample(9_000, 4_500);
    assert_eq!(difference(after, before, 4), sample(2_000, 1_000));
}

#[test]
fn difference_rounds_down() {
    let before = sample(10, 10);
    let after = sample(17, 20);
    assert_eq!(difference(after, before, 3), sample(2, 3));
}

#[test]
fn difference_clamps_a_decrease_to_zero() {
    let before = sample(5_000, 5_000);
    let after = sample(4_000, 100);
    assert_eq!(difference(after, before, 2), sample(0, 0));
}

#[test]
fn difference_clamps_each_field_on_its_own() {
    let before = sample(5_000, 1_000);
    let after = sample(4_000, 3_000);
    assert_eq!(difference(after, before, 2), sample(0, 1_000));
}

#[test]
fn difference_of_equal_samples_is_zero() {
    let both = sample(123_456, 7_890);
    assert_eq!(difference(both, both, 1000), sample(0, 0));
}

#[test]
fn difference_with_one_thread_is_the_growth() {
    let before = sample(100, 40);
    let after = sample(350, 41);
    assert_eq!(difference(after, before, 1), sample(250, 1));
}

#[test]
fn difference_smaller_than_thread_count_is_zero() {
    let before = sample(0, 0);
    let after = sample(999, 1000);
    assert_eq!(difference(after, before, 1000), sample(0, 1));
}

#[test]
fn difference_at_the_largest_counter() {
    let before = sample(0, usize::MAX);
    let after = sample(usize::MAX, 0);
    assert_eq!(difference(after, before, 1), sample(usize::MAX, 0));
}
