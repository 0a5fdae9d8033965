use shared_handle::handle::Heap;

#[test]
fn construct_gives_value_and_count_one() {
    let mut heap = Heap::new();
    let y = heap.construct(30u64);
    assert_eq!(*y.access(), 30);
    assert_eq!(heap.count(y.cell()), Some(1));
    let _ = heap.destroy(y);
}

#[test]
fn clone_gives_same_value_and_count_two() {
    let mut heap = Heap::new();
    let y = heap.construct(30u64);
    let z = heap.clone_handle(&y);
    assert_eq!(heap.count(y.cell()), Some(2));
    assert_eq!(*y.access(), 30);
    assert_eq!(*z.access(), 30);
    let _ = heap.destroy(z);
    let _ = heap.destroy(y);
}

#[test]
fn destroying_clone_decrements_without_release() {
    let mut heap = Heap::new();
    let y = heap.construct(30u64);
    let z = heap.clone_handle(&y);
    let released = heap.destroy(z);
    assert!(!released);
    assert_eq!(heap.count(y.cell()), Some(1));
    assert_eq!(*y.access(), 30);
    let _ = heap.destroy(y);
}

#[test]
fn destroying_last_handle_releases_once() {
    let mut heap = Heap::new();
    let y = heap.construct(30u64);
    let z = heap.clone_handle(&y);
    let cell = y.cell();
    let first = heap.destroy(z);
    let second = heap.destroy(y);
    assert!(!first);
    assert!(second);
    assert_eq!(heap.count(cell), None);
}

#[test]
fn construct_then_destroy_releases_directly() {
    let mut heap = Heap::new();
    let a = heap.construct(5u64);
    let cell = a.cell();
    let released = heap.destroy(a);
    assert!(released);
    assert_eq!(heap.count(cell), None);
}

#[test]
fn count_balances_constructs_clones_and_destroys() {
    // one construct, three clones, two destroys: count must be 1 + 3 - 2
    let mut heap = Heap::new();
    let a = heap.construct(7u32);
    let b = heap.clone_handle(&a);
    let c = heap.clone_handle(&b);
    let d = heap.clone_handle(&a);
    assert_eq!(heap.count(a.cell()), Some(4));
    assert!(!heap.destroy(b));
    assert!(!heap.destroy(d));
    assert_eq!(heap.count(a.cell()), Some(2));
    assert!(!heap.destroy(c));
    assert!(heap.destroy(a));
}

#[test]
fn release_signal_comes_exactly_once_whatever_the_order() {
    // destroy the original first: the release still comes only at the last destroy
    let mut heap = Heap::new();
    let a = heap.construct(9i64);
    let b = heap.clone_handle(&a);
    let c = heap.clone_handle(&a);
    let cell = a.cell();
    let mut signals: u32 = 0;
    if heap.destroy(a) {
        signals += 1;
    }
    assert_eq!(heap.count(cell), Some(2));
    if heap.destroy(c) {
        signals += 1;
    }
    assert_eq!(heap.count(cell), Some(1));
    if heap.destroy(b) {
        signals += 1;
    }
    assert_eq!(signals, 1);
    assert_eq!(heap.count(cell), None);
}

#[test]
fn cloning_leaves_the_original_payload_alone() {
    let mut heap = Heap::new();
    let a = heap.construct(-3i32);
    let before = *a.access();
    let b = heap.clone_handle(&a);
    assert_eq!(*a.access(), before);
    assert_eq!(*b.access(), *a.access());
    let _ = heap.destroy(b);
    let _ = heap.destroy(a);
}

#[test]
fn groups_from_different_constructs_are_independent() {
    let mut heap = Heap::new();
    let a = heap.construct(1u8);
    let b = heap.construct(2u8);
    let a2 = heap.clone_handle(&a);
    assert_eq!(heap.count(a.cell()), Some(2));
    assert_eq!(heap.count(b.cell()), Some(1));
    assert!(heap.destroy(b));
    assert_eq!(heap.count(a.cell()), Some(2));
    assert!(!heap.destroy(a2));
    assert!(heap.destroy(a));
}

#[test]
fn count_of_unknown_cell_is_none() {
    let heap = Heap::new();
    assert_eq!(heap.count(0), None);
    assert_eq!(heap.count(17), None);
}
