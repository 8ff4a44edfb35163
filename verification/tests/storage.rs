//! Storage sizing and allocation behavior.

use dynsys::system_storage::build_system_storage;
use dynsys::{StoragePolicy, StorageSize, SystemStorageBuilder};

#[test]
fn builder_assigns_contiguous_disjoint_slots() {
    let mut b = SystemStorageBuilder::new(StoragePolicy::Static { capacity: 64 });
    let s0 = b.reserve(4).unwrap();
    let s1 = b.reserve(4).unwrap();
    let s2 = b.reserve(8).unwrap();
    assert_eq!(s0.offset, 0);
    assert_eq!(s0.size, 4);
    assert_eq!(s1.offset, 4);
    assert_eq!(s2.offset, 8);
    assert_eq!(s2.size, 8);
    // pairwise disjoint: each slot ends before the next begins
    assert!(s0.offset + s0.size <= s1.offset);
    assert!(s1.offset + s1.size <= s2.offset);
    let storage = b.build();
    assert_eq!(storage.used_bytes(), 16);
    assert_eq!(storage.capacity(), 64);
    assert_eq!(storage.slot_count(), 3);
    assert_eq!(storage.slot(1).offset, 4);
}

#[test]
fn within_budget_set_succeeds() {
    // 3 parameters of 4 bytes, 2 inputs of 4 bytes, 1 discrete state of
    // 8 bytes against a 64-byte static budget: succeeds, 28 bytes used.
    let reqs: Vec<usize> = vec![4, 4, 4, 4, 4, 8];
    let storage = build_system_storage(&reqs, StoragePolicy::Static { capacity: 64 }).unwrap();
    assert_eq!(storage.used_bytes(), 28);
    assert_eq!(storage.slot_count(), 6);
    // every slot got its requested size, and ranges are pairwise disjoint
    for i in 0..storage.slot_count() {
        assert_eq!(storage.slot(i).size, reqs[i]);
        for j in 0..i {
            let a = storage.slot(j);
            let b = storage.slot(i);
            assert!(a.offset + a.size <= b.offset);
        }
    }
}

#[test]
fn over_budget_set_fails_static() {
    // the same set against a 16-byte budget overflows
    let reqs: Vec<usize> = vec![4, 4, 4, 4, 4, 8];
    let e = build_system_storage(&reqs, StoragePolicy::Static { capacity: 16 }).unwrap_err();
    // the fifth request finds the 16 bytes exhausted
    assert_eq!(e.requested, 4);
    assert_eq!(e.available, 0);
}

#[test]
fn over_budget_set_succeeds_on_heap() {
    // the heap strategy has no fixed ceiling, so the same set builds
    let reqs: Vec<usize> = vec![4, 4, 4, 4, 4, 8];
    let storage = build_system_storage(&reqs, StoragePolicy::Heap).unwrap();
    assert_eq!(storage.used_bytes(), 28);
}

#[test]
fn empty_requirement_set_builds_empty_layout() {
    let reqs: Vec<usize> = vec![];
    let storage = build_system_storage(&reqs, StoragePolicy::Static { capacity: 0 }).unwrap();
    assert_eq!(storage.used_bytes(), 0);
    assert_eq!(storage.slot_count(), 0);
}

#[test]
fn exact_fit_succeeds_and_one_more_byte_fails() {
    let reqs: Vec<usize> = vec![8, 8];
    let storage = build_system_storage(&reqs, StoragePolicy::Static { capacity: 16 }).unwrap();
    assert_eq!(storage.used_bytes(), 16);
    let reqs2: Vec<usize> = vec![8, 8, 1];
    let e = build_system_storage(&reqs2, StoragePolicy::Static { capacity: 16 }).unwrap_err();
    assert_eq!(e.requested, 1);
    assert_eq!(e.available, 0);
}

#[test]
fn reserve_reports_remaining_room() {
    let mut b = SystemStorageBuilder::new(StoragePolicy::Static { capacity: 10 });
    b.reserve(6).unwrap();
    assert_eq!(b.available(), 4);
    let e = b.reserve(5).unwrap_err();
    assert_eq!(e.requested, 5);
    assert_eq!(e.available, 4);
    // the failed request left the builder unchanged
    assert_eq!(b.available(), 4);
    b.reserve(4).unwrap();
    assert_eq!(b.available(), 0);
}

#[test]
fn storage_size_totals() {
    let z = StorageSize::zero();
    assert_eq!(z.total(), Some(0));
    let a = StorageSize {
        parameter_bytes: 12,
        input_bytes: 8,
        output_bytes: 0,
        discrete_state_bytes: 8,
    };
    assert_eq!(a.total(), Some(28));
    let b = a.plus(&a).unwrap();
    assert_eq!(b.total(), Some(56));
    let huge = StorageSize {
        parameter_bytes: usize::MAX,
        input_bytes: 0,
        output_bytes: 0,
        discrete_state_bytes: 0,
    };
    assert_eq!(huge.plus(&a), None);
    let near = StorageSize {
        parameter_bytes: usize::MAX,
        input_bytes: 1,
        output_bytes: 0,
        discrete_state_bytes: 0,
    };
    assert_eq!(near.total(), None);
}

#[test]
fn a_declared_requirement_reserves_through_the_builder() {
    // one slot per variable kind, all or nothing
    let mut b = SystemStorageBuilder::new(StoragePolicy::Static { capacity: 16 });
    let req = StorageSize {
        parameter_bytes: 0,
        input_bytes: 1,
        output_bytes: 1,
        discrete_state_bytes: 8,
    };
    b.reserve_sized(&req).unwrap();
    assert_eq!(b.available(), 6);
    // a second block of the same shape no longer fits; the builder is
    // left exactly as it was
    let e = b.reserve_sized(&req).unwrap_err();
    assert_eq!(e.requested, 10);
    assert_eq!(e.available, 6);
    assert_eq!(b.available(), 6);
    let storage = b.build();
    assert_eq!(storage.used_bytes(), 10);
    assert_eq!(storage.slot_count(), 4);
}
