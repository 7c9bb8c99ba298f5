use canon_rt::shim::{AllocError, ShimHeap};

#[test]
fn zero_to_zero_returns_alignment_sentinel() {
    let mut heap = ShimHeap::new();
    let p = heap.cabi_realloc(0, 0, 8, 0).unwrap();
    assert_eq!(p, 8);
    assert_ne!(p, 0);
}

#[test]
fn fresh_allocation_is_aligned_and_usable() {
    let mut heap = ShimHeap::new();
    let p = heap.cabi_realloc(0, 0, 8, 64).unwrap();
    assert_ne!(p, 0);
    assert_eq!(p % 8, 0);
    for off in 0..64 {
        assert_eq!(heap.read_byte(p, off), 0);
    }
    heap.write_byte(p, 0, 0xAB);
    heap.write_byte(p, 63, 0xCD);
    assert_eq!(heap.read_byte(p, 0), 0xAB);
    assert_eq!(heap.read_byte(p, 63), 0xCD);
    heap.dealloc(p, 64, 8);
}

#[test]
fn growing_preserves_original_bytes() {
    let mut heap = ShimHeap::new();
    let p = heap.cabi_realloc(0, 0, 8, 4).unwrap();
    for off in 0..4 {
        heap.write_byte(p, off, (off as u8) + 1);
    }
    let q = heap.cabi_realloc(p, 4, 8, 8).unwrap();
    for off in 0..4 {
        assert_eq!(heap.read_byte(q, off), (off as u8) + 1);
    }
    for off in 4..8 {
        assert_eq!(heap.read_byte(q, off), 0);
    }
    heap.dealloc(q, 8, 8);
}

#[test]
fn shrinking_keeps_the_prefix() {
    let mut heap = ShimHeap::new();
    let p = heap.cabi_realloc(0, 0, 4, 4).unwrap();
    heap.write_byte(p, 0, 7);
    heap.write_byte(p, 1, 9);
    let q = heap.cabi_realloc(p, 4, 4, 2).unwrap();
    assert_eq!(heap.read_byte(q, 0), 7);
    assert_eq!(heap.read_byte(q, 1), 9);
    heap.dealloc(q, 2, 4);
}

#[test]
fn dealloc_of_zero_size_is_a_no_op() {
    let mut heap = ShimHeap::new();
    heap.dealloc(12345, 0, 8);
    let p = heap.cabi_realloc(0, 0, 8, 16).unwrap();
    assert_ne!(p, 0);
}

#[test]
fn distinct_allocations_get_distinct_pointers() {
    let mut heap = ShimHeap::new();
    let p = heap.cabi_realloc(0, 0, 8, 16).unwrap();
    let q = heap.cabi_realloc(0, 0, 8, 16).unwrap();
    assert_ne!(p, q);
    heap.write_byte(p, 0, 1);
    heap.write_byte(q, 0, 2);
    assert_eq!(heap.read_byte(p, 0), 1);
    assert_eq!(heap.read_byte(q, 0), 2);
}

#[test]
fn exhausted_arena_reports_size_and_alignment() {
    let mut heap = ShimHeap::new();
    for _ in 0..60000 {
        heap.cabi_realloc(0, 0, 1, 1).unwrap();
    }
    assert_eq!(heap.cabi_realloc(0, 0, 4, 7), Err(AllocError { size: 7, align: 4 }));
}
