use microkernel::allocator::KernelAlloc;

#[test]
fn allocations_are_aligned_and_disjoint() {
    let mut a = KernelAlloc::new(1, 1024);
    let p0 = a.allocate(10, 4).unwrap();
    assert_eq!(p0 % 4, 0);
    assert!(p0 >= 1);
    let p1 = a.allocate(3, 8).unwrap();
    assert_eq!(p1 % 8, 0);
    assert!(p1 >= p0 + 10);
    let p2 = a.allocate(1, 1).unwrap();
    assert!(p2 >= p1 + 3);
}

#[test]
fn exact_bump_positions() {
    let mut a = KernelAlloc::new(0, 64);
    assert_eq!(a.allocate(10, 4), Some(0));
    assert_eq!(a.allocate(1, 4), Some(12));
    assert_eq!(a.allocate(8, 8), Some(16));
    assert_eq!(a.allocate(0, 2), Some(24));
}

#[test]
fn exhaustion_returns_nothing_and_keeps_the_cursor() {
    let mut a = KernelAlloc::new(0, 16);
    assert_eq!(a.allocate(12, 1), Some(0));
    assert_eq!(a.allocate(8, 1), None);
    // the failed request reserved nothing: a smaller one still fits
    assert_eq!(a.allocate(4, 1), Some(12));
    assert_eq!(a.allocate(1, 1), None);
}

#[test]
fn deallocate_reclaims_nothing() {
    let mut a = KernelAlloc::new(0, 32);
    let p0 = a.allocate(8, 1).unwrap();
    a.deallocate(p0, 8, 1);
    let p1 = a.allocate(8, 1).unwrap();
    assert_eq!(p1, 8);
}

#[test]
fn overflowing_requests_fail_cleanly() {
    let mut a = KernelAlloc::new(0, usize::MAX);
    assert_eq!(a.allocate(8, 1), Some(0));
    assert_eq!(a.allocate(usize::MAX, 1), None);
    assert_eq!(a.allocate(1, 1), Some(8));
}
