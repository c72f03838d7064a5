use sdbus::refcount::RefCount;

#[test]
fn release_frees_exactly_once_after_last_handle() {
    let n = 5;
    let mut rc = RefCount::take_over();
    assert_eq!(rc.count(), 1);

    // Duplicate the owning handle n times.
    for i in 0..n {
        rc.acquire();
        assert_eq!(rc.count(), 2 + i);
    }

    // Destroy all n + 1 handles: the resource is freed exactly on the last
    // release, and borrowed views stay valid (count positive) before it.
    let mut frees = 0;
    for i in 0..(n + 1) {
        let freed = rc.release();
        if freed {
            frees += 1;
        }
        if i < n {
            assert!(!freed);
            assert!(rc.count() > 0);
        } else {
            assert!(freed);
            assert_eq!(rc.count(), 0);
        }
    }
    assert_eq!(frees, 1);
}

#[test]
fn promotion_keeps_resource_alive() {
    // A borrowed view promoted to an owning handle keeps the resource alive
    // after the original handle goes away.
    let mut rc = RefCount::take_over();
    rc.acquire(); // promotion of a borrowed view
    assert!(!rc.release()); // original handle destroyed: not freed yet
    assert!(rc.count() > 0);
    assert!(rc.release()); // promoted handle destroyed: freed now
}
