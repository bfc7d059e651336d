use modesetting::query::TwoPhaseQuery;

#[test]
fn zero_count_completes_without_a_fill_call() {
    let mut q: TwoPhaseQuery<u32> = TwoPhaseQuery::new();
    assert!(!q.is_complete());
    q.on_probe_count(0);
    // The query is already complete: no second allocate-and-fill call is
    // owed, and the result is empty.
    assert!(q.is_complete());
    let items = q.into_items();
    assert!(items.is_empty());
}

#[test]
fn nonzero_count_requests_a_fill_of_that_length() {
    let mut q: TwoPhaseQuery<u32> = TwoPhaseQuery::new();
    q.on_probe_count(3);
    assert!(!q.is_complete());
    assert_eq!(q.fill_size(), 3);
    q.on_filled(vec![11, 22, 33]);
    assert!(q.is_complete());
    assert_eq!(q.into_items(), vec![11, 22, 33]);
}

#[test]
fn fill_buffer_length_is_the_probed_count() {
    let mut q: TwoPhaseQuery<u64> = TwoPhaseQuery::new();
    q.on_probe_count(2);
    let n = q.fill_size() as usize;
    let buf: Vec<u64> = vec![0; n];
    q.on_filled(buf);
    assert_eq!(q.into_items(), vec![0, 0]);
}
