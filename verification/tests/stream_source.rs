use frame_sync::stream::DummyStream;

#[test]
fn new_stream_is_zeroed() {
    let s = DummyStream::new(4, 2);
    assert_eq!(s.frame_count, 0);
    assert_eq!(s.buffer, vec![0u8; 8]);
}

#[test]
fn poll_writes_index_plus_count() {
    let mut s = DummyStream::new(3, 2);
    let first = s.next().to_vec();
    assert_eq!(first, vec![0, 1, 2, 3, 4, 5]);
    assert_eq!(s.frame_count, 1);
    let second = s.next().to_vec();
    assert_eq!(second, vec![1, 2, 3, 4, 5, 6]);
    assert_eq!(s.frame_count, 2);
}

#[test]
fn poll_determinism_formula() {
    // After k polls the sample at index i is (i + k - 1) mod 256, for k >= 1.
    let mut s = DummyStream::new(3, 2);
    for k in 1u32..=300 {
        let frame = s.next().to_vec();
        for (i, sample) in frame.iter().enumerate() {
            assert_eq!(*sample as u32, (i as u32 + k - 1) % 256);
        }
        assert_eq!(s.frame_count, k);
    }
}

#[test]
fn current_view_matches_last_poll() {
    let mut s = DummyStream::new(2, 2);
    let polled = s.next().to_vec();
    assert_eq!(s.current(), polled.as_slice());
    assert_eq!(s.frame_count, 1);
}

#[test]
fn empty_stream_polls() {
    let mut s = DummyStream::new(0, 5);
    assert_eq!(s.next().len(), 0);
    assert_eq!(s.frame_count, 1);
}
