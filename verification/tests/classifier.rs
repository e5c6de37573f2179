use frame_sync::classify::DeltaRes;

#[test]
fn boundaries_left_lagging() {
    assert_eq!(DeltaRes::from_delta(0), DeltaRes::LeftLagging);
    assert_eq!(DeltaRes::from_delta(56), DeltaRes::LeftLagging);
    assert_eq!(DeltaRes::from_delta(79), DeltaRes::LeftLagging);
}

#[test]
fn boundaries_synchronized() {
    assert_eq!(DeltaRes::from_delta(80), DeltaRes::Synchronized);
    assert_eq!(DeltaRes::from_delta(100), DeltaRes::Synchronized);
    assert_eq!(DeltaRes::from_delta(174), DeltaRes::Synchronized);
}

#[test]
fn boundaries_right_lagging() {
    assert_eq!(DeltaRes::from_delta(175), DeltaRes::RightLagging);
    assert_eq!(DeltaRes::from_delta(200), DeltaRes::RightLagging);
    assert_eq!(DeltaRes::from_delta(255), DeltaRes::RightLagging);
}

#[test]
fn partition_exhaustive() {
    for delta in 0..=255u8 {
        let r = DeltaRes::from_delta(delta);
        let expected = if delta < 80 {
            DeltaRes::LeftLagging
        } else if delta < 175 {
            DeltaRes::Synchronized
        } else {
            DeltaRes::RightLagging
        };
        assert_eq!(r, expected);
    }
}
