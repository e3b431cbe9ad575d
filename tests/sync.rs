use framepace::sync::{FenceState, FrameSync};

#[test]
fn fences_start_signaled() {
    let s = FrameSync::new(3);
    assert_eq!(s.slot_count(), 3);
    for slot in 0..3 {
        assert_eq!(s.state(slot), FenceState::Signaled);
    }
    assert!(s.is_quiet());
}

#[test]
fn fence_cycle_goes_reset_pending_signaled() {
    let mut s = FrameSync::new(2);
    assert!(!s.submit(0));
    assert!(!s.complete(0));
    assert!(s.reset(0));
    assert_eq!(s.state(0), FenceState::Reset);
    assert!(!s.reset(0));
    assert!(!s.is_quiet());
    assert!(s.submit(0));
    assert_eq!(s.state(0), FenceState::Pending);
    assert!(!s.reset(0));
    assert!(s.complete(0));
    assert_eq!(s.state(0), FenceState::Signaled);
    assert_eq!(s.state(1), FenceState::Signaled);
    assert!(s.is_quiet());
}

#[test]
fn settling_signals_pending_and_keeps_held() {
    let mut s = FrameSync::new(3);
    s.reset(0);
    s.submit(0);
    s.reset(1);
    s.settle_all();
    assert_eq!(s.state(0), FenceState::Signaled);
    assert_eq!(s.state(1), FenceState::Reset);
    assert_eq!(s.state(2), FenceState::Signaled);
}
