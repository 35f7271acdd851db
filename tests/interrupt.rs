use mktcb::interrupt::{Interrupt, ReleaseResponse, SignalResponse};

#[test]
fn signal_outside_guard_exits_at_once() {
    let mut i = Interrupt::new();
    assert_eq!(i.signal(), SignalResponse::Exit);
    assert!(!i.must_stop);
}

#[test]
fn signal_inside_guard_waits_for_release() {
    let mut i = Interrupt::new();
    let g = i.lock();
    assert!(i.locked);
    assert_eq!(i.signal(), SignalResponse::Defer);
    assert!(i.must_stop);
    assert_eq!(i.release(g), ReleaseResponse::Exit);
}

#[test]
fn release_without_signal_unlocks() {
    let mut i = Interrupt::new();
    let g = i.lock();
    assert_eq!(i.release(g), ReleaseResponse::Resume);
    assert!(!i.locked);
    let g = i.lock();
    assert_eq!(i.release(g), ReleaseResponse::Resume);
}
