use fastjob_worker::drain::{channel, DrainState};

#[test]
fn fresh_pair_is_unresolved() {
    let s: DrainState = channel();
    assert!(!s.drain_requested);
    assert_eq!(s.watches, 1);
    assert_eq!(s.capabilities, 0);
    assert!(!s.is_resolved());
}

#[test]
fn drain_with_no_watchers_resolves_immediately() {
    let mut s = channel();
    s.drop_watch();
    s.drain();
    assert!(s.is_resolved());
}

#[test]
fn drain_blocks_until_both_capabilities_released() {
    let mut s = channel();
    s.clone_watch();
    let mut t = channel();
    t.clone_watch();

    // two watch clones take their capabilities unconditionally, then the
    // drain is requested; it completes only after both releases
    s.ignore_signaled();
    s.ignore_signaled();
    s.drain();
    assert!(!s.is_resolved());
    s.release();
    assert!(!s.is_resolved());
    s.release();
    assert!(s.is_resolved());

    // the mirror ordering: drain requested first, releases after
    t.drain();
    t.ignore_signaled();
    t.ignore_signaled();
    assert!(!t.is_resolved());
    t.release();
    assert!(!t.is_resolved());
    t.release();
    assert!(t.is_resolved());
}

#[test]
fn subscriber_observes_signal_then_releases() {
    let mut s = channel();
    s.drain();
    s.signaled();
    assert_eq!(s.capabilities, 1);
    assert!(!s.is_resolved());
    s.release();
    assert!(s.is_resolved());
}

#[test]
fn watch_returns_operation_result_without_drain() {
    let mut s = channel();
    let (res, on_drain_calls) = s.watch(false, 41u32);
    assert_eq!(res, 41);
    assert_eq!(on_drain_calls, 0);
    assert_eq!(s.capabilities, 0);
    assert_eq!(s.watches, 0);
}

#[test]
fn watch_returns_operation_result_when_drain_fires() {
    let mut s = channel();
    s.clone_watch();
    s.drain();
    let (res, on_drain_calls) = s.watch(true, 7u32);
    assert_eq!(res, 7);
    assert_eq!(on_drain_calls, 1);
    // the watched operation finished, so no capability stays outstanding
    assert_eq!(s.capabilities, 0);
    assert_eq!(s.watches, 1);
    s.drop_watch();
    assert!(s.is_resolved());
}

#[test]
fn release_after_hands_result_through() {
    let mut s = channel();
    s.ignore_signaled();
    let r = s.release_after("done");
    assert_eq!(r, "done");
    s.drain();
    assert!(s.is_resolved());
}
