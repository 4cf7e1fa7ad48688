use xcap::waker::RecorderWaker;

#[test]
fn wake_then_wait_returns_immediately() {
    let w = RecorderWaker::new();
    assert!(w.wake().is_ok());
    assert!(w.wait().is_ok());
}

#[test]
fn repeated_wakes_are_idempotent() {
    let w = RecorderWaker::new();
    assert!(w.wake().is_ok());
    assert!(w.wake().is_ok());
    assert!(w.wake().is_ok());
    // the flag stays cleared: every wait that follows returns at once
    assert!(w.wait().is_ok());
    assert!(w.wait().is_ok());
}

#[test]
fn sleep_then_wake_then_wait_returns() {
    let w = RecorderWaker::new();
    assert!(w.wake().is_ok());
    assert!(w.wait().is_ok());
    assert!(w.sleep().is_ok());
    // re-armed by sleep; a new wake releases the next wait
    assert!(w.wake().is_ok());
    assert!(w.wait().is_ok());
}

#[test]
fn wake_with_no_waiter_is_still_observed() {
    // level-triggered: the wake precedes any wait and is not lost
    let w = RecorderWaker::new();
    assert!(w.sleep().is_ok());
    assert!(w.wake().is_ok());
    assert!(w.wait().is_ok());
}
