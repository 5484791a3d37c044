use luau_exec::backoff::{next_delay, INITIAL_POLL_DELAY_SECS, MAX_POLL_DELAY_SECS};

#[test]
fn backoff_sequence_doubles_then_caps() {
    let mut delay = INITIAL_POLL_DELAY_SECS;
    let mut observed = Vec::new();
    for _ in 0..8 {
        observed.push(delay);
        delay = next_delay(delay);
    }
    assert_eq!(observed, vec![1, 2, 4, 8, 16, 30, 30, 30]);
}

#[test]
fn backoff_never_exceeds_cap() {
    let mut delay = INITIAL_POLL_DELAY_SECS;
    for _ in 0..100 {
        assert!(delay <= MAX_POLL_DELAY_SECS);
        assert!(delay >= 1);
        delay = next_delay(delay);
    }
    assert_eq!(delay, MAX_POLL_DELAY_SECS);
}

#[test]
fn backoff_constants() {
    assert_eq!(INITIAL_POLL_DELAY_SECS, 1);
    assert_eq!(MAX_POLL_DELAY_SECS, 30);
}

#[test]
fn backoff_step_values() {
    assert_eq!(next_delay(1), 2);
    assert_eq!(next_delay(15), 30);
    assert_eq!(next_delay(16), 30);
    assert_eq!(next_delay(30), 30);
}
