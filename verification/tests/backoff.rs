//! Retry backoff behavior: monotonicity, the cap, and reset.

use eclss::retry::ExpBackoff;

#[test]
fn first_wait_is_zero_on_cold_start() {
    let mut b = ExpBackoff::new(500);
    assert_eq!(b.wait(), 0);
    assert_eq!(b.wait(), 500);
}

#[test]
fn delays_never_decrease_and_never_exceed_max() {
    let mut b = ExpBackoff::new(700).with_max(2000);
    let mut prev = b.wait();
    for _ in 0..20 {
        let next = b.wait();
        assert!(next >= prev);
        assert!(next <= 2000);
        prev = next;
    }
}

#[test]
fn delay_saturates_at_max() {
    let mut b = ExpBackoff::new(700).with_max(2000);
    let mut seen = Vec::new();
    for _ in 0..5 {
        seen.push(b.wait());
    }
    // 0, 700, 1400, then the cap
    assert_eq!(seen, vec![0, 700, 1400, 2000, 2000]);
}

#[test]
fn current_after_reset_is_initial() {
    let mut b = ExpBackoff::new(500);
    b.wait();
    b.wait();
    b.wait();
    b.reset();
    assert_eq!(b.current(), 500);
    assert_eq!(b.current_ms(), 500);
}

#[test]
fn current_does_not_advance() {
    let mut b = ExpBackoff::new(500);
    b.reset();
    assert_eq!(b.current(), 500);
    assert_eq!(b.current(), 500);
    assert_eq!(b.wait(), 500);
}

#[test]
fn clone_starts_the_attempt_counter_over() {
    let mut b = ExpBackoff::new(700).with_max(2000);
    b.wait();
    b.wait();
    b.wait();
    // the warm backoff would wait 2000 next; its clone starts at zero
    let mut c = b.clone();
    assert_eq!(c.current(), 0);
    assert_eq!(c.wait(), 0);
    assert_eq!(c.wait(), 700);
    // the original is unaffected
    assert_eq!(b.current(), 2000);
}

#[test]
fn default_backoff_starts_at_one_second() {
    let mut b = ExpBackoff::default();
    assert_eq!(b.wait(), 0);
    assert_eq!(b.wait(), 1000);
}
