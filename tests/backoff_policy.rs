use binance_stream::backoff::{Backoff, ReconnectCfg};

fn cfg() -> ReconnectCfg {
    ReconnectCfg {
        fast_attempts: 3,
        fast_delay_ms: 100,
        base_delay_ms: 300,
        max_delay_ms: 5000,
        factor_permille: 2000,
        reset_after_ms: 5000,
        max_retries: Some(10),
    }
}

#[test]
fn backoff_schedule() {
    let mut b = Backoff::new(cfg(), 0);
    let delays: Vec<u64> = (0..10).map(|_| b.next_delay()).collect();
    assert_eq!(delays, vec![100, 100, 100, 600, 1200, 2400, 4800, 5000, 5000, 5000]);
    assert_eq!(b.attempts(), 10);
    assert_eq!(b.attempts_left(), Some(0));
}

#[test]
fn backoff_reset_after_success() {
    let mut b = Backoff::new(cfg(), 0);
    for _ in 0..5 {
        b.next_delay();
    }
    assert_eq!(b.attempts_left(), Some(5));
    b.on_connected(1000);
    assert!(!b.should_reset(5999));
    assert!(b.should_reset(6000));
    b.on_success(6000);
    assert_eq!(b.attempts(), 0);
    assert_eq!(b.next_delay(), 100);
}

#[test]
fn backoff_shrinking_factor() {
    let c = ReconnectCfg { factor_permille: 700, max_retries: None, ..cfg() };
    let mut b = Backoff::new(c, 0);
    let delays: Vec<u64> = (0..6).map(|_| b.next_delay()).collect();
    assert_eq!(delays, vec![100, 100, 100, 210, 147, 102]);
    assert_eq!(b.attempts_left(), None);
}

#[test]
fn backoff_base_above_ceiling() {
    let c = ReconnectCfg { fast_attempts: 0, base_delay_ms: 9000, factor_permille: 1000, ..cfg() };
    let mut b = Backoff::new(c, 0);
    assert_eq!(b.next_delay(), 5000);
    assert_eq!(b.next_delay(), 5000);
    assert_eq!(b.cfg(), c);
}

#[test]
fn backoff_many_attempts_saturate() {
    let c = ReconnectCfg { max_delay_ms: u64::MAX, base_delay_ms: u64::MAX / 2, ..cfg() };
    let mut b = Backoff::new(c, 0);
    for _ in 0..3 {
        assert_eq!(b.next_delay(), 100);
    }
    assert_eq!(b.next_delay(), u64::MAX - 1);
    assert_eq!(b.next_delay(), u64::MAX);
}

#[test]
fn backoff_clamps_once_at_the_end() {
    let c = ReconnectCfg { fast_attempts: 0, base_delay_ms: 9000, factor_permille: 700, ..cfg() };
    let mut b = Backoff::new(c, 0);
    assert_eq!(b.next_delay(), 5000);
    assert_eq!(b.next_delay(), 4410);
}

#[test]
fn backoff_rounds_down_each_step() {
    let c = ReconnectCfg { fast_attempts: 0, base_delay_ms: 333, factor_permille: 1500, max_delay_ms: 100_000, ..cfg() };
    let mut b = Backoff::new(c, 0);
    assert_eq!(b.next_delay(), 499);
    assert_eq!(b.next_delay(), 748);
}
