use binance_stream::backoff::{Backoff, ReconnectCfg};
use binance_stream::session::{Action, ConnState, Frame, Outcome, SessionCfg, Supervisor};

fn reconnect() -> ReconnectCfg {
    ReconnectCfg {
        fast_attempts: 3,
        fast_delay_ms: 100,
        base_delay_ms: 300,
        max_delay_ms: 5000,
        factor_permille: 2000,
        reset_after_ms: 5000,
        max_retries: Some(5),
    }
}

fn feed(stale_ms: u64) -> Supervisor {
    Supervisor::new(
        SessionCfg { stale_kill_ms: Some(stale_ms), drains_outbound: false, delivers_other: false },
        Backoff::new(reconnect(), 0),
    )
}

fn open(s: &mut Supervisor, now: u64) {
    assert_eq!(s.begin_attempt(false), Action::Connect);
    assert_eq!(s.on_connected(), Action::Handshake);
    assert_eq!(s.on_handshake(now), Action::ReportUp);
    assert_eq!(s.state(), ConnState::Streaming);
}

#[test]
fn end_to_end_session() {
    let mut s = feed(1000);
    open(&mut s, 0);
    let mut published = 0;
    for t in 1..=5 {
        if s.on_frame(Frame::Text { decoded: true }, t * 10, false) == Action::Deliver {
            published += 1;
        }
    }
    assert_eq!(s.on_frame(Frame::Text { decoded: false }, 60, false), Action::Read);
    assert_eq!(s.on_frame(Frame::Ping, 70, false), Action::SendPong);
    assert_eq!(s.on_written(true), Action::Read);
    assert_eq!(s.on_idle(500, false), Action::Read);
    assert_eq!(s.on_idle(1071, false), Action::TearDown);
    assert_eq!(s.state(), ConnState::Closing);
    assert_eq!(s.on_torn_down(1071, false), Action::Sleep(100));
    assert_eq!(published, 5);
    assert_eq!(s.delivered(), 5);
    assert_eq!(s.malformed(), 1);
    assert_eq!(s.pongs(), 1);
    assert_eq!(s.stale_kills(), 1);
    assert_eq!(s.teardowns(), 1);
    assert_eq!(s.reconnects(), 1);
    assert_eq!(s.state(), ConnState::Disconnected);
    assert_eq!(s.outcome(), None);
}

#[test]
fn staleness_tears_down_once() {
    let mut s = feed(1000);
    open(&mut s, 100);
    assert_eq!(s.on_idle(1100, false), Action::Read);
    assert_eq!(s.on_frame(Frame::Pong, 1100, false), Action::Read);
    assert_eq!(s.on_idle(2100, false), Action::Read);
    assert_eq!(s.on_idle(2101, false), Action::TearDown);
    assert_eq!(s.state(), ConnState::Closing);
    assert_eq!(s.on_torn_down(2101, false), Action::Sleep(100));
    assert_eq!(s.stale_kills(), 1);
    assert_eq!(s.teardowns(), 1);
    assert_eq!(s.begin_attempt(false), Action::Connect);
}

#[test]
fn cancellation_stops_cleanly() {
    let mut s = feed(1000);
    assert_eq!(s.begin_attempt(true), Action::Stop(Outcome::Cancelled));
    assert_eq!(s.outcome(), Some(Outcome::Cancelled));

    let mut s = feed(1000);
    open(&mut s, 0);
    assert_eq!(s.on_frame(Frame::Text { decoded: true }, 5, true), Action::TearDown);
    assert_eq!(s.on_torn_down(6, true), Action::Stop(Outcome::Cancelled));
    assert_eq!(s.reconnects(), 0);
}

#[test]
fn attempts_exhaust() {
    let c = ReconnectCfg { max_retries: Some(2), ..reconnect() };
    let mut s = Supervisor::new(
        SessionCfg { stale_kill_ms: Some(1000), drains_outbound: false, delivers_other: false },
        Backoff::new(c, 0),
    );
    for expected in [Action::Sleep(100), Action::Sleep(100)] {
        assert_eq!(s.begin_attempt(false), Action::Connect);
        assert_eq!(s.on_failure(), Action::TearDown);
        assert_eq!(s.on_torn_down(0, false), expected);
    }
    assert_eq!(s.begin_attempt(false), Action::Connect);
    assert_eq!(s.on_connected(), Action::Handshake);
    assert_eq!(s.on_failure(), Action::TearDown);
    assert_eq!(s.on_torn_down(0, false), Action::Stop(Outcome::Exhausted));
    assert_eq!(s.outcome(), Some(Outcome::Exhausted));
}

#[test]
fn long_session_resets_attempts() {
    let mut s = feed(1000);
    open(&mut s, 0);
    assert_eq!(s.on_frame(Frame::Close, 10, false), Action::TearDown);
    assert_eq!(s.on_torn_down(10, false), Action::Sleep(100));
    assert_eq!(s.begin_attempt(false), Action::Connect);
    assert_eq!(s.on_failure(), Action::TearDown);
    assert_eq!(s.on_torn_down(20, false), Action::Sleep(100));
    assert_eq!(s.backoff().attempts(), 2);
    open(&mut s, 100);
    assert_eq!(s.on_frame(Frame::Text { decoded: true }, 5200, false), Action::Deliver);
    assert_eq!(s.on_failure(), Action::TearDown);
    assert_eq!(s.on_torn_down(5200, false), Action::Sleep(100));
    assert_eq!(s.backoff().attempts(), 1);
}

#[test]
fn short_session_keeps_counting() {
    let mut s = feed(1000);
    for expected in [100, 100, 100, 600] {
        open(&mut s, 0);
        assert_eq!(s.on_failure(), Action::TearDown);
        assert_eq!(s.on_torn_down(10, false), Action::Sleep(expected));
    }
}

#[test]
fn request_stream_drains_when_idle() {
    let mut s = Supervisor::new(
        SessionCfg { stale_kill_ms: None, drains_outbound: true, delivers_other: true },
        Backoff::new(reconnect(), 0),
    );
    open(&mut s, 0);
    assert_eq!(s.on_idle(1_000_000, false), Action::DrainOutbound);
    assert_eq!(s.on_written(false), Action::Read);
    assert_eq!(s.on_frame(Frame::Other, 1_000_001, false), Action::Deliver);
    assert_eq!(s.on_idle(1_000_002, true), Action::TearDown);
    assert_eq!(s.pongs(), 0);
}

#[test]
fn feed_ignores_other_frames() {
    let mut s = feed(1000);
    open(&mut s, 0);
    assert_eq!(s.on_frame(Frame::Other, 900, false), Action::Read);
    assert_eq!(s.delivered(), 0);
    assert_eq!(s.on_idle(1800, false), Action::Read);
    assert_eq!(s.on_idle(1901, false), Action::TearDown);
}
