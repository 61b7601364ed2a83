//! Decisions of the connection supervisor. The runner that owns the socket
//! reports each thing that happened through one method per event; the method
//! moves the state machine
//! `Disconnected -> Connecting -> Handshaking -> Streaming -> Closing -> Disconnected`
//! and answers with the next [`Action`] to perform.
use crate::backoff::{delay_for, Backoff};
use vstd::prelude::*;

verus! {

#[derive(Debug, Clone, Copy, PartialEq, Eq, Structural)]
pub enum ConnState {
    /// No session; the next attempt has not begun.
    Disconnected,
    /// Opening the TCP connection.
    Connecting,
    /// TLS handshake and WebSocket upgrade.
    Handshaking,
    /// Reading frames.
    Streaming,
    /// The session is being torn down.
    Closing,
}

/// How the supervisor ended.
#[derive(Debug, Clone, Copy, PartialEq, Eq, Structural)]
pub enum Outcome {
    /// The cancellation signal was set: a clean stop.
    Cancelled,
    /// The reconnect budget is spent: a failure.
    Exhausted,
}

/// One frame read from the session.
#[derive(Debug, Clone, Copy, PartialEq, Eq, Structural)]
pub enum Frame {
    /// A text frame; `decoded` tells whether its payload was understood.
    Text { decoded: bool },
    Ping,
    Pong,
    Close,
    /// A binary or other frame.
    Other,
}

/// What the runner must do next.
#[derive(Debug, Clone, Copy, PartialEq, Eq, Structural)]
pub enum Action {
    /// Open the TCP connection, then report `on_connected` or `on_failure`.
    Connect,
    /// Perform the TLS handshake and the upgrade, then report `on_handshake`
    /// or `on_failure`.
    Handshake,
    /// Report health up, then read.
    ReportUp,
    /// Read the next frame.
    Read,
    /// Hand the frame just read on as an event, then read.
    Deliver,
    /// Answer the ping just read with a pong of the same payload, then report
    /// `on_written` or `on_failure`.
    SendPong,
    /// Send the pending outbound requests, then report `on_written` or
    /// `on_failure`.
    DrainOutbound,
    /// Report health down and drop the session, then report `on_torn_down`.
    TearDown,
    /// Sleep this many milliseconds, waking early on cancellation, then call
    /// `begin_attempt`.
    Sleep(u64),
    /// Stop for good.
    Stop(Outcome),
}

/// Fixed settings of one stream.
#[derive(Debug, Clone, Copy, PartialEq, Eq, Structural)]
pub struct SessionCfg {
    /// A session without any frame for longer than this is dead; `None`
    /// disables the check.
    pub stale_kill_ms: Option<u64>,
    /// Whether idle gaps on the read path are used to send outbound requests.
    pub drains_outbound: bool,
    /// Whether binary and other non-text frames are handed on as events;
    /// otherwise they only re-arm the staleness clock.
    pub delivers_other: bool,
}

/// Counter that stops at the largest `u64`.
pub open spec fn bump(n: nat) -> nat {
    if n < u64::MAX {
        n + 1
    } else {
        n
    }
}

/// Whether a session whose last frame came at `last` is dead at `now`.
pub open spec fn is_stale(cfg: SessionCfg, last: nat, now: nat) -> bool {
    match cfg.stale_kill_ms {
        None => false,
        Some(k) => now > last + k,
    }
}

pub struct SupervisorView {
    pub cfg: SessionCfg,
    pub state: ConnState,
    pub outcome: Option<Outcome>,
    pub backoff: Backoff,
    /// When the last frame of the current session arrived.
    pub last_frame: nat,
    /// Whether the session being torn down had reached `Streaming`.
    pub was_up: bool,
    /// Frames handed on as events.
    pub delivered: nat,
    /// Text frames dropped because they were not understood.
    pub malformed: nat,
    /// Pings answered.
    pub pongs: nat,
    /// Sessions torn down because they went stale.
    pub stale_kills: nat,
    /// Sessions torn down for any reason.
    pub teardowns: nat,
    /// Reconnect delays handed out.
    pub reconnects: nat,
}

/// Whether a new connection attempt may begin: no session is left and the
/// supervisor has not stopped.
pub open spec fn may_begin(v: SupervisorView) -> bool {
    v.state == ConnState::Disconnected && v.outcome is None
}

/// The state and action after an idle poll at `now`.
pub open spec fn idle_next(v: SupervisorView, now: nat, cancelled: bool) -> (
    SupervisorView,
    Action,
) {
    if is_stale(v.cfg, v.last_frame, now) {
        (
            SupervisorView {
                state: ConnState::Closing,
                stale_kills: bump(v.stale_kills),
                teardowns: bump(v.teardowns),
                ..v
            },
            Action::TearDown,
        )
    } else if cancelled {
        (SupervisorView { state: ConnState::Closing, teardowns: bump(v.teardowns), ..v }, Action::TearDown)
    } else if v.cfg.drains_outbound {
        (v, Action::DrainOutbound)
    } else {
        (v, Action::Read)
    }
}

/// A streaming session that has been silent for longer than the stale-kill
/// time is torn down at the next idle poll, whether or not cancellation is
/// set: the poll asks for the teardown (health down, session dropped) and
/// counts it once. The session is then `Closing`, where no frame or idle
/// event is taken, so it cannot be torn down a second time, and no new
/// attempt may begin before `on_torn_down` has run.
pub proof fn lemma_stale_session_torn_down_once(v: SupervisorView, now: nat, cancelled: bool)
    requires
        v.state == ConnState::Streaming,
        is_stale(v.cfg, v.last_frame, now),
    ensures
        idle_next(v, now, cancelled).1 == Action::TearDown,
        idle_next(v, now, cancelled).0.state == ConnState::Closing,
        idle_next(v, now, cancelled).0.stale_kills == bump(v.stale_kills),
        idle_next(v, now, cancelled).0.teardowns == bump(v.teardowns),
        !may_begin(idle_next(v, now, cancelled).0),
        idle_next(v, now, cancelled).0.state != ConnState::Streaming,
{
}

/// After a teardown, a supervisor that is not cancelled reconnects rather
/// than stopping whenever the attempt budget is not spent; while the attempt
/// count is still below `fast_attempts`, the reconnect waits the fast delay.
/// For a fresh backoff (no attempt yet) that means: with `fast_attempts > 0`
/// and a budget other than `Some(0)`, the first teardown leads to
/// `Sleep(fast_delay_ms)`.
pub proof fn lemma_reconnect_after_teardown(b: Backoff, attempt: nat)
    requires
        attempt < b.config().fast_attempts,
        b.config().max_retries is None || attempt < b.config().max_retries->Some_0,
    ensures
        b.left_after(attempt) != Some(0u32),
        delay_for(b.config(), attempt) == b.config().fast_delay_ms,
{
}

pub struct Supervisor {
    cfg: SessionCfg,
    state: ConnState,
    outcome: Option<Outcome>,
    backoff: Backoff,
    last_frame_ms: u64,
    was_up: bool,
    delivered: u64,
    malformed: u64,
    pongs: u64,
    stale_kills: u64,
    teardowns: u64,
    reconnects: u64,
}

fn bump_u64(n: u64) -> (r: u64)
    ensures
        r == bump(n as nat),
{
    if n < u64::MAX {
        n + 1
    } else {
        n
    }
}

impl View for Supervisor {
    type V = SupervisorView;

    closed spec fn view(&self) -> SupervisorView {
        SupervisorView {
            cfg: self.cfg,
            state: self.state,
            outcome: self.outcome,
            backoff: self.backoff,
            last_frame: self.last_frame_ms as nat,
            was_up: self.was_up,
            delivered: self.delivered as nat,
            malformed: self.malformed as nat,
            pongs: self.pongs as nat,
            stale_kills: self.stale_kills as nat,
            teardowns: self.teardowns as nat,
            reconnects: self.reconnects as nat,
        }
    }
}

impl Supervisor {
    /// A supervisor with no session yet, all counters at zero.
    pub fn new(cfg: SessionCfg, backoff: Backoff) -> (r: Supervisor)
        ensures
            r@ == (SupervisorView {
                cfg,
                state: ConnState::Disconnected,
                outcome: None,
                backoff,
                last_frame: 0,
                was_up: false,
                delivered: 0,
                malformed: 0,
                pongs: 0,
                stale_kills: 0,
                teardowns: 0,
                reconnects: 0,
            }),
    {
        Supervisor {
            cfg,
            state: ConnState::Disconnected,
            outcome: None,
            backoff,
            last_frame_ms: 0,
            was_up: false,
            delivered: 0,
            malformed: 0,
            pongs: 0,
            stale_kills: 0,
            teardowns: 0,
            reconnects: 0,
        }
    }

    pub fn state(&self) -> (r: ConnState)
        ensures
            r == self@.state,
    {
        self.state
    }

    pub fn outcome(&self) -> (r: Option<Outcome>)
        ensures
            r == self@.outcome,
    {
        self.outcome
    }

    pub fn backoff(&self) -> (r: Backoff)
        ensures
            r == self@.backoff,
    {
        self.backoff
    }

    pub fn delivered(&self) -> (r: u64)
        ensures
            r == self@.delivered,
    {
        self.delivered
    }

    pub fn malformed(&self) -> (r: u64)
        ensures
            r == self@.malformed,
    {
        self.malformed
    }

    pub fn pongs(&self) -> (r: u64)
        ensures
            r == self@.pongs,
    {
        self.pongs
    }

    pub fn stale_kills(&self) -> (r: u64)
        ensures
            r == self@.stale_kills,
    {
        self.stale_kills
    }

    pub fn teardowns(&self) -> (r: u64)
        ensures
            r == self@.teardowns,
    {
        self.teardowns
    }

    pub fn reconnects(&self) -> (r: u64)
        ensures
            r == self@.reconnects,
    {
        self.reconnects
    }

    /// Starts a connection attempt, or stops where the cancellation signal
    /// is set.
    pub fn begin_attempt(&mut self, cancelled: bool) -> (r: Action)
        requires
            may_begin(old(self)@),
        ensures
            cancelled ==> r == Action::Stop(Outcome::Cancelled) && final(self)@ == (SupervisorView {
                outcome: Some(Outcome::Cancelled),
                ..old(self)@
            }),
            !cancelled ==> r == Action::Connect && final(self)@ == (SupervisorView {
                state: ConnState::Connecting,
                ..old(self)@
            }),
    {
        if cancelled {
            self.outcome = Some(Outcome::Cancelled);
            Action::Stop(Outcome::Cancelled)
        } else {
            self.state = ConnState::Connecting;
            Action::Connect
        }
    }

    /// The TCP connection is open.
    pub fn on_connected(&mut self) -> (r: Action)
        requires
            old(self)@.state == ConnState::Connecting,
        ensures
            r == Action::Handshake,
            final(self)@ == (SupervisorView { state: ConnState::Handshaking, ..old(self)@ }),
    {
        self.state = ConnState::Handshaking;
        Action::Handshake
    }

    /// The handshake succeeded at `now_ms`: the session streams from here,
    /// and its staleness clock starts.
    pub fn on_handshake(&mut self, now_ms: u64) -> (r: Action)
        requires
            old(self)@.state == ConnState::Handshaking,
        ensures
            r == Action::ReportUp,
            final(self)@.backoff.config() == old(self)@.backoff.config(),
            final(self)@.backoff.attempt() == old(self)@.backoff.attempt(),
            final(self)@.backoff.last_ok() == now_ms,
            final(self)@ == (SupervisorView {
                state: ConnState::Streaming,
                last_frame: now_ms as nat,
                was_up: true,
                backoff: final(self)@.backoff,
                ..old(self)@
            }),
    {
        self.backoff.on_connected(now_ms);
        self.state = ConnState::Streaming;
        self.last_frame_ms = now_ms;
        self.was_up = true;
        Action::ReportUp
    }

    /// Connecting, the handshake, a read or a write failed: the session goes.
    pub fn on_failure(&mut self) -> (r: Action)
        requires
            old(self)@.state == ConnState::Connecting || old(self)@.state == ConnState::Handshaking
                || old(self)@.state == ConnState::Streaming,
        ensures
            r == Action::TearDown,
            final(self)@ == (SupervisorView {
                state: ConnState::Closing,
                teardowns: bump(old(self)@.teardowns),
                ..old(self)@
            }),
    {
        self.state = ConnState::Closing;
        self.teardowns = bump_u64(self.teardowns);
        Action::TearDown
    }

    /// A frame arrived at `now_ms`. Any frame re-arms the staleness clock;
    /// text that was understood is handed on, and so are frames of other
    /// kinds on streams that deliver them; text
    /// that was not is dropped and counted, a ping is answered, and a close
    /// ends the session. A set cancellation signal ends it too.
    pub fn on_frame(&mut self, frame: Frame, now_ms: u64, cancelled: bool) -> (r: Action)
        requires
            old(self)@.state == ConnState::Streaming,
        ensures
            cancelled || frame == Frame::Close ==> r == Action::TearDown && final(self)@ == (
            SupervisorView {
                state: ConnState::Closing,
                last_frame: now_ms as nat,
                teardowns: bump(old(self)@.teardowns),
                ..old(self)@
            }),
            !cancelled && frame == Frame::Ping ==> r == Action::SendPong && final(self)@ == (
            SupervisorView { last_frame: now_ms as nat, ..old(self)@ }),
            !cancelled && (frame == Frame::Pong || (frame == Frame::Other
                && !old(self)@.cfg.delivers_other)) ==> r == Action::Read && final(self)@ == (
            SupervisorView { last_frame: now_ms as nat, ..old(self)@ }),
            !cancelled && (frame == (Frame::Text { decoded: true }) || (frame == Frame::Other
                && old(self)@.cfg.delivers_other)) ==> r == Action::Deliver && final(self)@ == (
            SupervisorView {
                last_frame: now_ms as nat,
                delivered: bump(old(self)@.delivered),
                ..old(self)@
            }),
            !cancelled && frame == (Frame::Text { decoded: false }) ==> r == Action::Read
                && final(self)@ == (SupervisorView {
                last_frame: now_ms as nat,
                malformed: bump(old(self)@.malformed),
                ..old(self)@
            }),
    {
        self.last_frame_ms = now_ms;
        if cancelled {
            self.state = ConnState::Closing;
            self.teardowns = bump_u64(self.teardowns);
            return Action::TearDown;
        }
        match frame {
            Frame::Text { decoded } => {
                if decoded {
                    self.delivered = bump_u64(self.delivered);
                    Action::Deliver
                } else {
                    self.malformed = bump_u64(self.malformed);
                    Action::Read
                }
            },
            Frame::Ping => Action::SendPong,
            Frame::Pong => Action::Read,
            Frame::Close => {
                self.state = ConnState::Closing;
                self.teardowns = bump_u64(self.teardowns);
                Action::TearDown
            },
            Frame::Other => {
                if self.cfg.delivers_other {
                    self.delivered = bump_u64(self.delivered);
                    Action::Deliver
                } else {
                    Action::Read
                }
            },
        }
    }

    /// The pong or the outbound requests were written.
    pub fn on_written(&mut self, ping_answered: bool) -> (r: Action)
        requires
            old(self)@.state == ConnState::Streaming,
        ensures
            r == Action::Read,
            final(self)@ == (SupervisorView {
                pongs: if ping_answered {
                    bump(old(self)@.pongs)
                } else {
                    old(self)@.pongs
                },
                ..old(self)@
            }),
    {
        if ping_answered {
            self.pongs = bump_u64(self.pongs);
        }
        Action::Read
    }

    /// No frame was available at `now_ms`. A session silent for longer than
    /// the stale-kill time, or a set cancellation signal, ends it; otherwise
    /// the gap goes to outbound requests where the stream sends any, and the
    /// runner reads again.
    pub fn on_idle(&mut self, now_ms: u64, cancelled: bool) -> (r: Action)
        requires
            old(self)@.state == ConnState::Streaming,
        ensures
            (final(self)@, r) == idle_next(old(self)@, now_ms as nat, cancelled),
    {
        let stale = match self.cfg.stale_kill_ms {
            None => false,
            Some(k) => now_ms >= self.last_frame_ms && now_ms - self.last_frame_ms > k,
        };
        if stale {
            self.state = ConnState::Closing;
            self.stale_kills = bump_u64(self.stale_kills);
            self.teardowns = bump_u64(self.teardowns);
            Action::TearDown
        } else if cancelled {
            self.state = ConnState::Closing;
            self.teardowns = bump_u64(self.teardowns);
            Action::TearDown
        } else if self.cfg.drains_outbound {
            Action::DrainOutbound
        } else {
            Action::Read
        }
    }

    /// The session is gone, at `now_ms`. A session that streamed for at least
    /// the reset time starts the attempt count over. Then the supervisor
    /// stops where the cancellation signal is set or the budget is spent, and
    /// otherwise asks for the backoff delay before the next attempt.
    pub fn on_torn_down(&mut self, now_ms: u64, cancelled: bool) -> (r: Action)
        requires
            old(self)@.state == ConnState::Closing,
            old(self)@.outcome is None,
        ensures
            final(self)@.state == ConnState::Disconnected,
            !final(self)@.was_up,
            final(self)@.backoff.config() == old(self)@.backoff.config(),
            ({
                let reset = old(self)@.was_up && old(self)@.backoff.should_reset_at(now_ms as nat);
                let attempt = if reset {
                    0
                } else {
                    old(self)@.backoff.attempt()
                };
                let left = old(self)@.backoff.left_after(attempt);
                &&& cancelled ==> r == Action::Stop(Outcome::Cancelled) && final(self)@.outcome
                    == Some(Outcome::Cancelled) && final(self)@.backoff.attempt() == attempt
                &&& !cancelled && left == Some(0u32) ==> r == Action::Stop(Outcome::Exhausted)
                    && final(self)@.outcome == Some(Outcome::Exhausted)
                    && final(self)@.backoff.attempt() == attempt
                &&& !cancelled && left != Some(0u32) ==> r == Action::Sleep(
                    delay_for(old(self)@.backoff.config(), attempt) as u64,
                ) && final(self)@.outcome is None && final(self)@.backoff.attempt() == (if attempt
                    < u32::MAX {
                    attempt + 1
                } else {
                    attempt
                }) && final(self)@.reconnects == bump(old(self)@.reconnects)
            }),
            final(self)@.delivered == old(self)@.delivered,
            final(self)@.malformed == old(self)@.malformed,
            final(self)@.pongs == old(self)@.pongs,
            final(self)@.stale_kills == old(self)@.stale_kills,
            final(self)@.teardowns == old(self)@.teardowns,
            final(self)@.cfg == old(self)@.cfg,
    {
        if self.was_up && self.backoff.should_reset(now_ms) {
            self.backoff.on_success(now_ms);
        }
        self.was_up = false;
        self.state = ConnState::Disconnected;
        if cancelled {
            self.outcome = Some(Outcome::Cancelled);
            return Action::Stop(Outcome::Cancelled);
        }
        if let Some(0) = self.backoff.attempts_left() {
            self.outcome = Some(Outcome::Exhausted);
            return Action::Stop(Outcome::Exhausted);
        }
        let delay = self.backoff.next_delay();
        self.reconnects = bump_u64(self.reconnects);
        Action::Sleep(delay)
    }
}

} // verus!
