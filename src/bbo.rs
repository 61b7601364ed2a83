//! The top-of-book stream: its settings, the decoded ticker message and the
//! event published for it.
use crate::backoff::ReconnectCfg;
use crate::endpoint::{url_parsed, wss_text, wss_url};
use crate::de::{finite_bits, ok_finite, DecodeError};
use crate::session::SessionCfg;
use vstd::prelude::*;

verus! {

/// A decoded book-ticker message. Prices and sizes are binary64 bit patterns
/// of finite values.
#[derive(Debug, Clone, Copy, PartialEq, Eq, Structural)]
pub struct BookTicker {
    /// Update id.
    pub u: u64,
    pub bid_px: u64,
    pub bid_sz: u64,
    pub ask_px: u64,
    pub ask_sz: u64,
}

impl BookTicker {
    pub open spec fn wf(&self) -> bool {
        &&& finite_bits(self.bid_px)
        &&& finite_bits(self.bid_sz)
        &&& finite_bits(self.ask_px)
        &&& finite_bits(self.ask_sz)
    }

    /// A ticker from its fields, refused with `NonFinite` where a price or a
    /// size is NaN or infinite.
    pub fn new(u: u64, bid_px: u64, bid_sz: u64, ask_px: u64, ask_sz: u64) -> (r: Result<
        BookTicker,
        DecodeError,
    >)
        ensures
            r is Ok <==> finite_bits(bid_px) && finite_bits(bid_sz) && finite_bits(ask_px)
                && finite_bits(ask_sz),
            r is Err ==> r == Err::<BookTicker, DecodeError>(DecodeError::NonFinite),
            r is Ok ==> r == Ok::<BookTicker, DecodeError>(
                BookTicker { u, bid_px, bid_sz, ask_px, ask_sz },
            ),
            r is Ok ==> r->Ok_0.wf(),
    {
        let bid_px = match ok_finite(bid_px) {
            Ok(v) => v,
            Err(e) => return Err(e),
        };
        let bid_sz = match ok_finite(bid_sz) {
            Ok(v) => v,
            Err(e) => return Err(e),
        };
        let ask_px = match ok_finite(ask_px) {
            Ok(v) => v,
            Err(e) => return Err(e),
        };
        let ask_sz = match ok_finite(ask_sz) {
            Ok(v) => v,
            Err(e) => return Err(e),
        };
        Ok(BookTicker { u, bid_px, bid_sz, ask_px, ask_sz })
    }
}

/// Top-of-book event published for each decoded message.
#[derive(Debug, Clone)]
pub struct Bbo {
    pub symbol: String,
    pub bid_px: u64,
    pub bid_sz: u64,
    pub ask_px: u64,
    pub ask_sz: u64,
    pub u: u64,
    /// When the message was received, in milliseconds of the runner's clock.
    pub ts_recv_ms: u64,
}

impl Bbo {
    /// The event for `ticker` of `symbol`, received at `ts_recv_ms`.
    pub fn from_ticker(symbol: String, ticker: &BookTicker, ts_recv_ms: u64) -> (r: Bbo)
        ensures
            r.symbol@ == symbol@,
            r.bid_px == ticker.bid_px,
            r.bid_sz == ticker.bid_sz,
            r.ask_px == ticker.ask_px,
            r.ask_sz == ticker.ask_sz,
            r.u == ticker.u,
            r.ts_recv_ms == ts_recv_ms,
    {
        Bbo {
            symbol,
            bid_px: ticker.bid_px,
            bid_sz: ticker.bid_sz,
            ask_px: ticker.ask_px,
            ask_sz: ticker.ask_sz,
            u: ticker.u,
            ts_recv_ms,
        }
    }
}

/// Settings of a top-of-book stream.
#[derive(Debug, Clone)]
pub struct BinanceBboCfg {
    /// Symbol as the venue spells it in stream names.
    pub symbol_raw: String,
    pub host: String,
    pub port: u16,
    pub connect_timeout_ms: u64,
    pub write_timeout_ms: u64,
    /// A session without any frame for longer than this is dead.
    pub stale_kill_ms: u64,
    pub reconnect_cfg: ReconnectCfg,
    pub max_pending_actions: Option<usize>,
    pub max_pending_events: Option<usize>,
    /// Whether the stream reports itself healthy before its first handshake.
    pub health_at_start: bool,
}

impl BinanceBboCfg {
    pub fn max_pending_actions(&self) -> (r: Option<usize>)
        ensures
            r == self.max_pending_actions,
    {
        self.max_pending_actions
    }

    pub fn max_pending_events(&self) -> (r: Option<usize>)
        ensures
            r == self.max_pending_events,
    {
        self.max_pending_events
    }

    pub fn health_at_start(&self) -> (r: bool)
        ensures
            r == self.health_at_start,
    {
        self.health_at_start
    }

    /// The supervisor settings of this stream: silent sessions are killed
    /// after `stale_kill_ms`, there are no outbound requests, and only text
    /// frames are handed on.
    pub fn session_cfg(&self) -> (r: SessionCfg)
        ensures
            r == (SessionCfg { stale_kill_ms: Some(self.stale_kill_ms), drains_outbound: false, delivers_other: false }),
    {
        SessionCfg { stale_kill_ms: Some(self.stale_kill_ms), drains_outbound: false, delivers_other: false }
    }

    /// The path of the book-ticker stream of the symbol.
    pub fn stream_path(&self) -> (r: String)
        ensures
            r@ == "/ws/"@ + self.symbol_raw@ + "@bookTicker"@,
    {
        let mut p = String::from_str("/ws/");
        p.append(self.symbol_raw.as_str());
        p.append("@bookTicker");
        p
    }

    /// The normalized address of the stream, or `None` where host and symbol
    /// do not make a valid URL.
    pub fn url(&self) -> (r: Option<String>)
        ensures
            r is Some <==> url_parsed(
                wss_text(self.host@, self.port as nat, "/ws/"@ + self.symbol_raw@ + "@bookTicker"@),
            ) is Some,
            r is Some ==> r->Some_0@ == url_parsed(
                wss_text(self.host@, self.port as nat, "/ws/"@ + self.symbol_raw@ + "@bookTicker"@),
            )->Some_0,
    {
        let path = self.stream_path();
        wss_url(self.host.as_str(), self.port, path.as_str())
    }
}

} // verus!
