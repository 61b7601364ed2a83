//! The request/response stream: its endpoint, its settings and the outbound
//! requests that it forwards.
use crate::backoff::ReconnectCfg;
use crate::session::SessionCfg;
use vstd::prelude::*;

verus! {

pub const STREAM_VENUE: &'static str = "futures";

pub const STREAM_KIND: &'static str = "ws_api";

pub const HOST: &'static str = "ws-fapi.binance.com";

pub const ADDR: &'static str = "ws-fapi.binance.com:443";

pub const CONNECT_URL: &'static str = "wss://ws-fapi.binance.com:443/ws-fapi/v1";

/// A request to send over the stream. The stream forwards it as it is and
/// keeps no record of it.
#[derive(Debug, Clone)]
pub struct BinanceFutWsApiAction {
    /// Correlation token of the request.
    pub id: String,
    pub method: String,
    pub params: Vec<String>,
}

/// Settings of a request/response stream.
#[derive(Debug, Clone, Copy)]
pub struct BinanceFutWsApiStream {
    pub connect_timeout_ms: u64,
    pub reconnect_cfg: ReconnectCfg,
    pub max_pending_actions: Option<usize>,
    pub max_pending_events: Option<usize>,
}

impl BinanceFutWsApiStream {
    /// The stream does not report itself healthy before its first handshake.
    pub fn health_at_start(&self) -> (r: bool)
        ensures
            !r,
    {
        false
    }

    /// The supervisor settings of this stream: no staleness limit, idle
    /// gaps on the read path go to outbound requests, and frames of every
    /// kind are handed on.
    pub fn session_cfg(&self) -> (r: SessionCfg)
        ensures
            r == (SessionCfg { stale_kill_ms: None, drains_outbound: true, delivers_other: true }),
    {
        SessionCfg { stale_kill_ms: None, drains_outbound: true, delivers_other: true }
    }
}

} // verus!
