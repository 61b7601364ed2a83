//! Core of a resilient market-data stream client: a tolerant numeric field
//! decoder, a reconnect backoff policy, a rate-limit window tracker and the
//! connection state machine that drives one logical stream.
use vstd::prelude::*;

pub mod backoff;
pub mod bbo;
pub mod connector;
pub mod de;
pub mod endpoint;
pub mod rate_limits;
pub mod session;
pub mod ws_api;

verus! {

/// Name of the venue that the streams connect to.
pub const BINANCE_VENUE: &'static str = "binance";

/// The kinds of stream this crate offers.
#[derive(Debug, Clone, Copy, PartialEq, Eq, Structural)]
pub enum StreamKind {
    /// Best bid and offer of one symbol.
    BBO,
}

impl StreamKind {
    /// The kind's name, as used in stream identifiers.
    pub fn as_ref(&self) -> (r: &'static str)
        ensures
            r@ == "bbo"@,
    {
        match self {
            StreamKind::BBO => "bbo",
        }
    }

    /// The kind's name as an owned string.
    pub fn to_string(&self) -> (r: String)
        ensures
            r@ == "bbo"@,
    {
        String::from_str(self.as_ref())
    }
}

} // verus!
