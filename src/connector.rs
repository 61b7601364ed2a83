//! Connector-wide settings.
use vstd::prelude::*;

verus! {

/// Name under which the connector registers.
pub const CONNECTOR_NAME: &'static str = "binance";

/// Which CPU cores the connector's streams may run on.
#[derive(Debug, Clone)]
pub struct BinanceConnectorConfig {
    /// How many cores the connector may use where none is named.
    pub default_max_cores: Option<usize>,
    /// Cores named explicitly.
    pub specific_core_ids: Vec<usize>,
}

} // verus!
