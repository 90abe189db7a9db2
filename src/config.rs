//! Settings of the monitor and their defaults.

use vstd::prelude::*;
use vstd::string::*;
use crate::fixed::parse_amount;

verus! {

/// Settings of the monitor. Intervals are in milliseconds.
#[derive(Clone, Debug)]
pub struct MetricsConfig {
    /// Connection URL of the datastore.
    pub database_url: String,
    /// Markets to monitor, upper-case symbols.
    pub target_markets: Vec<String>,
    /// Time between two samples of one market.
    pub monitoring_interval_ms: u64,
    /// Where the price feed is requested.
    pub hyperliquid_api_url: String,
    /// Time between two refreshes of the price feed.
    pub poll_interval_ms: u64,
    pub min_db_connections: usize,
    pub max_db_connections: usize,
}

/// Default time between two samples: one second.
pub fn default_monitoring_interval() -> (r: u64)
    ensures
        r == 1000,
{
    1000
}

/// Default address of the price feed.
pub fn default_hyperliquid_url() -> (r: String)
    ensures
        r@ == "https://api.hyperliquid.xyz/info"@,
{
    String::from_str("https://api.hyperliquid.xyz/info")
}

/// Default time between two refreshes of the price feed: one second.
pub fn default_poll_interval() -> (r: u64)
    ensures
        r == 1000,
{
    1000
}

pub fn default_min_connections() -> (r: usize)
    ensures
        r == 5,
{
    5
}

pub fn default_max_connections() -> (r: usize)
    ensures
        r == 20,
{
    20
}

/// Milliseconds in `units` ten-digit fixed-point seconds, cut toward zero; `None` where
/// that is negative or beyond `u64`.
pub open spec fn millis_of_units(units: int) -> Option<u64> {
    let ms = units / 10_000_000;
    if units < 0 || ms > u64::MAX {
        None
    } else {
        Some(ms as u64)
    }
}

/// An interval given as a decimal number of seconds, in milliseconds; `default_ms` where the
/// text is absent, does not parse, or is negative.
pub fn interval_ms(seconds: Option<&str>, default_ms: u64) -> (r: u64)
    ensures
        r == match seconds {
            Some(t) => match crate::fixed::amount_of(t@) {
                Some(f) => match millis_of_units(f.units as int) {
                    Some(ms) => ms,
                    None => default_ms,
                },
                None => default_ms,
            },
            None => default_ms,
        },
{
    match seconds {
        Some(t) => match parse_amount(t) {
            Some(f) => if f.units < 0 {
                default_ms
            } else {
                let ms = f.units / 10_000_000;
                if ms > u64::MAX as i128 {
                    default_ms
                } else {
                    ms as u64
                }
            },
            None => default_ms,
        },
        None => default_ms,
    }
}

impl MetricsConfig {
    /// Settings with the default feed address, intervals and pool bounds.
    pub fn with_defaults(database_url: String, target_markets: Vec<String>) -> (r: MetricsConfig)
        ensures
            r.database_url == database_url,
            r.target_markets@ == target_markets@,
            r.monitoring_interval_ms == 1000,
            r.hyperliquid_api_url@ == "https://api.hyperliquid.xyz/info"@,
            r.poll_interval_ms == 1000,
            r.min_db_connections == 5,
            r.max_db_connections == 20,
    {
        MetricsConfig {
            database_url,
            target_markets,
            monitoring_interval_ms: default_monitoring_interval(),
            hyperliquid_api_url: default_hyperliquid_url(),
            poll_interval_ms: default_poll_interval(),
            min_db_connections: default_min_connections(),
            max_db_connections: default_max_connections(),
        }
    }

    /// Time between two samples of one market, in milliseconds.
    pub fn monitoring_interval(&self) -> (r: u64)
        ensures
            r == self.monitoring_interval_ms,
    {
        self.monitoring_interval_ms
    }

    /// Time between two refreshes of the price feed, in milliseconds.
    pub fn poll_interval(&self) -> (r: u64)
        ensures
            r == self.poll_interval_ms,
    {
        self.poll_interval_ms
    }
}

} // verus!
