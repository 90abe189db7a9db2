//! The per-market sample record and the figures merged into it from each source.

use vstd::prelude::*;
use crate::fixed::Fixed;

verus! {

/// One persisted sample of a market, identified by `(coin, timestamp_us)`.
/// Every measurement is absent until one of the two data sources supplies it.
#[derive(Clone, Debug)]
pub struct MarketMetrics {
    pub coin: String,
    /// Microseconds since the Unix epoch, UTC.
    pub timestamp_us: i64,
    pub mark_price: Option<Fixed>,
    pub oracle_price: Option<Fixed>,
    pub mid_price: Option<Fixed>,
    pub best_bid: Option<Fixed>,
    pub best_ask: Option<Fixed>,
    pub spread: Option<Fixed>,
    pub spread_pct: Option<Fixed>,
    pub funding_rate_pct: Option<Fixed>,
    pub open_interest: Option<Fixed>,
    pub volume_24h: Option<Fixed>,
    pub bid_depth_5pct: Option<Fixed>,
    pub ask_depth_5pct: Option<Fixed>,
    pub total_depth_5pct: Option<Fixed>,
    pub bid_depth_10pct: Option<Fixed>,
    pub ask_depth_10pct: Option<Fixed>,
    pub total_depth_10pct: Option<Fixed>,
    pub bid_depth_25pct: Option<Fixed>,
    pub ask_depth_25pct: Option<Fixed>,
    pub total_depth_25pct: Option<Fixed>,
    pub premium: Option<Fixed>,
    pub impact_px_bid: Option<Fixed>,
    pub impact_px_ask: Option<Fixed>,
    pub node_latency_ms: Option<i32>,
    pub websocket_latency_ms: Option<i32>,
    pub total_latency_ms: Option<i32>,
}

/// The price feed's figures for one market, as of its last refresh.
#[derive(Clone, Debug)]
pub struct HyperliquidMarketData {
    pub coin: String,
    pub mark_price: Fixed,
    pub oracle_price: Fixed,
    pub mid_price: Fixed,
    pub funding_rate_pct: Fixed,
    pub open_interest: Fixed,
    pub volume_24h: Fixed,
    pub premium: Fixed,
    pub impact_px_bid: Option<Fixed>,
    pub impact_px_ask: Option<Fixed>,
}

/// Figures derived from a two-sided order-book snapshot.
#[derive(Clone, Copy, Debug, PartialEq, Eq, Structural)]
pub struct OrderBookMetrics {
    pub best_bid: Fixed,
    pub best_ask: Fixed,
    pub mid_price: Fixed,
    pub spread: Fixed,
    pub spread_pct: Fixed,
    pub total_bids: usize,
    pub total_asks: usize,
    pub bid_depth_5pct: Fixed,
    pub ask_depth_5pct: Fixed,
    pub total_depth_5pct: Fixed,
    pub bid_depth_10pct: Fixed,
    pub ask_depth_10pct: Fixed,
    pub total_depth_10pct: Fixed,
    pub bid_depth_25pct: Fixed,
    pub ask_depth_25pct: Fixed,
    pub total_depth_25pct: Fixed,
}

/// The record for `coin` at `timestamp_us` with no measurement in it.
pub open spec fn blank_record(coin: String, timestamp_us: i64) -> MarketMetrics {
    MarketMetrics {
        coin,
        timestamp_us,
        mark_price: None,
        oracle_price: None,
        mid_price: None,
        best_bid: None,
        best_ask: None,
        spread: None,
        spread_pct: None,
        funding_rate_pct: None,
        open_interest: None,
        volume_24h: None,
        bid_depth_5pct: None,
        ask_depth_5pct: None,
        total_depth_5pct: None,
        bid_depth_10pct: None,
        ask_depth_10pct: None,
        total_depth_10pct: None,
        bid_depth_25pct: None,
        ask_depth_25pct: None,
        total_depth_25pct: None,
        premium: None,
        impact_px_bid: None,
        impact_px_ask: None,
        node_latency_ms: None,
        websocket_latency_ms: None,
        total_latency_ms: None,
    }
}

/// None of the order-book fields is set.
pub open spec fn no_book_fields(m: MarketMetrics) -> bool {
    &&& m.best_bid is None && m.best_ask is None && m.mid_price is None
    &&& m.spread is None && m.spread_pct is None
    &&& m.bid_depth_5pct is None && m.ask_depth_5pct is None && m.total_depth_5pct is None
    &&& m.bid_depth_10pct is None && m.ask_depth_10pct is None && m.total_depth_10pct is None
    &&& m.bid_depth_25pct is None && m.ask_depth_25pct is None && m.total_depth_25pct is None
}

/// The record with the price feed's fields set from `d`, the others kept.
pub open spec fn with_feed(m: MarketMetrics, d: HyperliquidMarketData) -> MarketMetrics {
    MarketMetrics {
        mark_price: Some(d.mark_price),
        oracle_price: Some(d.oracle_price),
        funding_rate_pct: Some(d.funding_rate_pct),
        open_interest: Some(d.open_interest),
        volume_24h: Some(d.volume_24h),
        premium: Some(d.premium),
        impact_px_bid: d.impact_px_bid,
        impact_px_ask: d.impact_px_ask,
        ..m
    }
}

/// The record with the order-book fields set from `b`, the others kept.
pub open spec fn with_book(m: MarketMetrics, b: OrderBookMetrics) -> MarketMetrics {
    MarketMetrics {
        best_bid: Some(b.best_bid),
        best_ask: Some(b.best_ask),
        mid_price: Some(b.mid_price),
        spread: Some(b.spread),
        spread_pct: Some(b.spread_pct),
        bid_depth_5pct: Some(b.bid_depth_5pct),
        ask_depth_5pct: Some(b.ask_depth_5pct),
        total_depth_5pct: Some(b.total_depth_5pct),
        bid_depth_10pct: Some(b.bid_depth_10pct),
        ask_depth_10pct: Some(b.ask_depth_10pct),
        total_depth_10pct: Some(b.total_depth_10pct),
        bid_depth_25pct: Some(b.bid_depth_25pct),
        ask_depth_25pct: Some(b.ask_depth_25pct),
        total_depth_25pct: Some(b.total_depth_25pct),
        ..m
    }
}

impl MarketMetrics {
    /// An empty record for `coin`, stamped with `timestamp_us`.
    pub fn new(coin: String, timestamp_us: i64) -> (r: MarketMetrics)
        ensures
            r == blank_record(coin, timestamp_us),
    {
        MarketMetrics {
            coin,
            timestamp_us,
            mark_price: None,
            oracle_price: None,
            mid_price: None,
            best_bid: None,
            best_ask: None,
            spread: None,
            spread_pct: None,
            funding_rate_pct: None,
            open_interest: None,
            volume_24h: None,
            bid_depth_5pct: None,
            ask_depth_5pct: None,
            total_depth_5pct: None,
            bid_depth_10pct: None,
            ask_depth_10pct: None,
            total_depth_10pct: None,
            bid_depth_25pct: None,
            ask_depth_25pct: None,
            total_depth_25pct: None,
            premium: None,
            impact_px_bid: None,
            impact_px_ask: None,
            node_latency_ms: None,
            websocket_latency_ms: None,
            total_latency_ms: None,
        }
    }

    /// Sets the price feed's fields from `data`; every other field is kept.
    pub fn merge_hyperliquid_data(&mut self, data: HyperliquidMarketData)
        ensures
            *final(self) == with_feed(*old(self), data),
    {
        self.mark_price = Some(data.mark_price);
        self.oracle_price = Some(data.oracle_price);
        self.funding_rate_pct = Some(data.funding_rate_pct);
        self.open_interest = Some(data.open_interest);
        self.volume_24h = Some(data.volume_24h);
        self.premium = Some(data.premium);
        self.impact_px_bid = data.impact_px_bid;
        self.impact_px_ask = data.impact_px_ask;
    }

    /// Sets the order-book fields from `data`; every other field is kept.
    pub fn merge_orderbook_data(&mut self, data: OrderBookMetrics)
        ensures
            *final(self) == with_book(*old(self), data),
    {
        self.best_bid = Some(data.best_bid);
        self.best_ask = Some(data.best_ask);
        self.mid_price = Some(data.mid_price);
        self.spread = Some(data.spread);
        self.spread_pct = Some(data.spread_pct);
        self.bid_depth_5pct = Some(data.bid_depth_5pct);
        self.ask_depth_5pct = Some(data.ask_depth_5pct);
        self.total_depth_5pct = Some(data.total_depth_5pct);
        self.bid_depth_10pct = Some(data.bid_depth_10pct);
        self.ask_depth_10pct = Some(data.ask_depth_10pct);
        self.total_depth_10pct = Some(data.total_depth_10pct);
        self.bid_depth_25pct = Some(data.bid_depth_25pct);
        self.ask_depth_25pct = Some(data.ask_depth_25pct);
        self.total_depth_25pct = Some(data.total_depth_25pct);
    }
}

impl HyperliquidMarketData {
    /// A copy of the entry.
    pub fn copied(&self) -> (r: HyperliquidMarketData)
        ensures
            r == *self,
    {
        HyperliquidMarketData {
            coin: self.coin.clone(),
            mark_price: self.mark_price,
            oracle_price: self.oracle_price,
            mid_price: self.mid_price,
            funding_rate_pct: self.funding_rate_pct,
            open_interest: self.open_interest,
            volume_24h: self.volume_24h,
            premium: self.premium,
            impact_px_bid: self.impact_px_bid,
            impact_px_ask: self.impact_px_ask,
        }
    }
}


/// The two merges touch disjoint fields, so their order does not matter: merging the feed's
/// figures and then the book's gives the same record as merging them the other way round.
pub proof fn lemma_merges_commute(m: MarketMetrics, feed: HyperliquidMarketData, book: OrderBookMetrics)
    ensures
        with_book(with_feed(m, feed), book) == with_feed(with_book(m, book), feed),
{
}

} // verus!
