use market_metrics::fixed::{parse_amount, Fixed};
use market_metrics::monitor::{collect_metrics, get_orderbook_metrics, parse_levels, BookLadders, RawLevel};
use market_metrics::types::{HyperliquidMarketData, MarketMetrics, OrderBookMetrics};

fn amount(s: &str) -> Fixed {
    parse_amount(s).unwrap()
}

fn raw(price: &str, size: &str) -> RawLevel {
    RawLevel { price: price.to_string(), size: size.to_string() }
}

fn feed_entry() -> HyperliquidMarketData {
    HyperliquidMarketData {
        coin: "BTC".to_string(),
        mark_price: amount("100.2"),
        oracle_price: amount("100.1"),
        mid_price: amount("100.25"),
        funding_rate_pct: amount("0.01"),
        open_interest: amount("1002"),
        volume_24h: amount("5000"),
        premium: amount("0.0003"),
        impact_px_bid: Some(amount("100.0")),
        impact_px_ask: None,
    }
}

fn two_sided() -> BookLadders {
    BookLadders {
        bids: vec![raw("100", "2"), raw("99", "3")],
        asks: vec![raw("101", "1"), raw("102", "4")],
    }
}

fn book_fields_absent(m: &MarketMetrics) -> bool {
    m.best_bid.is_none()
        && m.best_ask.is_none()
        && m.mid_price.is_none()
        && m.spread.is_none()
        && m.spread_pct.is_none()
        && m.bid_depth_5pct.is_none()
        && m.ask_depth_5pct.is_none()
        && m.total_depth_5pct.is_none()
        && m.bid_depth_10pct.is_none()
        && m.ask_depth_10pct.is_none()
        && m.total_depth_10pct.is_none()
        && m.bid_depth_25pct.is_none()
        && m.ask_depth_25pct.is_none()
        && m.total_depth_25pct.is_none()
}

#[test]
fn order_book_metrics_of_a_two_sided_book() {
    let b = two_sided();
    let m = get_orderbook_metrics(&b.bids, &b.asks).unwrap();
    assert_eq!(m.best_bid, amount("100"));
    assert_eq!(m.best_ask, amount("101"));
    assert_eq!(m.mid_price, amount("100.5"));
    assert_eq!(m.spread, amount("1"));
    // 1 / 100.5 * 100 = 0.99502487562189...
    assert_eq!(m.spread_pct, amount("0.9950248756"));
    assert_eq!(m.total_bids, 2);
    assert_eq!(m.total_asks, 2);
    assert_eq!(m.bid_depth_5pct, amount("497"));
    assert_eq!(m.ask_depth_5pct, amount("509"));
    assert_eq!(m.total_depth_5pct, amount("1006"));
    assert_eq!(m.total_depth_25pct, amount("1006"));
}

#[test]
fn one_sided_book_gives_no_metrics() {
    let bids = vec![raw("100", "2")];
    assert_eq!(get_orderbook_metrics(&bids, &vec![]), None);
    assert_eq!(get_orderbook_metrics(&vec![], &bids), None);
}

#[test]
fn unparsable_best_price_gives_no_metrics() {
    let bids = vec![raw("x", "2"), raw("99", "1")];
    let asks = vec![raw("101", "1")];
    assert_eq!(get_orderbook_metrics(&bids, &asks), None);
}

#[test]
fn unparsable_levels_are_left_out_of_depth() {
    let bids = vec![raw("100", "2"), raw("99", "bad"), raw("-1", "1"), raw("98", "1")];
    let levels = parse_levels(&bids);
    assert_eq!(levels.len(), 2);
    let asks = vec![raw("101", "1")];
    let m: OrderBookMetrics = get_orderbook_metrics(&bids, &asks).unwrap();
    assert_eq!(m.total_bids, 4);
    assert_eq!(m.bid_depth_5pct, amount("298"));
}

#[test]
fn bid_only_book_keeps_feed_fields_and_leaves_book_fields_absent() {
    let book = Some(BookLadders { bids: vec![raw("100", "2")], asks: vec![] });
    let m = collect_metrics("BTC".to_string(), 1_700_000_000_000_000, Some(feed_entry()), &book);
    assert_eq!(m.coin, "BTC");
    assert_eq!(m.timestamp_us, 1_700_000_000_000_000);
    assert_eq!(m.mark_price, Some(amount("100.2")));
    assert_eq!(m.oracle_price, Some(amount("100.1")));
    assert_eq!(m.funding_rate_pct, Some(amount("0.01")));
    assert_eq!(m.open_interest, Some(amount("1002")));
    assert_eq!(m.volume_24h, Some(amount("5000")));
    assert_eq!(m.premium, Some(amount("0.0003")));
    assert_eq!(m.impact_px_bid, Some(amount("100.0")));
    assert_eq!(m.impact_px_ask, None);
    assert!(book_fields_absent(&m));
}

#[test]
fn sample_without_any_source_is_blank() {
    let m = collect_metrics("ETH".to_string(), 5, None, &None);
    assert!(book_fields_absent(&m));
    assert_eq!(m.mark_price, None);
    assert_eq!(m.funding_rate_pct, None);
    assert_eq!(m.node_latency_ms, None);
}

#[test]
fn sample_with_both_sources() {
    let m = collect_metrics("BTC".to_string(), 7, Some(feed_entry()), &Some(two_sided()));
    assert_eq!(m.mark_price, Some(amount("100.2")));
    assert_eq!(m.mid_price, Some(amount("100.5")));
    assert_eq!(m.bid_depth_5pct, Some(amount("497")));
}

#[test]
fn merges_commute() {
    let book = {
        let b = two_sided();
        get_orderbook_metrics(&b.bids, &b.asks).unwrap()
    };
    let mut a = MarketMetrics::new("BTC".to_string(), 42);
    a.merge_hyperliquid_data(feed_entry());
    a.merge_orderbook_data(book);
    let mut b = MarketMetrics::new("BTC".to_string(), 42);
    b.merge_orderbook_data(book);
    b.merge_hyperliquid_data(feed_entry());
    assert_eq!(format!("{:?}", a), format!("{:?}", b));
    assert_eq!(a.mark_price, Some(amount("100.2")));
    assert_eq!(a.best_ask, Some(amount("101")));
}

#[test]
fn large_sizes_and_prices_are_kept() {
    let bids = vec![raw("100", "2000000000"), raw("99", "1")];
    let asks = vec![raw("101", "3000000000")];
    let m = get_orderbook_metrics(&bids, &asks).unwrap();
    assert_eq!(m.bid_depth_5pct, amount("200000000099"));
    assert_eq!(m.ask_depth_5pct, amount("303000000000"));
    assert_eq!(m.total_depth_5pct, amount("503000000099"));

    let bids = vec![raw("2000000000", "1")];
    let asks = vec![raw("2000000001", "1")];
    let m = get_orderbook_metrics(&bids, &asks).unwrap();
    assert_eq!(m.best_bid, amount("2000000000"));
    assert_eq!(m.mid_price, amount("2000000000.5"));
    assert_eq!(m.spread, amount("1"));
    assert_eq!(m.bid_depth_5pct, amount("2000000000"));
}

#[test]
fn unrepresentable_spread_percentage_gives_no_metrics() {
    // a spread of 10^17 times 10^12 exceeds i128
    let bids = vec![raw("1", "1")];
    let asks = vec![raw("100000000000000001", "1")];
    assert_eq!(get_orderbook_metrics(&bids, &asks), None);
}
