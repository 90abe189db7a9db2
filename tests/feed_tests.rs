use market_metrics::client::HyperliquidClient;
use market_metrics::feed::{get_field, parse_market_data, FeedError, JsonValue};
use market_metrics::fixed::{parse_amount, Fixed};

fn amount(s: &str) -> Fixed {
    parse_amount(s).unwrap()
}

fn text(s: &str) -> JsonValue {
    JsonValue::Str(s.to_string())
}

fn object(members: Vec<(&str, JsonValue)>) -> JsonValue {
    JsonValue::Object(members.into_iter().map(|(k, v)| (k.to_string(), v)).collect())
}

fn meta(name: &str) -> JsonValue {
    object(vec![("name", text(name)), ("szDecimals", JsonValue::Number("5".to_string()))])
}

fn ctx(mark: &str) -> JsonValue {
    object(vec![
        ("markPx", text(mark)),
        ("oraclePx", text("100.1")),
        ("midPx", text("100.25")),
        ("funding", text("0.0001")),
        ("openInterest", text("10")),
        ("dayNtlVlm", text("5000")),
        ("premium", text("0.0003")),
        ("impactPxs", JsonValue::Array(vec![text("100.0"), text("100.4")])),
    ])
}

fn response(names: Vec<&str>, ctxs: Vec<JsonValue>) -> JsonValue {
    let universe = JsonValue::Array(names.into_iter().map(meta).collect());
    JsonValue::Array(vec![object(vec![("universe", universe)]), JsonValue::Array(ctxs)])
}

#[test]
fn parses_and_rescales_feed_entries() {
    let v = response(vec!["BTC"], vec![ctx("100.5")]);
    let es = parse_market_data(&v).unwrap();
    assert_eq!(es.len(), 1);
    let e = &es[0];
    assert_eq!(e.coin, "BTC");
    assert_eq!(e.mark_price, amount("100.5"));
    assert_eq!(e.oracle_price, amount("100.1"));
    assert_eq!(e.mid_price, amount("100.25"));
    assert_eq!(e.funding_rate_pct, amount("0.01"));
    assert_eq!(e.open_interest, amount("1005"));
    assert_eq!(e.volume_24h, amount("5000"));
    assert_eq!(e.premium, amount("0.0003"));
    assert_eq!(e.impact_px_bid, Some(amount("100.0")));
    assert_eq!(e.impact_px_ask, Some(amount("100.4")));
}

#[test]
fn lists_are_zipped_by_position_and_cut_to_the_shorter() {
    let v = response(vec!["BTC", "ETH", "SOL"], vec![ctx("1"), ctx("2")]);
    let es = parse_market_data(&v).unwrap();
    assert_eq!(es.len(), 2);
    assert_eq!(es[0].coin, "BTC");
    assert_eq!(es[1].coin, "ETH");
    assert_eq!(es[1].mark_price, amount("2"));
    let v = response(vec!["BTC"], vec![ctx("1"), ctx("2")]);
    assert_eq!(parse_market_data(&v).unwrap().len(), 1);
}

#[test]
fn universe_may_be_a_bare_array() {
    let v = JsonValue::Array(vec![JsonValue::Array(vec![meta("ETH")]), JsonValue::Array(vec![ctx("3")])]);
    let es = parse_market_data(&v).unwrap();
    assert_eq!(es[0].coin, "ETH");
}

#[test]
fn missing_or_bad_numbers_count_as_zero() {
    let c = object(vec![("markPx", text("abc")), ("funding", JsonValue::Number("1".to_string()))]);
    let es = parse_market_data(&response(vec!["X"], vec![c])).unwrap();
    let e = &es[0];
    assert_eq!(e.mark_price, Fixed::zero());
    assert_eq!(e.oracle_price, Fixed::zero());
    assert_eq!(e.funding_rate_pct, Fixed::zero());
    assert_eq!(e.open_interest, Fixed::zero());
    assert_eq!(e.impact_px_bid, None);
    assert_eq!(e.impact_px_ask, None);
}

#[test]
fn malformed_shapes_are_rejected() {
    assert_eq!(parse_market_data(&JsonValue::Null).unwrap_err(), FeedError::Shape);
    assert_eq!(parse_market_data(&JsonValue::Array(vec![JsonValue::Array(vec![])])).unwrap_err(), FeedError::Shape);
    let bad_ctxs = JsonValue::Array(vec![JsonValue::Array(vec![meta("A")]), object(vec![])]);
    assert_eq!(parse_market_data(&bad_ctxs).unwrap_err(), FeedError::Shape);
    let bad_universe = JsonValue::Array(vec![object(vec![("universe", text("x"))]), JsonValue::Array(vec![])]);
    assert_eq!(parse_market_data(&bad_universe).unwrap_err(), FeedError::Shape);
    let nameless = JsonValue::Array(vec![
        JsonValue::Array(vec![object(vec![("id", text("A"))])]),
        JsonValue::Array(vec![ctx("1")]),
    ]);
    assert_eq!(parse_market_data(&nameless).unwrap_err(), FeedError::Shape);
}

#[test]
fn field_lookup_takes_first_member() {
    let o = object(vec![("a", text("1")), ("b", text("2"))]);
    match get_field(&o, &"b".to_string()) {
        Some(JsonValue::Str(s)) => assert_eq!(s, "2"),
        _ => panic!("member b not found"),
    }
    assert!(get_field(&o, &"c".to_string()).is_none());
    assert!(get_field(&text("a"), &"a".to_string()).is_none());
}

#[test]
fn cache_starts_empty_and_fills_on_refresh() {
    let mut c = HyperliquidClient::new("http://feed".to_string(), 1000);
    assert!(c.get_market_data("BTC").is_none());
    let n = c.apply_fetch(Ok(response(vec!["BTC", "ETH"], vec![ctx("1"), ctx("2")])));
    assert_eq!(n, Ok(2));
    assert_eq!(c.get_market_data("ETH").unwrap().mark_price, amount("2"));
    assert!(c.get_market_data("SOL").is_none());
}

#[test]
fn failed_refresh_keeps_cached_entries() {
    let mut c = HyperliquidClient::new("http://feed".to_string(), 1000);
    c.apply_fetch(Ok(response(vec!["BTC"], vec![ctx("7")]))).unwrap();
    assert_eq!(c.apply_fetch(Err(FeedError::Transport)), Err(FeedError::Transport));
    assert_eq!(c.get_market_data("BTC").unwrap().mark_price, amount("7"));
    assert_eq!(c.apply_fetch(Err(FeedError::Status(503))), Err(FeedError::Status(503)));
    assert_eq!(c.apply_fetch(Ok(JsonValue::Null)), Err(FeedError::Shape));
    assert_eq!(c.get_market_data("BTC").unwrap().mark_price, amount("7"));
}

#[test]
fn later_entry_of_the_same_name_wins() {
    let mut c = HyperliquidClient::new("http://feed".to_string(), 1000);
    c.apply_fetch(Ok(response(vec!["BTC", "BTC"], vec![ctx("1"), ctx("2")]))).unwrap();
    assert_eq!(c.get_market_data("BTC").unwrap().mark_price, amount("2"));
}

#[test]
fn fresh_read_refreshes_then_reads() {
    let mut c = HyperliquidClient::new("http://feed".to_string(), 1000);
    let d = c.get_fresh_market_data(Ok(response(vec!["BTC"], vec![ctx("9")])), "BTC").unwrap();
    assert_eq!(d.mark_price, amount("9"));
    let missing = c.get_fresh_market_data(Ok(response(vec!["BTC"], vec![ctx("9")])), "ETH");
    assert_eq!(missing.unwrap_err(), FeedError::NotFound);
    let failed = c.get_fresh_market_data(Err(FeedError::Decode), "BTC");
    assert_eq!(failed.unwrap_err(), FeedError::Decode);
    assert_eq!(c.get_market_data("BTC").unwrap().mark_price, amount("9"));
}

#[test]
fn large_feed_values_are_kept() {
    let c = object(vec![
        ("markPx", text("2")),
        ("dayNtlVlm", text("2500000000")),
        ("openInterest", text("1500000000")),
        ("funding", text("0.00001")),
    ]);
    let es = parse_market_data(&response(vec!["BIG"], vec![c])).unwrap();
    assert_eq!(es[0].volume_24h, amount("2500000000"));
    assert_eq!(es[0].open_interest, amount("3000000000"));
    assert_eq!(es[0].funding_rate_pct, amount("0.001"));
}
