use market_metrics::config::{
    default_hyperliquid_url, default_max_connections, default_min_connections, default_monitoring_interval,
    default_poll_interval, interval_ms, MetricsConfig,
};
use market_metrics::store::{insert_sql, schema_sql, table_name, InsertOutcome, MetricsDatabase};

#[test]
fn table_name_is_lower_case_symbol() {
    assert_eq!(table_name("BTC"), "btc_metrics_raw");
    assert_eq!(table_name("kPEPE"), "kpepe_metrics_raw");
}

#[test]
fn ensure_table_provisions_once() {
    let mut db = MetricsDatabase::new();
    let ddl = db.ensure_market_table("ETH").unwrap();
    assert!(ddl.starts_with("CREATE TABLE IF NOT EXISTS market_metrics.eth_metrics_raw ("));
    assert!(ddl.contains("UNIQUE(timestamp, coin)"));
    assert!(ddl.contains("CREATE INDEX IF NOT EXISTS idx_eth_metrics_timestamp ON market_metrics.eth_metrics_raw(timestamp DESC);"));
    assert!(ddl.contains("CREATE INDEX IF NOT EXISTS idx_eth_metrics_coin_timestamp ON market_metrics.eth_metrics_raw(coin, timestamp DESC);"));
    db.mark_table_created("ETH");
    assert!(db.ensure_market_table("ETH").is_none());
    assert!(db.ensure_market_table("eth").is_none());
    assert!(db.ensure_market_table("BTC").is_some());
    db.mark_table_created("ETH");
    assert_eq!(db.created_tables.len(), 2);
    assert!(db.ensure_market_table("ETH").is_none());
}

#[test]
fn duplicate_sample_is_classified_apart() {
    assert_eq!(MetricsDatabase::classify_insert(true, None), InsertOutcome::Inserted);
    assert_eq!(MetricsDatabase::classify_insert(false, Some("23505")), InsertOutcome::DuplicateSample);
    assert_eq!(MetricsDatabase::classify_insert(false, Some("08006")), InsertOutcome::Failed);
    assert_eq!(MetricsDatabase::classify_insert(false, None), InsertOutcome::Failed);
}

#[test]
fn statements_name_the_schema_and_table() {
    assert_eq!(schema_sql(), "CREATE SCHEMA IF NOT EXISTS market_metrics");
    let s = insert_sql("SOL");
    assert!(s.starts_with("INSERT INTO market_metrics.sol_metrics_raw ("));
    assert!(s.contains("$27"));
}

#[test]
fn config_defaults() {
    assert_eq!(default_hyperliquid_url(), "https://api.hyperliquid.xyz/info");
    assert_eq!(default_min_connections(), 5);
    assert_eq!(default_max_connections(), 20);
    assert_eq!(default_monitoring_interval(), 1000);
    assert_eq!(default_poll_interval(), 1000);
    let c = MetricsConfig::with_defaults("postgres://x".to_string(), vec!["LINK".to_string()]);
    assert_eq!(c.monitoring_interval(), 1000);
    assert_eq!(c.poll_interval(), 1000);
    assert_eq!(c.hyperliquid_api_url, "https://api.hyperliquid.xyz/info");
}

#[test]
fn interval_text_in_seconds() {
    assert_eq!(interval_ms(Some("0.5"), 1000), 500);
    assert_eq!(interval_ms(Some("2"), 1000), 2000);
    assert_eq!(interval_ms(Some("soon"), 1000), 1000);
    assert_eq!(interval_ms(Some("-1"), 1000), 1000);
    assert_eq!(interval_ms(None, 750), 750);
}
