//! Per-symbol table naming, schema statements and provisioning bookkeeping, and insert outcomes.

use vstd::prelude::*;
use vstd::string::*;

verus! {

/// What lower-casing makes of a text.
pub uninterp spec fn lower_of(s: Seq<char>) -> Seq<char>;

/// Relies on `str::to_lowercase`: the lower-case form of the text, which depends on its
/// characters alone.
#[verifier::external_body]
fn lowercase(s: &str) -> (r: String)
    ensures
        r@ == lower_of(s@),
{
    s.to_lowercase()
}

/// The table that holds the samples of `symbol`.
pub open spec fn table_name_of(symbol: Seq<char>) -> Seq<char> {
    lower_of(symbol) + "_metrics_raw"@
}

/// The statements that create the table of a symbol whose lower-case form is `lower`,
/// with its index by time and its index by coin and time.
pub open spec fn table_ddl(lower: Seq<char>) -> Seq<char> {
    "CREATE TABLE IF NOT EXISTS market_metrics."@ + lower + TABLE_COLUMNS@
        + "CREATE INDEX IF NOT EXISTS idx_"@ + lower + "_metrics_timestamp ON market_metrics."@
        + lower + "_metrics_raw(timestamp DESC);\nCREATE INDEX IF NOT EXISTS idx_"@ + lower
        + "_metrics_coin_timestamp ON market_metrics."@ + lower
        + "_metrics_raw(coin, timestamp DESC);\n"@
}

/// The statement that inserts one sample of `symbol`; its parameters, in order, are those
/// of `INSERT_COLUMNS`.
pub open spec fn insert_sql_of(symbol: Seq<char>) -> Seq<char> {
    "INSERT INTO market_metrics."@ + table_name_of(symbol) + INSERT_COLUMNS@
}

/// Table suffix and columns of a per-symbol table; samples are unique by time and coin.
pub const TABLE_COLUMNS: &'static str = "_metrics_raw (
    id SERIAL PRIMARY KEY,
    timestamp TIMESTAMPTZ NOT NULL DEFAULT NOW(),
    coin VARCHAR(20) NOT NULL,
    mark_price DECIMAL(20, 8),
    oracle_price DECIMAL(20, 8),
    mid_price DECIMAL(20, 8),
    best_bid DECIMAL(20, 8),
    best_ask DECIMAL(20, 8),
    spread DECIMAL(20, 8),
    spread_pct DECIMAL(10, 6),
    funding_rate_pct DECIMAL(12, 10),
    open_interest DECIMAL(20, 8),
    volume_24h DECIMAL(20, 8),
    bid_depth_5pct DECIMAL(20, 8),
    ask_depth_5pct DECIMAL(20, 8),
    total_depth_5pct DECIMAL(20, 8),
    bid_depth_10pct DECIMAL(20, 8),
    ask_depth_10pct DECIMAL(20, 8),
    total_depth_10pct DECIMAL(20, 8),
    bid_depth_25pct DECIMAL(20, 8),
    ask_depth_25pct DECIMAL(20, 8),
    total_depth_25pct DECIMAL(20, 8),
    premium DECIMAL(12, 10),
    impact_px_bid DECIMAL(20, 8),
    impact_px_ask DECIMAL(20, 8),
    node_latency_ms INTEGER,
    websocket_latency_ms INTEGER,
    total_latency_ms INTEGER,
    created_at TIMESTAMPTZ DEFAULT NOW(),
    UNIQUE(timestamp, coin)
);
";

/// Column list and placeholders of the insert statement.
pub const INSERT_COLUMNS: &'static str = " (
    coin, mark_price, oracle_price, mid_price,
    best_bid, best_ask, spread, spread_pct,
    funding_rate_pct, open_interest, volume_24h,
    bid_depth_5pct, ask_depth_5pct, total_depth_5pct,
    bid_depth_10pct, ask_depth_10pct, total_depth_10pct,
    bid_depth_25pct, ask_depth_25pct, total_depth_25pct,
    premium, impact_px_bid, impact_px_ask,
    node_latency_ms, websocket_latency_ms, total_latency_ms,
    timestamp
) VALUES (
    $1, $2, $3, $4, $5, $6, $7, $8, $9, $10,
    $11, $12, $13, $14, $15, $16, $17, $18, $19, $20,
    $21, $22, $23, $24, $25, $26, $27
)";

/// The statement that creates the schema holding every per-symbol table.
pub fn schema_sql() -> (r: String)
    ensures
        r@ == "CREATE SCHEMA IF NOT EXISTS market_metrics"@,
{
    String::from_str("CREATE SCHEMA IF NOT EXISTS market_metrics")
}

/// The name of the table that holds the samples of `symbol`: its lower-case form followed
/// by `_metrics_raw`.
pub fn table_name(symbol: &str) -> (r: String)
    ensures
        r@ == table_name_of(symbol@),
{
    lowercase(symbol).concat("_metrics_raw")
}

/// The statement that inserts one sample of `symbol` into its table.
pub fn insert_sql(symbol: &str) -> (r: String)
    ensures
        r@ == insert_sql_of(symbol@),
{
    let t = table_name(symbol);
    let s = String::from_str("INSERT INTO market_metrics.").concat(t.as_str());
    s.concat(INSERT_COLUMNS)
}

/// The names of the tables provisioned so far.
pub open spec fn provisioned(tables: Seq<String>) -> Set<Seq<char>> {
    Set::new(|t: Seq<char>| exists|i: int| 0 <= i < tables.len() && (#[trigger] tables[i])@ == t)
}

/// Whether provisioning `symbol` still has statements to run, given the tables provisioned.
pub open spec fn needs_ddl(tables: Seq<String>, symbol: Seq<char>) -> bool {
    !provisioned(tables).contains(table_name_of(symbol))
}

/// Bookkeeping of the per-symbol tables this process has provisioned.
pub struct MetricsDatabase {
    pub created_tables: Vec<String>,
}

/// Whether a tag is the datastore's code for a broken uniqueness constraint.
pub open spec fn is_unique_violation(code: Option<Seq<char>>) -> bool {
    code == Some("23505"@)
}

/// How one insert of a sample ended.
#[derive(Clone, Copy, Debug, PartialEq, Eq, Structural)]
pub enum InsertOutcome {
    Inserted,
    /// A sample with the same time and coin is stored already; this one is skipped.
    DuplicateSample,
    Failed,
}

impl MetricsDatabase {
    /// Bookkeeping with no table provisioned yet.
    pub fn new() -> (r: MetricsDatabase)
        ensures
            provisioned(r.created_tables@) == Set::<Seq<char>>::empty(),
    {
        let r = MetricsDatabase { created_tables: Vec::new() };
        assert(provisioned(r.created_tables@) =~= Set::<Seq<char>>::empty());
        r
    }

    fn is_provisioned(&self, table: &String) -> (r: bool)
        ensures
            r == provisioned(self.created_tables@).contains(table@),
    {
        let mut i: usize = 0;
        while i < self.created_tables.len()
            invariant
                i <= self.created_tables@.len(),
                forall|j: int| 0 <= j < i ==> (#[trigger] self.created_tables@[j])@ != table@,
            decreases self.created_tables@.len() - i,
        {
            if self.created_tables[i] == *table {
                assert(self.created_tables@[i as int]@ == table@);
                return true;
            }
            i = i + 1;
        }
        false
    }

    /// The statements that provision the table of `coin_symbol`, or `None` where this process
    /// has provisioned it already and nothing is to be run.
    pub fn ensure_market_table(&self, coin_symbol: &str) -> (r: Option<String>)
        ensures
            r is None <==> !needs_ddl(self.created_tables@, coin_symbol@),
            r matches Some(ddl) ==> ddl@ == table_ddl(lower_of(coin_symbol@)),
    {
        let t = table_name(coin_symbol);
        if self.is_provisioned(&t) {
            return None;
        }
        let lower = lowercase(coin_symbol);
        let l = lower.as_str();
        let ddl = String::from_str("CREATE TABLE IF NOT EXISTS market_metrics.").concat(l).concat(
            TABLE_COLUMNS,
        ).concat("CREATE INDEX IF NOT EXISTS idx_").concat(l).concat(
            "_metrics_timestamp ON market_metrics.",
        ).concat(l).concat("_metrics_raw(timestamp DESC);\nCREATE INDEX IF NOT EXISTS idx_").concat(
            l,
        ).concat("_metrics_coin_timestamp ON market_metrics.").concat(l).concat(
            "_metrics_raw(coin, timestamp DESC);\n",
        );
        Some(ddl)
    }

    /// Records that the table of `coin_symbol` now exists.
    pub fn mark_table_created(&mut self, coin_symbol: &str)
        ensures
            provisioned(final(self).created_tables@) == provisioned(old(self).created_tables@).insert(
                table_name_of(coin_symbol@),
            ),
    {
        let t = table_name(coin_symbol);
        let ghost before = self.created_tables@;
        let ghost name = t@;
        self.created_tables.push(t);
        let ghost after = self.created_tables@;
        assert(after[before.len() as int]@ == name);
        assert(provisioned(after) =~= provisioned(before).insert(name)) by {
            assert forall|x: Seq<char>| provisioned(after).contains(x) implies provisioned(before).insert(name).contains(x) by {
                let i = choose|i: int| 0 <= i < after.len() && (#[trigger] after[i])@ == x;
                if i < before.len() {
                    assert(before[i] == after[i]);
                }
            }
            assert forall|x: Seq<char>| provisioned(before).insert(name).contains(x) implies provisioned(after).contains(x) by {
                if x != name {
                    let i = choose|i: int| 0 <= i < before.len() && (#[trigger] before[i])@ == x;
                    assert(after[i] == before[i]);
                }
            }
        }
    }

    /// How an insert ended, from whether it succeeded and the datastore's error code:
    /// a broken uniqueness constraint marks a duplicate sample, anything else a failure.
    pub fn classify_insert(succeeded: bool, error_code: Option<&str>) -> (r: InsertOutcome)
        ensures
            succeeded ==> r == InsertOutcome::Inserted,
            !succeeded && is_unique_violation(
                match error_code {
                    Some(c) => Some(c@),
                    None => None,
                },
            ) ==> r == InsertOutcome::DuplicateSample,
            !succeeded && !is_unique_violation(
                match error_code {
                    Some(c) => Some(c@),
                    None => None,
                },
            ) ==> r == InsertOutcome::Failed,
    {
        if succeeded {
            return InsertOutcome::Inserted;
        }
        match error_code {
            Some(c) => {
                let code = String::from_str(c);
                let unique = String::from_str("23505");
                if code == unique {
                    InsertOutcome::DuplicateSample
                } else {
                    InsertOutcome::Failed
                }
            },
            None => InsertOutcome::Failed,
        }
    }
}

/// Provisioning is idempotent: once `mark_table_created` has recorded the table of a symbol,
/// whatever was provisioned before, `ensure_market_table` for that symbol yields `None`, so
/// no statement runs a second time.
pub proof fn lemma_second_ensure_runs_no_ddl(
    before: Seq<String>,
    after: Seq<String>,
    coin_symbol: Seq<char>,
)
    requires
        provisioned(after) == provisioned(before).insert(table_name_of(coin_symbol)),
    ensures
        !needs_ddl(after, coin_symbol),
{
}

} // verus!
