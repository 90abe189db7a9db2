//! The price feed's response, as a JSON value, and the parsing of its entries.

use vstd::prelude::*;
use vstd::string::*;
use crate::fixed::{amount_of, fixed_or_zero, parse_amount, product_units, Fixed};
use crate::types::HyperliquidMarketData;

verus! {

/// A JSON document, objects keeping their members in order.
#[derive(Debug)]
pub enum JsonValue {
    Null,
    Bool(bool),
    /// A number, as its decimal text.
    Number(String),
    Str(String),
    Array(Vec<JsonValue>),
    Object(Vec<(String, JsonValue)>),
}

/// Why a refresh of the price feed produced no new cache contents.
#[derive(Clone, Copy, Debug, PartialEq, Eq, Structural)]
pub enum FeedError {
    /// The request could not be sent or timed out.
    Transport,
    /// The feed answered with a status other than success.
    Status(u16),
    /// The body was not JSON.
    Decode,
    /// The JSON does not have the shape `[universe, contexts]`, or a market has no name.
    Shape,
    /// The feed has no entry for the requested market.
    NotFound,
}

/// The value of the first member named `key` at or after position `i`.
pub open spec fn member_from(es: Seq<(String, JsonValue)>, key: Seq<char>, i: int) -> Option<JsonValue>
    decreases es.len() - i,
{
    if i < 0 || i >= es.len() {
        None
    } else if es[i].0@ == key {
        Some(es[i].1)
    } else {
        member_from(es, key, i + 1)
    }
}

/// The member `key` of an object; nothing for any other value.
pub open spec fn field_of(v: JsonValue, key: Seq<char>) -> Option<JsonValue> {
    match v {
        JsonValue::Object(es) => member_from(es@, key, 0),
        _ => None,
    }
}

/// The text of member `key`, where it is a string.
pub open spec fn text_field(v: JsonValue, key: Seq<char>) -> Option<Seq<char>> {
    match field_of(v, key) {
        Some(JsonValue::Str(s)) => Some(s@),
        _ => None,
    }
}

/// The amount a text denotes; zero where it is missing or does not parse.
pub open spec fn amount_or_zero(t: Option<Seq<char>>) -> Fixed {
    match t {
        Some(s) => match amount_of(s) {
            Some(f) => f,
            None => Fixed { units: 0 },
        },
        None => Fixed { units: 0 },
    }
}

/// The `i`-th impact price, where `impactPxs` is an array whose `i`-th item is a parsable text.
pub open spec fn impact_at(ctx: JsonValue, i: int) -> Option<Fixed> {
    match field_of(ctx, "impactPxs"@) {
        Some(JsonValue::Array(xs)) => if 0 <= i < xs@.len() {
            match xs@[i] {
                JsonValue::Str(s) => amount_of(s@),
                _ => None,
            }
        } else {
            None
        },
        _ => None,
    }
}

/// The feed entry of the market `name` whose asset context is `ctx`: funding rescaled to a
/// percentage, open interest rescaled to notional by the mark price. A rescaled figure too
/// large to be held as an amount counts as zero.
pub open spec fn entry_of(name: String, ctx: JsonValue) -> HyperliquidMarketData {
    let mark = amount_or_zero(text_field(ctx, "markPx"@));
    let oi = amount_or_zero(text_field(ctx, "openInterest"@));
    HyperliquidMarketData {
        coin: name,
        mark_price: mark,
        oracle_price: amount_or_zero(text_field(ctx, "oraclePx"@)),
        mid_price: amount_or_zero(text_field(ctx, "midPx"@)),
        funding_rate_pct: fixed_or_zero(amount_or_zero(text_field(ctx, "funding"@)).units * 100),
        open_interest: fixed_or_zero(product_units(oi.units as int, mark.units as int)),
        volume_24h: amount_or_zero(text_field(ctx, "dayNtlVlm"@)),
        premium: amount_or_zero(text_field(ctx, "premium"@)),
        impact_px_bid: impact_at(ctx, 0),
        impact_px_ask: impact_at(ctx, 1),
    }
}

/// The name of a market descriptor, where it has a string member `name`.
pub open spec fn meta_name(meta: JsonValue) -> Option<String> {
    match field_of(meta, "name"@) {
        Some(JsonValue::Str(s)) => Some(s),
        _ => None,
    }
}

/// The entries of the first `n` markets, pairing descriptors and contexts by position.
pub open spec fn entries_prefix(universe: Seq<JsonValue>, ctxs: Seq<JsonValue>, n: nat) -> Result<
    Seq<HyperliquidMarketData>,
    FeedError,
>
    decreases n,
{
    if n == 0 {
        Ok(Seq::empty())
    } else {
        match entries_prefix(universe, ctxs, (n - 1) as nat) {
            Ok(es) => match meta_name(universe[n - 1]) {
                Some(name) => Ok(es.push(entry_of(name, ctxs[n - 1]))),
                None => Err(FeedError::Shape),
            },
            Err(e) => Err(e),
        }
    }
}

proof fn lemma_prefix_error_persists(universe: Seq<JsonValue>, ctxs: Seq<JsonValue>, i: nat, m: nat)
    requires
        i <= m,
        entries_prefix(universe, ctxs, i) is Err,
    ensures
        entries_prefix(universe, ctxs, m) == entries_prefix(universe, ctxs, i),
    decreases m,
{
    if m > i {
        lemma_prefix_error_persists(universe, ctxs, i, (m - 1) as nat);
    }
}

pub open spec fn min_len(a: nat, b: nat) -> nat {
    if a <= b {
        a
    } else {
        b
    }
}

/// The market descriptors: the member `universe` of the first element where there is one,
/// else the first element itself; it must be an array.
pub open spec fn universe_of(first: JsonValue) -> Option<Seq<JsonValue>> {
    match field_of(first, "universe"@) {
        Some(JsonValue::Array(u)) => Some(u@),
        Some(_) => None,
        None => match first {
            JsonValue::Array(u) => Some(u@),
            _ => None,
        },
    }
}

/// The feed entries a response gives: it is a two-element array `[universe, contexts]`; the
/// two lists are zipped by position and cut to the shorter one.
pub open spec fn entries_of_response(v: JsonValue) -> Result<Seq<HyperliquidMarketData>, FeedError> {
    match v {
        JsonValue::Array(top) => if top@.len() != 2 {
            Err(FeedError::Shape)
        } else {
            match (universe_of(top@[0]), top@[1]) {
                (Some(u), JsonValue::Array(c)) => entries_prefix(u, c@, min_len(u.len(), c@.len())),
                _ => Err(FeedError::Shape),
            }
        },
        _ => Err(FeedError::Shape),
    }
}

/// What a fetch brings: the entries of the response, or the fetch's own failure.
pub open spec fn fetch_entries(outcome: Result<JsonValue, FeedError>) -> Result<
    Seq<HyperliquidMarketData>,
    FeedError,
> {
    match outcome {
        Ok(v) => entries_of_response(v),
        Err(e) => Err(e),
    }
}

/// The cache after a fetch: replaced by what it brought, kept where it failed.
pub open spec fn cache_after(cached: Seq<HyperliquidMarketData>, outcome: Result<JsonValue, FeedError>) -> Seq<
    HyperliquidMarketData,
> {
    match fetch_entries(outcome) {
        Ok(es) => es,
        Err(_) => cached,
    }
}

/// The entry for `coin`: the last one of that name, as a map filled in order would hold it.
pub open spec fn latest_for(es: Seq<HyperliquidMarketData>, coin: Seq<char>) -> Option<
    HyperliquidMarketData,
>
    decreases es.len(),
{
    if es.len() == 0 {
        None
    } else if es.last().coin@ == coin {
        Some(es.last())
    } else {
        latest_for(es.drop_last(), coin)
    }
}

fn find_member<'a>(es: &'a Vec<(String, JsonValue)>, key: &String) -> (r: Option<&'a JsonValue>)
    ensures
        match r {
            Some(x) => member_from(es@, key@, 0) == Some(*x),
            None => member_from(es@, key@, 0) is None,
        },
{
    let mut i: usize = 0;
    while i < es.len()
        invariant
            i <= es@.len(),
            member_from(es@, key@, 0) == member_from(es@, key@, i as int),
        decreases es@.len() - i,
    {
        if es[i].0 == *key {
            return Some(&es[i].1);
        }
        i = i + 1;
    }
    None
}

/// The member `key` of `v`, where `v` is an object that has one.
pub fn get_field<'a>(v: &'a JsonValue, key: &String) -> (r: Option<&'a JsonValue>)
    ensures
        match r {
            Some(x) => field_of(*v, key@) == Some(*x),
            None => field_of(*v, key@) is None,
        },
{
    match v {
        JsonValue::Object(es) => find_member(es, key),
        _ => None,
    }
}

fn key(s: &str) -> (r: String)
    ensures
        r@ == s@,
{
    String::from_str(s)
}

fn amount_field(ctx: &JsonValue, name: &str) -> (r: Fixed)
    ensures
        r == amount_or_zero(text_field(*ctx, name@)),
{
    let k = key(name);
    match get_field(ctx, &k) {
        Some(JsonValue::Str(s)) => match parse_amount(s.as_str()) {
            Some(f) => f,
            None => Fixed::zero(),
        },
        _ => Fixed::zero(),
    }
}

fn impact_price(ctx: &JsonValue, i: usize) -> (r: Option<Fixed>)
    ensures
        r == impact_at(*ctx, i as int),
{
    let k = key("impactPxs");
    match get_field(ctx, &k) {
        Some(JsonValue::Array(xs)) => if i < xs.len() {
            match &xs[i] {
                JsonValue::Str(s) => parse_amount(s.as_str()),
                _ => None,
            }
        } else {
            None
        },
        _ => None,
    }
}

/// The feed entry of market `name` from its asset context; each figure that is missing or
/// does not parse counts as zero.
pub fn build_entry(name: String, ctx: &JsonValue) -> (r: HyperliquidMarketData)
    ensures
        r == entry_of(name, *ctx),
{
    let mark = amount_field(ctx, "markPx");
    let oi = amount_field(ctx, "openInterest");
    let funding = amount_field(ctx, "funding");
    HyperliquidMarketData {
        coin: name,
        mark_price: mark,
        oracle_price: amount_field(ctx, "oraclePx"),
        mid_price: amount_field(ctx, "midPx"),
        funding_rate_pct: match funding.units.checked_mul(100) {
            Some(u) => Fixed { units: u },
            None => Fixed::zero(),
        },
        open_interest: match oi.checked_times(mark) {
            Some(f) => f,
            None => Fixed::zero(),
        },
        volume_24h: amount_field(ctx, "dayNtlVlm"),
        premium: amount_field(ctx, "premium"),
        impact_px_bid: impact_price(ctx, 0),
        impact_px_ask: impact_price(ctx, 1),
    }
}

fn market_name(meta: &JsonValue) -> (r: Option<String>)
    ensures
        r == meta_name(*meta),
{
    let k = key("name");
    match get_field(meta, &k) {
        Some(JsonValue::Str(s)) => Some(s.clone()),
        _ => None,
    }
}

fn universe_list(first: &JsonValue) -> (r: Option<&Vec<JsonValue>>)
    ensures
        match r {
            Some(u) => universe_of(*first) == Some(u@),
            None => universe_of(*first) is None,
        },
{
    let k = key("universe");
    match get_field(first, &k) {
        Some(JsonValue::Array(u)) => Some(u),
        Some(_) => None,
        None => match first {
            JsonValue::Array(u) => Some(u),
            _ => None,
        },
    }
}

/// Parses a price-feed response `[universe, contexts]` into one entry per market, zipping
/// descriptors and contexts by position and stopping at the shorter list. Fails with `Shape`
/// where the response is not such a pair or a descriptor has no name.
pub fn parse_market_data(v: &JsonValue) -> (r: Result<Vec<HyperliquidMarketData>, FeedError>)
    ensures
        match entries_of_response(*v) {
            Ok(es) => r matches Ok(x) && x@ == es,
            Err(e) => r == Err::<Vec<HyperliquidMarketData>, FeedError>(e),
        },
{
    let top = match v {
        JsonValue::Array(top) => top,
        _ => return Err(FeedError::Shape),
    };
    if top.len() != 2 {
        return Err(FeedError::Shape);
    }
    let universe = match universe_list(&top[0]) {
        Some(u) => u,
        None => return Err(FeedError::Shape),
    };
    let ctxs = match &top[1] {
        JsonValue::Array(c) => c,
        _ => return Err(FeedError::Shape),
    };
    let n = if universe.len() <= ctxs.len() {
        universe.len()
    } else {
        ctxs.len()
    };
    let mut out: Vec<HyperliquidMarketData> = Vec::new();
    let mut i: usize = 0;
    assert(entries_of_response(*v) == entries_prefix(universe@, ctxs@, n as nat));
    while i < n
        invariant
            n == min_len(universe@.len(), ctxs@.len()),
            entries_of_response(*v) == entries_prefix(universe@, ctxs@, n as nat),
            i <= n,
            entries_prefix(universe@, ctxs@, i as nat) == Ok::<Seq<HyperliquidMarketData>, FeedError>(out@),
        decreases n - i,
    {
        match market_name(&universe[i]) {
            Some(name) => {
                let e = build_entry(name, &ctxs[i]);
                out.push(e);
            },
            None => {
                proof {
                    assert(meta_name(universe@[i as int]) is None);
                    assert(entries_prefix(universe@, ctxs@, (i + 1) as nat) == Err::<
                        Seq<HyperliquidMarketData>,
                        FeedError,
                    >(FeedError::Shape));
                    lemma_prefix_error_persists(universe@, ctxs@, (i + 1) as nat, n as nat);
                }
                return Err(FeedError::Shape);
            },
        }
        i = i + 1;
    }
    Ok(out)
}

} // verus!
