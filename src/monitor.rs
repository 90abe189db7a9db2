//! Order-book figures of one market and the assembly of one sample record.

use vstd::prelude::*;
use crate::depth::{
    bid_depth, ask_depth, calculate_liquidity_depth, depths_of, ladder_ok, ladder_total,
    lemma_notional_nonneg, lemma_totals, level_ok, Level,
};
use crate::fixed::{amount_of, fits, parse_amount, trunc_div, Fixed, UNITS_PER_ONE};
use crate::types::{blank_record, no_book_fields, with_book, with_feed, HyperliquidMarketData, MarketMetrics, OrderBookMetrics};

verus! {

/// A price level as the order book renders it: price and size as decimal text.
#[derive(Clone, Debug)]
pub struct RawLevel {
    pub price: String,
    pub size: String,
}

/// One market's side of an order-book snapshot: bids best first, asks best first.
#[derive(Clone, Debug)]
pub struct BookLadders {
    pub bids: Vec<RawLevel>,
    pub asks: Vec<RawLevel>,
}

/// The level a raw level denotes: both texts parse, neither is negative.
pub open spec fn level_of(r: RawLevel) -> Option<Level> {
    match (amount_of(r.price@), amount_of(r.size@)) {
        (Some(p), Some(s)) => if p.units >= 0 && s.units >= 0 {
            Some(Level { price: p, size: s })
        } else {
            None
        },
        _ => None,
    }
}

/// The levels of a ladder that parse, in their order; the others are left out.
pub open spec fn parsed_levels(raws: Seq<RawLevel>) -> Seq<Level>
    decreases raws.len(),
{
    if raws.len() == 0 {
        Seq::empty()
    } else {
        match level_of(raws.last()) {
            Some(l) => parsed_levels(raws.drop_last()).push(l),
            None => parsed_levels(raws.drop_last()),
        }
    }
}

/// The order-book figures of a snapshot, where both sides are non-empty, both best prices
/// parse and their mean is positive, and where the spread, its percentage and the notional of
/// the two ladders together can be held as amounts.
pub open spec fn book_metrics(bids: Seq<RawLevel>, asks: Seq<RawLevel>) -> Option<OrderBookMetrics> {
    if bids.len() == 0 || asks.len() == 0 {
        None
    } else {
        match (amount_of(bids[0].price@), amount_of(asks[0].price@)) {
            (Some(bb), Some(ba)) => {
                let sum = bb.units + ba.units;
                let spread = ba.units - bb.units;
                let scaled = spread * 100 * UNITS_PER_ONE;
                let bl = parsed_levels(bids);
                let al = parsed_levels(asks);
                if sum < 2 || !fits(spread) || !(-i128::MAX <= scaled <= i128::MAX) || ladder_total(bl)
                    + ladder_total(al) > i128::MAX {
                    None
                } else {
                    let mid = sum / 2;
                    let b5 = bid_depth(bl, mid, 5);
                    let a5 = ask_depth(al, mid, 5);
                    let b10 = bid_depth(bl, mid, 10);
                    let a10 = ask_depth(al, mid, 10);
                    let b25 = bid_depth(bl, mid, 25);
                    let a25 = ask_depth(al, mid, 25);
                    Some(
                        OrderBookMetrics {
                            best_bid: bb,
                            best_ask: ba,
                            mid_price: Fixed { units: mid as i128 },
                            spread: Fixed { units: spread as i128 },
                            spread_pct: Fixed { units: trunc_div(scaled, mid) as i128 },
                            total_bids: bids.len() as usize,
                            total_asks: asks.len() as usize,
                            bid_depth_5pct: Fixed { units: b5 as i128 },
                            ask_depth_5pct: Fixed { units: a5 as i128 },
                            total_depth_5pct: Fixed { units: (b5 + a5) as i128 },
                            bid_depth_10pct: Fixed { units: b10 as i128 },
                            ask_depth_10pct: Fixed { units: a10 as i128 },
                            total_depth_10pct: Fixed { units: (b10 + a10) as i128 },
                            bid_depth_25pct: Fixed { units: b25 as i128 },
                            ask_depth_25pct: Fixed { units: a25 as i128 },
                            total_depth_25pct: Fixed { units: (b25 + a25) as i128 },
                        },
                    )
                }
            },
            _ => None,
        }
    }
}

/// The figures a snapshot gives, if any.
pub open spec fn book_of(book: Option<BookLadders>) -> Option<OrderBookMetrics> {
    match book {
        Some(b) => book_metrics(b.bids@, b.asks@),
        None => None,
    }
}

/// The record of one sample: blank, then the feed's figures where the feed had an entry,
/// then the book's figures where the snapshot gave any.
pub open spec fn sample_record(
    coin: String,
    timestamp_us: i64,
    feed: Option<HyperliquidMarketData>,
    book: Option<OrderBookMetrics>,
) -> MarketMetrics {
    let m0 = blank_record(coin, timestamp_us);
    let m1 = match feed {
        Some(d) => with_feed(m0, d),
        None => m0,
    };
    match book {
        Some(b) => with_book(m1, b),
        None => m1,
    }
}

proof fn lemma_parsed_levels_ok(raws: Seq<RawLevel>)
    ensures
        forall|i: int| 0 <= i < parsed_levels(raws).len() ==> level_ok(#[trigger] parsed_levels(raws)[i]),
    decreases raws.len(),
{
    if raws.len() > 0 {
        let prev = parsed_levels(raws.drop_last());
        lemma_parsed_levels_ok(raws.drop_last());
        match level_of(raws.last()) {
            Some(l) => {
                assert forall|i: int| 0 <= i < prev.push(l).len() implies level_ok(
                    #[trigger] prev.push(l)[i],
                ) by {
                    if i < prev.len() {
                        assert(prev.push(l)[i] == prev[i]);
                    }
                }
            },
            None => {},
        }
    }
}

/// Parses a ladder, leaving out the levels whose price or size does not parse or is negative.
pub fn parse_levels(raws: &Vec<RawLevel>) -> (r: Vec<Level>)
    ensures
        r@ == parsed_levels(raws@),
{
    let mut out: Vec<Level> = Vec::new();
    let mut i: usize = 0;
    while i < raws.len()
        invariant
            i <= raws@.len(),
            out@ == parsed_levels(raws@.subrange(0, i as int)),
        decreases raws@.len() - i,
    {
        let ghost next = raws@.subrange(0, i as int + 1);
        assert(next.drop_last() =~= raws@.subrange(0, i as int));
        assert(next.last() == raws@[i as int]);
        let p = parse_amount(raws[i].price.as_str());
        let s = parse_amount(raws[i].size.as_str());
        match (p, s) {
            (Some(p), Some(s)) => {
                if p.units >= 0 && s.units >= 0 {
                    out.push(Level { price: p, size: s });
                }
            },
            _ => {},
        }
        i = i + 1;
    }
    assert(raws@.subrange(0, raws@.len() as int) =~= raws@);
    out
}

/// The whole notional of a ladder, where it fits an amount.
fn total_notional(levels: &Vec<Level>) -> (r: Option<i128>)
    requires
        forall|i: int| 0 <= i < levels@.len() ==> level_ok(#[trigger] levels@[i]),
    ensures
        ladder_total(levels@) <= i128::MAX ==> r == Some(ladder_total(levels@) as i128),
        ladder_total(levels@) > i128::MAX ==> r is None,
{
    let ghost ls = levels@;
    let mut acc: i128 = 0;
    let mut i: usize = 0;
    while i < levels.len()
        invariant
            ls == levels@,
            forall|j: int| 0 <= j < ls.len() ==> level_ok(#[trigger] ls[j]),
            i <= ls.len(),
            acc == ladder_total(ls.subrange(0, i as int)),
        decreases ls.len() - i,
    {
        let ghost pre = ls.subrange(0, i as int);
        let ghost next = ls.subrange(0, i as int + 1);
        assert(next.drop_last() =~= pre);
        assert(next.last() == ls[i as int]);
        proof {
            lemma_totals(ls, i as int + 1, 0, 0);
            lemma_totals(ls, i as int, 0, 0);
            lemma_notional_nonneg(ls[i as int]);
        }
        let n = match levels[i].price.checked_times(levels[i].size) {
            Some(v) => v.units,
            None => return None,
        };
        acc = match acc.checked_add(n) {
            Some(v) => v,
            None => return None,
        };
        i = i + 1;
    }
    assert(ls.subrange(0, ls.len() as int) =~= ls);
    Some(acc)
}

/// The mean of two amounts rounded down, where their sum is at least two units.
fn mean_units(a: i128, b: i128) -> (r: Option<i128>)
    ensures
        a + b >= 2 ==> r == Some(((a + b) / 2) as i128),
        a + b < 2 ==> r is None,
{
    match a.checked_add(b) {
        Some(s) => if s < 2 {
            None
        } else {
            Some(s / 2)
        },
        None => if a > 0 {
            proof {
                assert(b > 0);
                assert(a / 2 + b / 2 + (a % 2 + b % 2) / 2 == (a + b) / 2) by (nonlinear_arith)
                    requires a > 0, b > 0;
            }
            Some(a / 2 + b / 2 + (a % 2 + b % 2) / 2)
        } else {
            None
        },
    }
}

/// Best bid and ask (the first level of each side), their mean as mid price, the spread
/// `ask - bid`, the spread as a percentage of mid, and the 5/10/25% depths of the levels that
/// parse. `None` where a side is empty, a best price does not parse, the mid price is not
/// positive, or the spread, its percentage or the two ladders' notional together cannot be
/// held as amounts.
pub fn get_orderbook_metrics(bids: &Vec<RawLevel>, asks: &Vec<RawLevel>) -> (r: Option<
    OrderBookMetrics,
>)
    ensures
        r == book_metrics(bids@, asks@),
{
    if bids.len() == 0 || asks.len() == 0 {
        return None;
    }
    let bb = match parse_amount(bids[0].price.as_str()) {
        Some(v) => v,
        None => return None,
    };
    let ba = match parse_amount(asks[0].price.as_str()) {
        Some(v) => v,
        None => return None,
    };
    let mid_units = match mean_units(bb.units, ba.units) {
        Some(m) => m,
        None => return None,
    };
    let mid = Fixed { units: mid_units };
    let spread = match ba.units.checked_sub(bb.units) {
        Some(s) => s,
        None => return None,
    };
    let scaled = match spread.checked_mul(100 * UNITS_PER_ONE) {
        Some(s) => if s == i128::MIN {
            return None;
        } else {
            s
        },
        None => return None,
    };
    let pct_units = if scaled >= 0 {
        scaled / mid.units
    } else {
        -((-scaled) / mid.units)
    };
    let bid_levels = parse_levels(bids);
    let ask_levels = parse_levels(asks);
    proof {
        lemma_parsed_levels_ok(bids@);
        lemma_parsed_levels_ok(asks@);
        lemma_totals(bid_levels@, 0, 0, 0);
        lemma_totals(ask_levels@, 0, 0, 0);
    }
    let bid_total = match total_notional(&bid_levels) {
        Some(t) => t,
        None => return None,
    };
    let ask_total = match total_notional(&ask_levels) {
        Some(t) => t,
        None => return None,
    };
    match bid_total.checked_add(ask_total) {
        Some(_) => {},
        None => {
            assert(ladder_total(bid_levels@) + ladder_total(ask_levels@) > i128::MAX);
            return None;
        },
    }
    assert(ladder_ok(bid_levels@));
    assert(ladder_ok(ask_levels@));
    let d = calculate_liquidity_depth(&bid_levels, &ask_levels, mid);
    assert(depths_of(bid_levels@, ask_levels@, mid, d));
    Some(
        OrderBookMetrics {
            best_bid: bb,
            best_ask: ba,
            mid_price: mid,
            spread: Fixed { units: spread },
            spread_pct: Fixed { units: pct_units },
            total_bids: bids.len(),
            total_asks: asks.len(),
            bid_depth_5pct: d.bid_5pct,
            ask_depth_5pct: d.ask_5pct,
            total_depth_5pct: Fixed { units: d.bid_5pct.units + d.ask_5pct.units },
            bid_depth_10pct: d.bid_10pct,
            ask_depth_10pct: d.ask_10pct,
            total_depth_10pct: Fixed { units: d.bid_10pct.units + d.ask_10pct.units },
            bid_depth_25pct: d.bid_25pct,
            ask_depth_25pct: d.ask_25pct,
            total_depth_25pct: Fixed { units: d.bid_25pct.units + d.ask_25pct.units },
        },
    )
}

/// Builds one sample of `coin` stamped `timestamp_us`: the feed's figures where `feed` holds
/// an entry, the order-book figures where `book` holds a snapshot that gives them; every
/// field no source supplied stays absent.
pub fn collect_metrics(
    coin: String,
    timestamp_us: i64,
    feed: Option<HyperliquidMarketData>,
    book: &Option<BookLadders>,
) -> (r: MarketMetrics)
    ensures
        r == sample_record(coin, timestamp_us, feed, book_of(*book)),
{
    let mut metrics = MarketMetrics::new(coin, timestamp_us);
    match feed {
        Some(d) => metrics.merge_hyperliquid_data(d),
        None => {},
    }
    match book {
        Some(b) => match get_orderbook_metrics(&b.bids, &b.asks) {
            Some(ob) => metrics.merge_orderbook_data(ob),
            None => {},
        },
        None => {},
    }
    metrics
}

/// A snapshot whose ask side is empty gives no order-book figures: the sample holds the
/// feed's figures where the feed had an entry, and every order-book field is absent.
pub proof fn lemma_one_sided_book_leaves_book_fields_absent(
    coin: String,
    timestamp_us: i64,
    feed: Option<HyperliquidMarketData>,
    bids: Seq<RawLevel>,
    asks: Seq<RawLevel>,
)
    requires
        asks.len() == 0,
    ensures
        book_metrics(bids, asks) is None,
        no_book_fields(sample_record(coin, timestamp_us, feed, book_metrics(bids, asks))),
        feed matches Some(d) ==> sample_record(coin, timestamp_us, feed, book_metrics(bids, asks))
            == with_feed(blank_record(coin, timestamp_us), d),
{
}

} // verus!
