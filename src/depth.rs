//! Liquidity depth of order-book ladders within price bands around the mid price.

use vstd::prelude::*;
use crate::fixed::{product_units, Fixed, UNITS_PER_ONE};

verus! {

/// One resting price level of an order book: a limit price and the size resting there.
#[derive(Clone, Copy, Debug, PartialEq, Eq, Structural)]
pub struct Level {
    pub price: Fixed,
    pub size: Fixed,
}

/// Notional liquidity within the 5%, 10% and 25% bands around the mid price.
#[derive(Clone, Copy, Debug, PartialEq, Eq, Structural)]
pub struct Depths {
    pub bid_5pct: Fixed,
    pub ask_5pct: Fixed,
    pub bid_10pct: Fixed,
    pub ask_10pct: Fixed,
    pub bid_25pct: Fixed,
    pub ask_25pct: Fixed,
}

/// A level as an order book holds it: neither price nor size is negative.
pub open spec fn level_ok(l: Level) -> bool {
    0 <= l.price.units && 0 <= l.size.units
}

/// `price * size` of a level, in units, cut to ten fractional digits.
pub open spec fn notional(l: Level) -> int {
    (l.price.units * l.size.units) / (UNITS_PER_ONE as int)
}

/// Sum of the notionals of all levels of a ladder.
pub open spec fn ladder_total(ls: Seq<Level>) -> int
    decreases ls.len(),
{
    if ls.len() == 0 {
        0
    } else {
        ladder_total(ls.drop_last()) + notional(ls.last())
    }
}

/// A ladder of levels as an order book holds them, whose whole notional fits an amount.
pub open spec fn ladder_ok(ls: Seq<Level>) -> bool {
    &&& forall|i: int| 0 <= i < ls.len() ==> level_ok(#[trigger] ls[i])
    &&& ladder_total(ls) <= i128::MAX
}

/// `price >= mid * (1 - pct/100)`.
pub open spec fn in_bid_band(price: int, mid: int, pct: int) -> bool {
    price * 100 >= mid * (100 - pct)
}

/// `price <= mid * (1 + pct/100)`.
pub open spec fn in_ask_band(price: int, mid: int, pct: int) -> bool {
    price * 100 <= mid * (100 + pct)
}

/// Sum of the notionals of the bid levels inside the band.
pub open spec fn bid_depth(ls: Seq<Level>, mid: int, pct: int) -> int
    decreases ls.len(),
{
    if ls.len() == 0 {
        0
    } else {
        bid_depth(ls.drop_last(), mid, pct) + if in_bid_band(ls.last().price.units as int, mid, pct) {
            notional(ls.last())
        } else {
            0
        }
    }
}

/// Sum of the notionals of the ask levels inside the band.
pub open spec fn ask_depth(ls: Seq<Level>, mid: int, pct: int) -> int
    decreases ls.len(),
{
    if ls.len() == 0 {
        0
    } else {
        ask_depth(ls.drop_last(), mid, pct) + if in_ask_band(ls.last().price.units as int, mid, pct) {
            notional(ls.last())
        } else {
            0
        }
    }
}

/// The depths that the ladders give around `mid`.
pub open spec fn depths_of(bids: Seq<Level>, asks: Seq<Level>, mid: Fixed, d: Depths) -> bool {
    &&& d.bid_5pct.units == bid_depth(bids, mid.units as int, 5)
    &&& d.ask_5pct.units == ask_depth(asks, mid.units as int, 5)
    &&& d.bid_10pct.units == bid_depth(bids, mid.units as int, 10)
    &&& d.ask_10pct.units == ask_depth(asks, mid.units as int, 10)
    &&& d.bid_25pct.units == bid_depth(bids, mid.units as int, 25)
    &&& d.ask_25pct.units == ask_depth(asks, mid.units as int, 25)
}

pub proof fn lemma_notional_nonneg(l: Level)
    requires
        level_ok(l),
    ensures
        0 <= notional(l),
        notional(l) == product_units(l.price.units as int, l.size.units as int),
{
    let p = l.price.units as int;
    let s = l.size.units as int;
    assert(0 <= p * s) by (nonlinear_arith)
        requires
            0 <= p,
            0 <= s,
    ;
}

/// Totals of prefixes never exceed the total of the whole ladder, and the depth of a band
/// lies between zero and the total.
pub proof fn lemma_totals(ls: Seq<Level>, i: int, mid: int, pct: int)
    requires
        forall|j: int| 0 <= j < ls.len() ==> level_ok(#[trigger] ls[j]),
        0 <= i <= ls.len(),
    ensures
        0 <= ladder_total(ls.subrange(0, i)) <= ladder_total(ls),
        0 <= bid_depth(ls, mid, pct) <= ladder_total(ls),
        0 <= ask_depth(ls, mid, pct) <= ladder_total(ls),
    decreases ls.len(),
{
    if ls.len() == 0 {
        assert(ls.subrange(0, i) =~= ls);
    } else {
        let init = ls.drop_last();
        assert forall|j: int| 0 <= j < init.len() implies level_ok(#[trigger] init[j]) by {
            assert(init[j] == ls[j]);
        }
        lemma_notional_nonneg(ls.last());
        if i == ls.len() {
            assert(ls.subrange(0, i) =~= ls);
            lemma_totals(init, 0, mid, pct);
        } else {
            lemma_totals(init, i, mid, pct);
            assert(init.subrange(0, i) =~= ls.subrange(0, i));
        }
    }
}

/// Whether `price` lies in the band of `pct` percent below (`bid_side`) or above `mid`,
/// decided without overflow.
fn in_band(price: i128, mid: i128, pct: i128, bid_side: bool) -> (r: bool)
    requires
        price >= 0,
        0 <= pct <= 100,
    ensures
        bid_side ==> r == in_bid_band(price as int, mid as int, pct as int),
        !bid_side ==> r == in_ask_band(price as int, mid as int, pct as int),
{
    let k: i128 = if bid_side {
        100 - pct
    } else {
        100 + pct
    };
    if mid < 0 {
        proof {
            assert(mid * k <= 0) by (nonlinear_arith)
                requires mid < 0, k >= 0;
            assert(!bid_side ==> mid * k < 0) by (nonlinear_arith)
                requires mid < 0, !bid_side ==> k >= 100;
        }
        return bid_side;
    }
    let m = mid as u128;
    let kk = k as u128;
    let mq = m / 100;
    let mr = m % 100;
    proof {
        vstd::arithmetic::div_mod::lemma_fundamental_div_mod(m as int, 100);
        assert(mq * kk <= u128::MAX) by (nonlinear_arith)
            requires mq * 100 <= m, m <= i128::MAX, 0 <= kk <= 200, mq >= 0;
        assert(0 <= mr * kk < 20000) by (nonlinear_arith)
            requires 0 <= mr < 100, 0 <= kk <= 200;
    }
    let a = mq * kk;
    let b = mr * kk;
    let p = price as u128;
    proof {
        assert(mid * k == 100 * a + b) by (nonlinear_arith)
            requires m == 100 * mq + mr, a == mq * kk, b == mr * kk, m == mid, kk == k;
    }
    if bid_side {
        let c = (b + 99) / 100;
        proof {
            vstd::arithmetic::div_mod::lemma_fundamental_div_mod((b + 99) as int, 100);
            assert((p >= a && p - a >= c) == (100 * p >= 100 * a + b)) by (nonlinear_arith)
                requires b + 99 == 100 * c + (b + 99) % 100, 0 <= (b + 99) % 100 < 100, 0 <= b;
        }
        p >= a && p - a >= c
    } else {
        let c = b / 100;
        proof {
            vstd::arithmetic::div_mod::lemma_fundamental_div_mod(b as int, 100);
            assert((p <= a || p - a <= c) == (100 * p <= 100 * a + b)) by (nonlinear_arith)
                requires b == 100 * c + b % 100, 0 <= b % 100 < 100, 0 <= b;
        }
        p <= a || p - a <= c
    }
}

/// Depth of one side within one band: `bid_side` selects levels at or above
/// `mid * (1 - pct/100)`, otherwise levels at or below `mid * (1 + pct/100)`.
fn side_depth(levels: &Vec<Level>, mid: Fixed, pct: i128, bid_side: bool) -> (r: i128)
    requires
        ladder_ok(levels@),
        0 <= pct <= 100,
    ensures
        bid_side ==> r == bid_depth(levels@, mid.units as int, pct as int),
        !bid_side ==> r == ask_depth(levels@, mid.units as int, pct as int),
        0 <= r <= ladder_total(levels@),
{
    let ghost ls = levels@;
    let mut acc: i128 = 0;
    let mut i: usize = 0;
    while i < levels.len()
        invariant
            ls == levels@,
            ladder_ok(ls),
            i <= ls.len(),
            0 <= pct <= 100,
            bid_side ==> acc == bid_depth(ls.subrange(0, i as int), mid.units as int, pct as int),
            !bid_side ==> acc == ask_depth(ls.subrange(0, i as int), mid.units as int, pct as int),
            0 <= acc <= ladder_total(ls.subrange(0, i as int)),
        decreases ls.len() - i,
    {
        let l = &levels[i];
        assert(level_ok(*l));
        let ghost pre = ls.subrange(0, i as int);
        let ghost next = ls.subrange(0, i as int + 1);
        assert(next.drop_last() =~= pre);
        assert(next.last() == *l);
        proof {
            lemma_totals(ls, i as int + 1, mid.units as int, pct as int);
            lemma_notional_nonneg(*l);
        }
        if in_band(l.price.units, mid.units, pct, bid_side) {
            let n = match l.price.checked_times(l.size) {
                Some(v) => v.units,
                None => {
                    proof {
                        assert(false);
                    }
                    0
                },
            };
            acc = acc + n;
        }
        i = i + 1;
    }
    assert(ls.subrange(0, ls.len() as int) =~= ls);
    acc
}

/// Notional liquidity (`price * size` summed) of the bid levels priced at or above
/// `mid * (1 - p)` and of the ask levels priced at or below `mid * (1 + p)`, for each band
/// `p` of 5%, 10% and 25%. The ladders need not be sorted; empty ladders give zero depth.
pub fn calculate_liquidity_depth(bids: &Vec<Level>, asks: &Vec<Level>, mid_price: Fixed) -> (r:
    Depths)
    requires
        ladder_ok(bids@),
        ladder_ok(asks@),
    ensures
        depths_of(bids@, asks@, mid_price, r),
        0 <= r.bid_5pct.units <= ladder_total(bids@) && 0 <= r.ask_5pct.units <= ladder_total(asks@),
        0 <= r.bid_10pct.units <= ladder_total(bids@) && 0 <= r.ask_10pct.units <= ladder_total(asks@),
        0 <= r.bid_25pct.units <= ladder_total(bids@) && 0 <= r.ask_25pct.units <= ladder_total(asks@),
{
    Depths {
        bid_5pct: Fixed { units: side_depth(bids, mid_price, 5, true) },
        ask_5pct: Fixed { units: side_depth(asks, mid_price, 5, false) },
        bid_10pct: Fixed { units: side_depth(bids, mid_price, 10, true) },
        ask_10pct: Fixed { units: side_depth(asks, mid_price, 10, false) },
        bid_25pct: Fixed { units: side_depth(bids, mid_price, 25, true) },
        ask_25pct: Fixed { units: side_depth(asks, mid_price, 25, false) },
    }
}

proof fn lemma_bid_depth_mono(ls: Seq<Level>, mid: int, lo: int, hi: int)
    requires
        forall|i: int| 0 <= i < ls.len() ==> level_ok(#[trigger] ls[i]),
        mid >= 0,
        lo <= hi,
    ensures
        bid_depth(ls, mid, lo) <= bid_depth(ls, mid, hi),
    decreases ls.len(),
{
    if ls.len() > 0 {
        let init = ls.drop_last();
        assert forall|i: int| 0 <= i < init.len() implies level_ok(#[trigger] init[i]) by {
            assert(init[i] == ls[i]);
        }
        lemma_bid_depth_mono(init, mid, lo, hi);
        lemma_notional_nonneg(ls.last());
        assert(mid * (100 - hi) <= mid * (100 - lo)) by (nonlinear_arith)
            requires
                mid >= 0,
                lo <= hi,
        ;
    }
}

proof fn lemma_ask_depth_mono(ls: Seq<Level>, mid: int, lo: int, hi: int)
    requires
        forall|i: int| 0 <= i < ls.len() ==> level_ok(#[trigger] ls[i]),
        mid >= 0,
        lo <= hi,
    ensures
        ask_depth(ls, mid, lo) <= ask_depth(ls, mid, hi),
    decreases ls.len(),
{
    if ls.len() > 0 {
        let init = ls.drop_last();
        assert forall|i: int| 0 <= i < init.len() implies level_ok(#[trigger] init[i]) by {
            assert(init[i] == ls[i]);
        }
        lemma_ask_depth_mono(init, mid, lo, hi);
        lemma_notional_nonneg(ls.last());
        assert(mid * (100 + lo) <= mid * (100 + hi)) by (nonlinear_arith)
            requires
                mid >= 0,
                lo <= hi,
        ;
    }
}

/// With a positive mid price, widening the band never lowers the depth on either side:
/// the 5% depth is at most the 10% depth, which is at most the 25% depth.
pub proof fn lemma_depth_widens_with_band(bids: Seq<Level>, asks: Seq<Level>, mid_price: Fixed, d: Depths)
    requires
        ladder_ok(bids),
        ladder_ok(asks),
        mid_price.units > 0,
        depths_of(bids, asks, mid_price, d),
    ensures
        d.bid_5pct.units <= d.bid_10pct.units <= d.bid_25pct.units,
        d.ask_5pct.units <= d.ask_10pct.units <= d.ask_25pct.units,
{
    lemma_bid_depth_mono(bids, mid_price.units as int, 5, 10);
    lemma_bid_depth_mono(bids, mid_price.units as int, 10, 25);
    lemma_ask_depth_mono(asks, mid_price.units as int, 5, 10);
    lemma_ask_depth_mono(asks, mid_price.units as int, 10, 25);
}

/// Empty ladders have zero depth in every band, whatever the mid price.
pub proof fn lemma_empty_ladders_zero_depth(mid_price: Fixed, d: Depths)
    requires
        depths_of(Seq::empty(), Seq::empty(), mid_price, d),
    ensures
        d.bid_5pct.units == 0 && d.ask_5pct.units == 0,
        d.bid_10pct.units == 0 && d.ask_10pct.units == 0,
        d.bid_25pct.units == 0 && d.ask_25pct.units == 0,
{
}

} // verus!
