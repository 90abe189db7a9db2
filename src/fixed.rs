//! Fixed-point decimal amounts and their parsing from text.

use vstd::prelude::*;

verus! {

/// Number of decimal places carried by a `Fixed` amount.
pub const SCALE_DIGITS: u32 = 10;

/// Units in one whole: a `Fixed` holding `UNITS_PER_ONE` units is the number 1.
pub const UNITS_PER_ONE: i128 = 10_000_000_000;

/// A signed decimal amount with ten fractional digits, held as a count of 10^-10 units.
#[derive(Clone, Copy, Debug, PartialEq, Eq, Structural)]
pub struct Fixed {
    pub units: i128,
}

pub open spec fn pow10(n: nat) -> int
    decreases n,
{
    if n == 0 {
        1
    } else {
        10 * pow10((n - 1) as nat)
    }
}

/// Division that rounds toward zero.
pub open spec fn trunc_div(n: int, d: int) -> int {
    if n >= 0 {
        n / d
    } else {
        -((-n) / d)
    }
}

/// The amount `mantissa / 10^scale`, cut to ten fractional digits (toward zero).
pub open spec fn units_from_parts(mantissa: int, scale: nat) -> int {
    if scale <= 10 {
        mantissa * pow10((10 - scale) as nat)
    } else {
        trunc_div(mantissa, pow10((scale - 10) as nat))
    }
}

/// What the decimal parser makes of a text: its mantissa and scale, or nothing.
pub uninterp spec fn decimal_parts(s: Seq<char>) -> Option<(i128, u32)>;

/// Whether a count of units can be held by a `Fixed`.
pub open spec fn fits(u: int) -> bool {
    i128::MIN <= u <= i128::MAX
}

/// The amount of `u` units where a `Fixed` can hold it, else zero.
pub open spec fn fixed_or_zero(u: int) -> Fixed {
    if fits(u) {
        Fixed { units: u as i128 }
    } else {
        Fixed { units: 0 }
    }
}

/// `a * b` for amounts held as `a` and `b` units, in units, cut toward zero.
pub open spec fn product_units(a: int, b: int) -> int {
    trunc_div(a * b, UNITS_PER_ONE as int)
}

/// The amount a text denotes, where it parses as a decimal and its count of units fits `i128`.
pub open spec fn amount_of(s: Seq<char>) -> Option<Fixed> {
    match decimal_parts(s) {
        Some(p) => {
            let u = units_from_parts(p.0 as int, p.1 as nat);
            if fits(u) {
                Some(Fixed { units: u as i128 })
            } else {
                None
            }
        },
        None => None,
    }
}

impl Fixed {
    pub fn zero() -> (r: Fixed)
        ensures
            r.units == 0,
    {
        Fixed { units: 0 }
    }

    /// `self * other`, cut to ten fractional digits toward zero; `None` where the product
    /// does not fit a `Fixed`.
    pub fn checked_times(self, other: Fixed) -> (r: Option<Fixed>)
        ensures
            fits(product_units(self.units as int, other.units as int)) ==> r == Some(
                Fixed { units: product_units(self.units as int, other.units as int) as i128 },
            ),
            !fits(product_units(self.units as int, other.units as int)) ==> r is None,
    {
        let a = self.units;
        let b = other.units;
        let ma = magnitude(a);
        let mb = magnitude(b);
        let negative = (a < 0) != (b < 0);
        proof {
            assert(ma * mb == if negative { -(a * b) } else { a * b }) by (nonlinear_arith)
                requires
                    ma == if a < 0 { -a } else { a as int },
                    mb == if b < 0 { -b } else { b as int },
                    negative == ((a < 0) != (b < 0)),
            ;
            assert(a * b == 0 ==> !negative || ma * mb == 0);
        }
        match mul_div_one(ma, mb) {
            None => None,
            Some(m) => {
                if negative && a != 0 && b != 0 {
                    proof {
                        assert(a * b < 0) by (nonlinear_arith)
                            requires negative == ((a < 0) != (b < 0)), negative, a != 0, b != 0;
                    }
                    if m <= 0x8000_0000_0000_0000_0000_0000_0000_0000u128 {
                        if m == 0x8000_0000_0000_0000_0000_0000_0000_0000u128 {
                            Some(Fixed { units: i128::MIN })
                        } else {
                            Some(Fixed { units: -(m as i128) })
                        }
                    } else {
                        None
                    }
                } else {
                    proof {
                        assert(a * b >= 0) by (nonlinear_arith)
                            requires !(negative && a != 0 && b != 0), negative == ((a < 0) != (b < 0));
                    }
                    if m <= i128::MAX as u128 {
                        Some(Fixed { units: m as i128 })
                    } else {
                        None
                    }
                }
            },
        }
    }
}

/// `|a|`.
fn magnitude(a: i128) -> (r: u128)
    ensures
        r == if a < 0 { -a } else { a as int },
        r <= 0x8000_0000_0000_0000_0000_0000_0000_0000,
{
    if a < 0 {
        ((-(a + 1)) as u128) + 1
    } else {
        a as u128
    }
}

/// `a * b / UNITS_PER_ONE`, rounded down, for magnitudes of amounts; `None` where it exceeds
/// `u128`.
fn mul_div_one(a: u128, b: u128) -> (r: Option<u128>)
    requires
        a <= 0x8000_0000_0000_0000_0000_0000_0000_0000,
        b <= 0x8000_0000_0000_0000_0000_0000_0000_0000,
    ensures
        match r {
            Some(v) => v == (a * b) / (UNITS_PER_ONE as int),
            None => (a * b) / (UNITS_PER_ONE as int) > u128::MAX,
        },
{
    let one: u128 = 10_000_000_000;
    let ah = a / one;
    let al = a % one;
    let bh = b / one;
    let bl = b % one;
    let ghost d = one as int;
    let ghost low = (al * bl) as int;
    let ghost q = ah * bh * d + ah * bl + al * bh + low / d;
    proof {
        assert(a == ah * d + al && b == bh * d + bl) by {
            vstd::arithmetic::div_mod::lemma_fundamental_div_mod(a as int, d);
            vstd::arithmetic::div_mod::lemma_fundamental_div_mod(b as int, d);
        }
        vstd::arithmetic::div_mod::lemma_fundamental_div_mod(low, d);
        assert(0 <= low % d < d) by {
            vstd::arithmetic::div_mod::lemma_mod_bound(low, d);
        }
        assert(a * b == q * d + low % d) by (nonlinear_arith)
            requires
                a == ah * d + al,
                b == bh * d + bl,
                low == al * bl,
                low == d * (low / d) + low % d,
                q == ah * bh * d + ah * bl + al * bh + low / d,
        ;
        vstd::arithmetic::div_mod::lemma_fundamental_div_mod_converse(a * b, d, q, low % d);
        assert(ah <= 17014118346046923173168730371 && bh <= 17014118346046923173168730371) by {
            vstd::arithmetic::div_mod::lemma_div_is_ordered(
                a as int,
                0x8000_0000_0000_0000_0000_0000_0000_0000int,
                10_000_000_000,
            );
            vstd::arithmetic::div_mod::lemma_div_is_ordered(
                b as int,
                0x8000_0000_0000_0000_0000_0000_0000_0000int,
                10_000_000_000,
            );
            vstd::arithmetic::div_mod::lemma_fundamental_div_mod_converse(
                0x8000_0000_0000_0000_0000_0000_0000_0000int,
                10_000_000_000int,
                17014118346046923173168730371int,
                5884105728int,
            );
        }
        assert(ah * bl <= 17014118346046923173168730371int * 9_999_999_999int) by (nonlinear_arith)
            requires 0 <= ah <= 17014118346046923173168730371int, 0 <= bl <= 9_999_999_999int;
        assert(al * bh <= 17014118346046923173168730371int * 9_999_999_999int) by (nonlinear_arith)
            requires 0 <= bh <= 17014118346046923173168730371int, 0 <= al <= 9_999_999_999int;
        assert(0 <= ah * bl && 0 <= al * bh) by (nonlinear_arith)
            requires ah >= 0, bl >= 0, al >= 0, bh >= 0;
        assert(al * bl < 100_000_000_000_000_000_000) by (nonlinear_arith)
            requires 0 <= al < 10_000_000_000, 0 <= bl < 10_000_000_000;
        assert((al * bl) / 10_000_000_000 < 10_000_000_000) by {
            vstd::arithmetic::div_mod::lemma_div_is_ordered((al * bl) as int, 99_999_999_999_999_999_999, 10_000_000_000);
        }
        assert(0 <= ah * bh * d && 0 <= ah * bh) by (nonlinear_arith)
            requires ah >= 0, bh >= 0, d > 0;
        assert(0 <= low / d) by {
            vstd::arithmetic::div_mod::lemma_div_pos_is_pos(low, d);
        }
    }
    let cross = ah * bl + al * bh;
    let rest = cross + (al * bl) / one;
    let hh = match ah.checked_mul(bh) {
        Some(v) => v,
        None => {
            proof {
                assert(ah * bh * d >= ah * bh) by (nonlinear_arith)
                    requires ah * bh >= 0, d > 0;
            }
            return None;
        },
    };
    let high = match hh.checked_mul(one) {
        Some(v) => v,
        None => return None,
    };
    match high.checked_add(rest) {
        Some(v) => Some(v),
        None => None,
    }
}

/// Relies on rust_decimal's `Decimal::from_str`, read back through `Decimal::mantissa` and
/// `Decimal::scale`: the parsed number is `mantissa / 10^scale`; a decimal's scale is at most
/// 28 and its mantissa is built from 96 bits.
#[verifier::external_body]
fn parse_decimal_parts(s: &str) -> (r: Option<(i128, u32)>)
    ensures
        r == decimal_parts(s@),
        r matches Some(p) ==> p.1 <= 28 && -0x1_0000_0000_0000_0000_0000_0000 < p.0
            < 0x1_0000_0000_0000_0000_0000_0000,
{
    match <rust_decimal::Decimal as std::str::FromStr>::from_str(s) {
        Ok(d) => Some((d.mantissa(), d.scale())),
        Err(_) => None,
    }
}

fn pow10_exec(n: u32) -> (r: i128)
    requires
        n <= 28,
    ensures
        r == pow10(n as nat),
        r > 0,
{
    let mut r: i128 = 1;
    let mut i: u32 = 0;
    while i < n
        invariant
            i <= n <= 28,
            r == pow10(i as nat),
            0 < r <= pow10(i as nat),
        decreases n - i,
    {
        proof {
            lemma_pow10_bound(i as nat);
        }
        r = r * 10;
        i = i + 1;
    }
    r
}

proof fn lemma_pow10_mono(n: nat, m: nat)
    requires
        n <= m,
    ensures
        0 < pow10(n) <= pow10(m),
    decreases m,
{
    if m > n {
        lemma_pow10_mono(n, (m - 1) as nat);
    } else if n > 0 {
        lemma_pow10_mono((n - 1) as nat, (n - 1) as nat);
    }
}

proof fn lemma_pow10_bound(n: nat)
    requires
        n <= 28,
    ensures
        0 < pow10(n) <= 10_000_000_000_000_000_000_000_000_000,
{
    lemma_pow10_mono(n, 28);
    reveal_with_fuel(pow10, 29);
    assert(pow10(28) == 10_000_000_000_000_000_000_000_000_000);
}

/// Parses a decimal text into an amount; `None` where the text is no decimal or its count of
/// ten-digit units does not fit `i128`.
pub fn parse_amount(s: &str) -> (r: Option<Fixed>)
    ensures
        r == amount_of(s@),
{
    match parse_decimal_parts(s) {
        None => None,
        Some(p) => {
            let (m, scale) = p;
            if scale <= 10 {
                let k = pow10_exec(10 - scale);
                match m.checked_mul(k) {
                    Some(u) => Some(Fixed { units: u }),
                    None => None,
                }
            } else {
                let k = pow10_exec(scale - 10);
                let u: i128 = if m >= 0 {
                    m / k
                } else {
                    -((-m) / k)
                };
                proof {
                    assert(-0x1_0000_0000_0000_0000_0000_0000 < u < 0x1_0000_0000_0000_0000_0000_0000)
                        by (nonlinear_arith)
                        requires
                            k > 0,
                            -0x1_0000_0000_0000_0000_0000_0000 < m < 0x1_0000_0000_0000_0000_0000_0000,
                            u == trunc_div(m as int, k as int),
                    ;
                }
                Some(Fixed { units: u })
            }
        },
    }
}

} // verus!
