//! Fixed-point decimal numbers.
//!
//! Scores and weights are decimal fractions. They are held as a whole number
//! of millionths, so that sums are exact and every rounding is a decimal one.

use vstd::prelude::*;
use vstd::string::StringExecFns;

verus! {

/// How many units make up the number one.
pub const SCALE: i64 = 1_000_000;

/// How many units make up one hundredth, the step to which a score is rounded.
pub const CENT: i64 = 10_000;

/// A decimal number with six fractional digits: `units` millionths.
#[derive(Clone, Copy, Debug, PartialEq, Eq, Structural)]
pub struct Decimal {
    pub units: i64,
}

/// The integer nearest to the fraction `n / d`, for a positive `d`. A fraction
/// that lies exactly between two integers goes to the greater one.
pub open spec fn round_div(n: int, d: int) -> int
    recommends
        d > 0,
{
    if 2 * (n % d) >= d {
        n / d + 1
    } else {
        n / d
    }
}

/// The decimal that equals the whole number `n`.
pub open spec fn whole(n: i32) -> Decimal {
    Decimal { units: (n * SCALE) as i64 }
}

/// The decimal of `units` millionths, where that many fit.
pub open spec fn fit(units: int) -> Option<Decimal> {
    if i64::MIN <= units <= i64::MAX {
        Some(Decimal { units: units as i64 })
    } else {
        None
    }
}

/// The integer nearest to the fraction `n / d`, for a `d` other than zero.
pub open spec fn round_ratio(n: int, d: int) -> int
    recommends
        d != 0,
{
    if d > 0 {
        round_div(n, d)
    } else {
        round_div(-n, -d)
    }
}

/// The quotient of `a` millionths by `b` millionths, in millionths, rounded to
/// the nearest one. The divisor is not zero.
pub open spec fn quotient_units(a: int, b: int) -> int
    recommends
        b != 0,
{
    round_ratio(a * SCALE, b)
}

/// The product of `a` millionths and `b` millionths, in millionths, rounded to
/// the nearest one.
pub open spec fn product_units(a: int, b: int) -> int {
    round_div(a * b, SCALE as int)
}

/// `units` millionths rounded to the nearest hundredth, still in millionths.
pub open spec fn cents_units(units: int) -> int {
    round_div(units, CENT as int) * CENT
}

/// `round_div` gives the nearest integer: it lies at most one half above the
/// fraction and less than one half below it.
pub proof fn lemma_round_div_nearest(n: int, d: int)
    requires
        d > 0,
    ensures
        -d < 2 * (round_div(n, d) * d - n) <= d,
{
    let q = n / d;
    let r = n % d;
    assert(n == d * q + r && 0 <= r < d) by {
        vstd::arithmetic::div_mod::lemma_fundamental_div_mod(n, d);
    }
    assert((q + 1) * d == q * d + d) by (nonlinear_arith);
    assert(q * d == d * q) by (nonlinear_arith);
}

/// Adding `k` to a fraction adds `k` to its rounding.
pub proof fn lemma_round_div_shift(n: int, d: int, k: int)
    requires
        d > 0,
    ensures
        round_div(n + k * d, d) == round_div(n, d) + k,
{
    vstd::arithmetic::div_mod::lemma_fundamental_div_mod(n, d);
    let q = n / d;
    let r = n % d;
    assert(n + k * d == d * (q + k) + r) by (nonlinear_arith)
        requires
            n == d * q + r,
    ;
    vstd::arithmetic::div_mod::lemma_fundamental_div_mod_converse(n + k * d, d, q + k, r);
}

/// Adding `k` to a fraction adds `k` to its rounding, whatever the sign of the
/// denominator.
pub proof fn lemma_round_ratio_shift(n: int, d: int, k: int)
    requires
        d != 0,
    ensures
        round_ratio(n + k * d, d) == round_ratio(n, d) + k,
{
    if d > 0 {
        lemma_round_div_shift(n, d, k);
    } else {
        assert(-(n + k * d) == -n + k * (-d)) by (nonlinear_arith);
        lemma_round_div_shift(-n, -d, k);
    }
}

/// Rounding quotient of `n` by a positive `d`.
fn round_div_exec(n: i128, d: i128) -> (q: i128)
    requires
        0 < d <= 0x8000_0000_0000_0000,
        -0x4000_0000_0000_0000_0000_0000_0000_0000 <= n <= 0x4000_0000_0000_0000_0000_0000_0000_0000,
    ensures
        q == round_div(n as int, d as int),
{
    proof {
        lemma_quotient_bound(n as int, d as int);
    }
    let q: i128 = n.checked_div_euclid(d).unwrap();
    let r: i128 = n.checked_rem_euclid(d).unwrap();
    if 2 * r >= d {
        q + 1
    } else {
        q
    }
}

/// A quotient by a positive divisor is no farther from zero than the dividend.
proof fn lemma_quotient_bound(n: int, d: int)
    requires
        d > 0,
    ensures
        n >= 0 ==> 0 <= n / d <= n,
        n < 0 ==> n <= n / d < 0,
{
    vstd::arithmetic::div_mod::lemma_fundamental_div_mod(n, d);
    let q = n / d;
    let r = n % d;
    if n >= 0 {
        assert(q >= 0 && q <= n) by (nonlinear_arith)
            requires
                n == d * q + r,
                0 <= r < d,
                d > 0,
                n >= 0,
        ;
    } else {
        assert(q < 0 && n <= q) by (nonlinear_arith)
            requires
                n == d * q + r,
                0 <= r < d,
                d > 0,
                n < 0,
        ;
    }
}

fn fit_exec(units: i128) -> (r: Option<Decimal>)
    ensures
        r == fit(units as int),
{
    if units < -0x8000_0000_0000_0000 || units > 0x7fff_ffff_ffff_ffff {
        None
    } else {
        Some(Decimal { units: units as i64 })
    }
}

impl Decimal {
    /// The decimal of `units` millionths.
    pub fn new(units: i64) -> (r: Decimal)
        ensures
            r.units == units,
    {
        Decimal { units }
    }

    /// The decimal that equals the whole number `n`.
    pub fn from_int(n: i32) -> (r: Decimal)
        ensures
            r.units == n * SCALE,
            r == whole(n),
    {
        let wide: i64 = n as i64;
        Decimal { units: wide * SCALE }
    }

    /// The sum, unless it is out of range.
    pub fn checked_add(self, rhs: Decimal) -> (r: Option<Decimal>)
        ensures
            r == fit(self.units + rhs.units),
    {
        fit_exec(self.units as i128 + rhs.units as i128)
    }

    /// The difference, unless it is out of range.
    pub fn checked_sub(self, rhs: Decimal) -> (r: Option<Decimal>)
        ensures
            r == fit(self.units - rhs.units),
    {
        fit_exec(self.units as i128 - rhs.units as i128)
    }

    /// The product, rounded to the nearest millionth, unless it is out of
    /// range.
    pub fn checked_mul(self, rhs: Decimal) -> (r: Option<Decimal>)
        ensures
            r == fit(product_units(self.units as int, rhs.units as int)),
    {
        let a: i128 = self.units as i128;
        let b: i128 = rhs.units as i128;
        assert(-0x4000_0000_0000_0000_0000_0000_0000_0000 <= a * b
            <= 0x4000_0000_0000_0000_0000_0000_0000_0000) by (nonlinear_arith)
            requires
                -0x8000_0000_0000_0000 <= a <= 0x8000_0000_0000_0000,
                -0x8000_0000_0000_0000 <= b <= 0x8000_0000_0000_0000,
        ;
        fit_exec(round_div_exec(a * b, SCALE as i128))
    }

    /// The quotient, rounded to the nearest millionth, unless the divisor is
    /// zero or the quotient is out of range.
    pub fn checked_div(self, rhs: Decimal) -> (r: Option<Decimal>)
        ensures
            r == if rhs.units == 0 {
                None
            } else {
                fit(quotient_units(self.units as int, rhs.units as int))
            },
    {
        if rhs.units == 0 {
            return None;
        }
        let a: i128 = self.units as i128;
        let b: i128 = rhs.units as i128;
        assert(-0x4000_0000_0000_0000_0000_0000_0000_0000 <= a * SCALE
            <= 0x4000_0000_0000_0000_0000_0000_0000_0000) by (nonlinear_arith)
            requires
                -0x8000_0000_0000_0000 <= a <= 0x8000_0000_0000_0000,
                SCALE == 1_000_000,
        ;
        let scaled: i128 = a * (SCALE as i128);
        if b > 0 {
            fit_exec(round_div_exec(scaled, b))
        } else {
            assert(-a * SCALE == -(a * SCALE)) by (nonlinear_arith);
            fit_exec(round_div_exec(0 - scaled, 0 - b))
        }
    }

    /// The nearest decimal with two fractional digits, unless it is out of
    /// range.
    pub fn round_to_cents(self) -> (r: Option<Decimal>)
        ensures
            r == fit(cents_units(self.units as int)),
    {
        let q: i128 = round_div_exec(self.units as i128, CENT as i128);
        fit_exec(q * (CENT as i128))
    }
}

/// The numeral of a digit.
pub open spec fn digit_text(digit: int) -> Seq<char>
    recommends
        0 <= digit <= 9,
{
    if digit == 0 {
        "0"@
    } else if digit == 1 {
        "1"@
    } else if digit == 2 {
        "2"@
    } else if digit == 3 {
        "3"@
    } else if digit == 4 {
        "4"@
    } else if digit == 5 {
        "5"@
    } else if digit == 6 {
        "6"@
    } else if digit == 7 {
        "7"@
    } else if digit == 8 {
        "8"@
    } else {
        "9"@
    }
}

/// The decimal numeral of a natural number, without leading zeros.
pub open spec fn natural_text(n: nat) -> Seq<char>
    decreases n,
{
    if n < 10 {
        digit_text(n as int)
    } else {
        natural_text(n / 10) + digit_text((n % 10) as int)
    }
}

/// The last `width` digits of `n`, leading zeros included.
pub open spec fn padded_text(n: nat, width: nat) -> Seq<char>
    decreases width,
{
    if width == 0 {
        Seq::empty()
    } else {
        padded_text(n / 10, (width - 1) as nat) + digit_text((n % 10) as int)
    }
}

/// The digits behind the decimal point of a fraction of `n` parts in ten to
/// the power of `width`: zeros at the end are left out, but one digit always
/// stands.
pub open spec fn fraction_text(n: nat, width: nat) -> Seq<char>
    decreases width,
{
    if width <= 1 {
        digit_text((n % 10) as int)
    } else if n % 10 == 0 {
        fraction_text(n / 10, (width - 1) as nat)
    } else {
        padded_text(n, width)
    }
}

/// A decimal of `units` millionths in words: a minus sign where it is
/// negative, the whole part, a point, and the fractional digits without
/// zeros at the end, of which at least one stands (`7.5`, `2.0`, `-0.25`).
pub open spec fn decimal_text(units: int) -> Seq<char> {
    let magnitude = if units < 0 {
        -units
    } else {
        units
    };
    let sign = if units < 0 {
        "-"@
    } else {
        Seq::empty()
    };
    sign + natural_text((magnitude / SCALE as int) as nat) + "."@ + fraction_text(
        (magnitude % SCALE as int) as nat,
        6,
    )
}

fn digit_str(digit: u64) -> (r: &'static str)
    requires
        digit <= 9,
    ensures
        r@ == digit_text(digit as int),
{
    if digit == 0 {
        "0"
    } else if digit == 1 {
        "1"
    } else if digit == 2 {
        "2"
    } else if digit == 3 {
        "3"
    } else if digit == 4 {
        "4"
    } else if digit == 5 {
        "5"
    } else if digit == 6 {
        "6"
    } else if digit == 7 {
        "7"
    } else if digit == 8 {
        "8"
    } else {
        "9"
    }
}

fn push_natural(n: u64, text: &mut String)
    ensures
        final(text)@ == old(text)@ + natural_text(n as nat),
    decreases n,
{
    if n >= 10 {
        push_natural(n / 10, text);
    }
    text.append(digit_str(n % 10));
}

fn push_padded(n: u64, width: u32, text: &mut String)
    ensures
        final(text)@ == old(text)@ + padded_text(n as nat, width as nat),
    decreases width,
{
    if width > 0 {
        push_padded(n / 10, width - 1, text);
        text.append(digit_str(n % 10));
    }
}

fn push_fraction(n: u64, width: u32, text: &mut String)
    ensures
        final(text)@ == old(text)@ + fraction_text(n as nat, width as nat),
    decreases width,
{
    if width <= 1 {
        text.append(digit_str(n % 10));
    } else if n % 10 == 0 {
        push_fraction(n / 10, width - 1, text);
    } else {
        push_padded(n, width, text);
    }
}

impl Decimal {
    /// The decimal in words, as in `7.5`, `2.0` or `-0.25`.
    pub fn to_text(&self) -> (r: String)
        ensures
            r@ == decimal_text(self.units as int),
    {
        let mut text: String = String::new();
        let magnitude: u64 = if self.units < 0 {
            text.append("-");
            (0 - self.units as i128) as u64
        } else {
            self.units as u64
        };
        push_natural(magnitude / (SCALE as u64), &mut text);
        text.append(".");
        push_fraction(magnitude % (SCALE as u64), 6, &mut text);
        text
    }
}

} // verus!
