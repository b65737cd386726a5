//! Exact decimal numbers for prices and quantities.
//!
//! A `Decimal` is a fixed-point number: the exact value `mantissa * 10^-scale`,
//! stored as an integer count of `10^-MAX_SCALE` units. Two decimals written
//! with different scales but the same value (`1.5` and `1.50`) are equal, and
//! equality and ordering are exact — there is no rounding anywhere.

use vstd::prelude::*;

verus! {

/// The number of decimal places every `Decimal` is held at. Chosen so that
/// any `i64` mantissa scaled up to this many places still fits in an `i128`
/// without overflow.
pub const MAX_SCALE: u32 = 19;

/// `10^e`, the factor between two scales that differ by `e` places.
pub open spec fn pow10(e: nat) -> nat
    decreases e,
{
    if e == 0 {
        1
    } else {
        10 * pow10((e - 1) as nat)
    }
}

/// An exact decimal number, stored as a signed count of `10^-MAX_SCALE`
/// units. Every unit count is a valid decimal, so two decimals are equal
/// exactly when their values are.
#[derive(Clone, Copy, PartialEq, Eq, Structural, Debug, Hash)]
pub struct Decimal {
    pub units: i128,
}

impl View for Decimal {
    type V = int;

    /// The value of the decimal, in units of `10^-MAX_SCALE`.
    open spec fn view(&self) -> int {
        self.units as int
    }
}

proof fn lemma_pow10_19()
    ensures
        pow10(19) == 10_000_000_000_000_000_000,
{
    reveal_with_fuel(pow10, 20);
}

proof fn lemma_pow10_increases(e1: nat, e2: nat)
    requires
        e1 <= e2,
    ensures
        pow10(e1) <= pow10(e2),
    decreases e2,
{
    if e1 < e2 {
        lemma_pow10_increases(e1, (e2 - 1) as nat);
        assert(pow10(e2) == 10 * pow10((e2 - 1) as nat));
    }
}

impl Decimal {
    /// The exact value `mantissa * 10^-scale`, as in "price 101, two decimal
    /// places". The scale must not exceed `MAX_SCALE`.
    pub fn new(mantissa: i64, scale: u32) -> (r: Decimal)
        requires
            scale <= MAX_SCALE,
        ensures
            r@ == mantissa * pow10((MAX_SCALE - scale) as nat),
    {
        let e: u32 = MAX_SCALE - scale;
        let mut factor: i128 = 1;
        let mut k: u32 = 0;
        proof {
            lemma_pow10_19();
        }
        while k < e
            invariant
                k <= e <= MAX_SCALE,
                factor == pow10(k as nat),
                pow10(19) == 10_000_000_000_000_000_000,
            decreases e - k,
        {
            proof {
                lemma_pow10_increases((k + 1) as nat, 19);
            }
            factor = factor * 10;
            k = k + 1;
        }
        proof {
            lemma_pow10_increases(e as nat, 19);
            lemma_pow10_increases(0, e as nat);
            assert(pow10(0) == 1);
            assert(i64::MIN * pow10(e as nat) >= i64::MIN * pow10(19)) by (nonlinear_arith)
                requires
                    0 < pow10(e as nat) <= pow10(19),
            ;
            assert(i64::MAX * pow10(e as nat) <= i64::MAX * pow10(19)) by (nonlinear_arith)
                requires
                    0 < pow10(e as nat) <= pow10(19),
            ;
            assert(mantissa * pow10(e as nat) <= i64::MAX * pow10(e as nat)) by (nonlinear_arith)
                requires
                    mantissa <= i64::MAX,
                    0 < pow10(e as nat),
            ;
            assert(mantissa * pow10(e as nat) >= i64::MIN * pow10(e as nat)) by (nonlinear_arith)
                requires
                    mantissa >= i64::MIN,
                    0 < pow10(e as nat),
            ;
        }
        Decimal { units: (mantissa as i128) * factor }
    }

    /// `new`, with the scale checked instead of required: `None` exactly when
    /// the scale is too fine to represent.
    pub fn try_new(mantissa: i64, scale: u32) -> (r: Option<Decimal>)
        ensures
            scale <= MAX_SCALE ==> (r matches Some(d) && d@ == mantissa * pow10(
                (MAX_SCALE - scale) as nat,
            )),
            scale > MAX_SCALE ==> r is None,
    {
        if scale <= MAX_SCALE {
            Some(Decimal::new(mantissa, scale))
        } else {
            None
        }
    }

    /// Strictly greater than, on exact values.
    pub fn gt(&self, other: &Decimal) -> (r: bool)
        ensures
            r == (self@ > other@),
    {
        self.units > other.units
    }

    /// Strictly positive.
    pub fn is_positive(&self) -> (r: bool)
        ensures
            r == (self@ > 0),
    {
        self.units > 0
    }

    /// Strictly negative.
    pub fn is_negative(&self) -> (r: bool)
        ensures
            r == (self@ < 0),
    {
        self.units < 0
    }
}

} // verus!
