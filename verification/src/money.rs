//! Money: an exact decimal amount with four fractional digits.
//!
//! An amount is held as a whole number of ten-thousandths, so adding and
//! subtracting never round. The arithmetic, the reading of decimal text and
//! the rendering are done by `rust_decimal`, through the functions of
//! [`crate::decimal`].

use crate::decimal::{
    decimal_add, decimal_parse, decimal_sub, decimal_text, decimal_to_text, ends_in_fraction,
    decimal_from_text, representable, MAX_MANTISSA, MAX_SCALE,
};
use std::cmp::Ordering;
use vstd::prelude::*;

verus! {

/// Number of fractional digits of every amount.
pub const SCALE: u32 = 4;

/// Ten to the power `n`.
pub open spec fn pow10(n: nat) -> int
    decreases n,
{
    if n == 0 {
        1
    } else {
        10 * pow10((n - 1) as nat)
    }
}

/// `m / p` rounded to the nearest whole number, a half going away from zero.
pub open spec fn round_half_away(m: int, p: int) -> int
    recommends
        p > 0,
{
    if m >= 0 {
        (m + p / 2) / p
    } else {
        -((-m + p / 2) / p)
    }
}

/// The ten-thousandths that stand for the decimal `mantissa / 10^scale`:
/// exact where the decimal has at most four fractional digits, rounded to the
/// fourth digit where it has more, and `None` where mantissa and scale are no
/// decimal or the amount leaves the range.
pub open spec fn units_of_parts(mantissa: int, scale: nat) -> Option<int> {
    if !representable(mantissa, scale) {
        None
    } else {
        let units = if scale <= SCALE {
            mantissa * pow10((SCALE - scale) as nat)
        } else {
            round_half_away(mantissa, pow10((scale - SCALE) as nat))
        };
        if -MAX_MANTISSA <= units <= MAX_MANTISSA {
            Some(units)
        } else {
            None
        }
    }
}

/// The ten-thousandths that a decimal text stands for, or `None` where
/// `rust_decimal` rejects the text or the amount leaves the range.
pub open spec fn units_of_text(text: Seq<char>) -> Option<int> {
    match decimal_parse(text) {
        Some((mantissa, scale)) => units_of_parts(mantissa as int, scale as nat),
        None => None,
    }
}

/// Whether `r` holds the amount `units`, or neither holds anything.
pub open spec fn holds(r: Option<Money>, units: Option<int>) -> bool {
    match r {
        Some(m) => units == Some(m@),
        None => units is None,
    }
}

/// The powers of ten are positive and grow with the exponent.
proof fn lemma_pow10_increases(a: nat, b: nat)
    requires
        a <= b,
    ensures
        0 < pow10(a) <= pow10(b),
    decreases b,
{
    if b == 0 {
    } else if a == b {
        lemma_pow10_increases(0, (b - 1) as nat);
    } else {
        lemma_pow10_increases(a, (b - 1) as nat);
    }
}

/// Ten to the power `n`, for the powers that a decimal's scale can ask for.
fn power_of_ten(n: u32) -> (p: i128)
    requires
        n <= MAX_SCALE,
    ensures
        p == pow10(n as nat),
        1 <= p <= 10_000_000_000_000_000_000_000_000_000,
{
    let mut p: i128 = 1;
    let mut i: u32 = 0;
    proof {
        reveal_with_fuel(pow10, 30);
        assert(pow10(28) == 10_000_000_000_000_000_000_000_000_000);
    }
    while i < n
        invariant
            i <= n <= MAX_SCALE,
            p == pow10(i as nat),
            pow10(28) == 10_000_000_000_000_000_000_000_000_000,
        decreases n - i,
    {
        proof {
            lemma_pow10_increases((i + 1) as nat, 28);
        }
        p = p * 10;
        i = i + 1;
    }
    proof {
        lemma_pow10_increases(n as nat, 28);
    }
    p
}

/// An exact amount of money, counted in ten-thousandths of the currency unit.
#[derive(Clone, Copy, Debug, PartialEq, Eq, Structural)]
pub struct Money {
    units: i128,
}

impl View for Money {
    type V = int;

    /// The amount in ten-thousandths.
    closed spec fn view(&self) -> int {
        self.units as int
    }
}

impl Money {
    /// Every amount fits the 96 bits of a decimal's mantissa.
    #[verifier::type_invariant]
    pub open spec fn in_range(self) -> bool {
        -MAX_MANTISSA <= self@ <= MAX_MANTISSA
    }

    /// No money.
    pub fn zero() -> (r: Money)
        ensures
            r@ == 0,
    {
        Money { units: 0 }
    }

    /// The amount of `units` ten-thousandths, where it is in range.
    pub fn from_units(units: i128) -> (r: Option<Money>)
        ensures
            holds(r, if -MAX_MANTISSA <= units <= MAX_MANTISSA { Some(units as int) } else { None }),
    {
        if -MAX_MANTISSA <= units && units <= MAX_MANTISSA {
            Some(Money { units })
        } else {
            None
        }
    }

    /// The amount in ten-thousandths.
    pub fn units(&self) -> (r: i128)
        ensures
            r == self@,
            self.in_range(),
    {
        proof {
            use_type_invariant(self);
        }
        self.units
    }

    /// The amount that the decimal `mantissa / 10^scale` stands for.
    pub fn from_parts(mantissa: i128, scale: u32) -> (r: Option<Money>)
        ensures
            holds(r, units_of_parts(mantissa as int, scale as nat)),
    {
        if scale > MAX_SCALE || mantissa < -MAX_MANTISSA || mantissa > MAX_MANTISSA {
            return None;
        }
        if scale <= SCALE {
            let p: i128 = power_of_ten(SCALE - scale);
            proof {
                lemma_pow10_increases((SCALE - scale) as nat, 4);
                reveal_with_fuel(pow10, 5);
                assert(-MAX_MANTISSA * 10000 <= mantissa * p <= MAX_MANTISSA * 10000)
                    by (nonlinear_arith)
                    requires
                        -MAX_MANTISSA <= mantissa <= MAX_MANTISSA,
                        1 <= p <= 10000,
                ;
            }
            Money::from_units(mantissa * p)
        } else {
            let p: i128 = power_of_ten(scale - SCALE);
            if mantissa >= 0 {
                Money::from_units((mantissa + p / 2) / p)
            } else {
                Money::from_units(-((-mantissa + p / 2) / p))
            }
        }
    }

    /// The amount that a decimal text stands for, as `rust_decimal` reads it.
    pub fn parse(text: &str) -> (r: Option<Money>)
        ensures
            holds(r, units_of_text(text@)),
    {
        match decimal_from_text(text) {
            Some((mantissa, scale)) => Money::from_parts(mantissa, scale),
            None => None,
        }
    }

    /// The sum of two amounts.
    pub fn plus(self, other: Money) -> (r: Money)
        requires
            -MAX_MANTISSA <= self@ + other@ <= MAX_MANTISSA,
        ensures
            r@ == self@ + other@,
    {
        proof {
            use_type_invariant(self);
            use_type_invariant(other);
        }
        Money { units: decimal_add(self.units, other.units, SCALE) }
    }

    /// The difference of two amounts.
    pub fn minus(self, other: Money) -> (r: Money)
        requires
            -MAX_MANTISSA <= self@ - other@ <= MAX_MANTISSA,
        ensures
            r@ == self@ - other@,
    {
        proof {
            use_type_invariant(self);
            use_type_invariant(other);
        }
        Money { units: decimal_sub(self.units, other.units, SCALE) }
    }

    /// The larger of two amounts.
    pub fn max(self, other: Money) -> (r: Money)
        ensures
            r@ == if self@ >= other@ { self@ } else { other@ },
    {
        if self.units >= other.units {
            self
        } else {
            other
        }
    }

    /// How this amount stands to another.
    pub fn compare_to(&self, other: &Money) -> (r: Ordering)
        ensures
            r is Less <==> self@ < other@,
            r is Equal <==> self@ == other@,
            r is Greater <==> self@ > other@,
    {
        if self.units < other.units {
            Ordering::Less
        } else if self.units == other.units {
            Ordering::Equal
        } else {
            Ordering::Greater
        }
    }

    /// The amount as text, with exactly four digits after the point.
    pub fn to_display_string(&self) -> (r: String)
        ensures
            r@ == decimal_text(self@, SCALE as nat),
            ends_in_fraction(r@, SCALE as nat),
    {
        proof {
            use_type_invariant(self);
        }
        decimal_to_text(self.units, SCALE)
    }
}

} // verus!
