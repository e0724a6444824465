//! The boundary to `rust_decimal`: nothing in this file is proved. Each
//! function makes one call into the crate on plain integers and hands plain
//! values back; its contract is taken from the crate's source.

use rust_decimal::Decimal;
use std::str::FromStr;
use vstd::prelude::*;

verus! {

/// Largest magnitude of a decimal's mantissa: 96 bits, all set.
pub const MAX_MANTISSA: i128 = 79_228_162_514_264_337_593_543_950_335;

/// Largest number of fractional digits that a decimal can carry.
pub const MAX_SCALE: u32 = 28;

/// Whether `mantissa` and `scale` describe a decimal that the crate can hold.
pub open spec fn representable(mantissa: int, scale: nat) -> bool {
    -MAX_MANTISSA <= mantissa <= MAX_MANTISSA && scale <= MAX_SCALE
}

/// What `Decimal::from_str` makes of a text: the mantissa and the scale of the
/// decimal it reads, or `None` where it rejects the text.
pub uninterp spec fn decimal_parse(text: Seq<char>) -> Option<(i128, u32)>;

/// The text that `Decimal`'s `Display` gives for the decimal with this
/// mantissa and scale.
pub uninterp spec fn decimal_text(mantissa: int, scale: nat) -> Seq<char>;

/// Whether `text` ends in a decimal point followed by exactly `digits` digits,
/// with at least one character before the point.
pub open spec fn ends_in_fraction(text: Seq<char>, digits: nat) -> bool {
    &&& text.len() >= digits + 2
    &&& text[text.len() - digits - 1] == '.'
    &&& forall|i: int| text.len() - digits <= i < text.len() ==> '0' <= #[trigger] text[i] <= '9'
}

/// `Decimal::from_str`, with the decimal it returns taken apart by
/// `Decimal::mantissa` and `Decimal::scale`. Claimed: the result depends on
/// the text alone.
#[verifier::external_body]
pub(crate) fn decimal_from_text(text: &str) -> (r: Option<(i128, u32)>)
    ensures
        r == decimal_parse(text@),
{
    match Decimal::from_str(text) {
        Ok(d) => Some((d.mantissa(), d.scale())),
        Err(_) => None,
    }
}

/// `Decimal`'s `+` on two decimals of one scale, built by
/// `Decimal::from_i128_with_scale`, with `Decimal::mantissa` of the result.
/// Claimed: where the exact sum of the mantissas still fits in 96 bits, the
/// crate adds them and keeps the scale, so the mantissa of the result is that
/// sum. The crate panics or rounds only where the sum does not fit.
#[verifier::external_body]
pub(crate) fn decimal_add(a: i128, b: i128, scale: u32) -> (r: i128)
    requires
        representable(a as int, scale as nat),
        representable(b as int, scale as nat),
        representable(a + b, scale as nat),
    ensures
        r == a + b,
{
    (Decimal::from_i128_with_scale(a, scale) + Decimal::from_i128_with_scale(b, scale)).mantissa()
}

/// `Decimal`'s `-` on two decimals of one scale, built by
/// `Decimal::from_i128_with_scale`, with `Decimal::mantissa` of the result.
/// Claimed: where the exact difference of the mantissas still fits in 96
/// bits, the crate subtracts them and keeps the scale, so the mantissa of the
/// result is that difference. The crate panics or rounds only where the
/// difference does not fit.
#[verifier::external_body]
pub(crate) fn decimal_sub(a: i128, b: i128, scale: u32) -> (r: i128)
    requires
        representable(a as int, scale as nat),
        representable(b as int, scale as nat),
        representable(a - b, scale as nat),
    ensures
        r == a - b,
{
    (Decimal::from_i128_with_scale(a, scale) - Decimal::from_i128_with_scale(b, scale)).mantissa()
}

/// `Decimal`'s `Display`, through `to_string`, on the decimal that
/// `Decimal::from_i128_with_scale` builds. Claimed: the text depends on
/// mantissa and scale alone, and with a scale of at least one it ends in a
/// point and exactly `scale` digits, after at least one digit for the whole
/// part.
#[verifier::external_body]
pub(crate) fn decimal_to_text(mantissa: i128, scale: u32) -> (r: String)
    requires
        representable(mantissa as int, scale as nat),
    ensures
        r@ == decimal_text(mantissa as int, scale as nat),
        scale >= 1 ==> ends_in_fraction(r@, scale as nat),
{
    Decimal::from_i128_with_scale(mantissa, scale).to_string()
}

} // verus!
