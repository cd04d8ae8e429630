//! Raw token amounts as the chain reports them: unsigned 256-bit integers.

use crate::decimal::{parsed_decimal, Decimal, DecimalModel};
use vstd::prelude::*;

verus! {

/// The number that four 64-bit limbs spell, least significant first.
pub open spec fn limbs_value(limbs: Seq<u64>) -> nat {
    (limbs[0] as nat) + (limbs[1] as nat) * 0x1_0000_0000_0000_0000nat + (limbs[2] as nat)
        * 0x1_0000_0000_0000_0000_0000_0000_0000_0000nat + (limbs[3] as nat)
        * 0x1_0000_0000_0000_0000_0000_0000_0000_0000_0000_0000_0000_0000nat
}

/// The largest raw amount: 2^256 - 1.
pub open spec fn max_units() -> nat {
    0xffff_ffff_ffff_ffff_ffff_ffff_ffff_ffff_ffff_ffff_ffff_ffff_ffff_ffff_ffff_ffffnat
}

pub open spec fn digit_char(d: nat) -> char {
    ((d + 0x30) as u8) as char
}

/// `n` written in base ten, without leading zeros.
pub open spec fn decimal_digits(n: nat) -> Seq<char>
    decreases n,
{
    if n < 10 {
        seq![digit_char(n)]
    } else {
        decimal_digits(n / 10).push(digit_char(n % 10))
    }
}

/// An unsigned 256-bit amount in a token's smallest unit.
#[derive(Clone, Copy, Debug, PartialEq, Eq)]
pub struct TokenUnits {
    /// Four 64-bit limbs, least significant first.
    pub limbs: [u64; 4],
}

impl View for TokenUnits {
    type V = nat;

    open spec fn view(&self) -> nat {
        limbs_value(self.limbs@)
    }
}

impl TokenUnits {
    pub fn from_limbs(limbs: [u64; 4]) -> (r: TokenUnits)
        ensures
            r.limbs == limbs,
    {
        TokenUnits { limbs }
    }

    pub fn from_u64(value: u64) -> (r: TokenUnits)
        ensures
            r@ == value as nat,
    {
        TokenUnits { limbs: [value, 0, 0, 0] }
    }

    /// The largest amount there is, which an unlimited allowance grants.
    pub fn max() -> (r: TokenUnits)
        ensures
            r@ == max_units(),
    {
        TokenUnits { limbs: [u64::MAX, u64::MAX, u64::MAX, u64::MAX] }
    }

    /// The amount in base ten.
    pub fn to_decimal_string(&self) -> (r: String)
        ensures
            r@ == decimal_digits(self@),
    {
        units_to_text(self)
    }
}

/// `Display` of `alloy::primitives::U256`: the number in base ten, without
/// sign, padding or leading zeros, `0` for zero.
#[verifier::external_body]
fn units_to_text(u: &TokenUnits) -> (r: String)
    ensures
        r@ == decimal_digits(u@),
{
    alloy::primitives::U256::from_limbs(u.limbs).to_string()
}

/// The number of raw units in one whole token of the settlement currency.
pub const UNITS_PER_TOKEN: i64 = 1_000_000;

pub open spec fn units_per_token() -> DecimalModel {
    DecimalModel { mantissa: UNITS_PER_TOKEN as int, scale: 0 }
}

/// A raw balance as a decimal number of whole tokens: the digits of the raw
/// amount read as a decimal, zero where they do not fit one, divided by a
/// million; zero where that quotient cannot be had.
pub open spec fn balance_of(raw: nat) -> DecimalModel {
    let whole = match parsed_decimal(decimal_digits(raw)) {
        Some(d) => d,
        None => DecimalModel::zero(),
    };
    match whole.quotient(units_per_token()) {
        Some(q) => q,
        None => DecimalModel::zero(),
    }
}

/// Turns a raw balance of a six-decimal token into whole tokens.
pub fn format_balance(raw_balance: TokenUnits) -> (r: Decimal)
    ensures
        r@ == balance_of(raw_balance@),
{
    let digits = raw_balance.to_decimal_string();
    let whole = match Decimal::parse(digits.as_str()) {
        Some(d) => d,
        None => Decimal::zero(),
    };
    match whole.checked_div(&Decimal::whole(UNITS_PER_TOKEN)) {
        Some(q) => q,
        None => Decimal::zero(),
    }
}

} // verus!
