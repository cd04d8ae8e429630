//! Order sizing: from a side, a requested amount and an optional price to the
//! amount an order carries, in settlement currency or in shares.

use crate::decimal::{
    option_model, pow10, pow10_adds, pow10_is_positive, Decimal, DecimalModel,
};
use vstd::prelude::*;

verus! {

/// The side of an order.
#[derive(Clone, Copy, Debug, PartialEq, Eq, Structural)]
pub enum Side {
    Buy,
    Sell,
}

/// Why an order could not be placed.
#[derive(Clone, Copy, Debug, PartialEq, Eq, Structural)]
pub enum OrderError {
    /// The matching engine did not accept the signer.
    AuthenticationError,
    /// The side is neither `buy` nor `sell`.
    InvalidSide,
    /// The amount is no decimal number, or the order amount is negative,
    /// too large, or finer than the currency allows.
    InvalidAmount,
    /// The price is no decimal number.
    InvalidPrice,
    /// The order could not be built or signed.
    OrderBuildError,
    /// The matching engine did not take the order.
    SubmissionError,
}

/// Fractional digits that a requested amount keeps.
pub const AMOUNT_PLACES: u32 = 2;

/// Fractional digits of the settlement currency.
pub const NOTIONAL_PLACES: u32 = 6;

/// Fractional digits of a share count.
pub const SHARE_PLACES: u32 = 2;

/// What an order carries: a value in settlement currency, or a share count.
#[derive(Clone, Copy, Debug)]
pub enum OrderAmount {
    Notional(Decimal),
    Shares(Decimal),
}

pub enum OrderAmountModel {
    Notional(DecimalModel),
    Shares(DecimalModel),
}

impl OrderAmountModel {
    /// The amount is not negative and no finer than its currency allows:
    /// six fractional digits for a value, two for a share count.
    pub open spec fn wf(self) -> bool {
        match self {
            OrderAmountModel::Notional(v) => representable(v, NOTIONAL_PLACES as nat),
            OrderAmountModel::Shares(v) => representable(v, SHARE_PLACES as nat),
        }
    }
}

impl View for OrderAmount {
    type V = OrderAmountModel;

    open spec fn view(&self) -> OrderAmountModel {
        match *self {
            OrderAmount::Notional(d) => OrderAmountModel::Notional(d@),
            OrderAmount::Shares(d) => OrderAmountModel::Shares(d@),
        }
    }
}

impl OrderAmount {
    pub fn value(&self) -> (d: Decimal)
        ensures
            d@ == match self@ {
                OrderAmountModel::Notional(v) => v,
                OrderAmountModel::Shares(v) => v,
            },
    {
        match self {
            OrderAmount::Notional(d) => *d,
            OrderAmount::Shares(d) => *d,
        }
    }

    pub fn is_notional(&self) -> (r: bool)
        ensures
            r == (self@ is Notional),
    {
        match self {
            OrderAmount::Notional(_) => true,
            OrderAmount::Shares(_) => false,
        }
    }
}

/// An ASCII capital letter as its small letter, any other character as
/// itself.
pub open spec fn ascii_lower(c: char) -> char {
    if 0x41 <= c as u32 <= 0x5a {
        ((c as u32 + 0x20) as u8) as char
    } else {
        c
    }
}

pub open spec fn lowered(s: Seq<char>) -> Seq<char> {
    Seq::new(s.len(), |i: int| ascii_lower(s[i]))
}

/// The side that a word names, letters of either case.
pub open spec fn side_of(s: Seq<char>) -> Result<Side, OrderError> {
    if lowered(s) == seq!['b', 'u', 'y'] {
        Ok(Side::Buy)
    } else if lowered(s) == seq!['s', 'e', 'l', 'l'] {
        Ok(Side::Sell)
    } else {
        Err(OrderError::InvalidSide)
    }
}

/// `c` is the small letter `small` or its capital.
fn is_letter(c: char, small: char) -> (r: bool)
    requires
        0x61 <= small as u32 <= 0x7a,
    ensures
        r == (ascii_lower(c) == small),
{
    let code = c as u32;
    let want = small as u32;
    code == want || code + 0x20 == want
}

/// Reads `buy` or `sell`, in letters of either case.
pub fn parse_side(side: &str) -> (r: Result<Side, OrderError>)
    ensures
        r == side_of(side@),
{
    let n = side.unicode_len();
    if n == 3 {
        let b = is_letter(side.get_char(0), 'b');
        let u = is_letter(side.get_char(1), 'u');
        let y = is_letter(side.get_char(2), 'y');
        if b && u && y {
            assert(lowered(side@) =~= seq!['b', 'u', 'y']);
            return Ok(Side::Buy);
        }
        assert(lowered(side@) != seq!['b', 'u', 'y']) by {
            if lowered(side@) == seq!['b', 'u', 'y'] {
                assert(lowered(side@)[0] == 'b');
                assert(lowered(side@)[1] == 'u');
                assert(lowered(side@)[2] == 'y');
            }
        }
        assert(lowered(side@).len() != 4);
        Err(OrderError::InvalidSide)
    } else if n == 4 {
        let s = is_letter(side.get_char(0), 's');
        let e = is_letter(side.get_char(1), 'e');
        let l = is_letter(side.get_char(2), 'l');
        let m = is_letter(side.get_char(3), 'l');
        if s && e && l && m {
            assert(lowered(side@) =~= seq!['s', 'e', 'l', 'l']);
            assert(lowered(side@).len() != 3);
            return Ok(Side::Sell);
        }
        assert(lowered(side@) != seq!['s', 'e', 'l', 'l']) by {
            if lowered(side@) == seq!['s', 'e', 'l', 'l'] {
                assert(lowered(side@)[0] == 's');
                assert(lowered(side@)[1] == 'e');
                assert(lowered(side@)[2] == 'l');
                assert(lowered(side@)[3] == 'l');
            }
        }
        assert(lowered(side@).len() != 3);
        Err(OrderError::InvalidSide)
    } else {
        assert(lowered(side@).len() != 3 && lowered(side@).len() != 4);
        Err(OrderError::InvalidSide)
    }
}

/// `d` is not negative and, trailing zeros aside, has no more than `places`
/// fractional digits.
pub open spec fn representable(d: DecimalModel, places: nat) -> bool {
    d.mantissa >= 0 && d.stripped().scale <= places
}

/// `d` as a value in settlement currency.
pub open spec fn notional(d: DecimalModel) -> Result<OrderAmountModel, OrderError> {
    if representable(d, NOTIONAL_PLACES as nat) {
        Ok(OrderAmountModel::Notional(d))
    } else {
        Err(OrderError::InvalidAmount)
    }
}

/// `d` as a share count.
pub open spec fn shares(d: DecimalModel) -> Result<OrderAmountModel, OrderError> {
    if representable(d, SHARE_PLACES as nat) {
        Ok(OrderAmountModel::Shares(d))
    } else {
        Err(OrderError::InvalidAmount)
    }
}

/// The amount that an order for `amount` on `side` carries. The request is
/// first cut to two fractional digits, toward zero. A buy at a price asks
/// for that many shares and carries their value; a buy without a price
/// names the value itself; a sell carries shares, whatever the price.
pub open spec fn normalized(side: Side, amount: DecimalModel, price: Option<DecimalModel>) -> Result<
    OrderAmountModel,
    OrderError,
> {
    let cut = amount.truncated(AMOUNT_PLACES as nat);
    match side {
        Side::Buy => match price {
            Some(p) => match cut.product(p) {
                Some(value) => notional(value),
                None => Err(OrderError::InvalidAmount),
            },
            None => notional(cut),
        },
        Side::Sell => shares(cut),
    }
}

pub open spec fn amount_of(r: Result<OrderAmount, OrderError>) -> Result<
    OrderAmountModel,
    OrderError,
> {
    match r {
        Ok(a) => Ok(a@),
        Err(e) => Err(e),
    }
}

fn is_representable(d: &Decimal, places: u32) -> (r: bool)
    ensures
        r == representable(d@, places as nat),
{
    !d.is_negative() && d.normalize().scale() <= places
}

/// Sizes an order: see [`normalized`].
pub fn compute_order_amount(side: Side, amount: Decimal, price: Option<Decimal>) -> (r: Result<
    OrderAmount,
    OrderError,
>)
    ensures
        amount_of(r) == normalized(side, amount@, option_model(price)),
        r matches Ok(sized) ==> sized@.wf(),
{
    let cut = amount.truncate(AMOUNT_PLACES);
    match side {
        Side::Buy => {
            let value = match price {
                Some(p) => match cut.checked_mul(&p) {
                    Some(v) => v,
                    None => {
                        return Err(OrderError::InvalidAmount);
                    },
                },
                None => cut,
            };
            if is_representable(&value, NOTIONAL_PLACES) {
                Ok(OrderAmount::Notional(value))
            } else {
                Err(OrderError::InvalidAmount)
            }
        },
        Side::Sell => {
            if is_representable(&cut, SHARE_PLACES) {
                Ok(OrderAmount::Shares(cut))
            } else {
                Err(OrderError::InvalidAmount)
            }
        },
    }
}

/// Dropping trailing zeros never lengthens the fraction, and keeps the sign.
pub proof fn stripping_shortens(d: DecimalModel)
    ensures
        d.stripped().scale <= d.scale,
        d.mantissa >= 0 <==> d.stripped().mantissa >= 0,
        d.mantissa == 0 <==> d.stripped().mantissa == 0,
    decreases d.scale,
{
    if d.mantissa != 0 && d.scale > 0 && d.mantissa % 10 == 0 {
        stripping_shortens(DecimalModel { mantissa: d.mantissa / 10, scale: (d.scale - 1) as nat });
    }
}

/// Dropping trailing zeros keeps the value.
pub proof fn stripping_keeps_value(d: DecimalModel)
    ensures
        d.stripped().same_value(d),
    decreases d.scale,
{
    if d.mantissa == 0 {
        assert(0 * pow10(d.scale) == 0 * pow10(0)) by (nonlinear_arith);
    } else if d.scale > 0 && d.mantissa % 10 == 0 {
        let inner = DecimalModel { mantissa: d.mantissa / 10, scale: (d.scale - 1) as nat };
        stripping_keeps_value(inner);
        let s = inner.stripped();
        let k = pow10(s.scale);
        let p = pow10(inner.scale);
        assert(pow10(d.scale) == 10 * p);
        assert(d.mantissa == 10 * inner.mantissa);
        assert(s.mantissa * p == inner.mantissa * k);
        assert(s.mantissa * (10 * p) == (10 * inner.mantissa) * k) by (nonlinear_arith)
            requires
                s.mantissa * p == inner.mantissa * k,
        ;
    }
}

/// Cutting to `places` digits never moves a number away from zero, and
/// moves it by less than one unit of the last kept digit.
pub proof fn truncation_never_rounds_up(d: DecimalModel, places: nat)
    ensures
        ({
            let cut = d.truncated(places);
            let above = DecimalModel { mantissa: cut.mantissa + 1, scale: cut.scale };
            let below = DecimalModel { mantissa: cut.mantissa - 1, scale: cut.scale };
            &&& cut.scale <= places || cut == d
            &&& d.mantissa >= 0 ==> cut.mantissa >= 0 && !d.less_than(cut) && d.less_than(above)
            &&& d.mantissa <= 0 ==> cut.mantissa <= 0 && !cut.less_than(d) && below.less_than(d)
        }),
{
    let cut = d.truncated(places);
    pow10_is_positive(d.scale);
    pow10_is_positive(cut.scale);
    if d.scale <= places {
        assert((d.mantissa + 1) * pow10(d.scale) > d.mantissa * pow10(d.scale)) by (nonlinear_arith)
            requires
                pow10(d.scale) > 0,
        ;
        assert((d.mantissa - 1) * pow10(d.scale) < d.mantissa * pow10(d.scale)) by (nonlinear_arith)
            requires
                pow10(d.scale) > 0,
        ;
    } else {
        let gap = (d.scale - places) as nat;
        let p = pow10(gap);
        let unit = pow10(places);
        pow10_is_positive(gap);
        pow10_is_positive(places);
        pow10_adds(gap, places);
        assert(pow10(d.scale) == p * unit);
        let m = d.mantissa;
        let q = cut.mantissa;
        if m >= 0 {
            assert(q == m / p);
            assert(q >= 0 && q * p <= m && m < (q + 1) * p) by (nonlinear_arith)
                requires
                    q == m / p,
                    p > 0,
                    m >= 0,
            ;
            assert(q * (p * unit) <= m * unit) by (nonlinear_arith)
                requires
                    q * p <= m,
                    unit > 0,
            ;
            assert(m * unit < (q + 1) * (p * unit)) by (nonlinear_arith)
                requires
                    m < (q + 1) * p,
                    unit > 0,
            ;
        }
        if m <= 0 {
            let n = -m;
            let r = n / p;
            assert(q == -r) by {
                if m == 0 {
                    assert(0int / p == 0) by (nonlinear_arith)
                        requires
                            p > 0,
                    ;
                }
            }
            assert(r >= 0 && r * p <= n && n < (r + 1) * p) by (nonlinear_arith)
                requires
                    r == n / p,
                    p > 0,
                    n >= 0,
            ;
            assert(m * unit <= q * (p * unit)) by (nonlinear_arith)
                requires
                    r * p <= n,
                    q == -r,
                    n == -m,
                    unit > 0,
            ;
            assert((q - 1) * (p * unit) < m * unit) by (nonlinear_arith)
                requires
                    n < (r + 1) * p,
                    q == -r,
                    n == -m,
                    unit > 0,
            ;
        }
    }
}

/// Every amount that sizing yields is well formed.
pub proof fn sized_amounts_are_well_formed(
    side: Side,
    amount: DecimalModel,
    price: Option<DecimalModel>,
)
    ensures
        normalized(side, amount, price) matches Ok(sized) ==> sized.wf(),
{
}

/// A sell carries the requested shares cut to two digits, whatever price
/// comes with it, and is refused only where that count is negative.
pub proof fn sell_carries_truncated_shares(amount: DecimalModel, price: Option<DecimalModel>)
    ensures
        normalized(Side::Sell, amount, price) == normalized(Side::Sell, amount, None),
        amount.truncated(2).mantissa >= 0 ==> normalized(Side::Sell, amount, price) == Ok::<
            OrderAmountModel,
            OrderError,
        >(OrderAmountModel::Shares(amount.truncated(2))),
        amount.truncated(2).mantissa < 0 ==> normalized(Side::Sell, amount, price) == Err::<
            OrderAmountModel,
            OrderError,
        >(OrderError::InvalidAmount),
{
    stripping_shortens(amount.truncated(2));
}

/// A buy without a price carries the requested value cut to two digits,
/// and is refused only where that value is negative.
pub proof fn buy_without_price_carries_truncated_value(amount: DecimalModel)
    ensures
        amount.truncated(2).mantissa >= 0 ==> normalized(Side::Buy, amount, None) == Ok::<
            OrderAmountModel,
            OrderError,
        >(OrderAmountModel::Notional(amount.truncated(2))),
        amount.truncated(2).mantissa < 0 ==> normalized(Side::Buy, amount, None) == Err::<
            OrderAmountModel,
            OrderError,
        >(OrderError::InvalidAmount),
{
    stripping_shortens(amount.truncated(2));
}

/// A buy at a price carries the product of the requested shares, cut to two
/// digits, and the price. It is refused where there is no such product, or
/// where the product is negative or finer than six fractional digits.
pub proof fn buy_at_price_carries_product(amount: DecimalModel, price: DecimalModel)
    ensures
        normalized(Side::Buy, amount, Some(price)) is Ok <==> (amount.truncated(2).product(price)
            matches Some(value) && representable(value, 6)),
        normalized(Side::Buy, amount, Some(price)) matches Ok(carried) ==> carried
            == OrderAmountModel::Notional(amount.truncated(2).product(price).unwrap()),
{
}

/// Where neither factor is zero and the product of the mantissas fits, a buy
/// at a price carries exactly that product, with the scales added.
pub proof fn buy_at_price_is_exact_where_it_fits(amount: DecimalModel, price: DecimalModel)
    requires
        amount.truncated(2).mantissa > 0,
        price.mantissa > 0,
        amount.truncated(2).exact_product(price).wf(),
        amount.truncated(2).exact_product(price).stripped().scale <= 6,
    ensures
        normalized(Side::Buy, amount, Some(price)) == Ok::<OrderAmountModel, OrderError>(
            OrderAmountModel::Notional(
                DecimalModel {
                    mantissa: amount.truncated(2).mantissa * price.mantissa,
                    scale: amount.truncated(2).scale + price.scale,
                },
            ),
        ),
{
    let cut = amount.truncated(2);
    assert(cut.mantissa * price.mantissa >= 0) by (nonlinear_arith)
        requires
            cut.mantissa > 0,
            price.mantissa > 0,
    ;
}

} // verus!
