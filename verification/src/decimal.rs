//! Fixed-point decimal numbers: a signed 96-bit mantissa and a scale of at
//! most 28 fractional digits. The arithmetic is done by `rust_decimal`; this
//! module holds the value as two integers so that contracts can speak of it.

use std::cmp::Ordering;
use vstd::prelude::*;

verus! {

/// Largest magnitude of a mantissa: 2^96 - 1.
pub const MAX_MANTISSA: i128 = 79_228_162_514_264_337_593_543_950_335;

/// Largest number of fractional digits.
pub const MAX_SCALE: u32 = 28;

/// The number `mantissa / 10^scale`, as contracts see a [`Decimal`].
pub struct DecimalModel {
    pub mantissa: int,
    pub scale: nat,
}

pub open spec fn pow10(n: nat) -> int
    decreases n,
{
    if n == 0 {
        1
    } else {
        10 * pow10((n - 1) as nat)
    }
}

/// Integer division that rounds toward zero, for a positive divisor.
pub open spec fn div_toward_zero(a: int, b: int) -> int {
    if a >= 0 {
        a / b
    } else {
        -((-a) / b)
    }
}

impl DecimalModel {
    pub open spec fn wf(self) -> bool {
        &&& -(MAX_MANTISSA as int) <= self.mantissa <= MAX_MANTISSA as int
        &&& self.scale <= MAX_SCALE as nat
    }

    pub open spec fn zero() -> DecimalModel {
        DecimalModel { mantissa: 0, scale: 0 }
    }

    /// `self` and `other` denote the same number.
    pub open spec fn same_value(self, other: DecimalModel) -> bool {
        self.mantissa * pow10(other.scale) == other.mantissa * pow10(self.scale)
    }

    /// `self` denotes a smaller number than `other`.
    pub open spec fn less_than(self, other: DecimalModel) -> bool {
        self.mantissa * pow10(other.scale) < other.mantissa * pow10(self.scale)
    }

    /// The number scaled by 10^28, which is a whole number for every scale
    /// up to 28: numbers compare as their ranks do.
    pub open spec fn rank(self) -> int {
        self.mantissa * pow10((MAX_SCALE - self.scale) as nat)
    }

    /// `self` cut to at most `places` fractional digits, the rest dropped.
    pub open spec fn truncated(self, places: nat) -> DecimalModel {
        if self.scale <= places {
            self
        } else {
            DecimalModel {
                mantissa: div_toward_zero(self.mantissa, pow10((self.scale - places) as nat)),
                scale: places,
            }
        }
    }

    /// The product with every digit kept.
    pub open spec fn exact_product(self, other: DecimalModel) -> DecimalModel {
        DecimalModel { mantissa: self.mantissa * other.mantissa, scale: self.scale + other.scale }
    }

    /// The product of `self` and `other` as `rust_decimal` gives it: zero if
    /// either is zero, the exact product where its mantissa and scale fit,
    /// and else the rounded product, or nothing where even that is too large.
    pub open spec fn product(self, other: DecimalModel) -> Option<DecimalModel> {
        if self.mantissa == 0 || other.mantissa == 0 {
            Some(DecimalModel::zero())
        } else if self.exact_product(other).wf() {
            Some(self.exact_product(other))
        } else {
            model_of(rounded_product(self.mantissa, self.scale, other.mantissa, other.scale))
        }
    }

    /// The quotient of `self` by `other` as `rust_decimal` gives it.
    pub open spec fn quotient(self, other: DecimalModel) -> Option<DecimalModel> {
        model_of(decimal_quotient(self.mantissa, self.scale, other.mantissa, other.scale))
    }

    /// `self` without trailing fractional zeros; zero becomes `0` with scale 0.
    pub open spec fn stripped(self) -> DecimalModel
        decreases self.scale,
    {
        if self.mantissa == 0 {
            DecimalModel::zero()
        } else if self.scale > 0 && self.mantissa % 10 == 0 {
            DecimalModel { mantissa: self.mantissa / 10, scale: (self.scale - 1) as nat }.stripped()
        } else {
            self
        }
    }
}

/// What `rust_decimal::Decimal::from_str` reads from `s`: mantissa and scale,
/// or nothing where it reports an error.
pub uninterp spec fn decimal_from_text(s: Seq<char>) -> Option<(int, nat)>;

/// What `rust_decimal::Decimal::checked_mul` gives for two non-zero numbers
/// whose exact product does not fit: the product rounded to a scale that
/// fits, or nothing on overflow.
pub uninterp spec fn rounded_product(m1: int, s1: nat, m2: int, s2: nat) -> Option<(int, nat)>;

/// What `rust_decimal::Decimal::checked_div` gives: the quotient, or nothing
/// for a zero divisor or on overflow.
pub uninterp spec fn decimal_quotient(m1: int, s1: nat, m2: int, s2: nat) -> Option<(int, nat)>;

pub open spec fn model_of(parts: Option<(int, nat)>) -> Option<DecimalModel> {
    match parts {
        Some((mantissa, scale)) => Some(DecimalModel { mantissa, scale }),
        None => None,
    }
}

pub open spec fn parsed_decimal(s: Seq<char>) -> Option<DecimalModel> {
    model_of(decimal_from_text(s))
}

pub open spec fn option_parts(d: Option<Decimal>) -> Option<(int, nat)> {
    match d {
        Some(x) => Some((x@.mantissa, x@.scale)),
        None => None,
    }
}

pub open spec fn option_model(d: Option<Decimal>) -> Option<DecimalModel> {
    match d {
        Some(x) => Some(x@),
        None => None,
    }
}

/// A decimal number with a 96-bit mantissa and up to 28 fractional digits.
#[derive(Clone, Copy, Debug)]
pub struct Decimal {
    mantissa: i128,
    scale: u32,
}

impl View for Decimal {
    type V = DecimalModel;

    closed spec fn view(&self) -> DecimalModel {
        DecimalModel { mantissa: self.mantissa as int, scale: self.scale as nat }
    }
}

impl Decimal {
    #[verifier::type_invariant]
    spec fn inv(&self) -> bool {
        self@.wf()
    }

    /// The number `mantissa / 10^scale`, if both parts are in range.
    pub fn new(mantissa: i128, scale: u32) -> (r: Option<Decimal>)
        ensures
            r is Some <==> (DecimalModel { mantissa: mantissa as int, scale: scale as nat }).wf(),
            r matches Some(d) ==> d@ == (DecimalModel {
                mantissa: mantissa as int,
                scale: scale as nat,
            }),
    {
        if scale <= MAX_SCALE && -MAX_MANTISSA <= mantissa && mantissa <= MAX_MANTISSA {
            Some(Decimal { mantissa, scale })
        } else {
            None
        }
    }

    /// A whole number.
    pub fn whole(value: i64) -> (r: Decimal)
        ensures
            r@ == (DecimalModel { mantissa: value as int, scale: 0 }),
    {
        Decimal { mantissa: value as i128, scale: 0 }
    }

    pub fn zero() -> (r: Decimal)
        ensures
            r@ == DecimalModel::zero(),
    {
        Decimal { mantissa: 0, scale: 0 }
    }

    pub fn mantissa(&self) -> (m: i128)
        ensures
            m as int == self@.mantissa,
            self@.wf(),
    {
        proof {
            use_type_invariant(self);
        }
        self.mantissa
    }

    pub fn scale(&self) -> (s: u32)
        ensures
            s as nat == self@.scale,
            self@.wf(),
    {
        proof {
            use_type_invariant(self);
        }
        self.scale
    }

    /// Reads a number written in decimal notation.
    pub fn parse(s: &str) -> (r: Option<Decimal>)
        ensures
            option_model(r) == parsed_decimal(s@),
    {
        text_to_decimal(s)
    }

    /// Cuts the number to at most `places` fractional digits, toward zero.
    pub fn truncate(&self, places: u32) -> (r: Decimal)
        ensures
            r@ == self@.truncated(places as nat),
    {
        round_toward_zero(self, places)
    }

    /// Drops trailing fractional zeros.
    pub fn normalize(&self) -> (r: Decimal)
        ensures
            r@ == self@.stripped(),
    {
        strip_trailing_zeros(self)
    }

    /// Multiplies, with nothing returned where the product is too large.
    pub fn checked_mul(&self, other: &Decimal) -> (r: Option<Decimal>)
        ensures
            option_model(r) == self@.product(other@),
    {
        checked_product(self, other)
    }

    /// Divides, with nothing returned for a zero divisor or on overflow.
    pub fn checked_div(&self, other: &Decimal) -> (r: Option<Decimal>)
        ensures
            option_model(r) == self@.quotient(other@),
    {
        checked_quotient(self, other)
    }

    pub fn less_than(&self, other: &Decimal) -> (r: bool)
        ensures
            r == self@.less_than(other@),
            r == (self@.rank() < other@.rank()),
    {
        proof {
            use_type_invariant(self);
            use_type_invariant(other);
            rank_orders_by_value(self@, other@);
        }
        match compare(self, other) {
            Ordering::Less => true,
            Ordering::Equal => false,
            Ordering::Greater => false,
        }
    }

    pub fn same_value(&self, other: &Decimal) -> (r: bool)
        ensures
            r == self@.same_value(other@),
            r == (self@.rank() == other@.rank()),
    {
        proof {
            use_type_invariant(self);
            use_type_invariant(other);
            rank_orders_by_value(self@, other@);
        }
        match compare(self, other) {
            Ordering::Less => false,
            Ordering::Equal => true,
            Ordering::Greater => false,
        }
    }

    pub fn is_negative(&self) -> (r: bool)
        ensures
            r == (self@.mantissa < 0),
    {
        self.mantissa < 0
    }
}

/// `rust_decimal::Decimal::from_str`: the number that the text spells, named
/// by [`decimal_from_text`].
#[verifier::external_body]
fn text_to_decimal(s: &str) -> (r: Option<Decimal>)
    ensures
        option_parts(r) == decimal_from_text(s@),
{
    match s.parse::<rust_decimal::Decimal>() {
        Ok(v) => Some(Decimal { mantissa: v.mantissa(), scale: v.scale() }),
        Err(_) => None,
    }
}

/// `rust_decimal::Decimal::normalize`: zero becomes `0` with scale 0; else
/// the mantissa is divided by ten, and the scale lowered by one, for as long
/// as the scale is positive and the mantissa a multiple of ten.
#[verifier::external_body]
fn strip_trailing_zeros(d: &Decimal) -> (r: Decimal)
    ensures
        r@ == d@.stripped(),
{
    let v = rust_decimal::Decimal::from_i128_with_scale(d.mantissa, d.scale).normalize();
    Decimal { mantissa: v.mantissa(), scale: v.scale() }
}

/// `rust_decimal::Decimal::checked_mul`: zero if either factor is zero; the
/// product of the mantissas with the sum of the scales where that product is
/// below 2^96 and the sum at most 28; else what [`rounded_product`] names.
#[verifier::external_body]
fn checked_product(a: &Decimal, b: &Decimal) -> (r: Option<Decimal>)
    ensures
        a@.mantissa == 0 || b@.mantissa == 0 ==> option_model(r) == Some(DecimalModel::zero()),
        a@.mantissa != 0 && b@.mantissa != 0 && a@.exact_product(b@).wf() ==> option_model(r)
            == Some(a@.exact_product(b@)),
        a@.mantissa != 0 && b@.mantissa != 0 && !a@.exact_product(b@).wf() ==> option_parts(r)
            == rounded_product(a@.mantissa, a@.scale, b@.mantissa, b@.scale),
{
    let x = rust_decimal::Decimal::from_i128_with_scale(a.mantissa, a.scale);
    let y = rust_decimal::Decimal::from_i128_with_scale(b.mantissa, b.scale);
    match x.checked_mul(y) {
        Some(v) => Some(Decimal { mantissa: v.mantissa(), scale: v.scale() }),
        None => None,
    }
}

/// `rust_decimal::Decimal::checked_div`: what [`decimal_quotient`] names.
#[verifier::external_body]
fn checked_quotient(a: &Decimal, b: &Decimal) -> (r: Option<Decimal>)
    ensures
        option_parts(r) == decimal_quotient(a@.mantissa, a@.scale, b@.mantissa, b@.scale),
{
    let x = rust_decimal::Decimal::from_i128_with_scale(a.mantissa, a.scale);
    let y = rust_decimal::Decimal::from_i128_with_scale(b.mantissa, b.scale);
    match x.checked_div(y) {
        Some(v) => Some(Decimal { mantissa: v.mantissa(), scale: v.scale() }),
        None => None,
    }
}

/// `rust_decimal::Decimal`'s `Ord::cmp`: the order of the two numbers by
/// value, whatever their scales.
#[verifier::external_body]
fn compare(a: &Decimal, b: &Decimal) -> (o: Ordering)
    ensures
        o is Less <==> a@.less_than(b@),
        o is Greater <==> b@.less_than(a@),
        o is Equal <==> a@.same_value(b@),
{
    let x = rust_decimal::Decimal::from_i128_with_scale(a.mantissa, a.scale);
    let y = rust_decimal::Decimal::from_i128_with_scale(b.mantissa, b.scale);
    x.cmp(&y)
}

/// `rust_decimal::Decimal::round_dp_with_strategy` with
/// `RoundingStrategy::ToZero`: a number with no more than `places` fractional
/// digits comes back unchanged; otherwise the mantissa is divided by the
/// power of ten that leaves `places` digits, the remainder is dropped, and
/// the scale becomes `places`.
#[verifier::external_body]
fn round_toward_zero(d: &Decimal, places: u32) -> (r: Decimal)
    ensures
        r@ == d@.truncated(places as nat),
{
    let v = rust_decimal::Decimal::from_i128_with_scale(d.mantissa, d.scale);
    let t = v.round_dp_with_strategy(places, rust_decimal::RoundingStrategy::ToZero);
    Decimal { mantissa: t.mantissa(), scale: t.scale() }
}

pub proof fn pow10_is_positive(n: nat)
    ensures
        pow10(n) > 0,
    decreases n,
{
    if n > 0 {
        pow10_is_positive((n - 1) as nat);
    }
}

pub proof fn pow10_adds(a: nat, b: nat)
    ensures
        pow10(a + b) == pow10(a) * pow10(b),
    decreases a,
{
    if a == 0 {
        assert(pow10(0) == 1);
        assert(pow10(b) == 1 * pow10(b));
    } else {
        pow10_adds((a - 1) as nat, b);
        assert(pow10(a + b) == 10 * pow10((a + b - 1) as nat));
        assert(pow10(a) == 10 * pow10((a - 1) as nat));
        assert(10 * (pow10((a - 1) as nat) * pow10(b)) == (10 * pow10((a - 1) as nat)) * pow10(b))
            by (nonlinear_arith);
    }
}

/// Two numbers in range compare by value as their ranks compare.
pub proof fn rank_orders_by_value(a: DecimalModel, b: DecimalModel)
    requires
        a.wf(),
        b.wf(),
    ensures
        a.less_than(b) <==> a.rank() < b.rank(),
        a.same_value(b) <==> a.rank() == b.rank(),
{
    let pa = pow10(a.scale);
    let pb = pow10(b.scale);
    let qa = pow10((MAX_SCALE - a.scale) as nat);
    let qb = pow10((MAX_SCALE - b.scale) as nat);
    let top = pow10(MAX_SCALE as nat);
    pow10_is_positive(a.scale);
    pow10_is_positive(b.scale);
    pow10_is_positive((MAX_SCALE - a.scale) as nat);
    pow10_is_positive((MAX_SCALE - b.scale) as nat);
    pow10_adds(a.scale, (MAX_SCALE - a.scale) as nat);
    pow10_adds(b.scale, (MAX_SCALE - b.scale) as nat);
    assert(pa * qa == top);
    assert(pb * qb == top);
    let x = a.mantissa;
    let y = b.mantissa;
    assert((x * pb) * (qa * qb) == (x * qa) * top) by (nonlinear_arith)
        requires
            pb * qb == top,
    ;
    assert((y * pa) * (qa * qb) == (y * qb) * top) by (nonlinear_arith)
        requires
            pa * qa == top,
    ;
    assert(qa * qb > 0) by (nonlinear_arith)
        requires
            qa > 0,
            qb > 0,
    ;
    let k = qa * qb;
    let l = x * pb;
    let r = y * pa;
    assert((l < r) <==> (l * k < r * k)) by (nonlinear_arith)
        requires
            k > 0,
    ;
    assert((l == r) <==> (l * k == r * k)) by (nonlinear_arith)
        requires
            k > 0,
    ;
    let u = x * qa;
    let v = y * qb;
    pow10_is_positive(MAX_SCALE as nat);
    assert((u < v) <==> (u * top < v * top)) by (nonlinear_arith)
        requires
            top > 0,
    ;
    assert((u == v) <==> (u * top == v * top)) by (nonlinear_arith)
        requires
            top > 0,
    ;
}

} // verus!
