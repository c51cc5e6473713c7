//! Fixed-point prices, quantities and money, built from decimals and rendered as text.

use crate::decimal::{
    lemma_pow10_add, lemma_pow10_monotone, lemma_pow10_positive, parsed_decimal, pow10,
    DecimalValue, MAX_MANTISSA, MAX_SCALE,
};
use crate::text::{digit_char, nat_text, render_u128};
use vstd::hash_map::StringHashMap;
use vstd::prelude::*;
use vstd::string::*;

verus! {

/// Fractional digits that every raw value carries.
pub const FIXED_PRECISION: u8 = 16;

/// Largest magnitude of a price or of money, in raw units.
pub const SIGNED_RAW_MAX: i128 = 170_141_183_460_460_000_000_000_000_000;

/// Largest quantity, in raw units.
pub const QUANTITY_RAW_MAX: i128 = 340_282_366_920_930_000_000_000_000_000;

/// Fractional digits of a crypto currency that nothing else is known of.
pub const CRYPTO_PRECISION: u8 = 8;

/// `n / d` rounded to the nearest integer, a tie going to the even neighbour.
pub open spec fn round_half_even(n: nat, d: nat) -> nat {
    let q = n / d;
    let r = n % d;
    if 2 * r < d || (2 * r == d && q % 2 == 0) {
        q
    } else {
        q + 1
    }
}

/// The magnitude `mantissa / 10^scale` in units of `10^-precision`, rounded half to even.
pub open spec fn units_at_precision(mantissa: nat, scale: nat, precision: nat) -> nat {
    if precision >= scale {
        mantissa * pow10((precision - scale) as nat)
    } else {
        round_half_even(mantissa, pow10((scale - precision) as nat))
    }
}

/// The magnitude of a number.
pub open spec fn magnitude(i: int) -> nat {
    if i < 0 {
        (-i) as nat
    } else {
        i as nat
    }
}

/// The magnitude of the raw value of `value` at `precision` fractional digits.
pub open spec fn raw_magnitude(value: DecimalValue, precision: nat) -> nat {
    units_at_precision(magnitude(value.mantissa as int), value.scale as nat, precision) * pow10(
        (FIXED_PRECISION - precision) as nat,
    )
}

/// The raw value of `value` at `precision` fractional digits.
pub open spec fn fixed_raw(value: DecimalValue, precision: nat) -> int {
    if value.mantissa < 0 {
        -(raw_magnitude(value, precision) as int)
    } else {
        raw_magnitude(value, precision) as int
    }
}

/// The last `width` decimal digits of `n`, leading zeros included.
pub open spec fn padded_text(n: nat, width: nat) -> Seq<char>
    decreases width,
{
    if width == 0 {
        Seq::empty()
    } else {
        padded_text(n / 10, (width - 1) as nat).push(digit_char((n % 10) as int))
    }
}

/// `raw` as text with exactly `precision` fractional digits, cutting off what lies beyond.
pub open spec fn fixed_text(raw: nat, precision: nat) -> Seq<char> {
    let units = raw / pow10((FIXED_PRECISION - precision) as nat);
    let whole = nat_text(units / pow10(precision));
    if precision == 0 {
        whole
    } else {
        whole + "."@ + padded_text(units % pow10(precision), precision)
    }
}

/// Ten to the power `n`.
fn power_of_ten(n: u32) -> (r: u128)
    requires
        n <= MAX_SCALE,
    ensures
        r == pow10(n as nat),
{
    let mut r: u128 = 1;
    let mut i: u32 = 0;
    proof {
        lemma_pow10_28();
    }
    while i < n
        invariant
            i <= n,
            n <= MAX_SCALE,
            r == pow10(i as nat),
            pow10(28) == 10_000_000_000_000_000_000_000_000_000,
        decreases n - i,
    {
        proof {
            lemma_pow10_monotone((i + 1) as nat, 28);
        }
        r = 10 * r;
        i = i + 1;
    }
    r
}

proof fn lemma_pow10_28()
    ensures
        pow10(16) == 10_000_000_000_000_000,
        pow10(28) == 10_000_000_000_000_000_000_000_000_000,
{
    reveal_with_fuel(pow10, 15);
    assert(pow10(14) == 100_000_000_000_000);
    lemma_pow10_add(14, 14);
}

/// `n / d` rounded to the nearest integer, a tie going to the even neighbour.
fn divide_half_even(n: u128, d: u128) -> (r: u128)
    requires
        0 < d <= 0x8000_0000_0000_0000_0000_0000_0000,
        n <= MAX_MANTISSA,
    ensures
        r == round_half_even(n as nat, d as nat),
        r <= n + 1,
{
    let q: u128 = n / d;
    let rest: u128 = n % d;
    proof {
        assert(q <= n) by (nonlinear_arith)
            requires
                q == n / d,
                d > 0,
        ;
    }
    if 2 * rest < d || (2 * rest == d && q % 2 == 0) {
        q
    } else {
        q + 1
    }
}

/// The raw value of a decimal at `precision` fractional digits, unless its magnitude is beyond
/// `limit`.
fn fixed_from_decimal(value: &DecimalValue, precision: u8, limit: i128) -> (r: Option<i128>)
    requires
        value.wf(),
        precision <= FIXED_PRECISION,
        0 <= limit <= QUANTITY_RAW_MAX,
    ensures
        r matches Some(raw) ==> raw == fixed_raw(*value, precision as nat) && -limit <= raw
            <= limit,
        r is None <==> raw_magnitude(*value, precision as nat) > limit,
{
    let mantissa: u128 = if value.mantissa < 0 {
        (-value.mantissa) as u128
    } else {
        value.mantissa as u128
    };
    let digits: u32 = precision as u32;
    let ghost p = precision as nat;
    let factor: u128 = power_of_ten(16 - digits);
    proof {
        lemma_pow10_positive((16 - p) as nat);
        lemma_pow10_28();
    }
    let units: u128 = if digits >= value.scale {
        let scaling: u128 = power_of_ten(digits - value.scale);
        match mantissa.checked_mul(scaling) {
            Some(units) => units,
            None => {
                proof {
                    let all = mantissa * scaling;
                    assert(all * factor >= all) by (nonlinear_arith)
                        requires
                            all >= 0,
                            factor >= 1,
                    ;
                }
                return None;
            },
        }
    } else {
        proof {
            lemma_pow10_positive((value.scale - digits) as nat);
            lemma_pow10_monotone((value.scale - digits) as nat, 28);
        }
        let divisor: u128 = power_of_ten(value.scale - digits);
        divide_half_even(mantissa, divisor)
    };
    assert(units == units_at_precision(magnitude(value.mantissa as int), value.scale as nat, p));
    match units.checked_mul(factor) {
        Some(raw) => if raw > limit as u128 {
            None
        } else if value.mantissa < 0 {
            Some(-(raw as i128))
        } else {
            Some(raw as i128)
        },
        None => None,
    }
}

/// Why a text is not a price, a quantity or a decimal.
#[derive(Clone, Copy, Debug, PartialEq, Eq, Structural)]
pub enum FieldError {
    /// The text is not a decimal number.
    NotADecimal,
    /// The number of fractional digits is beyond the fixed precision.
    Precision,
    /// The number is outside the range of the type.
    OutOfRange,
}

impl FieldError {
    /// What the error says.
    pub open spec fn text(self) -> Seq<char> {
        match self {
            FieldError::NotADecimal => "not a decimal number"@,
            FieldError::Precision => "precision exceeds the fixed precision"@,
            FieldError::OutOfRange => "value out of range"@,
        }
    }

    /// What the error says.
    pub fn as_str(&self) -> (r: &'static str)
        ensures
            r@ == self.text(),
    {
        match self {
            FieldError::NotADecimal => "not a decimal number",
            FieldError::Precision => "precision exceeds the fixed precision",
            FieldError::OutOfRange => "value out of range",
        }
    }
}

/// A price in raw units of `10^-16`, shown with `precision` fractional digits.
#[derive(Clone, Copy, Debug, PartialEq, Eq, Structural)]
pub struct Price {
    /// Raw value.
    pub raw: i128,
    /// Fractional digits shown.
    pub precision: u8,
}

/// The price that a decimal denotes at a precision.
pub open spec fn price_of(value: DecimalValue, precision: u8) -> Result<Price, FieldError> {
    if precision > FIXED_PRECISION {
        Err(FieldError::Precision)
    } else if raw_magnitude(value, precision as nat) > SIGNED_RAW_MAX {
        Err(FieldError::OutOfRange)
    } else {
        Ok(Price { raw: fixed_raw(value, precision as nat) as i128, precision })
    }
}

/// The price that a text denotes at a precision.
pub open spec fn parsed_price(text: Seq<char>, precision: u8) -> Result<Price, FieldError> {
    match parsed_decimal(text) {
        Some(value) => price_of(value, precision),
        None => Err(FieldError::NotADecimal),
    }
}

impl Price {
    /// The price nearest to `value` with `precision` fractional digits.
    pub fn from_decimal(value: &DecimalValue, precision: u8) -> (r: Result<Price, FieldError>)
        requires
            value.wf(),
        ensures
            r == price_of(*value, precision),
    {
        if precision > FIXED_PRECISION {
            return Err(FieldError::Precision);
        }
        match fixed_from_decimal(value, precision, SIGNED_RAW_MAX) {
            Some(raw) => Ok(Price { raw, precision }),
            None => Err(FieldError::OutOfRange),
        }
    }

    /// Reads a price with `precision` fractional digits.
    pub fn parse(text: &str, precision: u8) -> (r: Result<Price, FieldError>)
        ensures
            r == parsed_price(text@, precision),
    {
        match DecimalValue::parse(text) {
            Some(value) => Price::from_decimal(&value, precision),
            None => Err(FieldError::NotADecimal),
        }
    }
}

/// The price that a text denotes, with as many fractional digits as the text has.
pub open spec fn written_price(text: Seq<char>) -> Result<Price, FieldError> {
    match parsed_decimal(text) {
        Some(value) => price_of(value, value.scale as u8),
        None => Err(FieldError::NotADecimal),
    }
}

impl Price {
    /// Reads a price with as many fractional digits as the text has.
    pub fn read(text: &str) -> (r: Result<Price, FieldError>)
        ensures
            r == written_price(text@),
    {
        match DecimalValue::parse(text) {
            Some(value) => Price::from_decimal(&value, value.scale as u8),
            None => Err(FieldError::NotADecimal),
        }
    }
}

/// A quantity in raw units of `10^-16`, shown with `precision` fractional digits.
#[derive(Clone, Copy, Debug, PartialEq, Eq, Structural)]
pub struct Quantity {
    /// Raw value.
    pub raw: u128,
    /// Fractional digits shown.
    pub precision: u8,
}

/// The quantity that a decimal denotes at a precision.
pub open spec fn quantity_of(value: DecimalValue, precision: u8) -> Result<Quantity, FieldError> {
    if precision > FIXED_PRECISION {
        Err(FieldError::Precision)
    } else if value.mantissa < 0 || raw_magnitude(value, precision as nat) > QUANTITY_RAW_MAX {
        Err(FieldError::OutOfRange)
    } else {
        Ok(Quantity { raw: raw_magnitude(value, precision as nat) as u128, precision })
    }
}

/// The quantity that a text denotes at a precision.
pub open spec fn parsed_quantity(text: Seq<char>, precision: u8) -> Result<Quantity, FieldError> {
    match parsed_decimal(text) {
        Some(value) => quantity_of(value, precision),
        None => Err(FieldError::NotADecimal),
    }
}

impl Quantity {
    /// The quantity nearest to `value` with `precision` fractional digits.
    pub fn from_decimal(value: &DecimalValue, precision: u8) -> (r: Result<Quantity, FieldError>)
        requires
            value.wf(),
        ensures
            r == quantity_of(*value, precision),
    {
        if precision > FIXED_PRECISION {
            return Err(FieldError::Precision);
        }
        if value.mantissa < 0 {
            return Err(FieldError::OutOfRange);
        }
        match fixed_from_decimal(value, precision, QUANTITY_RAW_MAX) {
            Some(raw) => Ok(Quantity { raw: raw as u128, precision }),
            None => Err(FieldError::OutOfRange),
        }
    }

    /// Reads a quantity with `precision` fractional digits.
    pub fn parse(text: &str, precision: u8) -> (r: Result<Quantity, FieldError>)
        ensures
            r == parsed_quantity(text@, precision),
    {
        match DecimalValue::parse(text) {
            Some(value) => Quantity::from_decimal(&value, precision),
            None => Err(FieldError::NotADecimal),
        }
    }
}

/// The last `width` decimal digits of `n`, leading zeros included.
fn render_padded(n: u128, width: u32) -> (r: String)
    ensures
        r@ == padded_text(n as nat, width as nat),
    decreases width,
{
    if width == 0 {
        String::new()
    } else {
        let mut s = render_padded(n / 10, width - 1);
        let last = render_u128(n % 10);
        s.append(last.as_str());
        s
    }
}

/// A raw value as text with exactly `precision` fractional digits.
fn render_fixed(raw: u128, precision: u8) -> (r: String)
    requires
        precision <= FIXED_PRECISION,
    ensures
        r@ == fixed_text(raw as nat, precision as nat),
{
    let digits: u32 = precision as u32;
    proof {
        lemma_pow10_positive((16 - digits) as nat);
        lemma_pow10_positive(digits as nat);
    }
    let units: u128 = raw / power_of_ten(16 - digits);
    let mut s = render_u128(units / power_of_ten(digits));
    if digits > 0 {
        let fraction = render_padded(units % power_of_ten(digits), digits);
        s.append(".");
        s.append(fraction.as_str());
    }
    s
}

/// The quantity that a text denotes, with as many fractional digits as the text has.
pub open spec fn written_quantity(text: Seq<char>) -> Result<Quantity, FieldError> {
    match parsed_decimal(text) {
        Some(value) => quantity_of(value, value.scale as u8),
        None => Err(FieldError::NotADecimal),
    }
}

impl Quantity {
    /// Reads a quantity with as many fractional digits as the text has.
    pub fn read(text: &str) -> (r: Result<Quantity, FieldError>)
        ensures
            r == written_quantity(text@),
    {
        match DecimalValue::parse(text) {
            Some(value) => Quantity::from_decimal(&value, value.scale as u8),
            None => Err(FieldError::NotADecimal),
        }
    }
}

impl Quantity {
    /// The quantity as text.
    pub open spec fn text(self) -> Seq<char> {
        fixed_text(self.raw as nat, self.precision as nat)
    }

    /// Renders the quantity with its fractional digits.
    pub fn render(&self) -> (r: String)
        requires
            self.precision <= FIXED_PRECISION,
        ensures
            r@ == self.text(),
    {
        render_fixed(self.raw, self.precision)
    }
}

impl Price {
    /// The price as text.
    pub open spec fn text(self) -> Seq<char> {
        if self.raw < 0 {
            "-"@ + fixed_text(magnitude(self.raw as int), self.precision as nat)
        } else {
            fixed_text(magnitude(self.raw as int), self.precision as nat)
        }
    }

    /// Renders the price with its fractional digits.
    pub fn render(&self) -> (r: String)
        requires
            self.precision <= FIXED_PRECISION,
            self.raw > i128::MIN,
        ensures
            r@ == self.text(),
    {
        if self.raw < 0 {
            let digits = render_fixed((-self.raw) as u128, self.precision);
            let mut s = "-".to_owned();
            s.append(digits.as_str());
            s
        } else {
            render_fixed(self.raw as u128, self.precision)
        }
    }
}

/// A currency: its code and how many fractional digits its amounts have.
#[derive(Debug, PartialEq, Eq)]
pub struct Currency {
    /// Code of the currency.
    pub code: String,
    /// Fractional digits of its amounts.
    pub precision: u8,
}

impl Clone for Currency {
    fn clone(&self) -> (copy: Self)
        ensures
            copy == *self,
    {
        Currency { code: self.code.clone(), precision: self.precision }
    }
}

/// An amount of one currency, in raw units of `10^-16`.
#[derive(Debug, PartialEq, Eq)]
pub struct Money {
    /// Raw value.
    pub raw: i128,
    /// Currency of the amount.
    pub currency: Currency,
}

impl Clone for Money {
    fn clone(&self) -> (copy: Self)
        ensures
            copy == *self,
    {
        Money { raw: self.raw, currency: self.currency.clone() }
    }
}

/// The raw value of an amount of a currency with `precision` fractional digits.
pub open spec fn money_raw_of(value: DecimalValue, precision: u8) -> Result<i128, FieldError> {
    if precision > FIXED_PRECISION {
        Err(FieldError::Precision)
    } else if raw_magnitude(value, precision as nat) > SIGNED_RAW_MAX {
        Err(FieldError::OutOfRange)
    } else {
        Ok(fixed_raw(value, precision as nat) as i128)
    }
}

impl Money {
    /// The amount of `currency` nearest to `value`.
    pub fn from_decimal(value: &DecimalValue, currency: &Currency) -> (r: Result<
        Money,
        FieldError,
    >)
        requires
            value.wf(),
        ensures
            match money_raw_of(*value, currency.precision) {
                Ok(raw) => r == Ok::<Money, FieldError>(Money { raw, currency: *currency }),
                Err(e) => r == Err::<Money, FieldError>(e),
            },
    {
        if currency.precision > FIXED_PRECISION {
            return Err(FieldError::Precision);
        }
        match fixed_from_decimal(value, currency.precision, SIGNED_RAW_MAX) {
            Some(raw) => Ok(Money { raw, currency: currency.clone() }),
            None => Err(FieldError::OutOfRange),
        }
    }
}

/// The currencies known so far, by code, with the fractional digits of each.
pub struct CurrencyRegistry {
    precisions: StringHashMap<u8>,
}

impl View for CurrencyRegistry {
    type V = Map<Seq<char>, u8>;

    closed spec fn view(&self) -> Map<Seq<char>, u8> {
        self.precisions@
    }
}

/// The fractional digits of the currency `code` once it is known.
pub open spec fn crypto_precision(known: Map<Seq<char>, u8>, code: Seq<char>) -> u8 {
    if known.contains_key(code) {
        known[code]
    } else {
        CRYPTO_PRECISION
    }
}

impl CurrencyRegistry {
    /// A registry that knows no currency.
    pub fn new() -> (r: Self)
        ensures
            r@ == Map::<Seq<char>, u8>::empty(),
    {
        CurrencyRegistry { precisions: StringHashMap::new() }
    }

    /// Makes a currency known, replacing what was known under its code.
    pub fn register(&mut self, code: &str, precision: u8)
        ensures
            final(self)@ == old(self)@.insert(code@, precision),
    {
        self.precisions.insert(code.to_owned(), precision);
    }

    /// The currency `code`; one that is not known yet is made known as a crypto currency.
    pub fn get_or_create_crypto(&mut self, code: &str) -> (r: Currency)
        ensures
            r.code@ == code@,
            r.precision == crypto_precision(old(self)@, code@),
            final(self)@ == old(self)@.insert(code@, crypto_precision(old(self)@, code@)),
    {
        let known = match self.precisions.get(code) {
            Some(precision) => Some(*precision),
            None => None,
        };
        let precision: u8 = match known {
            Some(precision) => precision,
            None => CRYPTO_PRECISION,
        };
        self.precisions.insert(code.to_owned(), precision);
        Currency { code: code.to_owned(), precision }
    }
}

/// Rounding moves a number by at most half a unit.
pub proof fn law_rounding_is_nearest(n: nat, d: nat)
    requires
        d > 0,
    ensures
        2 * n <= 2 * round_half_even(n, d) * d + d,
        2 * round_half_even(n, d) * d <= 2 * n + d,
{
    let q = (n / d) as int;
    let r = (n % d) as int;
    let di = d as int;
    assert(n as int == q * di + r) by (nonlinear_arith)
        requires
            q == n as int / di,
            r == n as int % di,
            di > 0,
            n >= 0,
            d == di,
    ;
    assert((q + 1) * di == q * di + di) by (nonlinear_arith);
    assert(2 * q * di == 2 * (q * di)) by (nonlinear_arith);
    assert(2 * (q + 1) * di == 2 * ((q + 1) * di)) by (nonlinear_arith);
}

/// A quantity read at a precision that holds every digit of the text is exact.
pub proof fn law_exact_when_precision_suffices(value: DecimalValue, precision: nat)
    requires
        value.wf(),
        value.scale <= precision <= FIXED_PRECISION,
    ensures
        raw_magnitude(value, precision) == magnitude(value.mantissa as int) * pow10(
            (FIXED_PRECISION - value.scale) as nat,
        ),
{
    let m = magnitude(value.mantissa as int) as int;
    let a = pow10((precision - value.scale) as nat) as int;
    let b = pow10((FIXED_PRECISION - precision) as nat) as int;
    lemma_pow10_add((precision - value.scale) as nat, (FIXED_PRECISION - precision) as nat);
    assert((m * a) * b == m * (a * b)) by (nonlinear_arith);
    assert((precision - value.scale) + (FIXED_PRECISION - precision) == FIXED_PRECISION
        - value.scale);
}

} // verus!
