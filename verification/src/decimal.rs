//! Decimal numbers as a mantissa and a scale, read and ordered by `rust_decimal`.

use vstd::prelude::*;

verus! {

/// Ten to the power `n`.
pub open spec fn pow10(n: nat) -> nat
    decreases n,
{
    if n == 0 {
        1
    } else {
        10 * pow10((n - 1) as nat)
    }
}

/// Largest magnitude of a decimal mantissa, `2^96 - 1`.
pub const MAX_MANTISSA: i128 = 0xffff_ffff_ffff_ffff_ffff_ffff;

/// Largest number of fractional digits of a decimal.
pub const MAX_SCALE: u32 = 28;

/// The decimal number `mantissa / 10^scale`.
#[derive(Clone, Copy, Debug, PartialEq, Eq, Structural)]
pub struct DecimalValue {
    /// Digits of the number, with its sign.
    pub mantissa: i128,
    /// How many of the digits are fractional.
    pub scale: u32,
}

impl DecimalValue {
    /// Whether the number is one that a decimal can hold.
    pub open spec fn wf(self) -> bool {
        &&& -MAX_MANTISSA <= self.mantissa <= MAX_MANTISSA
        &&& self.scale <= MAX_SCALE
    }

    /// Whether this number is at most `other`, compared by cross multiplication.
    pub open spec fn le(self, other: DecimalValue) -> bool {
        self.mantissa * pow10(other.scale as nat) <= other.mantissa * pow10(self.scale as nat)
    }
}

/// The mantissa and the scale of the decimal that a text denotes, as `rust_decimal` reads it.
pub uninterp spec fn decimal_of_text(text: Seq<char>) -> Option<(i128, u32)>;

/// Reads a text with `<rust_decimal::Decimal as FromStr>::from_str` and takes the result apart
/// with `Decimal::mantissa` and `Decimal::scale`.
///
/// Trusted: what is read depends on the text alone, the mantissa stays within 96 bits and the
/// scale within 28. Which texts are decimals, and which decimals they are, is left to the crate.
#[verifier::external_body]
fn decimal_from_str(text: &str) -> (r: Option<(i128, u32)>)
    ensures
        r == decimal_of_text(text@),
        r matches Some(parts) ==> -MAX_MANTISSA <= parts.0 <= MAX_MANTISSA && parts.1 <= MAX_SCALE,
{
    match <rust_decimal::Decimal as core::str::FromStr>::from_str(text) {
        Ok(value) => Some((value.mantissa(), value.scale())),
        Err(_) => None,
    }
}

/// Compares two decimals with the `<=` of `rust_decimal::Decimal`, built by
/// `Decimal::from_i128_with_scale`.
///
/// Trusted: the order is that of the numbers `mantissa / 10^scale`, whatever their scales.
#[verifier::external_body]
fn decimal_at_most(a: DecimalValue, b: DecimalValue) -> (r: bool)
    requires
        a.wf(),
        b.wf(),
    ensures
        r == a.le(b),
{
    rust_decimal::Decimal::from_i128_with_scale(a.mantissa, a.scale)
        <= rust_decimal::Decimal::from_i128_with_scale(b.mantissa, b.scale)
}

/// The decimal that a text denotes.
pub open spec fn parsed_decimal(text: Seq<char>) -> Option<DecimalValue> {
    match decimal_of_text(text) {
        Some(parts) => Some(DecimalValue { mantissa: parts.0, scale: parts.1 }),
        None => None,
    }
}

/// Powers of ten are positive.
pub proof fn lemma_pow10_positive(n: nat)
    ensures
        pow10(n) > 0,
    decreases n,
{
    if n > 0 {
        lemma_pow10_positive((n - 1) as nat);
    }
}

/// Powers of ten multiply by adding their exponents.
pub proof fn lemma_pow10_add(a: nat, b: nat)
    ensures
        pow10(a) * pow10(b) == pow10(a + b),
    decreases a,
{
    if a == 0 {
        assert(pow10(0) == 1);
        assert(1 * pow10(b) == pow10(b));
    } else {
        lemma_pow10_add((a - 1) as nat, b);
        let p = pow10((a - 1) as nat) as int;
        let q = pow10(b) as int;
        assert((10 * p) * q == 10 * (p * q)) by (nonlinear_arith);
        assert(pow10(a + b) == 10 * pow10((a + b - 1) as nat));
    }
}

/// A larger exponent gives a larger power of ten.
pub proof fn lemma_pow10_monotone(a: nat, b: nat)
    requires
        a <= b,
    ensures
        pow10(a) <= pow10(b),
    decreases b,
{
    if a < b {
        lemma_pow10_monotone(a, (b - 1) as nat);
    }
}

impl DecimalValue {
    /// Reads a decimal number.
    pub fn parse(text: &str) -> (r: Option<DecimalValue>)
        ensures
            r == parsed_decimal(text@),
            r matches Some(value) ==> value.wf(),
    {
        match decimal_from_str(text) {
            Some(parts) => Some(DecimalValue { mantissa: parts.0, scale: parts.1 }),
            None => None,
        }
    }

    /// Whether this number is at most `other`.
    pub fn at_most(&self, other: &DecimalValue) -> (r: bool)
        requires
            self.wf(),
            other.wf(),
        ensures
            r == self.le(*other),
    {
        decimal_at_most(*self, *other)
    }

    /// Whether this number is greater than zero.
    pub fn is_positive(&self) -> (r: bool)
        requires
            self.wf(),
        ensures
            r == (self.mantissa > 0),
    {
        proof {
            lemma_pow10_positive(self.scale as nat);
            assert(pow10(0) == 1);
        }
        !self.at_most(&DecimalValue { mantissa: 0, scale: 0 })
    }
}

/// The order of decimals is total, and antisymmetric up to the number denoted.
pub proof fn law_decimal_order_is_total(a: DecimalValue, b: DecimalValue)
    ensures
        a.le(b) || b.le(a),
        a.le(b) && b.le(a) <==> a.mantissa * pow10(b.scale as nat) == b.mantissa * pow10(
            a.scale as nat,
        ),
{
}

} // verus!
