//! What holds of every number and text: values are read to the nearest unit and written out digit
//! by digit.

use crate::anomaly::FillValidationErrorV1;
use crate::binance_truth::{lemma_precedes_irreflexive, precedes, ExactOrders};
use crate::commands::RefusalView;
use crate::decimal::{
    decimal_of_text, lemma_pow10_add, lemma_pow10_positive, parsed_decimal, pow10, DecimalValue,
};
use crate::enums::{BinanceSpotOrderType, OrderType, TimeInForce};
use crate::execution_persistence::{ExecutionWriteActivationError, ExecutionWriteKind};
use crate::execution_write::GateErrorView;
use crate::identifiers::{
    AccountId, ClientId, ClientOrderId, InstrumentId, StrategyId, TradeId, TraderId, VenueOrderId,
    UUID4,
};
use crate::orders::{Order, ParamsError, ParamsErrorView};
use crate::reports::BinanceSpotExecutionReport;
use crate::text::{
    all_digits, digits_value, i64_of_text, int_of_text, int_text, is_digit, nat_text, opt_text,
    unsigned_part,
};
use crate::types::{
    crypto_precision, fixed_text, magnitude, money_raw_of, padded_text, parsed_price,
    parsed_quantity, price_of, quantity_of, raw_magnitude, round_half_even, units_at_precision,
    written_price, written_quantity, FieldError, Price, Quantity,
};
use vstd::prelude::*;

verus! {

/// Whether `raw`, in units of `10^-16`, is the value with `precision` fractional digits that is
/// nearest to `mantissa / 10^scale`, the even one of two that are equally near.
pub open spec fn nearest(raw: int, mantissa: int, scale: nat, precision: nat) -> bool {
    let unit = pow10((16 - precision) as nat) as int;
    let off = raw * pow10(scale) - mantissa * pow10(16);
    let reach = unit * pow10(scale);
    &&& raw % unit == 0
    &&& -reach <= 2 * off <= reach
    &&& 2 * off == reach || 2 * off == -reach ==> (raw / unit) % 2 == 0
}

/// Powers of ten.
pub proof fn law_powers_of_ten(n: nat)
    ensures
        pow10(0) == 1,
        pow10(n + 1) == 10 * pow10(n),
{
}

/// Rounding gives the nearest integer, and the even one of two that are equally near.
pub proof fn law_rounding_is_nearest_and_even(n: nat, d: nat)
    requires
        d > 0,
    ensures
        ({
            let r = round_half_even(n, d);
            let off = r * d - n;
            &&& -d <= 2 * off <= d
            &&& 2 * off == d || 2 * off == -d ==> r % 2 == 0
        }),
{
    let q = (n / d) as int;
    let r = (n % d) as int;
    let di = d as int;
    assert(n as int == q * di + r && 0 <= r < di) by (nonlinear_arith)
        requires
            q == n as int / di,
            r == n as int % di,
            di > 0,
    ;
    assert((q + 1) * di == q * di + di) by (nonlinear_arith);
}

proof fn lemma_raw_magnitude(value: DecimalValue, precision: nat)
    requires
        precision <= 16,
    ensures
        ({
            let unit = pow10((16 - precision) as nat) as int;
            let raw = raw_magnitude(value, precision) as int;
            let units = units_at_precision(
                magnitude(value.mantissa as int),
                value.scale as nat,
                precision,
            ) as int;
            let off = raw * pow10(value.scale as nat) - magnitude(value.mantissa as int) * pow10(
                16,
            );
            let reach = unit * pow10(value.scale as nat);
            &&& unit > 0
            &&& reach > 0
            &&& raw == units * unit
            &&& -reach <= 2 * off <= reach
            &&& 2 * off == reach || 2 * off == -reach ==> units % 2 == 0
        }),
{
    let s = value.scale as nat;
    let m = magnitude(value.mantissa as int);
    let unit = pow10((16 - precision) as nat) as int;
    let units = units_at_precision(m, s, precision) as int;
    let p = pow10(precision) as int;
    let t = pow10(s) as int;
    lemma_pow10_positive((16 - precision) as nat);
    lemma_pow10_positive(precision);
    lemma_pow10_positive(s);
    lemma_pow10_add((16 - precision) as nat, precision);
    assert(unit * t > 0) by (nonlinear_arith)
        requires
            unit > 0,
            t > 0,
    ;
    if precision >= s {
        let e = pow10((precision - s) as nat) as int;
        lemma_pow10_add((precision - s) as nat, s);
        assert((m * e) * unit * t == m * (unit * p)) by (nonlinear_arith)
            requires
                e * t == p,
        ;
    } else {
        let d = pow10((s - precision) as nat);
        let di = d as int;
        lemma_pow10_positive((s - precision) as nat);
        lemma_pow10_add((s - precision) as nat, precision);
        law_rounding_is_nearest_and_even(m, d);
        let off = units * di - m;
        let k = unit * p;
        assert(k > 0) by (nonlinear_arith)
            requires
                unit > 0,
                p > 0,
                k == unit * p,
        ;
        assert(units * unit * t - m * k == k * off) by (nonlinear_arith)
            requires
                t == di * p,
                k == unit * p,
                off == units * di - m,
        ;
        assert(unit * t == k * di) by (nonlinear_arith)
            requires
                t == di * p,
                k == unit * p,
        ;
        assert(-(k * di) <= 2 * (k * off) <= k * di) by (nonlinear_arith)
            requires
                k > 0,
                -di <= 2 * off <= di,
        ;
        assert(2 * (k * off) == k * di ==> 2 * off == di) by (nonlinear_arith)
            requires
                k > 0,
        ;
        assert(2 * (k * off) == -(k * di) ==> 2 * off == -di) by (nonlinear_arith)
            requires
                k > 0,
        ;
    }
}

proof fn lemma_nearest(value: DecimalValue, precision: nat)
    requires
        precision <= 16,
    ensures
        ({
            let raw = raw_magnitude(value, precision) as int;
            &&& value.mantissa >= 0 ==> nearest(
                raw,
                value.mantissa as int,
                value.scale as nat,
                precision,
            )
            &&& value.mantissa < 0 ==> nearest(
                -raw,
                value.mantissa as int,
                value.scale as nat,
                precision,
            )
        }),
{
    lemma_raw_magnitude(value, precision);
    let unit = pow10((16 - precision) as nat) as int;
    let raw = raw_magnitude(value, precision) as int;
    let units = units_at_precision(magnitude(value.mantissa as int), value.scale as nat, precision);
    let t = pow10(value.scale as nat) as int;
    let m = magnitude(value.mantissa as int) as int;
    let h = pow10(16) as int;
    vstd::arithmetic::div_mod::lemma_mod_multiples_basic(units as int, unit);
    vstd::arithmetic::div_mod::lemma_div_multiples_vanish(units as int, unit);
    assert(units * unit == unit * units) by (nonlinear_arith);
    if value.mantissa < 0 {
        let n = -(units as int);
        assert(n * unit == -raw) by (nonlinear_arith)
            requires
                n == -(units as int),
                raw == units * unit,
        ;
        assert(unit * n == n * unit) by (nonlinear_arith);
        vstd::arithmetic::div_mod::lemma_mod_multiples_basic(n, unit);
        vstd::arithmetic::div_mod::lemma_div_multiples_vanish(n, unit);
        assert((-raw) * t == -(raw * t)) by (nonlinear_arith);
        assert((-m) * h == -(m * h)) by (nonlinear_arith);
    }
}

/// A decimal is read as the price nearest to it that has the digits asked for. It is none exactly
/// when more digits are asked for than a price has, or that price is beyond the largest.
pub proof fn law_price_is_the_nearest(value: DecimalValue, precision: u8)
    ensures
        precision > 16 <==> price_of(value, precision) == Err::<Price, FieldError>(
            FieldError::Precision,
        ),
        price_of(value, precision) matches Ok(price) ==> {
            &&& price.precision == precision
            &&& nearest(
                price.raw as int,
                value.mantissa as int,
                value.scale as nat,
                precision as nat,
            )
            &&& -170_141_183_460_460_000_000_000_000_000 <= price.raw
                <= 170_141_183_460_460_000_000_000_000_000
        },
        price_of(value, precision) == Err::<Price, FieldError>(FieldError::OutOfRange) ==> exists|
            raw: int,
        |
            {
                &&& #[trigger] nearest(
                    raw,
                    value.mantissa as int,
                    value.scale as nat,
                    precision as nat,
                )
                &&& raw > 170_141_183_460_460_000_000_000_000_000 || raw
                    < -170_141_183_460_460_000_000_000_000_000
            },
        price_of(value, precision) != Err::<Price, FieldError>(FieldError::NotADecimal),
{
    if precision <= 16 {
        lemma_nearest(value, precision as nat);
    }
}

/// A decimal is read as the quantity nearest to it that has the digits asked for. It is none
/// exactly when more digits are asked for than a quantity has, the decimal is negative, or that
/// quantity is beyond the largest.
pub proof fn law_quantity_is_the_nearest(value: DecimalValue, precision: u8)
    ensures
        precision > 16 <==> quantity_of(value, precision) == Err::<Quantity, FieldError>(
            FieldError::Precision,
        ),
        quantity_of(value, precision) matches Ok(quantity) ==> {
            &&& value.mantissa >= 0
            &&& quantity.precision == precision
            &&& nearest(
                quantity.raw as int,
                value.mantissa as int,
                value.scale as nat,
                precision as nat,
            )
            &&& quantity.raw <= 340_282_366_920_930_000_000_000_000_000
        },
        quantity_of(value, precision) == Err::<Quantity, FieldError>(FieldError::OutOfRange) ==> {
            ||| value.mantissa < 0
            ||| exists|raw: int|
                {
                    &&& #[trigger] nearest(
                        raw,
                        value.mantissa as int,
                        value.scale as nat,
                        precision as nat,
                    )
                    &&& raw > 340_282_366_920_930_000_000_000_000_000
                }
        },
        quantity_of(value, precision) != Err::<Quantity, FieldError>(FieldError::NotADecimal),
{
    if precision <= 16 {
        lemma_nearest(value, precision as nat);
    }
}

/// A decimal is read as the amount nearest to it that has the digits of its currency, within the
/// range of a price.
pub proof fn law_money_is_the_nearest(value: DecimalValue, precision: u8)
    ensures
        precision > 16 <==> money_raw_of(value, precision) == Err::<i128, FieldError>(
            FieldError::Precision,
        ),
        money_raw_of(value, precision) is Ok <==> price_of(value, precision) is Ok,
        money_raw_of(value, precision) matches Ok(raw) ==> nearest(
            raw as int,
            value.mantissa as int,
            value.scale as nat,
            precision as nat,
        ) && raw == price_of(value, precision)->Ok_0.raw,
        money_raw_of(value, precision) matches Err(e) ==> price_of(value, precision) == Err::<
            Price,
            FieldError,
        >(e),
{
    if precision <= 16 {
        lemma_nearest(value, precision as nat);
    }
}

/// The nearest value is one: no two are.
pub proof fn law_nearest_is_unique(a: int, b: int, mantissa: int, scale: nat, precision: nat)
    requires
        precision <= 16,
        nearest(a, mantissa, scale, precision),
        nearest(b, mantissa, scale, precision),
    ensures
        a == b,
{
    let unit = pow10((16 - precision) as nat) as int;
    let t = pow10(scale) as int;
    let h = mantissa * pow10(16);
    lemma_pow10_positive((16 - precision) as nat);
    lemma_pow10_positive(scale);
    vstd::arithmetic::div_mod::lemma_fundamental_div_mod(a, unit);
    vstd::arithmetic::div_mod::lemma_fundamental_div_mod(b, unit);
    let x = a / unit;
    let y = b / unit;
    let reach = unit * t;
    assert(reach > 0) by (nonlinear_arith)
        requires
            unit > 0,
            t > 0,
            reach == unit * t,
    ;
    assert(a * t == x * reach) by (nonlinear_arith)
        requires
            a == unit * x,
            reach == unit * t,
    ;
    assert(b * t == y * reach) by (nonlinear_arith)
        requires
            b == unit * y,
            reach == unit * t,
    ;
    assert(x * reach - y * reach == (x - y) * reach) by (nonlinear_arith);
    assert(-1 <= x - y <= 1) by (nonlinear_arith)
        requires
            reach > 0,
            -reach <= (x - y) * reach <= reach,
    ;
    if x - y == 1 {
        assert((x - y) * reach == reach) by (nonlinear_arith)
            requires
                x - y == 1,
        ;
        assert(2 * (a * t - h) == reach);
        assert(2 * (b * t - h) == -reach);
    } else if x - y == -1 {
        assert((x - y) * reach == -reach) by (nonlinear_arith)
            requires
                x - y == -1,
        ;
        assert(2 * (a * t - h) == -reach);
        assert(2 * (b * t - h) == reach);
    }
}

/// A text that is no decimal is no price and no quantity, and one that is is read as its decimal;
/// with the digits that the text has, where none are asked for.
pub proof fn law_texts_are_read_as_their_decimal(text: Seq<char>, precision: u8)
    ensures
        parsed_decimal(text) is Some <==> decimal_of_text(text) is Some,
        parsed_decimal(text) matches Some(value) ==> {
            &&& value.mantissa == (decimal_of_text(text)->0).0
            &&& value.scale == (decimal_of_text(text)->0).1
            &&& parsed_price(text, precision) == price_of(value, precision)
            &&& parsed_quantity(text, precision) == quantity_of(value, precision)
            &&& value.scale <= 28 ==> written_price(text) == price_of(value, value.scale as u8)
            &&& value.scale <= 28 ==> written_quantity(text) == quantity_of(
                value,
                value.scale as u8,
            )
        },
        parsed_decimal(text) is None ==> {
            &&& parsed_price(text, precision) == Err::<Price, FieldError>(FieldError::NotADecimal)
            &&& parsed_quantity(text, precision) == Err::<Quantity, FieldError>(
                FieldError::NotADecimal,
            )
            &&& written_price(text) == Err::<Price, FieldError>(FieldError::NotADecimal)
            &&& written_quantity(text) == Err::<Quantity, FieldError>(FieldError::NotADecimal)
        },
{
}

/// A decimal has at most 96 bits of digits, of which at most 28 are fractional.
pub proof fn law_decimals_are_bounded(value: DecimalValue)
    ensures
        value.wf() <==> -79_228_162_514_264_337_593_543_950_335 <= value.mantissa
            <= 79_228_162_514_264_337_593_543_950_335 && value.scale <= 28,
{
}

/// Decimals are in order as the numbers they denote are.
pub proof fn law_decimals_are_in_order(a: DecimalValue, b: DecimalValue)
    ensures
        a.le(b) <==> a.mantissa * pow10(b.scale as nat) <= b.mantissa * pow10(a.scale as nat),
{
}

/// The currency of a commission has the digits that are known of it, or eight.
pub proof fn law_unknown_currency_has_eight_digits(known: Map<Seq<char>, u8>, code: Seq<char>)
    ensures
        known.contains_key(code) ==> crypto_precision(known, code) == known[code],
        !known.contains_key(code) ==> crypto_precision(known, code) == 8,
{
}

/// A number is written with its digits, the last of them last, and a minus sign before a negative
/// one.
pub proof fn law_numbers_are_written_in_digits(n: nat, i: int)
    ensures
        n < 10 ==> nat_text(n).len() == 1 && nat_text(n)[0] as int == 48 + n,
        n >= 10 ==> {
            &&& nat_text(n).len() == nat_text(n / 10).len() + 1
            &&& nat_text(n).drop_last() == nat_text(n / 10)
            &&& nat_text(n).last() as int == 48 + n % 10
        },
        i >= 0 ==> int_text(i) == nat_text(i as nat),
        i < 0 ==> {
            &&& int_text(i).len() == 1 + nat_text((-i) as nat).len()
            &&& int_text(i)[0] == '-'
            &&& int_text(i).skip(1) == nat_text((-i) as nat)
        },
{
    if n >= 10 {
        assert(nat_text(n).drop_last() =~= nat_text(n / 10));
    }
    if i < 0 {
        assert(int_text(i).skip(1) =~= nat_text((-i) as nat));
    }
}

/// Digits denote a number by their places. A text denotes an integer exactly when it is digits, at
/// least one, with or without a sign before them; and one of 64 bits exactly when that is in range.
pub proof fn law_integers_are_read_from_digits(digits: Seq<char>, c: char)
    requires
        '0' <= c <= '9',
        forall|k: int| 0 <= k < digits.len() ==> '0' <= #[trigger] digits[k] <= '9',
    ensures
        digits_value(Seq::empty()) == 0,
        digits_value(digits.push(c)) == 10 * digits_value(digits) + (c as int - 48),
        int_of_text(digits.push(c)) == Some(digits_value(digits.push(c)) as int),
        int_of_text(seq!['+'] + digits.push(c)) == Some(digits_value(digits.push(c)) as int),
        int_of_text(seq!['-'] + digits.push(c)) == Some(-(digits_value(digits.push(c)) as int)),
        i64_of_text(digits.push(c)) is Some <==> digits_value(digits.push(c))
            <= 9_223_372_036_854_775_807,
        i64_of_text(digits.push(c)) is Some ==> i64_of_text(digits.push(c))->0 == digits_value(
            digits.push(c),
        ),
        i64_of_text(seq!['-'] + digits.push(c)) is Some <==> digits_value(digits.push(c))
            <= 9_223_372_036_854_775_808,
        i64_of_text(seq!['-'] + digits.push(c)) is Some ==> i64_of_text(
            seq!['-'] + digits.push(c),
        )->0 == -digits_value(digits.push(c)),
{
    let all = digits.push(c);
    assert(all.drop_last() =~= digits);
    assert forall|k: int| 0 <= k < all.len() implies is_digit(#[trigger] all[k]) by {
        if k < digits.len() {
            assert(all[k] == digits[k]);
        }
    }
    assert(all_digits(all));
    assert(is_digit(all[0]));
    assert(unsigned_part(all) == all);
    let minus = seq!['-'] + all;
    let plus = seq!['+'] + all;
    assert(minus.skip(1) =~= all);
    assert(plus.skip(1) =~= all);
}

/// A text with anything but digits behind its sign, or with nothing there, denotes no integer.
pub proof fn law_other_texts_are_no_integers(text: Seq<char>, k: int)
    ensures
        text.len() == 0 ==> int_of_text(text) is None && i64_of_text(text) is None,
        text.len() == 1 && (text[0] == '-' || text[0] == '+') ==> int_of_text(text) is None
            && i64_of_text(text) is None,
        0 <= k < text.len() && !('0' <= text[k] <= '9') && (k > 0 || (text[0] != '-' && text[0]
            != '+')) ==> int_of_text(text) is None && i64_of_text(text) is None,
{
    if 0 <= k < text.len() && !('0' <= text[k] <= '9') {
        let part = unsigned_part(text);
        if text.len() > 0 && (text[0] == '-' || text[0] == '+') {
            if k > 0 {
                assert(part[k - 1] == text[k]);
                assert(!is_digit(part[k - 1]));
            }
        } else {
            assert(!is_digit(part[k]));
        }
    }
}

proof fn lemma_padded(n: nat, width: nat, j: int)
    requires
        0 <= j < width,
    ensures
        padded_text(n, width).len() == width,
        padded_text(n, width)[j] as int == 48 + (n as int / pow10((width - 1 - j) as nat) as int)
            % 10,
    decreases width,
{
    let rest = padded_text(n / 10, (width - 1) as nat);
    lemma_padded_len(n / 10, (width - 1) as nat);
    if j == width - 1 {
        assert(pow10(0) == 1);
        assert(n as int / 1 == n);
    } else {
        lemma_padded(n / 10, (width - 1) as nat, j);
        let e = (width - 2 - j) as nat;
        lemma_pow10_positive(e);
        assert(pow10((width - 1 - j) as nat) == 10 * pow10(e));
        vstd::arithmetic::div_mod::lemma_div_denominator(n as int, 10, pow10(e) as int);
    }
}

proof fn lemma_padded_len(n: nat, width: nat)
    ensures
        padded_text(n, width).len() == width,
    decreases width,
{
    if width > 0 {
        lemma_padded_len(n / 10, (width - 1) as nat);
    }
}

proof fn lemma_padded_mod(n: nat, width: nat)
    ensures
        padded_text(n % pow10(width), width) == padded_text(n, width),
    decreases width,
{
    if width > 0 {
        let e = pow10((width - 1) as nat);
        lemma_pow10_positive((width - 1) as nat);
        lemma_padded_mod(n / 10, (width - 1) as nat);
        vstd::arithmetic::div_mod::lemma_mod_breakdown(n as int, 10, e as int);
        assert(n % pow10(width) == 10 * ((n / 10) % e) + n % 10);
        assert((n % pow10(width)) / 10 == (n / 10) % e);
        assert((n % pow10(width)) % 10 == n % 10);
    }
}

proof fn lemma_pow10_16()
    ensures
        pow10(16) == 10_000_000_000_000_000,
{
    reveal_with_fuel(pow10, 17);
}

proof fn lemma_fraction_digit(raw: nat, precision: nat, j: int)
    requires
        0 <= j < precision <= 16,
    ensures
        ({
            let units = raw / pow10((16 - precision) as nat);
            padded_text(units % pow10(precision), precision)[j] as int == 48 + (raw as int / pow10(
                (15 - j) as nat,
            ) as int) % 10
        }),
{
    let cut = pow10((16 - precision) as nat);
    let units = raw / cut;
    let e = (precision - 1 - j) as nat;
    lemma_pow10_positive((16 - precision) as nat);
    lemma_padded_mod(units, precision);
    lemma_padded(units, precision, j);
    lemma_pow10_positive(e);
    lemma_pow10_add((16 - precision) as nat, e);
    assert((16 - precision) as nat + e == (15 - j) as nat);
    vstd::arithmetic::div_mod::lemma_div_denominator(raw as int, cut as int, pow10(e) as int);
}

/// A raw value is written with exactly the digits asked for: its whole units, a point, and each
/// fractional digit in its place. Without fractional digits there is no point.
pub proof fn law_values_are_written_digit_by_digit(raw: nat, precision: nat, j: int)
    requires
        precision <= 16,
    ensures
        ({
            let text = fixed_text(raw, precision);
            let whole = nat_text((raw as int / 10_000_000_000_000_000) as nat);
            &&& precision == 0 ==> text == whole
            &&& precision > 0 ==> {
                &&& text.len() == whole.len() + 1 + precision
                &&& text.take(whole.len() as int) == whole
                &&& text[whole.len() as int] == '.'
                &&& 0 <= j < precision ==> text[whole.len() + 1 + j] as int == 48 + (raw as int
                    / pow10((15 - j) as nat) as int) % 10
            }
        }),
{
    let cut = pow10((16 - precision) as nat);
    let p = pow10(precision);
    let units = raw / cut;
    lemma_pow10_positive((16 - precision) as nat);
    lemma_pow10_positive(precision);
    lemma_pow10_add((16 - precision) as nat, precision);
    lemma_pow10_16();
    vstd::arithmetic::div_mod::lemma_div_denominator(raw as int, cut as int, p as int);
    let whole = nat_text(units / p);
    let text = fixed_text(raw, precision);
    if precision > 0 {
        reveal_strlit(".");
        lemma_padded_len(units % p, precision);
        assert(text.take(whole.len() as int) =~= whole);
        if 0 <= j < precision {
            lemma_fraction_digit(raw, precision, j);
        }
    }
}

/// A quantity and a price are written as their raw value is, a negative price with a minus sign.
pub proof fn law_prices_and_quantities_are_written(price: Price, quantity: Quantity)
    ensures
        quantity.text() == fixed_text(quantity.raw as nat, quantity.precision as nat),
        price.raw >= 0 ==> price.text() == fixed_text(price.raw as nat, price.precision as nat),
        price.raw < 0 ==> price.text() == "-"@ + fixed_text(
            (-price.raw) as nat,
            price.precision as nat,
        ),
{
}

/// Texts are told by what they hold.
pub proof fn law_identifiers_are_their_texts(
    text: Option<String>,
    account: AccountId,
    client: ClientId,
    order: ClientOrderId,
    instrument: InstrumentId,
    strategy: StrategyId,
    trade: TradeId,
    trader: TraderId,
    venue_order: VenueOrderId,
)
    ensures
        text is None <==> opt_text(text) is None,
        text matches Some(t) ==> opt_text(text) == Some(t@),
        account@ == account.0@,
        client@ == client.0@,
        order@ == order.0@,
        instrument@.0 == instrument.symbol@,
        instrument@.1 == instrument.venue@,
        strategy@ == strategy.0@,
        trade@ == trade.0@,
        trader@ == trader.0@,
        venue_order@ == venue_order.0@,
{
}

/// Each order type, time in force and kind of write is told by its own name.
pub proof fn law_names(
    order_type: OrderType,
    time_in_force: TimeInForce,
    spot_type: BinanceSpotOrderType,
    kind: ExecutionWriteKind,
)
    ensures
        order_type.name() == match order_type {
            OrderType::Market => "Market"@,
            OrderType::Limit => "Limit"@,
            OrderType::StopMarket => "StopMarket"@,
            OrderType::StopLimit => "StopLimit"@,
            OrderType::MarketToLimit => "MarketToLimit"@,
            OrderType::MarketIfTouched => "MarketIfTouched"@,
            OrderType::LimitIfTouched => "LimitIfTouched"@,
            OrderType::TrailingStopMarket => "TrailingStopMarket"@,
            OrderType::TrailingStopLimit => "TrailingStopLimit"@,
        },
        time_in_force.name() == match time_in_force {
            TimeInForce::Gtc => "Gtc"@,
            TimeInForce::Ioc => "Ioc"@,
            TimeInForce::Fok => "Fok"@,
            TimeInForce::Gtd => "Gtd"@,
            TimeInForce::Day => "Day"@,
            TimeInForce::AtTheOpen => "AtTheOpen"@,
            TimeInForce::AtTheClose => "AtTheClose"@,
        },
        spot_type.name() == match spot_type {
            BinanceSpotOrderType::Limit => "Limit"@,
            BinanceSpotOrderType::Market => "Market"@,
            BinanceSpotOrderType::StopLoss => "StopLoss"@,
            BinanceSpotOrderType::StopLossLimit => "StopLossLimit"@,
            BinanceSpotOrderType::TakeProfit => "TakeProfit"@,
            BinanceSpotOrderType::TakeProfitLimit => "TakeProfitLimit"@,
            BinanceSpotOrderType::LimitMaker => "LimitMaker"@,
        },
        kind.name() == match kind {
            ExecutionWriteKind::Submit => "Submit"@,
            ExecutionWriteKind::SubmitList => "SubmitList"@,
            ExecutionWriteKind::Modify => "Modify"@,
            ExecutionWriteKind::BatchModify => "BatchModify"@,
            ExecutionWriteKind::Cancel => "Cancel"@,
            ExecutionWriteKind::BatchCancel => "BatchCancel"@,
            ExecutionWriteKind::CancelAll => "CancelAll"@,
            ExecutionWriteKind::Retry => "Retry"@,
        },
{
}

/// What each failure says.
pub proof fn law_failures_say_what_failed(
    gate: GateErrorView,
    refusal: RefusalView,
    params: ParamsErrorView,
    field: FieldError,
)
    ensures
        gate.text() == match gate {
            GateErrorView::MissingGate => "execution write gate is missing"@,
            GateErrorView::Unsupported(kind) =>
                "execution write is unsupported in the first release: "@ + kind.name(),
            GateErrorView::InvalidContext(d) => "invalid execution write context: "@ + d,
            GateErrorView::Denied(d) => "execution write authority denied: "@ + d,
            GateErrorView::ArmRejected(d) => "final execution request rejected at arm: "@ + d,
        },
        refusal.text() == match refusal {
            RefusalView::OrderLookup(text) => text,
            RefusalView::ConditionalOrderType(t) =>
                "first-release Binance Spot rejects conditional order type "@ + t.name(),
            RefusalView::QuoteQuantity =>
                "first-release Binance Spot rejects quote-order quantity"@,
            RefusalView::TriggerPrice => "first-release Binance Spot rejects trigger price"@,
            RefusalView::DisplayQuantity => "first-release Binance Spot rejects display quantity"@,
            RefusalView::LimitWithoutPrice => "Binance Spot limit order requires a price"@,
            RefusalView::MarketWithPrice => "Binance Spot market order forbids a price"@,
            RefusalView::RetryDigest => "sae_retry_of must be 64 lowercase hex characters"@,
            RefusalView::TimeInForce(t) => "first-release Binance Spot rejects time in force "@
                + t.name(),
            RefusalView::CancelByVenueOrderId =>
                "first-release Binance Spot cancel requires exact ClientOrderId only"@,
        },
        params.text() == match params {
            ParamsErrorView::Side => "Unsupported order side for Binance: NoOrderSide"@,
            ParamsErrorView::OrderType(t) => "Unsupported order type for Binance Spot: "@
                + t.name(),
            ParamsErrorView::TimeInForce(t) => "Unsupported time in force for Binance Spot: "@
                + t.name(),
            ParamsErrorView::MissingTrigger => "Conditional orders require a trigger price"@,
            ParamsErrorView::VenueOrderId(id) => "Invalid venue order ID: "@ + id,
        },
        field.text() == match field {
            FieldError::NotADecimal => "not a decimal number"@,
            FieldError::Precision => "precision exceeds the fixed precision"@,
            FieldError::OutOfRange => "value out of range"@,
        },
{
}

/// What a fill that was not applied and an activation that failed say.
pub proof fn law_rejections_say_what_was_rejected(
    fill: FillValidationErrorV1,
    activation: ExecutionWriteActivationError,
)
    ensures
        fill.text() == match fill {
            FillValidationErrorV1::DuplicateFill => "duplicate fill"@,
            FillValidationErrorV1::DuplicatePositionFill => "duplicate position fill"@,
            FillValidationErrorV1::MissingCachedOrigin(id) => "missing cached client origin for "@
                + id.0@,
            FillValidationErrorV1::RejectedOverfill(event) => "rejected overfill for "@
                + event.client_order_id.0@ + " from "@ + event.client_id.0@,
        },
        activation.text() == match activation {
            ExecutionWriteActivationError::MissingActivator =>
                "persisted execution write activator is missing"@,
            ExecutionWriteActivationError::Rejected(detail) =>
                "persisted execution write activation was rejected: "@ + detail@,
            ExecutionWriteActivationError::Receipt(detail) =>
                "persisted execution write receipt was rejected: "@ + detail@,
        },
{
}

/// An error of a request's parameters is the one that is spoken of.
pub proof fn law_params_error_is_kept(error: ParamsError)
    ensures
        error@ == match error {
            ParamsError::Side => ParamsErrorView::Side,
            ParamsError::OrderType(t) => ParamsErrorView::OrderType(t),
            ParamsError::TimeInForce(t) => ParamsErrorView::TimeInForce(t),
            ParamsError::MissingTrigger => ParamsErrorView::MissingTrigger,
            ParamsError::VenueOrderId(id) => ParamsErrorView::VenueOrderId(id@),
        },
{
}

/// Texts are in the order of their characters: a text comes after each that it continues, and two
/// that part come in the order of the characters they part at.
pub proof fn law_texts_are_in_order(a: Seq<char>, b: Seq<char>, k: int)
    requires
        0 <= k <= a.len(),
        k <= b.len(),
        a.take(k) == b.take(k),
    ensures
        k == a.len() && k < b.len() ==> precedes(a, b) && !precedes(b, a),
        k < a.len() && k < b.len() && a[k] < b[k] ==> precedes(a, b) && !precedes(b, a),
        a == b ==> !precedes(a, b),
    decreases k,
{
    if a == b {
        lemma_precedes_irreflexive(a);
    } else if k > 0 {
        assert(a[0] == a.take(k)[0] && b[0] == b.take(k)[0]);
        assert(a.skip(1).take(k - 1) =~= a.take(k).skip(1));
        assert(b.skip(1).take(k - 1) =~= b.take(k).skip(1));
        law_texts_are_in_order(a.skip(1), b.skip(1), k - 1);
    }
}

/// The results of exact-order queries are listed in the order of their IDs.
pub proof fn law_results_are_listed_in_order<R>(orders: ExactOrders<R>, i: int, j: int)
    requires
        orders.wf(),
        0 <= i < j < orders.listed().len(),
    ensures
        precedes((orders.listed()[i].0).0@, (orders.listed()[j].0).0@),
{
    assert(precedes(orders.listed()[i].0@, orders.listed()[j].0@));
}

/// A version 4 UUID is told by its version and variant bits.
pub proof fn law_version_bits(id: UUID4)
    ensures
        id.is_version_four() <==> id.bits & 0xf000_0000_0000_0000_0000u128
            == 0x4000_0000_0000_0000_0000u128 && id.bits & 0xc000_0000_0000_0000u128
            == 0x8000_0000_0000_0000u128,
{
}

/// A report is dated where its milliseconds since the epoch can be told in nanoseconds, and an
/// order can be written out where none of its numbers has more than sixteen fractional digits.
pub proof fn law_ranges(report: BinanceSpotExecutionReport, order: Order)
    ensures
        report.time_in_range() <==> 0 <= report.event_time && report.event_time * 1_000_000
            <= 0xffff_ffff_ffff_ffff,
        report.time_in_range() ==> report.ts_event().0 == report.event_time * 1_000_000,
        order.renders() <==> {
            &&& order.quantity.precision <= 16
            &&& order.price matches Some(p) ==> p.precision <= 16 && p.raw > i128::MIN
            &&& order.trigger_price matches Some(p) ==> p.precision <= 16 && p.raw > i128::MIN
            &&& order.display_qty matches Some(q) ==> q.precision <= 16
        },
{
}

} // verus!
