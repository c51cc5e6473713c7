use spot_execution::anomaly::{FillValidationErrorV1, RejectedOverfillV1};
use spot_execution::decimal::DecimalValue;
use spot_execution::identifiers::{
    AccountId, ClientId, ClientOrderId, InstrumentId, TradeId, UnixNanos, UUID4,
};
use spot_execution::text::{parse_i64, render_i128, render_u128};
use spot_execution::types::{Currency, CurrencyRegistry, FieldError, Money, Price, Quantity};

fn decimal(text: &str) -> DecimalValue {
    DecimalValue::parse(text).unwrap()
}

#[test]
fn decimals_keep_mantissa_and_scale() {
    assert_eq!(decimal("1.50"), DecimalValue { mantissa: 150, scale: 2 });
    assert_eq!(decimal("-0.001"), DecimalValue { mantissa: -1, scale: 3 });
    assert_eq!(decimal("42"), DecimalValue { mantissa: 42, scale: 0 });
    for text in ["", "abc", "1.2.3", "not-a-number"] {
        assert_eq!(DecimalValue::parse(text), None);
    }
}

#[test]
fn decimals_are_ordered_by_value() {
    assert!(decimal("1.0").at_most(&decimal("1.00")));
    assert!(decimal("1.00").at_most(&decimal("1.0")));
    assert!(decimal("0.99999999").at_most(&decimal("1")));
    assert!(!decimal("1").at_most(&decimal("0.99999999")));
    assert!(decimal("-2").at_most(&decimal("-1.5")));
    assert!(!decimal("-1.5").at_most(&decimal("-2")));
    assert!(decimal("0.00000001").is_positive());
    assert!(!decimal("0.00").is_positive());
    assert!(!decimal("-1").is_positive());
}

#[test]
fn prices_round_half_to_even() {
    let raw = |text: &str, precision: u8| Price::parse(text, precision).unwrap().raw;
    assert_eq!(raw("1.5", 1), 15_000_000_000_000_000);
    assert_eq!(raw("2.5", 0), 20_000_000_000_000_000);
    assert_eq!(raw("3.5", 0), 40_000_000_000_000_000);
    assert_eq!(raw("2.51", 0), 30_000_000_000_000_000);
    assert_eq!(raw("-2.5", 0), -20_000_000_000_000_000);
    assert_eq!(raw("0.00000001", 8), 100_000_000);
    assert_eq!(Price::parse("1", 17), Err(FieldError::Precision));
    assert_eq!(Price::parse("x", 2), Err(FieldError::NotADecimal));
    assert_eq!(
        Price::parse("17014118346047", 0),
        Err(FieldError::OutOfRange)
    );
    assert!(Price::parse("17014118346046", 0).is_ok());
}

#[test]
fn quantities_are_not_negative() {
    assert_eq!(Quantity::parse("-1", 0), Err(FieldError::OutOfRange));
    assert_eq!(
        Quantity::parse("0.001", 3),
        Ok(Quantity { raw: 10_000_000_000_000, precision: 3 })
    );
    assert!(Quantity::parse("34028236692093", 0).is_ok());
    assert_eq!(
        Quantity::parse("34028236692094", 0),
        Err(FieldError::OutOfRange)
    );
}

#[test]
fn numbers_render_with_their_digits() {
    assert_eq!(Quantity::parse("0.001", 3).unwrap().render(), "0.001");
    assert_eq!(Quantity::parse("1", 8).unwrap().render(), "1.00000000");
    assert_eq!(Quantity::parse("12", 0).unwrap().render(), "12");
    assert_eq!(Price::parse("-0.05", 2).unwrap().render(), "-0.05");
    assert_eq!(Price::parse("50000.10", 2).unwrap().render(), "50000.10");
    assert_eq!(render_u128(0), "0");
    assert_eq!(render_i128(-2011), "-2011");
    assert_eq!(render_i128(98_765_432), "98765432");
}

#[test]
fn numbers_take_their_digits_from_the_text() {
    assert_eq!(Price::read("50000"), Ok(Price { raw: 500_000_000_000_000_000_000, precision: 0 }));
    assert_eq!(Price::read("1.50"), Ok(Price { raw: 15_000_000_000_000_000, precision: 2 }));
    assert_eq!(Price::read("0.00000000000000001"), Err(FieldError::Precision));
    assert_eq!(Quantity::read("0.001"), Ok(Quantity { raw: 10_000_000_000_000, precision: 3 }));
    assert_eq!(Quantity::read("x"), Err(FieldError::NotADecimal));
}

#[test]
fn integers_are_read_strictly() {
    for (text, value) in [
        ("0", Some(0)),
        ("-12", Some(-12)),
        ("+7", Some(7)),
        ("9223372036854775807", Some(i64::MAX)),
        ("-9223372036854775808", Some(i64::MIN)),
        ("9223372036854775808", None),
        ("-9223372036854775809", None),
        ("", None),
        ("-", None),
        ("1 ", None),
        ("x-TD67BGP9", None),
    ] {
        assert_eq!(parse_i64(text), value);
    }
}

#[test]
fn money_takes_the_precision_of_its_currency() {
    let usd = Currency { code: "USD".to_string(), precision: 2 };
    let money = Money::from_decimal(&decimal("1.005"), &usd).unwrap();
    assert_eq!(money.raw, 10_000_000_000_000_000);
    assert_eq!(money.currency, usd);
    assert_eq!(
        Money::from_decimal(&decimal("20000000000000"), &usd),
        Err(FieldError::OutOfRange)
    );
}

#[test]
fn unknown_currencies_are_registered_as_crypto() {
    let mut currencies = CurrencyRegistry::new();
    currencies.register("USD", 2);
    assert_eq!(currencies.get_or_create_crypto("USD").precision, 2);
    let created = currencies.get_or_create_crypto("BNB");
    assert_eq!(created.code, "BNB");
    assert_eq!(created.precision, 8);
    assert_eq!(currencies.get_or_create_crypto("BNB"), created);
}

#[test]
fn identifiers_compare_by_text() {
    assert_eq!(ClientId::new("A"), ClientId::new("A"));
    assert_ne!(ClientId::new("A"), ClientId::new("B"));
    assert_ne!(
        InstrumentId::new("BTCUSDT", "BINANCE"),
        InstrumentId::new("BTCUSDT", "OTHER")
    );
    assert!(UUID4::default().is_nil());
    assert_eq!(
        UUID4::from_random_bits(u128::MAX).bits,
        0xffff_ffff_ffff_4fff_bfff_ffff_ffff_ffff
    );
    assert_eq!(UnixNanos::from_millis(1_709_654_400_000), UnixNanos(1_709_654_400_000_000_000));
}

#[test]
fn fill_errors_say_what_happened() {
    assert_eq!(FillValidationErrorV1::DuplicateFill.message(), "duplicate fill");
    assert_eq!(
        FillValidationErrorV1::DuplicatePositionFill.message(),
        "duplicate position fill"
    );
    assert_eq!(
        FillValidationErrorV1::MissingCachedOrigin(ClientOrderId::new("O-1")).message(),
        "missing cached client origin for O-1"
    );
    let overfill = RejectedOverfillV1 {
        client_id: ClientId::new("BINANCE-SPOT"),
        account_id: AccountId::new("BINANCE-001"),
        instrument_id: InstrumentId::new("BTCUSDT", "BINANCE"),
        client_order_id: ClientOrderId::new("O-1"),
        trade_id: TradeId::new("7"),
        order_quantity_raw: 1,
        prior_filled_raw: 1,
        rejected_last_quantity_raw: 1,
        observed_at: UnixNanos(1),
    };
    assert_eq!(
        FillValidationErrorV1::RejectedOverfill(Box::new(overfill)).message(),
        "rejected overfill for O-1 from BINANCE-SPOT"
    );
}
