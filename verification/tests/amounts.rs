use polymarket_cli::amount::{compute_order_amount, parse_side, OrderAmount, OrderError, Side};
use polymarket_cli::decimal::Decimal;

fn dec(text: &str) -> Decimal {
    Decimal::parse(text).unwrap()
}

fn parts(d: Decimal) -> (i128, u32) {
    (d.mantissa(), d.scale())
}

#[test]
fn test_parse_side_buy() {
    assert!(matches!(parse_side("buy"), Ok(Side::Buy)));
    assert!(matches!(parse_side("BUY"), Ok(Side::Buy)));
    assert!(matches!(parse_side("Buy"), Ok(Side::Buy)));
}

#[test]
fn test_parse_side_sell() {
    assert!(matches!(parse_side("sell"), Ok(Side::Sell)));
    assert!(matches!(parse_side("SELL"), Ok(Side::Sell)));
    assert!(matches!(parse_side("Sell"), Ok(Side::Sell)));
}

#[test]
fn test_parse_side_invalid() {
    assert!(parse_side("hold").is_err());
    assert!(parse_side("").is_err());
    assert!(parse_side("b").is_err());
}

#[test]
fn parse_side_reports_invalid_side() {
    assert_eq!(parse_side("hold"), Err(OrderError::InvalidSide));
    assert_eq!(parse_side("buyy"), Err(OrderError::InvalidSide));
    assert_eq!(parse_side("sel"), Err(OrderError::InvalidSide));
    assert_eq!(parse_side(" buy"), Err(OrderError::InvalidSide));
    assert_eq!(parse_side("b\u{fc}y"), Err(OrderError::InvalidSide));
    assert_eq!(parse_side("bUy"), Ok(Side::Buy));
    assert_eq!(parse_side("sELl"), Ok(Side::Sell));
}

#[test]
fn parse_side_agrees_with_lowercasing() {
    let words = [
        "buy", "Buy", "BUY", "sell", "SELL", "sElL", "", "b", "bu", "buys", "hold", "\u{212a}uy",
        "bu\u{ff59}", "\u{17f}ell", "s\u{1e9e}ll", "BUY ", "se11",
    ];
    for word in words {
        let expected = match word.to_lowercase().as_str() {
            "buy" => Ok(Side::Buy),
            "sell" => Ok(Side::Sell),
            _ => Err(OrderError::InvalidSide),
        };
        assert_eq!(parse_side(word), expected);
    }
}

#[test]
fn test_compute_order_amount_buy_market() {
    let amount = dec("10.50");
    let result = compute_order_amount(Side::Buy, amount, None);
    assert!(result.is_ok());
}

#[test]
fn test_compute_order_amount_buy_with_price() {
    let amount = dec("100.00");
    let price = dec("0.65");
    let result = compute_order_amount(Side::Buy, amount, Some(price));
    assert!(result.is_ok());
}

#[test]
fn test_compute_order_amount_sell() {
    let amount = dec("50.00");
    let result = compute_order_amount(Side::Sell, amount, None);
    assert!(result.is_ok());
}

#[test]
fn test_compute_order_amount_sell_with_price_ignored() {
    let amount = dec("50.00");
    let price = dec("0.70");
    let result = compute_order_amount(Side::Sell, amount, Some(price));
    assert!(result.is_ok());
}

#[test]
fn test_compute_order_amount_rounding() {
    let amount = dec("10.999");
    let result = compute_order_amount(Side::Buy, amount, None);
    assert!(result.is_ok());
}

#[test]
fn buy_without_price_truncates_and_never_rounds_up() {
    let result = compute_order_amount(Side::Buy, dec("10.999"), None).unwrap();
    assert!(result.is_notional());
    assert_eq!(parts(result.value()), (1099, 2));
    let result = compute_order_amount(Side::Buy, dec("10.995"), None).unwrap();
    assert_eq!(parts(result.value()), (1099, 2));
    let result = compute_order_amount(Side::Buy, dec("0.009"), None).unwrap();
    assert_eq!(parts(result.value()), (0, 2));
}

#[test]
fn buy_with_price_carries_the_notional_value() {
    let result = compute_order_amount(Side::Buy, dec("100.00"), Some(dec("0.65"))).unwrap();
    assert!(matches!(result, OrderAmount::Notional(_)));
    assert_eq!(parts(result.value()), (650000, 4));
    assert!(result.value().same_value(&dec("65.00")));
}

#[test]
fn buy_with_price_truncates_the_share_count_first() {
    let result = compute_order_amount(Side::Buy, dec("10.999"), Some(dec("0.5"))).unwrap();
    assert_eq!(parts(result.value()), (5495, 3));
    assert!(result.value().same_value(&dec("5.495")));
}

#[test]
fn sell_carries_shares_and_ignores_the_price() {
    let with_price = compute_order_amount(Side::Sell, dec("50.00"), Some(dec("0.70"))).unwrap();
    let without = compute_order_amount(Side::Sell, dec("50.00"), None).unwrap();
    assert!(matches!(with_price, OrderAmount::Shares(_)));
    assert!(!with_price.is_notional());
    assert_eq!(parts(with_price.value()), (5000, 2));
    assert_eq!(parts(without.value()), (5000, 2));
    let cut = compute_order_amount(Side::Sell, dec("7.129"), Some(dec("123456.789"))).unwrap();
    assert_eq!(parts(cut.value()), (712, 2));
}

#[test]
fn amounts_with_few_digits_pass_unchanged() {
    let result = compute_order_amount(Side::Buy, dec("7"), None).unwrap();
    assert_eq!(parts(result.value()), (7, 0));
    let result = compute_order_amount(Side::Sell, dec("7.5"), None).unwrap();
    assert_eq!(parts(result.value()), (75, 1));
    let result = compute_order_amount(Side::Buy, dec("0"), Some(dec("0.5"))).unwrap();
    assert_eq!(parts(result.value()), (0, 0));
}

#[test]
fn negative_amounts_are_invalid() {
    let r = compute_order_amount(Side::Buy, dec("-1.50"), None);
    assert!(matches!(r, Err(OrderError::InvalidAmount)));
    let r = compute_order_amount(Side::Sell, dec("-0.01"), None);
    assert!(matches!(r, Err(OrderError::InvalidAmount)));
    let r = compute_order_amount(Side::Buy, dec("2"), Some(dec("-0.5")));
    assert!(matches!(r, Err(OrderError::InvalidAmount)));
    let r = compute_order_amount(Side::Sell, dec("-0.001"), None).unwrap();
    assert_eq!(parts(r.value()), (0, 2));
}

#[test]
fn notional_finer_than_six_digits_is_invalid() {
    let r = compute_order_amount(Side::Buy, dec("0.01"), Some(dec("0.00001")));
    assert!(matches!(r, Err(OrderError::InvalidAmount)));
    let r = compute_order_amount(Side::Buy, dec("0.01"), Some(dec("0.0001"))).unwrap();
    assert_eq!(parts(r.value()), (1, 6));
    let r = compute_order_amount(Side::Buy, dec("0.10"), Some(dec("0.000010"))).unwrap();
    assert_eq!(parts(r.value()), (100, 8));
}

#[test]
fn products_that_overflow_are_invalid() {
    let big = Decimal::new(79_228_162_514_264_337_593_543_950_335, 0).unwrap();
    let r = compute_order_amount(Side::Buy, big, Some(dec("2")));
    assert!(matches!(r, Err(OrderError::InvalidAmount)));
    let r = compute_order_amount(Side::Buy, big, Some(dec("1"))).unwrap();
    assert_eq!(parts(r.value()), (79_228_162_514_264_337_593_543_950_335, 0));
}
