use polymarket_cli::decimal::Decimal;
use polymarket_cli::units::{format_balance, TokenUnits};

fn dec(text: &str) -> Decimal {
    Decimal::parse(text).unwrap()
}

#[test]
fn test_format_balance_zero() {
    let balance = TokenUnits::from_u64(0u64);
    let formatted = format_balance(balance);
    assert!(formatted.same_value(&dec("0")));
}

#[test]
fn test_format_balance_one_usdc() {
    let balance = TokenUnits::from_u64(1_000_000u64);
    let formatted = format_balance(balance);
    assert!(formatted.same_value(&dec("1")));
}

#[test]
fn test_format_balance_fractional() {
    let balance = TokenUnits::from_u64(4_281_842u64);
    let formatted = format_balance(balance);
    assert!(formatted.same_value(&dec("4.281842")));
}

#[test]
fn test_format_balance_large_amount() {
    let balance = TokenUnits::from_u64(1_000_000_000u64);
    let formatted = format_balance(balance);
    assert!(formatted.same_value(&dec("1000")));
}

#[test]
fn test_format_balance_small_dust() {
    let balance = TokenUnits::from_u64(1u64);
    let formatted = format_balance(balance);
    assert!(formatted.same_value(&dec("0.000001")));
}

#[test]
fn balances_beyond_the_decimal_range_read_as_zero() {
    let formatted = format_balance(TokenUnits::max());
    assert!(formatted.same_value(&dec("0")));
    let limit = TokenUnits::from_limbs([u64::MAX, 0xffff_ffff, 0, 0]);
    let formatted = format_balance(limit);
    assert!(formatted.same_value(&dec("79228162514264337593543.950335")));
    let over = TokenUnits::from_limbs([0, 0x1_0000_0000, 0, 0]);
    assert!(format_balance(over).same_value(&dec("0")));
}

#[test]
fn raw_amounts_print_in_base_ten() {
    assert_eq!(TokenUnits::from_u64(0).to_decimal_string(), "0");
    assert_eq!(TokenUnits::from_u64(1_000_000).to_decimal_string(), "1000000");
    assert_eq!(TokenUnits::from_u64(u64::MAX).to_decimal_string(), "18446744073709551615");
    assert_eq!(
        TokenUnits::from_limbs([0, 1, 0, 0]).to_decimal_string(),
        "18446744073709551616"
    );
    assert_eq!(
        TokenUnits::from_limbs([0, 0, 1, 0]).to_decimal_string(),
        "340282366920938463463374607431768211456"
    );
    assert_eq!(
        TokenUnits::max().to_decimal_string(),
        "115792089237316195423570985008687907853269984665640564039457584007913129639935"
    );
    assert_eq!(TokenUnits::max().limbs, [u64::MAX; 4]);
    assert_eq!(TokenUnits::from_u64(5).limbs, [5, 0, 0, 0]);
}
