use payment_gateway::amount::Amount;
use payment_gateway::currency::Currency;

fn check_display(amount: Amount, exp_base: &str, exp_dec: &str) {
    assert_eq!(amount.to_string(), exp_base);
    assert_eq!(amount.to_dec().to_string(), exp_dec);
}

#[test]
fn test_display_gbp() {
    check_display(Amount::from((123, Currency::GBP)), "123", "1.23");
}

#[test]
fn test_display_default_currency() {
    check_display(Amount::from(123), "123", "1.23");
    assert_eq!(Amount::from(123), Amount::in_default_currency(123));
}

#[test]
fn test_display_zero() {
    check_display(Amount::from((0, Currency::GBP)), "0", "0.00");
    check_display(Amount::from((0, Currency::EUR)), "0", "0.00");
    check_display(Amount::from((0, Currency::USD)), "0", "0.00");
}

#[test]
fn test_display_no_decimal_places() {
    check_display(Amount::from((123, Currency::JPY)), "123", "123");
    check_display(Amount::from((0, Currency::JPY)), "0", "0");
}

#[test]
fn test_display_splits_before_the_minor_units() {
    check_display(Amount::from((12345, Currency::GBP)), "12345", "123.45");
    check_display(Amount::from((5, Currency::GBP)), "5", "0.05");
    check_display(Amount::from((50, Currency::USD)), "50", "0.50");
    check_display(Amount::from((100, Currency::EUR)), "100", "1.00");
    check_display(
        Amount::from((u64::MAX, Currency::GBP)),
        "18446744073709551615",
        "184467440737095516.15",
    );
    check_display(
        Amount::from((u64::MAX, Currency::JPY)),
        "18446744073709551615",
        "18446744073709551615",
    );
}

#[test]
fn test_decimal_and_back_keeps_value_and_currency() {
    for cur in [Currency::GBP, Currency::EUR, Currency::USD, Currency::JPY] {
        for val in [0u64, 1, 9, 10, 99, 100, 12345, u64::MAX] {
            let base = Amount::from((val, cur));
            let dec = base.to_dec();
            assert_eq!(dec, Amount::Decimal { val, cur });
            assert_eq!(dec.value(), val);
            assert_eq!(dec.currency(), cur);
            assert_eq!(dec.to_base(), base);
            assert_eq!(dec.to_dec(), dec);
            assert_eq!(base.to_base(), base);
        }
    }
}

#[test]
fn test_value_and_currency() {
    let a = Amount::from((250, Currency::USD));
    assert_eq!(a.value(), 250);
    assert_eq!(a.currency(), Currency::USD);
    let d = Amount::Decimal { val: 7, cur: Currency::JPY };
    assert_eq!(d.value(), 7);
    assert_eq!(d.currency(), Currency::JPY);
}

#[test]
fn test_currency_decimal_places_and_codes() {
    assert_eq!(Currency::GBP.get_decimal_places(), 2);
    assert_eq!(Currency::EUR.get_decimal_places(), 2);
    assert_eq!(Currency::USD.get_decimal_places(), 2);
    assert_eq!(Currency::JPY.get_decimal_places(), 0);
    for cur in [Currency::GBP, Currency::EUR, Currency::USD, Currency::JPY] {
        assert_eq!(Currency::parse(&cur.to_string()), Some(cur));
    }
    assert_eq!(Currency::GBP.to_string(), "GBP");
    assert_eq!(Currency::JPY.to_string(), "JPY");
    assert_eq!(Currency::parse("gbp"), None);
    assert_eq!(Currency::parse(""), None);
    assert_eq!(Currency::default(), Currency::GBP);
}
