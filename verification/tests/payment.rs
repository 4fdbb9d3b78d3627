use payment_gateway::card_scheme::CardScheme;
use payment_gateway::payment::{ExpiryDate, FieldError, Payment};

fn length_error(field: &str, min: usize, max: usize, actual: usize) -> FieldError {
    FieldError {
        field: field.to_string(),
        code: "length".to_string(),
        message: "invalid length".to_string(),
        min,
        max,
        actual,
    }
}

fn check_validation(inputs: (CardScheme, ExpiryDate, &str, &str), errors: Vec<FieldError>) {
    let payment = Payment::card(inputs.0, inputs.1, inputs.2, inputs.3);
    if errors.is_empty() {
        assert_eq!(payment.validate(), Ok(()));
    } else {
        assert_eq!(payment.validate(), Err(errors));
    }
}

#[test]
fn test_validate_card_valid() {
    check_validation((CardScheme::Visa, (2021, 3), "123", "4000111122223333"), vec![]);
    check_validation((CardScheme::Visa, (2021, 3), "123", "40001111222233334444"), vec![]);
    check_validation((CardScheme::Mastercard, (2021, 3), "1234", "5000111122223333"), vec![]);
}

#[test]
fn test_validate_card_security_code_too_long() {
    check_validation(
        (CardScheme::Visa, (2021, 3), "12345", "4000111122223333"),
        vec![length_error("security_code", 3, 4, 5)],
    );
}

#[test]
fn test_validate_card_security_code_too_short() {
    check_validation(
        (CardScheme::Visa, (2021, 3), "12", "4000111122223333"),
        vec![length_error("security_code", 3, 4, 2)],
    );
}

#[test]
fn test_validate_card_pan_too_short() {
    check_validation(
        (CardScheme::Visa, (2021, 3), "123", "400011112222333"),
        vec![length_error("pan", 16, 20, 15)],
    );
}

#[test]
fn test_validate_card_pan_too_long() {
    check_validation(
        (CardScheme::Visa, (2021, 3), "123", "400011112222333344445"),
        vec![length_error("pan", 16, 20, 21)],
    );
}

#[test]
fn test_validate_card_both_wrong() {
    check_validation(
        (CardScheme::Visa, (2021, 3), "12345", "400011112"),
        vec![length_error("security_code", 3, 4, 5), length_error("pan", 16, 20, 9)],
    );
}

#[test]
fn test_validate_card_pan_15_and_code_5_gives_two_errors() {
    let payment = Payment::card(CardScheme::Visa, (2026, 12), "12345", "400011112222333");
    let errors = payment.validate().unwrap_err();
    assert_eq!(errors.len(), 2);
    let pan = errors.iter().find(|e| e.field == "pan").unwrap();
    assert_eq!((pan.min, pan.max, pan.actual), (16, 20, 15));
    assert_eq!(pan.code, "length");
    let code = errors.iter().find(|e| e.field == "security_code").unwrap();
    assert_eq!((code.min, code.max, code.actual), (3, 4, 5));
    assert_eq!(code.code, "length");
}

#[test]
fn test_validate_account_is_not_checked() {
    let payment = Payment::Account { account_number: "".into(), sort_code: "".into() };
    assert_eq!(payment.validate(), Ok(()));
    let payment = Payment::Account { account_number: "12341234".into(), sort_code: "010203".into() };
    assert_eq!(payment.validate(), Ok(()));
}

#[test]
fn test_payment_scheme_and_clone() {
    let card = Payment::card(CardScheme::Mastercard, (2030, 1), "123", "5000111122223333");
    assert_eq!(card.scheme(), Some(CardScheme::Mastercard));
    assert_eq!(card.clone(), card);
    let account = Payment::Account { account_number: "1".into(), sort_code: "2".into() };
    assert_eq!(account.scheme(), None);
    assert_eq!(account.clone(), account);
}

#[test]
fn test_card_scheme_names() {
    assert_eq!(CardScheme::Visa.to_string(), "VISA");
    assert_eq!(CardScheme::Mastercard.to_string(), "MASTERCARD");
    assert_eq!(CardScheme::parse("VISA"), Some(CardScheme::Visa));
    assert_eq!(CardScheme::parse("MASTERCARD"), Some(CardScheme::Mastercard));
    assert_eq!(CardScheme::parse("visa"), None);
    assert_eq!(CardScheme::parse("AMEX"), None);
}
