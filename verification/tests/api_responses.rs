use payment_gateway::account::{Account, BankOneAccount};
use payment_gateway::api::responses::transaction::billing::BillingResponse;
use payment_gateway::api::responses::transaction::payment::PaymentResponse;
use payment_gateway::api::responses::transaction::TransactionResponse;
use payment_gateway::billing::Billing;
use payment_gateway::card_scheme::CardScheme;
use payment_gateway::country::Country;
use payment_gateway::currency::Currency;
use payment_gateway::merchant::Merchant;
use payment_gateway::payment::Payment;
use payment_gateway::transaction::transaction_builder::TransactionBuilder;
use payment_gateway::transaction::{Transaction, TransactionError, TransactionStatus, TransactionType};

fn json_text(s: &str) -> String {
    serde_json::to_string(s).expect("json text")
}

/// The members of a JSON object, in order, as one line.
fn json_object(members: &[(String, String)]) -> String {
    let inner: Vec<String> = members.iter().map(|(k, v)| format!("{}:{}", json_text(k), v)).collect();
    format!("{{{}}}", inner.join(","))
}

/// The members of a JSON object, in order, indented by two spaces.
fn json_object_pretty(members: &[(String, String)]) -> String {
    let inner: Vec<String> =
        members.iter().map(|(k, v)| format!("  {}: {}", json_text(k), v)).collect();
    format!("{{\n{}\n}}", inner.join(",\n"))
}

fn payment_members(res: &PaymentResponse) -> Vec<(String, String)> {
    let mut members = vec![("type".to_string(), json_text(res.payment_type))];
    if let Some(scheme) = res.scheme {
        members.push(("scheme".into(), json_text(&scheme.to_string())));
    }
    if let Some(number) = &res.account_number {
        members.push(("account_number".into(), json_text(number)));
    }
    if let Some(month) = res.expiry_month {
        members.push(("expiry_month".into(), month.to_string()));
    }
    if let Some(year) = res.expiry_year {
        members.push(("expiry_year".into(), year.to_string()));
    }
    if let Some(pan) = &res.pan {
        members.push(("pan".into(), json_text(pan)));
    }
    members
}

fn billing_members(res: &BillingResponse) -> Vec<(String, String)> {
    res.fields().into_iter().map(|(k, v)| (k.to_string(), json_text(&v))).collect()
}

#[test]
fn payment_card_into_response() {
    let payment = Payment::Card {
        scheme: CardScheme::Visa,
        expiry_date: (2023, 12),
        security_code: "123".into(),
        pan: "4000001111111234".into(),
    };
    let res = PaymentResponse::from(&payment);
    let exp = PaymentResponse {
        payment_type: "CARD",
        scheme: Some(CardScheme::Visa),
        expiry_month: Some(12),
        expiry_year: Some(2023),
        pan: Some("400000######1234".into()),
        account_number: None,
    };
    assert_eq!(res, exp);
    let res = json_object(&payment_members(&res));
    let exp = "{\"type\":\"CARD\",\"scheme\":\"VISA\",\"expiry_month\":12,\"expiry_year\":2023,\"pan\":\"400000######1234\"}";
    assert_eq!(res, exp);
}

#[test]
fn payment_account_into_response() {
    let payment =
        Payment::Account { account_number: "12341234".into(), sort_code: "010203".into() };
    let res = PaymentResponse::from(&payment);
    let exp = PaymentResponse {
        payment_type: "ACCOUNT",
        account_number: Some("####1234".into()),
        scheme: None,
        expiry_month: None,
        expiry_year: None,
        pan: None,
    };
    assert_eq!(res, exp);
    let res = json_object(&payment_members(&res));
    let exp = "{\"type\":\"ACCOUNT\",\"account_number\":\"####1234\"}";
    assert_eq!(res, exp);
}

#[test]
fn can_serialize_from_billing() {
    let mut billing = Billing::default();
    let exp = BillingResponse::default();
    let exp_json = r#"{
  "country": "GB"
}"#;
    let act = BillingResponse::from(&billing);
    assert_eq!(act, exp);
    assert_eq!(json_object_pretty(&billing_members(&act)), exp_json);

    billing.first_name = "Ben".into();
    billing.last_name = "Jones".into();
    billing.city = "Llandudno Junction".into();
    let exp = BillingResponse {
        first_name: "Ben",
        last_name: "Jones",
        city: "Llandudno Junction",
        country: Country::GB,
        ..Default::default()
    };
    let exp_json = r#"{
  "first_name": "Ben",
  "last_name": "Jones",
  "city": "Llandudno Junction",
  "country": "GB"
}"#;
    let act = BillingResponse::from(&billing);
    assert_eq!(act, exp);
    assert_eq!(json_object_pretty(&billing_members(&act)), exp_json);
}

#[test]
fn billing_response_fields_in_order() {
    let billing = Billing {
        first_name: "a".into(),
        last_name: "b".into(),
        premise: "c".into(),
        street: "d".into(),
        city: "e".into(),
        county: "f".into(),
        country: Country::US,
    };
    let fields = BillingResponse::from(&billing).fields();
    let exp: Vec<(&str, String)> = vec![
        ("first_name", "a".into()),
        ("last_name", "b".into()),
        ("premise", "c".into()),
        ("street", "d".into()),
        ("city", "e".into()),
        ("county", "f".into()),
        ("country", "US".into()),
    ];
    assert_eq!(fields, exp);
    let billing = Billing { street: " ".into(), ..Billing::default() };
    let fields = BillingResponse::from(&billing).fields();
    let exp: Vec<(&str, String)> = vec![("street", " ".into()), ("country", "GB".into())];
    assert_eq!(fields, exp);
}

fn transaction(amount: u64, currency: Currency, payment: Payment) -> Transaction {
    TransactionBuilder::new()
        .transaction_type(TransactionType::Auth)
        .payment(payment)
        .amount((amount, currency))
        .currency(currency)
        .account(Account::BankOne(BankOneAccount {
            merchant_identification_value: "12345678".into(),
        }))
        .merchant(Merchant::default())
        .billing(Billing::default())
        .build()
}

fn visa() -> Payment {
    Payment::Card {
        scheme: CardScheme::Visa,
        expiry_date: (2023, 1),
        security_code: "123".into(),
        pan: "4000111122223333".into(),
    }
}

#[test]
fn can_serialise_to_response() {
    let trx = transaction(12345, Currency::GBP, visa());
    let exp = TransactionResponse {
        amount: "123.45".into(),
        currency: Currency::GBP,
        payment: PaymentResponse {
            payment_type: "CARD",
            scheme: Some(CardScheme::Visa),
            account_number: None,
            expiry_month: Some(1),
            expiry_year: Some(2023),
            pan: Some("400011######3333".into()),
        },
        billing: BillingResponse::default(),
        status: "SUCCESS".into(),
        error: None,
        reference: trx.reference.clone(),
    };
    assert_eq!(TransactionResponse::from(&trx), exp);
}

#[test]
fn response_never_shows_the_instrument() {
    let trx = transaction(1, Currency::JPY, visa());
    let res = TransactionResponse::from(&trx);
    let shown = format!("{:?}", res);
    assert!(!shown.contains("4000111122223333"));
    assert!(shown.contains("400011######3333"));
    assert_eq!(res.amount, "1");
    assert_eq!(res.currency, Currency::JPY);
    let trx = transaction(
        5,
        Currency::USD,
        Payment::Account { account_number: "9988776655".into(), sort_code: "010203".into() },
    );
    let res = TransactionResponse::from(&trx);
    let shown = format!("{:?}", res);
    assert!(!shown.contains("9988776655"));
    assert!(!shown.contains("010203"));
    assert_eq!(res.payment.account_number.as_deref(), Some("######6655"));
    assert_eq!(res.amount, "0.05");
}

#[test]
fn response_of_a_failed_transaction() {
    let mut trx = transaction(100, Currency::EUR, visa());
    trx.status = TransactionStatus::Failed(Some(TransactionError::Declined));
    let res = TransactionResponse::from(&trx);
    assert_eq!(res.status, "FAILED");
    assert_eq!(res.error, Some(TransactionError::Declined));
    assert_eq!(res.amount, "1.00");
    trx.status = TransactionStatus::Failed(None);
    let res = TransactionResponse::from(&trx);
    assert_eq!(res.status, "FAILED");
    assert_eq!(res.error, None);
}
