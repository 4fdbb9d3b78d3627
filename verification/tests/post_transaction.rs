use payment_gateway::account::{
    Account, AccountQuery, AccountRow, Acquirer, BankOneAccount, RouteQuery, RouteRow,
};
use payment_gateway::amount::Amount;
use payment_gateway::api::error::{ErrorKind, GatewayError};
use payment_gateway::api::handlers::post_transaction::{
    extract_billing_data, extract_payment_data, extract_trx_data, handle_post_transaction, resume,
    Found, Lookup, Stage, Step,
};
use payment_gateway::api::requests::transaction::billing::BillingRequest;
use payment_gateway::api::requests::transaction::payment::PaymentRequest;
use payment_gateway::api::requests::transaction::TransactionRequest;
use payment_gateway::api::responses::transaction::TransactionResponse;
use payment_gateway::card_scheme::CardScheme;
use payment_gateway::country::Country;
use payment_gateway::currency::Currency;
use payment_gateway::error::DbFailure;
use payment_gateway::merchant::MerchantRecord;
use payment_gateway::payment::Payment;
use payment_gateway::transaction::{TransactionStatus, TransactionType};

/// A VISA CARD AUTH request of merchant123 for 123.45 GBP.
fn create_request() -> TransactionRequest {
    TransactionRequest {
        amount: 12345,
        currency: Currency::GBP,
        transaction_type: TransactionType::Auth,
        merchant_id: "merchant123".into(),
        payment: Some(PaymentRequest {
            payment_type: "CARD".into(),
            scheme: Some(CardScheme::Visa),
            pan: Some("4000111122223333".into()),
            security_code: Some("123".into()),
            expiry_year: Some(2026),
            expiry_month: Some(12),
            account_number: None,
            sort_code: None,
        }),
        billing: Some(BillingRequest { country: Some("GB".into()), ..Default::default() }),
        customer: None,
    }
}

fn merchant_record() -> MerchantRecord {
    MerchantRecord {
        id: "merchant123".into(),
        name: "Merchant ".into(),
        premise: "1".into(),
        street: "Street".into(),
        city: "City".into(),
        postcode: "AB1 2CD".into(),
        county: "County".into(),
        country: "GB".into(),
    }
}

fn failed(step: Step) -> GatewayError {
    match step {
        Step::Done(Err(e)) => e,
        other => panic!("expected a failure, got {other:?}"),
    }
}

fn asked(step: Step) -> (Stage, Lookup) {
    match step {
        Step::Ask(stage, lookup) => (stage, lookup),
        other => panic!("expected a lookup, got {other:?}"),
    }
}

#[test]
fn simple_transaction() {
    let (stage, lookup) = asked(handle_post_transaction(create_request()));
    assert_eq!(lookup, Lookup::Merchant("merchant123".into()));
    let (stage, lookup) = asked(resume(stage, Found::Merchant(Ok(merchant_record()))));
    assert_eq!(
        lookup,
        Lookup::Route(RouteQuery {
            scheme: "VISA".into(),
            currency: "GBP".into(),
            merchant_id: "merchant123".into()
        })
    );
    let (stage, lookup) = asked(resume(
        stage,
        Found::Route(Ok(RouteRow { acquirer: "bankone".into(), account_id: 1 })),
    ));
    assert_eq!(lookup, Lookup::Account(AccountQuery { acquirer: Acquirer::BankOne, account_id: 1 }));
    let step = resume(
        stage,
        Found::Account(Ok(AccountRow {
            merchant_identification_value: Some("merchant123".into()),
            merchant_reference: None,
        })),
    );
    let transaction = match step {
        Step::Done(Ok(t)) => t,
        other => panic!("expected a transaction, got {other:?}"),
    };
    assert_eq!(transaction.status, TransactionStatus::Success);
    assert_eq!(transaction.amount, Amount::Base { val: 12345, cur: Currency::GBP });
    assert_eq!(transaction.currency, Currency::GBP);
    assert_eq!(transaction.merchant.name, "Merchant");
    assert_eq!(
        transaction.account,
        Account::BankOne(BankOneAccount { merchant_identification_value: "merchant123".into() })
    );
    assert_eq!(transaction.reference.len(), 36);
    let response = TransactionResponse::from(&transaction);
    assert_eq!(response.amount, "123.45");
    assert_eq!(response.currency, Currency::GBP);
    assert_eq!(response.payment.payment_type, "CARD");
    assert_eq!(response.payment.scheme, Some(CardScheme::Visa));
    assert_eq!(response.payment.pan.as_deref(), Some("400011######3333"));
    assert_eq!(response.payment.expiry_year, Some(2026));
    assert_eq!(response.payment.expiry_month, Some(12));
    assert_eq!(response.billing.country, Country::GB);
    let fields: Vec<(&str, String)> = vec![("country", "GB".into())];
    assert_eq!(response.billing.fields(), fields);
    assert_eq!(response.status, "SUCCESS");
    assert_eq!(response.error, None);
    assert_eq!(response.reference, transaction.reference);
}

#[test]
fn merchant_doesnt_exist() {
    let mut request = create_request();
    request.merchant_id = "invalid123".into();
    let (stage, lookup) = asked(handle_post_transaction(request));
    assert_eq!(lookup, Lookup::Merchant("invalid123".into()));
    let e = failed(resume(stage, Found::Merchant(Err(DbFailure::RowNotFound))));
    assert_eq!(e.status_code(), 404);
    assert_eq!(e.error_name(), "RESOURCE");
    assert_eq!(e.message, "merchant invalid123 does not exist");
}

#[test]
fn missing_payment_details() {
    let mut request = create_request();
    request.payment = None;
    let e = failed(handle_post_transaction(request));
    assert_eq!(e.status_code(), 400);
    assert_eq!(e.error_name(), "VALIDATION");
    assert_eq!(e.message, "missing payment data");
}

#[test]
fn missing_billing_details() {
    let mut request = create_request();
    request.billing = None;
    let e = failed(handle_post_transaction(request));
    assert_eq!(e, GatewayError { kind: ErrorKind::Validation, message: "missing billing data".into() });
}

#[test]
fn missing_pan() {
    let mut request = create_request();
    request.payment.as_mut().unwrap().pan = None;
    let e = failed(handle_post_transaction(request));
    assert_eq!(e.status_code(), 400);
    assert_eq!(e.message, "Missing fields: pan");
}

#[test]
fn missing_pan_and_security_code() {
    let mut request = create_request();
    request.payment.as_mut().unwrap().pan = None;
    request.payment.as_mut().unwrap().security_code = None;
    let e = failed(handle_post_transaction(request));
    assert_eq!(e.status_code(), 400);
    assert_eq!(e.message, "Missing fields: pan, security_code");
}

#[test]
fn bad_pan() {
    let mut request = create_request();
    request.payment.as_mut().unwrap().pan = Some("400011112222333344445555".into());
    let e = failed(handle_post_transaction(request));
    assert_eq!(e.status_code(), 400);
    assert_eq!(e.error_name(), "VALIDATION");
    assert_eq!(e.message, "pan - invalid length");
}

#[test]
fn bad_pan_and_security_code() {
    let mut request = create_request();
    request.payment.as_mut().unwrap().pan = Some("400011112222333".into());
    request.payment.as_mut().unwrap().security_code = Some("12345".into());
    let e = failed(handle_post_transaction(request));
    assert_eq!(e.message, "security_code - invalid length, pan - invalid length");
}

#[test]
fn no_account() {
    let mut request = create_request();
    request.currency = Currency::JPY;
    let (stage, _) = asked(handle_post_transaction(request));
    let (stage, lookup) = asked(resume(stage, Found::Merchant(Ok(merchant_record()))));
    assert_eq!(
        lookup,
        Lookup::Route(RouteQuery {
            scheme: "VISA".into(),
            currency: "JPY".into(),
            merchant_id: "merchant123".into()
        })
    );
    let e = failed(resume(stage, Found::Route(Err(DbFailure::RowNotFound))));
    assert_eq!(e.status_code(), 404);
    assert_eq!(e.error_name(), "RESOURCE");
    assert_eq!(e.message, "no account found");
}

#[test]
fn no_account_or_country_but_country_errors() {
    let mut request = create_request();
    request.currency = Currency::JPY;
    request.billing.as_mut().unwrap().country = None;
    let e = failed(handle_post_transaction(request));
    assert_eq!(e.status_code(), 400);
    assert_eq!(e.error_name(), "VALIDATION");
    assert_eq!(e.message, "TypeError:  is not a recognised country code");
}

#[test]
fn payment_is_checked_before_billing() {
    let mut request = create_request();
    request.payment.as_mut().unwrap().payment_type = "CASH".into();
    request.billing = None;
    let e = failed(handle_post_transaction(request));
    assert_eq!(e.message, "CASH is not a valid payment type");
}

#[test]
fn unknown_acquirer_is_fatal() {
    let (stage, _) = asked(handle_post_transaction(create_request()));
    let (stage, _) = asked(resume(stage, Found::Merchant(Ok(merchant_record()))));
    let e = failed(resume(
        stage,
        Found::Route(Ok(RouteRow { acquirer: "bankthree".into(), account_id: 1 })),
    ));
    assert_eq!(e.status_code(), 500);
    assert_eq!(e.error_name(), "FATAL");
    assert_eq!(e.message, "internal error");
}

#[test]
fn database_failures_are_fatal() {
    let (stage, _) = asked(handle_post_transaction(create_request()));
    let e = failed(resume(stage, Found::Merchant(Err(DbFailure::Other))));
    assert_eq!(e, GatewayError { kind: ErrorKind::Fatal, message: "internal error".into() });

    let (stage, _) = asked(handle_post_transaction(create_request()));
    let mut record = merchant_record();
    record.country = "Wales".into();
    let e = failed(resume(stage, Found::Merchant(Ok(record))));
    assert_eq!(e, GatewayError { kind: ErrorKind::Fatal, message: "internal error".into() });

    let (stage, _) = asked(handle_post_transaction(create_request()));
    let (stage, _) = asked(resume(stage, Found::Merchant(Ok(merchant_record()))));
    let e = failed(resume(stage, Found::Route(Err(DbFailure::Other))));
    assert_eq!(e.kind, ErrorKind::Fatal);

    let (stage, _) = asked(handle_post_transaction(create_request()));
    let (stage, _) = asked(resume(stage, Found::Merchant(Ok(merchant_record()))));
    let (stage, _) = asked(resume(
        stage,
        Found::Route(Ok(RouteRow { acquirer: "banktwo".into(), account_id: 2 })),
    ));
    let e = failed(resume(
        stage,
        Found::Account(Ok(AccountRow {
            merchant_identification_value: Some("x".into()),
            merchant_reference: None,
        })),
    ));
    assert_eq!(e, GatewayError { kind: ErrorKind::Fatal, message: "internal error".into() });
}

#[test]
fn missing_account_row_is_a_missing_resource() {
    let (stage, _) = asked(handle_post_transaction(create_request()));
    let (stage, _) = asked(resume(stage, Found::Merchant(Ok(merchant_record()))));
    let (stage, _) = asked(resume(
        stage,
        Found::Route(Ok(RouteRow { acquirer: "bankone".into(), account_id: 2 })),
    ));
    let e = failed(resume(stage, Found::Account(Err(DbFailure::RowNotFound))));
    assert_eq!(e, GatewayError { kind: ErrorKind::Resource, message: "no records returned".into() });
}

#[test]
fn account_payment_has_no_route() {
    let mut request = create_request();
    request.payment = Some(PaymentRequest {
        payment_type: "ACCOUNT".into(),
        account_number: Some("12341234".into()),
        sort_code: Some("010203".into()),
        ..Default::default()
    });
    let (stage, _) = asked(handle_post_transaction(request));
    let e = failed(resume(stage, Found::Merchant(Ok(merchant_record()))));
    assert_eq!(e, GatewayError { kind: ErrorKind::Resource, message: "no account found".into() });
}

#[test]
fn unexpected_answer_is_fatal() {
    let (stage, _) = asked(handle_post_transaction(create_request()));
    let e = failed(resume(stage, Found::Route(Err(DbFailure::RowNotFound))));
    assert_eq!(
        e,
        GatewayError { kind: ErrorKind::Fatal, message: "unexpected answer to a lookup".into() }
    );
    let (stage, _) = asked(handle_post_transaction(create_request()));
    let (stage, _) = asked(resume(stage, Found::Merchant(Ok(merchant_record()))));
    let e = failed(resume(stage, Found::Merchant(Ok(merchant_record()))));
    assert_eq!(e.kind, ErrorKind::Fatal);
}

#[test]
fn billing_is_trimmed_when_accepted() {
    let mut request = create_request();
    request.billing = Some(BillingRequest {
        first_name: Some("  Ben ".into()),
        country: Some("US".into()),
        ..Default::default()
    });
    let (stage, _) = asked(handle_post_transaction(request));
    match stage {
        Stage::Merchant(accepted) => {
            assert_eq!(accepted.billing.first_name, "Ben");
            assert_eq!(accepted.billing.country, Country::US);
            assert_eq!(accepted.amount, 12345);
            assert_eq!(accepted.merchant_id, "merchant123");
        }
        other => panic!("unexpected stage {other:?}"),
    }
}

#[test]
fn extract_data_from_a_request() {
    let mut request = create_request();
    let payment = extract_payment_data(&mut request).unwrap();
    assert_eq!(
        payment,
        Payment::Card {
            scheme: CardScheme::Visa,
            expiry_date: (2026, 12),
            security_code: "123".into(),
            pan: "4000111122223333".into(),
        }
    );
    assert_eq!(request.payment, None);
    assert_eq!(extract_payment_data(&mut request).unwrap_err().message, "missing payment data");
    let billing = extract_billing_data(&mut request).unwrap();
    assert_eq!(billing.country, Country::GB);
    assert_eq!(extract_billing_data(&mut request).unwrap_err().message, "missing billing data");
}

#[test]
fn extract_trx_data_cases() {
    assert_eq!(extract_trx_data(Some(Ok(5u8)), "payment"), Ok(5u8));
    let e = extract_trx_data::<u8>(
        Some(Err(GatewayError { kind: ErrorKind::Fatal, message: "bad".into() })),
        "payment",
    )
    .unwrap_err();
    assert_eq!(e, GatewayError { kind: ErrorKind::Validation, message: "bad".into() });
    let e = extract_trx_data::<u8>(None, "customer").unwrap_err();
    assert_eq!(e, GatewayError { kind: ErrorKind::Validation, message: "missing customer data".into() });
}
