use payment_gateway::account::{
    load, route, select_for, Account, AccountQuery, AccountRow, Acquirer, BankOneAccount,
    BankTwoAccount, RouteQuery, RouteRow,
};
use payment_gateway::card_scheme::CardScheme;
use payment_gateway::currency::Currency;
use payment_gateway::error::{DbErrorKind, DbFailure, ErrorKind};
use payment_gateway::payment::Payment;

#[test]
fn test_select_for() {
    let payment_data = Payment::Card {
        scheme: CardScheme::Visa,
        security_code: "123".into(),
        expiry_date: (2025, 12),
        pan: "4111111111111111".into(),
    };
    let query = select_for("merchant123", &payment_data, Currency::GBP).unwrap();
    assert_eq!(
        query,
        RouteQuery {
            scheme: "VISA".into(),
            currency: "GBP".into(),
            merchant_id: "merchant123".into()
        }
    );
    let account_query =
        route(Ok(RouteRow { acquirer: "bankone".into(), account_id: 1 })).unwrap();
    assert_eq!(account_query, AccountQuery { acquirer: Acquirer::BankOne, account_id: 1 });
    let actual = load(
        account_query.acquirer,
        Ok(AccountRow {
            merchant_identification_value: Some("merchant123".into()),
            merchant_reference: None,
        }),
    );
    let expected = Account::BankOne(BankOneAccount {
        merchant_identification_value: "merchant123".into(),
    });
    assert_eq!(actual.unwrap(), expected);
}

#[test]
fn test_select_for_missing_account() {
    let payment_data = Payment::Card {
        scheme: CardScheme::Mastercard,
        security_code: "123".into(),
        expiry_date: (2025, 12),
        pan: "5000111122223333".into(),
    };
    let query = select_for("merchant123", &payment_data, Currency::GBP).unwrap();
    assert_eq!(query.scheme, "MASTERCARD");
    let actual = route(Err(DbFailure::RowNotFound));
    let expected_kind = ErrorKind::Database(DbErrorKind::Query);
    let expected_msg = "no account found";
    let err = actual.unwrap_err();
    assert_eq!(err.kind, expected_kind);
    assert_eq!(err.message, expected_msg);
    assert_eq!(err.to_string(), "DatabaseError [Query]: no account found");
}

#[test]
fn test_select_for_account_payment_has_no_route() {
    let payment_data = Payment::Account { account_number: "12341234".into(), sort_code: "010203".into() };
    let err = select_for("merchant123", &payment_data, Currency::GBP).unwrap_err();
    assert_eq!(err.kind, ErrorKind::Database(DbErrorKind::Query));
    assert_eq!(err.message, "no account found");
}

#[test]
fn test_route_unknown_acquirer_is_fatal() {
    let err = route(Ok(RouteRow { acquirer: "bankthree".into(), account_id: 7 })).unwrap_err();
    assert_eq!(err.kind, ErrorKind::Database(DbErrorKind::Other));
    assert_eq!(err.message, "bankthree is not a recognised acquirer");
    let err = route(Ok(RouteRow { acquirer: "BankOne".into(), account_id: 7 })).unwrap_err();
    assert_eq!(err.kind, ErrorKind::Database(DbErrorKind::Other));
    let err = route(Ok(RouteRow { acquirer: "".into(), account_id: 7 })).unwrap_err();
    assert_eq!(err.message, " is not a recognised acquirer");
}

#[test]
fn test_route_other_failure_and_second_acquirer() {
    let err = route(Err(DbFailure::Other)).unwrap_err();
    assert_eq!(err.kind, ErrorKind::Database(DbErrorKind::Other));
    assert_eq!(err.message, "internal database error");
    let q = route(Ok(RouteRow { acquirer: "banktwo".into(), account_id: -3 })).unwrap();
    assert_eq!(q, AccountQuery { acquirer: Acquirer::BankTwo, account_id: -3 });
}

#[test]
fn test_load_account_by_acquirer() {
    let both = || AccountRow {
        merchant_identification_value: Some("miv".into()),
        merchant_reference: Some("ref".into()),
    };
    assert_eq!(
        load(Acquirer::BankOne, Ok(both())).unwrap(),
        Account::BankOne(BankOneAccount { merchant_identification_value: "miv".into() })
    );
    assert_eq!(
        load(Acquirer::BankTwo, Ok(both())).unwrap(),
        Account::BankTwo(BankTwoAccount { merchant_reference: "ref".into() })
    );
    let err = load(
        Acquirer::BankTwo,
        Ok(AccountRow { merchant_identification_value: Some("miv".into()), merchant_reference: None }),
    )
    .unwrap_err();
    assert_eq!(err.kind, ErrorKind::Database(DbErrorKind::Other));
    assert_eq!(err.message, "account record does not match its acquirer");
    let err = load(
        Acquirer::BankOne,
        Ok(AccountRow { merchant_identification_value: None, merchant_reference: Some("r".into()) }),
    )
    .unwrap_err();
    assert_eq!(err.kind, ErrorKind::Database(DbErrorKind::Other));
    let err = load(Acquirer::BankOne, Err(DbFailure::RowNotFound)).unwrap_err();
    assert_eq!(err.kind, ErrorKind::Database(DbErrorKind::Query));
    assert_eq!(err.message, "no records returned");
    let err = load(Acquirer::BankOne, Err(DbFailure::Other)).unwrap_err();
    assert_eq!(err.kind, ErrorKind::Database(DbErrorKind::Other));
}

#[test]
fn test_account_from_and_names() {
    let one = BankOneAccount { merchant_identification_value: "12345678".into() };
    assert_eq!(
        Account::from(one),
        Account::BankOne(BankOneAccount { merchant_identification_value: "12345678".into() })
    );
    let two = BankTwoAccount { merchant_reference: "r".into() };
    let account: Account = two.into();
    assert_eq!(account, Account::BankTwo(BankTwoAccount { merchant_reference: "r".into() }));
    assert_eq!(account.clone(), account);
    assert_eq!(Acquirer::BankOne.to_string(), "bankone");
    assert_eq!(Acquirer::BankTwo.to_string(), "banktwo");
    assert_eq!(Acquirer::parse("bankone"), Some(Acquirer::BankOne));
    assert_eq!(Acquirer::parse("banktwo"), Some(Acquirer::BankTwo));
    assert_eq!(Acquirer::parse("bank"), None);
}
