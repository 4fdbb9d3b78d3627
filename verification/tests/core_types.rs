use payment_gateway::billing::Billing;
use payment_gateway::country::Country;
use payment_gateway::error::{DbErrorKind, DbFailure, Error, ErrorKind};
use payment_gateway::merchant::{Merchant, MerchantRecord};
use payment_gateway::text::{join, render_number, render_padded, same, strip_marked, trim};

#[test]
fn test_country_codes() {
    assert_eq!(Country::try_from("GB".to_string()), Ok(Country::GB));
    assert_eq!(Country::try_from("US".to_string()), Ok(Country::US));
    assert_eq!(Country::GB.to_string(), "GB");
    assert_eq!(Country::US.to_string(), "US");
    assert_eq!(Country::default(), Country::GB);
}

#[test]
fn test_country_unknown_code_is_a_type_error() {
    let err = Country::try_from("FR".to_string()).unwrap_err();
    assert_eq!(err.kind, ErrorKind::Type);
    assert_eq!(err.message, "FR is not a recognised country code");
    assert_eq!(err.to_string(), "TypeError: FR is not a recognised country code");
    let err = Country::try_from(String::new()).unwrap_err();
    assert_eq!(err.to_string(), "TypeError:  is not a recognised country code");
    assert!(Country::try_from("gb".to_string()).is_err());
    assert!(Country::try_from("GBR".to_string()).is_err());
}

#[test]
fn test_error_text() {
    let e = Error::new(ErrorKind::Database(DbErrorKind::Query), "no account found");
    assert_eq!(e.to_string(), "DatabaseError [Query]: no account found");
    assert_eq!(e.kind(), ErrorKind::Database(DbErrorKind::Query));
    assert_eq!(e.message(), "no account found");
    let e = Error::new(ErrorKind::Database(DbErrorKind::Connection), "down");
    assert_eq!(e.to_string(), "DatabaseError [Connection]: down");
    let e = Error::new(ErrorKind::Database(DbErrorKind::Other), "x");
    assert_eq!(e.to_string(), "DatabaseError [Other]: x");
    let e = Error::new(ErrorKind::Type, "bad");
    assert_eq!(e.to_string(), "TypeError: bad");
    assert_eq!(e.clone(), e);
    assert_eq!(DbErrorKind::Query.to_string(), "Query");
    assert_eq!(DbErrorKind::Connection.to_string(), "Connection");
    assert_eq!(DbErrorKind::Other.to_string(), "Other");
}

#[test]
fn test_error_from_failure() {
    let e = Error::from_failure(DbFailure::RowNotFound);
    assert_eq!(e.kind, ErrorKind::Database(DbErrorKind::Query));
    assert_eq!(e.message, "no records returned");
    let e = Error::from_failure(DbFailure::Other);
    assert_eq!(e.kind, ErrorKind::Database(DbErrorKind::Other));
    assert_eq!(e.message, "internal database error");
}

#[test]
fn test_trim_fields() {
    let mut m = Merchant {
        merchant_id: "merchant123".into(),
        name: "   name   ".into(),
        premise: "   premise   ".into(),
        street: "   street   ".into(),
        city: "   city   ".into(),
        postcode: "   postcode   ".into(),
        county: "   county   ".into(),
        country: Country::GB,
    };
    let exp = Merchant {
        merchant_id: "merchant123".into(),
        name: "name".into(),
        premise: "premise".into(),
        street: "street".into(),
        city: "city".into(),
        postcode: "postcode".into(),
        county: "county".into(),
        country: Country::GB,
    };
    assert!(m.validify().is_ok());
    assert_eq!(m, exp);
}

#[test]
fn test_trim_leaves_the_merchant_id() {
    let mut m = Merchant::default();
    m.merchant_id = "  m1  ".into();
    m.name = "\t a b \n".into();
    assert!(m.validify().is_ok());
    assert_eq!(m.merchant_id, "  m1  ");
    assert_eq!(m.name, "a b");
    assert_eq!(m.clone(), m);
}

#[test]
fn test_trim_billing_fields() {
    let mut b = Billing {
        first_name: " Ben ".into(),
        last_name: "Jones  ".into(),
        premise: "  1".into(),
        street: " High  Street ".into(),
        city: "   ".into(),
        county: "".into(),
        country: Country::US,
    };
    assert!(b.validify().is_ok());
    assert_eq!(
        b,
        Billing {
            first_name: "Ben".into(),
            last_name: "Jones".into(),
            premise: "1".into(),
            street: "High  Street".into(),
            city: "".into(),
            county: "".into(),
            country: Country::US,
        }
    );
    assert_eq!(b.clone(), b);
    let d = Billing::default();
    assert_eq!(d.first_name, "");
    assert_eq!(d.country, Country::GB);
}

fn record(country: &str) -> MerchantRecord {
    MerchantRecord {
        id: "merchant123".into(),
        name: " Shop ".into(),
        premise: "1".into(),
        street: "High Street".into(),
        city: "Town ".into(),
        postcode: "AB1 2CD".into(),
        county: "Shire".into(),
        country: country.into(),
    }
}

#[test]
fn test_merchant_from_record() {
    let m = Merchant::try_from(record("GB")).unwrap();
    assert_eq!(m.merchant_id, "merchant123");
    assert_eq!(m.name, " Shop ");
    assert_eq!(m.city, "Town ");
    assert_eq!(m.postcode, "AB1 2CD");
    assert_eq!(m.country, Country::GB);
    let e = Merchant::try_from(record("XX")).unwrap_err();
    assert_eq!(e.kind, ErrorKind::Database(DbErrorKind::Other));
    assert_eq!(e.message, "bad country: XX");
}

#[test]
fn test_merchant_load() {
    let m = Merchant::load(Ok(record("US"))).unwrap();
    assert_eq!(m.name, "Shop");
    assert_eq!(m.city, "Town");
    assert_eq!(m.country, Country::US);
    let e = Merchant::load(Err(DbFailure::RowNotFound)).unwrap_err();
    assert_eq!(e.kind, ErrorKind::Database(DbErrorKind::Query));
    assert_eq!(e.message, "no records returned");
    let e = Merchant::load(Err(DbFailure::Other)).unwrap_err();
    assert_eq!(e.kind, ErrorKind::Database(DbErrorKind::Other));
    let e = Merchant::load(Ok(record(""))).unwrap_err();
    assert_eq!(e.kind, ErrorKind::Database(DbErrorKind::Other));
    assert_eq!(e.message, "bad country: ");
}

#[test]
fn test_text_trim() {
    assert_eq!(trim("  a  "), "a");
    assert_eq!(trim("a"), "a");
    assert_eq!(trim(""), "");
    assert_eq!(trim(" \t\n "), "");
    assert_eq!(trim("\u{a0}x y\u{3000}"), "x y");
    assert_eq!(trim(" é "), "é");
    for s in ["  a  ", "", " ", "ab c", "\n\nq", "q\r\n"] {
        assert_eq!(trim(s), s.trim());
        assert_eq!(trim(&trim(s)), trim(s));
    }
}

#[test]
fn test_text_strip_marked() {
    assert_eq!(strip_marked("abcde", &vec![true, true, false, true, true]), "c");
    assert_eq!(strip_marked("abcde", &vec![true, false, true, false, false]), "bcde");
    assert_eq!(strip_marked("abcde", &vec![false, false, true, false, true]), "abcd");
    assert_eq!(strip_marked("abc", &vec![true, true, true]), "");
    assert_eq!(strip_marked("abc", &vec![false, false, false]), "abc");
    assert_eq!(strip_marked("", &vec![]), "");
    assert_eq!(strip_marked("abc", &vec![true]), "abc");
    assert_eq!(strip_marked("abc", &vec![true, true, true, true]), "abc");
}

#[test]
fn test_text_same() {
    assert!(same("", ""));
    assert!(same("abc", "abc"));
    assert!(!same("abc", "abd"));
    assert!(!same("abc", "ab"));
    assert!(!same("ab", "abc"));
    assert!(same("é", "é"));
    assert!(!same("é", "e"));
}

#[test]
fn test_text_numbers() {
    assert_eq!(render_number(0), "0");
    assert_eq!(render_number(7), "7");
    assert_eq!(render_number(10), "10");
    assert_eq!(render_number(1234567890), "1234567890");
    assert_eq!(render_number(u64::MAX), u64::MAX.to_string());
    assert_eq!(render_padded(0, 0), "0");
    assert_eq!(render_padded(0, 3), "000");
    assert_eq!(render_padded(42, 5), "00042");
    assert_eq!(render_padded(12345, 3), "12345");
}

#[test]
fn test_text_join() {
    assert_eq!(join(&vec![], ", "), "");
    assert_eq!(join(&vec!["a".to_string()], ", "), "a");
    assert_eq!(join(&vec!["a".to_string(), "b".to_string(), "".to_string()], ", "), "a, b, ");
    assert_eq!(join(&vec!["a".to_string(), "b".to_string()], ""), "ab");
}
