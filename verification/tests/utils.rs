use payment_gateway::utils::{mask_account_number, mask_number, mask_pan};

#[test]
fn test_mask_pan() {
    assert_eq!(mask_pan("1234123412341234"), "123412######1234");
    assert_eq!(mask_pan("12341234123412341234"), "123412##########1234");
    assert_eq!(mask_pan("1234123412"), "1234123412");
    assert_eq!(mask_pan("123412"), "123412");
}

#[test]
fn test_mask_pan_visa() {
    assert_eq!(mask_pan("4000111122223333"), "400011######3333");
}

#[test]
fn test_mask_pan_edges() {
    assert_eq!(mask_pan(""), "");
    assert_eq!(mask_pan("1"), "1");
    assert_eq!(mask_pan("12341234123"), "123412#4123");
}

#[test]
fn test_mask_account_number() {
    assert_eq!(mask_account_number("12341234"), "####1234");
    assert_eq!(mask_account_number("123412341234"), "########1234");
    assert_eq!(mask_account_number("1234"), "1234");
    assert_eq!(mask_account_number("12"), "12");
}

#[test]
fn test_mask_account_number_edges() {
    assert_eq!(mask_account_number(""), "");
    assert_eq!(mask_account_number("12345"), "#2345");
}

#[test]
fn test_mask_counts_characters() {
    assert_eq!(mask_account_number("äöü12345"), "####2345");
    assert_eq!(mask_number("abcdef", '*', 1, 2), "a***ef");
    assert_eq!(mask_number("abcdef", '*', 0, 0), "******");
    assert_eq!(mask_number("abc", '*', usize::MAX, usize::MAX), "abc");
}
