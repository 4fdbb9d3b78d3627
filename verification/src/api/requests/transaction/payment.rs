//! The payment part of a transaction request.

use vstd::prelude::*;
use crate::api::error::{ErrorKind, GatewayError};
use crate::card_scheme::CardScheme;
use crate::payment::{Payment, PaymentView};
use crate::text::{join, joined, list_if, listed_if, same, text_of, texts};

verus! {

/// The payment of a transaction request: its type, and the fields of a
/// card or of an account, each of which may be missing.
#[derive(Debug, PartialEq, Eq)]
pub struct PaymentRequest {
    pub payment_type: String,
    pub scheme: Option<CardScheme>,
    pub pan: Option<String>,
    pub security_code: Option<String>,
    pub expiry_month: Option<u8>,
    pub expiry_year: Option<u32>,
    pub account_number: Option<String>,
    pub sort_code: Option<String>,
}

/// A payment request with its texts as sequences of characters.
pub struct PaymentRequestView {
    pub payment_type: Seq<char>,
    pub scheme: Option<CardScheme>,
    pub pan: Option<Seq<char>>,
    pub security_code: Option<Seq<char>>,
    pub expiry_month: Option<u8>,
    pub expiry_year: Option<u32>,
    pub account_number: Option<Seq<char>>,
    pub sort_code: Option<Seq<char>>,
}

impl View for PaymentRequest {
    type V = PaymentRequestView;

    open spec fn view(&self) -> PaymentRequestView {
        PaymentRequestView {
            payment_type: self.payment_type@,
            scheme: self.scheme,
            pan: text_of(self.pan),
            security_code: text_of(self.security_code),
            expiry_month: self.expiry_month,
            expiry_year: self.expiry_year,
            account_number: text_of(self.account_number),
            sort_code: text_of(self.sort_code),
        }
    }
}

/// The fields that a card payment needs and the request lacks, in the
/// order scheme, number, expiry month, expiry year, security code.
pub open spec fn card_missing(request: PaymentRequestView) -> Seq<Seq<char>> {
    listed_if(request.scheme is None, "scheme"@) + listed_if(request.pan is None, "pan"@)
        + listed_if(request.expiry_month is None, "expiry_month"@) + listed_if(
        request.expiry_year is None,
        "expiry_year"@,
    ) + listed_if(request.security_code is None, "security_code"@)
}

/// The fields that an account payment needs and the request lacks, in the
/// order sort code, account number.
pub open spec fn account_missing(request: PaymentRequestView) -> Seq<Seq<char>> {
    listed_if(request.sort_code is None, "sort_code"@) + listed_if(
        request.account_number is None,
        "account_number"@,
    )
}

/// The fields of an account that a card payment has no place for and that
/// the request holds all the same, in the order account number, sort code.
pub open spec fn card_extra(request: PaymentRequestView) -> Seq<Seq<char>> {
    listed_if(request.account_number is Some, "account_number"@) + listed_if(
        request.sort_code is Some,
        "sort_code"@,
    )
}

/// The fields of a card that an account payment has no place for and that
/// the request holds all the same, in the order scheme, number, expiry
/// month, expiry year, security code.
pub open spec fn account_extra(request: PaymentRequestView) -> Seq<Seq<char>> {
    listed_if(request.scheme is Some, "scheme"@) + listed_if(request.pan is Some, "pan"@)
        + listed_if(request.expiry_month is Some, "expiry_month"@) + listed_if(
        request.expiry_year is Some,
        "expiry_year"@,
    ) + listed_if(request.security_code is Some, "security_code"@)
}

/// The message that lists fields that the payment type does not have.
pub open spec fn unknown_message(unknown: Seq<Seq<char>>) -> Seq<char> {
    "Unknown fields: "@ + joined(unknown, ", "@)
}

/// The message that lists missing fields.
pub open spec fn missing_message(missing: Seq<Seq<char>>) -> Seq<char> {
    "Missing fields: "@ + joined(missing, ", "@)
}

/// The message for a payment type that is neither a card nor an account.
pub open spec fn invalid_type_message(payment_type: Seq<char>) -> Seq<char> {
    payment_type + " is not a valid payment type"@
}

/// The payment instrument that a request asks for, or the message that
/// refuses it. The type decides which fields are needed: all of them must
/// be there, and none of the other type's.
pub open spec fn payment_of(request: PaymentRequestView) -> Result<PaymentView, Seq<char>> {
    if request.payment_type == "CARD"@ {
        if card_missing(request).len() > 0 {
            Err(missing_message(card_missing(request)))
        } else if card_extra(request).len() > 0 {
            Err(unknown_message(card_extra(request)))
        } else {
            Ok(
                PaymentView::Card {
                    scheme: request.scheme->0,
                    expiry_date: (request.expiry_year->0, request.expiry_month->0),
                    security_code: request.security_code->0,
                    pan: request.pan->0,
                },
            )
        }
    } else if request.payment_type == "ACCOUNT"@ {
        if account_missing(request).len() > 0 {
            Err(missing_message(account_missing(request)))
        } else if account_extra(request).len() > 0 {
            Err(unknown_message(account_extra(request)))
        } else {
            Ok(
                PaymentView::Account {
                    account_number: request.account_number->0,
                    sort_code: request.sort_code->0,
                },
            )
        }
    } else {
        Err(invalid_type_message(request.payment_type))
    }
}

/// The validation error that lists fields that the payment type does not
/// have.
pub fn create_unknown_error<T>(unknown: &Vec<String>) -> (r: Result<T, GatewayError>)
    ensures
        r is Err,
        r->Err_0.says(ErrorKind::Validation, unknown_message(texts(unknown@))),
{
    let mut message = "Unknown fields: ".to_string();
    let list = join(unknown, ", ");
    message.append(list.as_str());
    Err(GatewayError { kind: ErrorKind::Validation, message })
}

/// The validation error that lists missing fields.
pub fn create_missing_error<T>(missing: &Vec<String>) -> (r: Result<T, GatewayError>)
    ensures
        r is Err,
        r->Err_0.says(ErrorKind::Validation, missing_message(texts(missing@))),
{
    let mut message = "Missing fields: ".to_string();
    let list = join(missing, ", ");
    message.append(list.as_str());
    Err(GatewayError { kind: ErrorKind::Validation, message })
}

impl Default for PaymentRequest {
    fn default() -> (r: PaymentRequest)
        ensures
            r@ == (PaymentRequestView {
                payment_type: Seq::empty(),
                scheme: None,
                pan: None,
                security_code: None,
                expiry_month: None,
                expiry_year: None,
                account_number: None,
                sort_code: None,
            }),
    {
        PaymentRequest {
            payment_type: String::new(),
            scheme: None,
            pan: None,
            security_code: None,
            expiry_month: None,
            expiry_year: None,
            account_number: None,
            sort_code: None,
        }
    }
}

impl PaymentRequest {
    /// The fields that a card payment needs and the request lacks.
    pub fn get_card_missing(&self) -> (missing: Vec<String>)
        ensures
            texts(missing@) == card_missing(self@),
    {
        let mut missing: Vec<String> = Vec::new();
        assert(texts(missing@) =~= Seq::empty());
        list_if(&mut missing, self.scheme.is_none(), "scheme");
        list_if(&mut missing, self.pan.is_none(), "pan");
        list_if(&mut missing, self.expiry_month.is_none(), "expiry_month");
        list_if(&mut missing, self.expiry_year.is_none(), "expiry_year");
        list_if(&mut missing, self.security_code.is_none(), "security_code");
        assert(texts(missing@) =~= card_missing(self@));
        missing
    }

    /// The fields that an account payment needs and the request lacks.
    pub fn get_account_missing(&self) -> (missing: Vec<String>)
        ensures
            texts(missing@) == account_missing(self@),
    {
        let mut missing: Vec<String> = Vec::new();
        assert(texts(missing@) =~= Seq::empty());
        list_if(&mut missing, self.sort_code.is_none(), "sort_code");
        list_if(&mut missing, self.account_number.is_none(), "account_number");
        assert(texts(missing@) =~= account_missing(self@));
        missing
    }

    /// The fields of an account that the request holds.
    pub fn get_card_extra(&self) -> (extra: Vec<String>)
        ensures
            texts(extra@) == card_extra(self@),
    {
        let mut extra: Vec<String> = Vec::new();
        assert(texts(extra@) =~= Seq::empty());
        list_if(&mut extra, self.account_number.is_some(), "account_number");
        list_if(&mut extra, self.sort_code.is_some(), "sort_code");
        assert(texts(extra@) =~= card_extra(self@));
        extra
    }

    /// The fields of a card that the request holds.
    pub fn get_account_extra(&self) -> (extra: Vec<String>)
        ensures
            texts(extra@) == account_extra(self@),
    {
        let mut extra: Vec<String> = Vec::new();
        assert(texts(extra@) =~= Seq::empty());
        list_if(&mut extra, self.scheme.is_some(), "scheme");
        list_if(&mut extra, self.pan.is_some(), "pan");
        list_if(&mut extra, self.expiry_month.is_some(), "expiry_month");
        list_if(&mut extra, self.expiry_year.is_some(), "expiry_year");
        list_if(&mut extra, self.security_code.is_some(), "security_code");
        assert(texts(extra@) =~= account_extra(self@));
        extra
    }

    /// The payment instrument that the request asks for. A type other
    /// than `CARD` and `ACCOUNT`, a missing field of the type, or a field
    /// of the other type is a validation error.
    pub fn try_into(self) -> (r: Result<Payment, GatewayError>)
        ensures
            match payment_of(self@) {
                Ok(payment) => r is Ok && r->Ok_0@ == payment,
                Err(message) => r is Err && r->Err_0.says(ErrorKind::Validation, message),
            },
    {
        if same(self.payment_type.as_str(), "CARD") {
            let missing = self.get_card_missing();
            assert(texts(missing@).len() == missing@.len());
            if missing.len() > 0 {
                return create_missing_error(&missing);
            }
            let extra = self.get_card_extra();
            assert(texts(extra@).len() == extra@.len());
            if extra.len() > 0 {
                return create_unknown_error(&extra);
            }
            Ok(
                Payment::Card {
                    scheme: self.scheme.unwrap(),
                    expiry_date: (self.expiry_year.unwrap(), self.expiry_month.unwrap()),
                    security_code: self.security_code.unwrap(),
                    pan: self.pan.unwrap(),
                },
            )
        } else if same(self.payment_type.as_str(), "ACCOUNT") {
            let missing = self.get_account_missing();
            assert(texts(missing@).len() == missing@.len());
            if missing.len() > 0 {
                return create_missing_error(&missing);
            }
            let extra = self.get_account_extra();
            assert(texts(extra@).len() == extra@.len());
            if extra.len() > 0 {
                return create_unknown_error(&extra);
            }
            Ok(
                Payment::Account {
                    account_number: self.account_number.unwrap(),
                    sort_code: self.sort_code.unwrap(),
                },
            )
        } else {
            let mut message = self.payment_type;
            message.append(" is not a valid payment type");
            Err(GatewayError { kind: ErrorKind::Validation, message })
        }
    }
}

} // verus!
