//! Decoding of a payment object whose `type` field tells a card from an
//! account. The object arrives as a list of named values; each is taken
//! in turn, and the whole is checked once the list is through.

use vstd::prelude::*;
use crate::card_scheme::{scheme_of, CardScheme};
use crate::payment_type::{PaymentType, PaymentTypeView};
use crate::text::{join, joined, list_if, listed_if, same, text_of, texts};

verus! {

/// A decoded payment object: the type of the payment and the number of the
/// card or account.
#[derive(Debug, PartialEq, Eq)]
pub struct PaymentRequest {
    pub payment_type: PaymentType,
    pub account_number: String,
}

/// A payment request with its texts as sequences of characters.
pub struct PaymentRequestView {
    pub payment_type: PaymentTypeView,
    pub account_number: Seq<char>,
}

impl View for PaymentRequest {
    type V = PaymentRequestView;

    open spec fn view(&self) -> PaymentRequestView {
        PaymentRequestView {
            payment_type: self.payment_type@,
            account_number: self.account_number@,
        }
    }
}

/// The value of one field of a payment object.
#[derive(Debug, PartialEq, Eq)]
pub enum FieldValue {
    Text(String),
    Number(u64),
}

/// A field value with its text as a sequence of characters.
pub enum FieldValueView {
    Text(Seq<char>),
    Number(u64),
}

impl View for FieldValue {
    type V = FieldValueView;

    open spec fn view(&self) -> FieldValueView {
        match self {
            FieldValue::Text(t) => FieldValueView::Text(t@),
            FieldValue::Number(n) => FieldValueView::Number(*n),
        }
    }
}

/// Why a payment object was refused.
#[derive(Debug, PartialEq, Eq)]
pub enum DecodeError {
    /// The object has a field that its type does not have. Several such
    /// fields are listed together, separated by commas.
    UnknownField(String),
    /// A field occurs twice.
    DuplicateField(String),
    /// A field that is needed is not there.
    MissingField(String),
    /// A field's value is none of the values that it can have.
    InvalidValue { found: String, expected: String },
    /// A field holds a number in place of a text, a text in place of a
    /// number, or a number that is too large.
    InvalidType(String),
}

/// A decode error with its texts as sequences of characters.
pub enum DecodeErrorView {
    UnknownField(Seq<char>),
    DuplicateField(Seq<char>),
    MissingField(Seq<char>),
    InvalidValue { found: Seq<char>, expected: Seq<char> },
    InvalidType(Seq<char>),
}

impl View for DecodeError {
    type V = DecodeErrorView;

    open spec fn view(&self) -> DecodeErrorView {
        match self {
            DecodeError::UnknownField(f) => DecodeErrorView::UnknownField(f@),
            DecodeError::DuplicateField(f) => DecodeErrorView::DuplicateField(f@),
            DecodeError::MissingField(f) => DecodeErrorView::MissingField(f@),
            DecodeError::InvalidValue { found, expected } => DecodeErrorView::InvalidValue {
                found: found@,
                expected: expected@,
            },
            DecodeError::InvalidType(f) => DecodeErrorView::InvalidType(f@),
        }
    }
}

/// The fields of a payment object that have been taken so far.
#[derive(Debug, PartialEq, Eq)]
pub struct PaymentFields {
    pub payment_type: Option<String>,
    pub account_number: Option<String>,
    pub scheme: Option<String>,
    pub expiry_year: Option<u32>,
    pub expiry_month: Option<u8>,
    pub security_code: Option<String>,
}

/// The fields taken so far, with their texts as sequences of characters.
pub struct PaymentFieldsView {
    pub payment_type: Option<Seq<char>>,
    pub account_number: Option<Seq<char>>,
    pub scheme: Option<Seq<char>>,
    pub expiry_year: Option<u32>,
    pub expiry_month: Option<u8>,
    pub security_code: Option<Seq<char>>,
}

impl View for PaymentFields {
    type V = PaymentFieldsView;

    open spec fn view(&self) -> PaymentFieldsView {
        PaymentFieldsView {
            payment_type: text_of(self.payment_type),
            account_number: text_of(self.account_number),
            scheme: text_of(self.scheme),
            expiry_year: self.expiry_year,
            expiry_month: self.expiry_month,
            security_code: text_of(self.security_code),
        }
    }
}

/// A named value of a payment object, over views.
pub type Entry = (Seq<char>, FieldValueView);

impl PaymentFieldsView {
    /// No field taken.
    pub open spec fn empty() -> PaymentFieldsView {
        PaymentFieldsView {
            payment_type: None,
            account_number: None,
            scheme: None,
            expiry_year: None,
            expiry_month: None,
            security_code: None,
        }
    }
}

/// A text field is taken once, and holds a text.
pub open spec fn take_text(taken: bool, name: Seq<char>, value: FieldValueView) -> Result<
    Seq<char>,
    DecodeErrorView,
> {
    if taken {
        Err(DecodeErrorView::DuplicateField(name))
    } else {
        match value {
            FieldValueView::Text(t) => Ok(t),
            FieldValueView::Number(_) => Err(DecodeErrorView::InvalidType(name)),
        }
    }
}

/// A number field is taken once, and holds a number of at most `max`.
pub open spec fn take_number(taken: bool, name: Seq<char>, value: FieldValueView, max: u64) -> Result<
    u64,
    DecodeErrorView,
> {
    if taken {
        Err(DecodeErrorView::DuplicateField(name))
    } else {
        match value {
            FieldValueView::Number(n) => if n <= max {
                Ok(n)
            } else {
                Err(DecodeErrorView::InvalidType(name))
            },
            FieldValueView::Text(_) => Err(DecodeErrorView::InvalidType(name)),
        }
    }
}

/// What taking one named value does to the fields taken so far. A name
/// that no payment object has is refused; so is a second value for a
/// field, and a value of the wrong type.
pub open spec fn accept_one(fields: PaymentFieldsView, name: Seq<char>, value: FieldValueView) -> Result<
    PaymentFieldsView,
    DecodeErrorView,
> {
    if name == "type"@ {
        match take_text(fields.payment_type is Some, name, value) {
            Ok(t) => Ok(PaymentFieldsView { payment_type: Some(t), ..fields }),
            Err(e) => Err(e),
        }
    } else if name == "account_number"@ {
        match take_text(fields.account_number is Some, name, value) {
            Ok(t) => Ok(PaymentFieldsView { account_number: Some(t), ..fields }),
            Err(e) => Err(e),
        }
    } else if name == "scheme"@ {
        match take_text(fields.scheme is Some, name, value) {
            Ok(t) => Ok(PaymentFieldsView { scheme: Some(t), ..fields }),
            Err(e) => Err(e),
        }
    } else if name == "expiry_year"@ {
        match take_number(fields.expiry_year is Some, name, value, u32::MAX as u64) {
            Ok(n) => Ok(PaymentFieldsView { expiry_year: Some(n as u32), ..fields }),
            Err(e) => Err(e),
        }
    } else if name == "expiry_month"@ {
        match take_number(fields.expiry_month is Some, name, value, u8::MAX as u64) {
            Ok(n) => Ok(PaymentFieldsView { expiry_month: Some(n as u8), ..fields }),
            Err(e) => Err(e),
        }
    } else if name == "security_code"@ {
        match take_text(fields.security_code is Some, name, value) {
            Ok(t) => Ok(PaymentFieldsView { security_code: Some(t), ..fields }),
            Err(e) => Err(e),
        }
    } else {
        Err(DecodeErrorView::UnknownField(name))
    }
}

/// What taking a list of named values in order does to the fields taken
/// so far. The first value that is refused ends it.
pub open spec fn accept_all(fields: PaymentFieldsView, entries: Seq<Entry>) -> Result<
    PaymentFieldsView,
    DecodeErrorView,
>
    decreases entries.len(),
{
    if entries.len() == 0 {
        Ok(fields)
    } else {
        match accept_one(fields, entries[0].0, entries[0].1) {
            Ok(next) => accept_all(next, entries.subrange(1, entries.len() as int)),
            Err(e) => Err(e),
        }
    }
}

/// The card fields that an account payment has no place for and that are
/// there all the same, in the order expiry month, expiry year, security
/// code, scheme.
pub open spec fn card_only_fields(fields: PaymentFieldsView) -> Seq<Seq<char>> {
    listed_if(
        fields.expiry_month is Some,
        "expiry_month"@,
    ) + listed_if(
        fields.expiry_year is Some,
        "expiry_year"@,
    ) + listed_if(
        fields.security_code is Some,
        "security_code"@,
    ) + listed_if(fields.scheme is Some, "scheme"@)
}

/// The card that the fields describe, or why they describe none: the
/// scheme must be there and be a known one, then the expiry year, the
/// expiry month and the security code must be there.
pub open spec fn card_outcome(fields: PaymentFieldsView) -> Result<
    PaymentTypeView,
    DecodeErrorView,
> {
    match fields.scheme {
        None => Err(DecodeErrorView::MissingField("scheme"@)),
        Some(name) => match scheme_of(name) {
            None => Err(
                DecodeErrorView::InvalidValue { found: name, expected: "VISA, MASTERCARD"@ },
            ),
            Some(scheme) => if fields.expiry_year is None {
                Err(DecodeErrorView::MissingField("expiry_year"@))
            } else if fields.expiry_month is None {
                Err(DecodeErrorView::MissingField("expiry_month"@))
            } else if fields.security_code is None {
                Err(DecodeErrorView::MissingField("security_code"@))
            } else {
                Ok(
                    PaymentTypeView::Card {
                        scheme,
                        expiry_date: (fields.expiry_year->0, fields.expiry_month->0),
                        security_code: fields.security_code->0,
                    },
                )
            },
        },
    }
}

/// The payment request that the taken fields make, or why they make none.
/// The type and the number must be there. A card needs all of its fields;
/// an account must have none of a card's.
pub open spec fn finish_outcome(fields: PaymentFieldsView) -> Result<
    PaymentRequestView,
    DecodeErrorView,
> {
    match fields.payment_type {
        None => Err(DecodeErrorView::MissingField("type"@)),
        Some(payment_type) => match fields.account_number {
            None => Err(DecodeErrorView::MissingField("account_number"@)),
            Some(account_number) => if payment_type == "CARD"@ {
                match card_outcome(fields) {
                    Ok(card) => Ok(PaymentRequestView { payment_type: card, account_number }),
                    Err(e) => Err(e),
                }
            } else if payment_type == "ACCOUNT"@ {
                if card_only_fields(fields).len() > 0 {
                    Err(DecodeErrorView::UnknownField(joined(card_only_fields(fields), ", "@)))
                } else {
                    Ok(
                        PaymentRequestView {
                            payment_type: PaymentTypeView::Account,
                            account_number,
                        },
                    )
                }
            } else {
                Err(DecodeErrorView::InvalidValue { found: payment_type, expected: "CARD, ACCOUNT"@ })
            },
        },
    }
}

/// The payment request that a list of named values decodes to, or why it
/// decodes to none.
pub open spec fn decode_outcome(entries: Seq<Entry>) -> Result<PaymentRequestView, DecodeErrorView> {
    match accept_all(PaymentFieldsView::empty(), entries) {
        Ok(fields) => finish_outcome(fields),
        Err(e) => Err(e),
    }
}

/// The named values of a list, over views.
pub open spec fn entry_views(entries: Seq<(String, FieldValue)>) -> Seq<Entry> {
    entries.map_values(|e: (String, FieldValue)| (e.0@, e.1@))
}

/// A result of decoding, over views.
pub open spec fn decoded_view<T: View>(r: Result<T, DecodeError>) -> Result<T::V, DecodeErrorView> {
    match r {
        Ok(value) => Ok(value@),
        Err(e) => Err(e@),
    }
}

fn text_value(taken: bool, name: &str, value: &FieldValue) -> (r: Result<String, DecodeError>)
    ensures
        match r {
            Ok(t) => take_text(taken, name@, value@) == Ok::<Seq<char>, DecodeErrorView>(t@),
            Err(e) => take_text(taken, name@, value@) == Err::<Seq<char>, DecodeErrorView>(e@),
        },
{
    if taken {
        Err(DecodeError::DuplicateField(name.to_string()))
    } else {
        match value {
            FieldValue::Text(t) => Ok(t.clone()),
            FieldValue::Number(_) => Err(DecodeError::InvalidType(name.to_string())),
        }
    }
}

fn number_value(taken: bool, name: &str, value: &FieldValue, max: u64) -> (r: Result<
    u64,
    DecodeError,
>)
    ensures
        match r {
            Ok(n) => take_number(taken, name@, value@, max) == Ok::<u64, DecodeErrorView>(n),
            Err(e) => take_number(taken, name@, value@, max) == Err::<u64, DecodeErrorView>(e@),
        },
{
    if taken {
        Err(DecodeError::DuplicateField(name.to_string()))
    } else {
        match value {
            FieldValue::Number(n) => if *n <= max {
                Ok(*n)
            } else {
                Err(DecodeError::InvalidType(name.to_string()))
            },
            FieldValue::Text(_) => Err(DecodeError::InvalidType(name.to_string())),
        }
    }
}

impl PaymentFields {
    /// No field taken.
    pub fn new() -> (fields: PaymentFields)
        ensures
            fields@ == PaymentFieldsView::empty(),
    {
        PaymentFields {
            payment_type: None,
            account_number: None,
            scheme: None,
            expiry_year: None,
            expiry_month: None,
            security_code: None,
        }
    }

    /// Takes one named value. A value that is refused leaves the fields as
    /// they were.
    pub fn accept(&mut self, name: &str, value: &FieldValue) -> (r: Result<(), DecodeError>)
        ensures
            match accept_one(old(self)@, name@, value@) {
                Ok(fields) => r is Ok && final(self)@ == fields,
                Err(e) => r is Err && r->Err_0@ == e && final(self)@ == old(self)@,
            },
    {
        if same(name, "type") {
            match text_value(self.payment_type.is_some(), name, value) {
                Ok(t) => {
                    self.payment_type = Some(t);
                    Ok(())
                },
                Err(e) => Err(e),
            }
        } else if same(name, "account_number") {
            match text_value(self.account_number.is_some(), name, value) {
                Ok(t) => {
                    self.account_number = Some(t);
                    Ok(())
                },
                Err(e) => Err(e),
            }
        } else if same(name, "scheme") {
            match text_value(self.scheme.is_some(), name, value) {
                Ok(t) => {
                    self.scheme = Some(t);
                    Ok(())
                },
                Err(e) => Err(e),
            }
        } else if same(name, "expiry_year") {
            match number_value(self.expiry_year.is_some(), name, value, u32::MAX as u64) {
                Ok(n) => {
                    self.expiry_year = Some(n as u32);
                    Ok(())
                },
                Err(e) => Err(e),
            }
        } else if same(name, "expiry_month") {
            match number_value(self.expiry_month.is_some(), name, value, u8::MAX as u64) {
                Ok(n) => {
                    self.expiry_month = Some(n as u8);
                    Ok(())
                },
                Err(e) => Err(e),
            }
        } else if same(name, "security_code") {
            match text_value(self.security_code.is_some(), name, value) {
                Ok(t) => {
                    self.security_code = Some(t);
                    Ok(())
                },
                Err(e) => Err(e),
            }
        } else {
            Err(DecodeError::UnknownField(name.to_string()))
        }
    }

    fn card(&self) -> (r: Result<PaymentType, DecodeError>)
        ensures
            decoded_view(r) == card_outcome(self@),
    {
        let scheme = match &self.scheme {
            None => {
                return Err(DecodeError::MissingField("scheme".to_string()));
            },
            Some(name) => match CardScheme::parse(name.as_str()) {
                None => {
                    return Err(
                        DecodeError::InvalidValue {
                            found: name.clone(),
                            expected: "VISA, MASTERCARD".to_string(),
                        },
                    );
                },
                Some(scheme) => scheme,
            },
        };
        let expiry_year = match self.expiry_year {
            Some(year) => year,
            None => {
                return Err(DecodeError::MissingField("expiry_year".to_string()));
            },
        };
        let expiry_month = match self.expiry_month {
            Some(month) => month,
            None => {
                return Err(DecodeError::MissingField("expiry_month".to_string()));
            },
        };
        let security_code = match &self.security_code {
            Some(code) => code.clone(),
            None => {
                return Err(DecodeError::MissingField("security_code".to_string()));
            },
        };
        Ok(PaymentType::Card { scheme, expiry_date: (expiry_year, expiry_month), security_code })
    }

    /// The payment request that the taken fields make.
    pub fn finish(self) -> (r: Result<PaymentRequest, DecodeError>)
        ensures
            decoded_view(r) == finish_outcome(self@),
    {
        let payment_type = match &self.payment_type {
            Some(t) => t.clone(),
            None => {
                return Err(DecodeError::MissingField("type".to_string()));
            },
        };
        let account_number = match &self.account_number {
            Some(n) => n.clone(),
            None => {
                return Err(DecodeError::MissingField("account_number".to_string()));
            },
        };
        if same(payment_type.as_str(), "CARD") {
            match self.card() {
                Ok(card) => Ok(PaymentRequest { payment_type: card, account_number }),
                Err(e) => Err(e),
            }
        } else if same(payment_type.as_str(), "ACCOUNT") {
            let mut invalids: Vec<String> = Vec::new();
            assert(texts(invalids@) =~= Seq::empty());
            list_if(&mut invalids, self.expiry_month.is_some(), "expiry_month");
            list_if(&mut invalids, self.expiry_year.is_some(), "expiry_year");
            list_if(&mut invalids, self.security_code.is_some(), "security_code");
            list_if(&mut invalids, self.scheme.is_some(), "scheme");
            assert(texts(invalids@) =~= card_only_fields(self@));
            assert(texts(invalids@).len() == invalids@.len());
            if invalids.len() > 0 {
                return Err(DecodeError::UnknownField(join(&invalids, ", ")));
            }
            Ok(PaymentRequest { payment_type: PaymentType::Account, account_number })
        } else {
            Err(
                DecodeError::InvalidValue {
                    found: payment_type,
                    expected: "CARD, ACCOUNT".to_string(),
                },
            )
        }
    }
}

/// Decodes a payment object from its named values, taken in order.
pub fn decode(entries: &Vec<(String, FieldValue)>) -> (r: Result<PaymentRequest, DecodeError>)
    ensures
        decoded_view(r) == decode_outcome(entry_views(entries@)),
{
    let mut fields = PaymentFields::new();
    let mut i: usize = 0;
    let ghost all = entry_views(entries@);
    assert(all.subrange(0, all.len() as int) =~= all);
    while i < entries.len()
        invariant
            i <= entries.len(),
            all == entry_views(entries@),
            accept_all(PaymentFieldsView::empty(), all) == accept_all(
                fields@,
                all.subrange(i as int, all.len() as int),
            ),
        decreases entries.len() - i,
    {
        let ghost rest = all.subrange(i as int, all.len() as int);
        assert(rest[0] == all[i as int]);
        assert(rest.subrange(1, rest.len() as int) =~= all.subrange(i + 1, all.len() as int));
        match fields.accept(entries[i].0.as_str(), &entries[i].1) {
            Ok(()) => {},
            Err(e) => {
                return Err(e);
            },
        }
        i += 1;
    }
    fields.finish()
}

} // verus!
