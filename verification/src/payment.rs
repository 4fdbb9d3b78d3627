//! Payment instruments and their validation.

use vstd::prelude::*;
use crate::card_scheme::CardScheme;

verus! {

/// Year and month in which a card expires.
pub type ExpiryDate = (u32, u8);

/// Smallest accepted length of a card's security code.
pub const SECURITY_CODE_MIN: usize = 3;

/// Largest accepted length of a card's security code.
pub const SECURITY_CODE_MAX: usize = 4;

/// Smallest accepted length of a card number.
pub const PAN_MIN: usize = 16;

/// Largest accepted length of a card number.
pub const PAN_MAX: usize = 20;

/// What a payment is made with.
#[derive(Debug, PartialEq, Eq)]
pub enum Payment {
    Card { scheme: CardScheme, expiry_date: ExpiryDate, security_code: String, pan: String },
    Account { account_number: String, sort_code: String },
}

/// A payment instrument with its texts as sequences of characters.
pub enum PaymentView {
    Card {
        scheme: CardScheme,
        expiry_date: ExpiryDate,
        security_code: Seq<char>,
        pan: Seq<char>,
    },
    Account { account_number: Seq<char>, sort_code: Seq<char> },
}

impl View for Payment {
    type V = PaymentView;

    open spec fn view(&self) -> PaymentView {
        match self {
            Payment::Card { scheme, expiry_date, security_code, pan } => PaymentView::Card {
                scheme: *scheme,
                expiry_date: *expiry_date,
                security_code: security_code@,
                pan: pan@,
            },
            Payment::Account { account_number, sort_code } => PaymentView::Account {
                account_number: account_number@,
                sort_code: sort_code@,
            },
        }
    }
}

/// One violated rule on one field of a payment instrument.
#[derive(Debug, PartialEq, Eq)]
pub struct FieldError {
    /// The field that broke the rule.
    pub field: String,
    /// The rule, in one word.
    pub code: String,
    /// The rule, for a reader.
    pub message: String,
    /// The smallest accepted length.
    pub min: usize,
    /// The largest accepted length.
    pub max: usize,
    /// The length that was found.
    pub actual: usize,
}

/// A field error with its texts as sequences of characters.
pub struct FieldErrorView {
    pub field: Seq<char>,
    pub code: Seq<char>,
    pub message: Seq<char>,
    pub min: nat,
    pub max: nat,
    pub actual: nat,
}

impl View for FieldError {
    type V = FieldErrorView;

    open spec fn view(&self) -> FieldErrorView {
        FieldErrorView {
            field: self.field@,
            code: self.code@,
            message: self.message@,
            min: self.min as nat,
            max: self.max as nat,
            actual: self.actual as nat,
        }
    }
}

/// The views of a list of field errors, in order.
pub open spec fn field_error_views(errors: Seq<FieldError>) -> Seq<FieldErrorView> {
    errors.map_values(|e: FieldError| e@)
}

/// The error for a field whose length is out of bounds.
pub open spec fn length_error(field: Seq<char>, min: nat, max: nat, actual: nat) -> FieldErrorView {
    FieldErrorView { field, code: "length"@, message: "invalid length"@, min, max, actual }
}

/// The errors of one length rule: none within the bounds, one outside.
pub open spec fn length_errors(field: Seq<char>, min: nat, max: nat, actual: nat) -> Seq<
    FieldErrorView,
> {
    if min <= actual <= max {
        Seq::empty()
    } else {
        seq![length_error(field, min, max, actual)]
    }
}

/// Every violation of a payment instrument, in the order of its fields. A
/// card's security code has 3 to 4 characters and its number 16 to 20; an
/// account is not checked.
pub open spec fn payment_errors(p: PaymentView) -> Seq<FieldErrorView> {
    match p {
        PaymentView::Card { security_code, pan, .. } => length_errors(
            "security_code"@,
            SECURITY_CODE_MIN as nat,
            SECURITY_CODE_MAX as nat,
            security_code.len(),
        ) + length_errors("pan"@, PAN_MIN as nat, PAN_MAX as nat, pan.len()),
        PaymentView::Account { .. } => Seq::empty(),
    }
}

/// Whether a payment instrument breaks no rule.
pub open spec fn payment_valid(p: PaymentView) -> bool {
    match p {
        PaymentView::Card { security_code, pan, .. } => {
            &&& SECURITY_CODE_MIN <= security_code.len() <= SECURITY_CODE_MAX
            &&& PAN_MIN <= pan.len() <= PAN_MAX
        },
        PaymentView::Account { .. } => true,
    }
}

/// An instrument is valid exactly when it has no error, and it never has
/// more than one error per checked field.
pub proof fn lemma_valid_iff_no_errors(p: PaymentView)
    ensures
        payment_valid(p) <==> payment_errors(p).len() == 0,
        payment_errors(p).len() <= 2,
{
}

fn check_length(errors: &mut Vec<FieldError>, field: &str, min: usize, max: usize, actual: usize)
    ensures
        field_error_views(final(errors)@) == field_error_views(old(errors)@) + length_errors(
            field@,
            min as nat,
            max as nat,
            actual as nat,
        ),
{
    if actual < min || actual > max {
        let e = FieldError {
            field: field.to_string(),
            code: "length".to_string(),
            message: "invalid length".to_string(),
            min,
            max,
            actual,
        };
        errors.push(e);
        assert(field_error_views(errors@) =~= field_error_views(old(errors)@) + length_errors(
            field@,
            min as nat,
            max as nat,
            actual as nat,
        ));
    } else {
        assert(field_error_views(errors@) =~= field_error_views(old(errors)@) + length_errors(
            field@,
            min as nat,
            max as nat,
            actual as nat,
        ));
    }
}

impl Clone for FieldError {
    fn clone(&self) -> (e: FieldError)
        ensures
            e@ == self@,
    {
        FieldError {
            field: self.field.clone(),
            code: self.code.clone(),
            message: self.message.clone(),
            min: self.min,
            max: self.max,
            actual: self.actual,
        }
    }
}

impl Clone for Payment {
    fn clone(&self) -> (p: Payment)
        ensures
            p@ == self@,
    {
        match self {
            Payment::Card { scheme, expiry_date, security_code, pan } => Payment::Card {
                scheme: *scheme,
                expiry_date: (expiry_date.0, expiry_date.1),
                security_code: security_code.clone(),
                pan: pan.clone(),
            },
            Payment::Account { account_number, sort_code } => Payment::Account {
                account_number: account_number.clone(),
                sort_code: sort_code.clone(),
            },
        }
    }
}

impl Payment {
    /// A card payment.
    pub fn card(scheme: CardScheme, expiry_date: ExpiryDate, security_code: &str, pan: &str) -> (p:
        Payment)
        ensures
            p@ == (PaymentView::Card {
                scheme,
                expiry_date,
                security_code: security_code@,
                pan: pan@,
            }),
    {
        Payment::Card {
            scheme,
            expiry_date,
            security_code: security_code.to_string(),
            pan: pan.to_string(),
        }
    }

    /// The scheme of a card; an account has none.
    pub fn scheme(&self) -> (s: Option<CardScheme>)
        ensures
            s == match self@ {
                PaymentView::Card { scheme, .. } => Some(scheme),
                PaymentView::Account { .. } => None,
            },
    {
        match self {
            Payment::Card { scheme, .. } => Some(*scheme),
            Payment::Account { .. } => None,
        }
    }

    /// Checks every rule and reports all violations at once, in the order
    /// of the fields. Succeeds exactly when there is none.
    pub fn validate(&self) -> (r: Result<(), Vec<FieldError>>)
        ensures
            r is Ok <==> payment_valid(self@),
            r matches Err(errors) ==> field_error_views(errors@) == payment_errors(self@),
    {
        proof {
            lemma_valid_iff_no_errors(self@);
        }
        match self {
            Payment::Card { security_code, pan, .. } => {
                let mut errors: Vec<FieldError> = Vec::new();
                assert(field_error_views(errors@) =~= Seq::empty());
                check_length(
                    &mut errors,
                    "security_code",
                    SECURITY_CODE_MIN,
                    SECURITY_CODE_MAX,
                    security_code.as_str().unicode_len(),
                );
                check_length(&mut errors, "pan", PAN_MIN, PAN_MAX, pan.as_str().unicode_len());
                assert(field_error_views(errors@) =~= payment_errors(self@));
                assert(field_error_views(errors@).len() == errors@.len());
                if errors.len() == 0 {
                    Ok(())
                } else {
                    Err(errors)
                }
            },
            Payment::Account { .. } => Ok(()),
        }
    }
}

} // verus!
