//! The kind of a payment, without the number that identifies it.

use vstd::prelude::*;
use crate::card_scheme::CardScheme;
use crate::payment::ExpiryDate;

verus! {

/// The kind of a payment and what is particular to that kind.
#[derive(Debug, PartialEq, Eq)]
pub enum PaymentType {
    Card { scheme: CardScheme, expiry_date: ExpiryDate, security_code: String },
    Account,
}

/// A payment type with its texts as sequences of characters.
pub enum PaymentTypeView {
    Card { scheme: CardScheme, expiry_date: ExpiryDate, security_code: Seq<char> },
    Account,
}

impl View for PaymentType {
    type V = PaymentTypeView;

    open spec fn view(&self) -> PaymentTypeView {
        match self {
            PaymentType::Card { scheme, expiry_date, security_code } => PaymentTypeView::Card {
                scheme: *scheme,
                expiry_date: *expiry_date,
                security_code: security_code@,
            },
            PaymentType::Account => PaymentTypeView::Account,
        }
    }
}

} // verus!
