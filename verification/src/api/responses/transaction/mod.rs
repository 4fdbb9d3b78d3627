//! The answer to an accepted transaction request.

pub mod billing;
pub mod payment;

use vstd::prelude::*;
use crate::amount::decimal_text;
use crate::api::responses::transaction::billing::BillingResponse;
use crate::api::responses::transaction::payment::{
    payment_response_of, PaymentResponse, PaymentResponseView,
};
use crate::billing::BillingView;
use crate::currency::{decimal_places, Currency};
use crate::transaction::{
    status_name, Transaction, TransactionError, TransactionStatus, TransactionView,
};

verus! {

/// What is answered for a transaction: the amount in decimal form, the
/// currency, the masked payment instrument, the billing address, the
/// status, the error of a failed transaction if there is one, and the
/// reference.
#[derive(Debug, PartialEq, Eq)]
pub struct TransactionResponse<'a> {
    pub amount: String,
    pub currency: Currency,
    pub payment: PaymentResponse,
    pub billing: BillingResponse<'a>,
    pub status: String,
    pub error: Option<TransactionError>,
    pub reference: String,
}

/// A transaction response with its texts as sequences of characters.
pub struct TransactionResponseView {
    pub amount: Seq<char>,
    pub currency: Currency,
    pub payment: PaymentResponseView,
    pub billing: BillingView,
    pub status: Seq<char>,
    pub error: Option<TransactionError>,
    pub reference: Seq<char>,
}

impl<'a> View for TransactionResponse<'a> {
    type V = TransactionResponseView;

    open spec fn view(&self) -> TransactionResponseView {
        TransactionResponseView {
            amount: self.amount@,
            currency: self.currency,
            payment: self.payment@,
            billing: self.billing@,
            status: self.status@,
            error: self.error,
            reference: self.reference@,
        }
    }
}

/// The error that a response reports: that of a failed transaction, if it
/// has one.
pub open spec fn reported_error(status: TransactionStatus) -> Option<TransactionError> {
    match status {
        TransactionStatus::Success => None,
        TransactionStatus::Failed(e) => e,
    }
}

/// What is answered for a transaction.
pub open spec fn response_of(t: TransactionView) -> TransactionResponseView {
    TransactionResponseView {
        amount: decimal_text(
            t.amount.minor_units() as nat,
            decimal_places(t.amount.in_currency()),
        ),
        currency: t.amount.in_currency(),
        payment: payment_response_of(t.payment),
        billing: t.billing,
        status: status_name(t.status),
        error: reported_error(t.status),
        reference: t.reference,
    }
}

impl<'a> TransactionResponse<'a> {
    /// What is answered for a transaction.
    pub fn from(value: &'a Transaction) -> (r: TransactionResponse<'a>)
        ensures
            r@ == response_of(value@),
    {
        let error = match value.status {
            TransactionStatus::Failed(e) => e,
            TransactionStatus::Success => None,
        };
        TransactionResponse {
            amount: value.amount.to_dec().to_string(),
            currency: value.amount.currency(),
            payment: PaymentResponse::from(&value.payment),
            billing: BillingResponse::from(&value.billing),
            status: value.status.to_string(),
            error,
            reference: value.reference.clone(),
        }
    }
}

} // verus!
