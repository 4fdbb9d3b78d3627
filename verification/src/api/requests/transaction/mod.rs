//! The body of a transaction request.

pub mod billing;
pub mod customer;
pub mod payment;

use vstd::prelude::*;
use crate::api::requests::transaction::billing::{BillingRequest, BillingRequestView};
use crate::api::requests::transaction::customer::CustomerRequest;
use crate::api::requests::transaction::payment::{PaymentRequest, PaymentRequestView};
use crate::currency::Currency;
use crate::transaction::TransactionType;

verus! {

/// A request to take a transaction.
#[derive(Debug, PartialEq, Eq)]
pub struct TransactionRequest {
    pub amount: u64,
    pub currency: Currency,
    pub transaction_type: TransactionType,
    pub merchant_id: String,
    pub payment: Option<PaymentRequest>,
    pub billing: Option<BillingRequest>,
    pub customer: Option<CustomerRequest>,
}

/// An optional payment request as an optional view.
pub open spec fn payment_request_view(request: Option<PaymentRequest>) -> Option<
    PaymentRequestView,
> {
    match request {
        Some(r) => Some(r@),
        None => None,
    }
}

/// An optional billing request as an optional view.
pub open spec fn billing_request_view(request: Option<BillingRequest>) -> Option<
    BillingRequestView,
> {
    match request {
        Some(r) => Some(r@),
        None => None,
    }
}

impl TransactionRequest {
    /// Takes the payment out of the request, leaving none.
    pub fn take_payment_data(&mut self) -> (payment: Option<PaymentRequest>)
        ensures
            payment == old(self).payment,
            final(self).payment is None,
            final(self).amount == old(self).amount,
            final(self).currency == old(self).currency,
            final(self).transaction_type == old(self).transaction_type,
            final(self).merchant_id == old(self).merchant_id,
            final(self).billing == old(self).billing,
            final(self).customer == old(self).customer,
    {
        self.payment.take()
    }

    /// Takes the billing address out of the request, leaving none.
    pub fn take_billing_data(&mut self) -> (billing: Option<BillingRequest>)
        ensures
            billing == old(self).billing,
            final(self).billing is None,
            final(self).amount == old(self).amount,
            final(self).currency == old(self).currency,
            final(self).transaction_type == old(self).transaction_type,
            final(self).merchant_id == old(self).merchant_id,
            final(self).payment == old(self).payment,
            final(self).customer == old(self).customer,
    {
        self.billing.take()
    }
}

} // verus!
