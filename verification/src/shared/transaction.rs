//! A transaction as it is sent to a bank.

use vstd::prelude::*;
use crate::text::text_of;

verus! {

/// The particulars of a transaction that a bank is told.
#[derive(Debug, PartialEq, Eq)]
pub struct Transaction {
    pub amount: u64,
    pub currency: String,
    pub pan: String,
    pub merchant: String,
    pub billing_name: String,
    pub expiry_date: String,
    pub status: Option<String>,
}

/// A bank transaction with its texts as sequences of characters.
pub struct TransactionView {
    pub amount: u64,
    pub currency: Seq<char>,
    pub pan: Seq<char>,
    pub merchant: Seq<char>,
    pub billing_name: Seq<char>,
    pub expiry_date: Seq<char>,
    pub status: Option<Seq<char>>,
}

impl View for Transaction {
    type V = TransactionView;

    open spec fn view(&self) -> TransactionView {
        TransactionView {
            amount: self.amount,
            currency: self.currency@,
            pan: self.pan@,
            merchant: self.merchant@,
            billing_name: self.billing_name@,
            expiry_date: self.expiry_date@,
            status: text_of(self.status),
        }
    }
}

impl Default for Transaction {
    fn default() -> (t: Transaction)
        ensures
            t@ == (TransactionView {
                amount: 0,
                currency: Seq::empty(),
                pan: Seq::empty(),
                merchant: Seq::empty(),
                billing_name: Seq::empty(),
                expiry_date: Seq::empty(),
                status: None,
            }),
    {
        Transaction {
            amount: 0,
            currency: String::new(),
            pan: String::new(),
            merchant: String::new(),
            billing_name: String::new(),
            expiry_date: String::new(),
            status: None,
        }
    }
}

} // verus!
