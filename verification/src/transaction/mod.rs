//! The transaction that the gateway assembles for each accepted request.

pub mod transaction_builder;

use vstd::prelude::*;
use crate::account::{Account, AccountView};
use crate::amount::Amount;
use crate::billing::{Billing, BillingView};
use crate::currency::Currency;
use crate::customer::{customer_view, Customer, CustomerView};
use crate::merchant::{Merchant, MerchantView};
use crate::payment::{Payment, PaymentView};
use crate::text::{digits, render_number};

verus! {

/// What a transaction asks the acquirer to do.
#[derive(Clone, Copy, Debug, PartialEq, Eq, Structural)]
pub enum TransactionType {
    Auth,
    Refund,
}

/// Why a transaction failed.
#[derive(Clone, Copy, Debug, PartialEq, Eq, Structural)]
pub enum TransactionError {
    /// The acquirer turned the payment down.
    Declined,
}

/// How a transaction ended.
#[derive(Clone, Copy, Debug, PartialEq, Eq, Structural)]
pub enum TransactionStatus {
    Success,
    Failed(Option<TransactionError>),
}

/// A transaction, complete: there is no transaction without its type,
/// amount, payment, billing address, merchant, account and currency.
#[derive(Debug, PartialEq, Eq)]
pub struct Transaction {
    pub reference: String,
    pub transaction_type: TransactionType,
    pub amount: Amount,
    pub payment: Payment,
    pub billing: Billing,
    pub merchant: Merchant,
    pub account: Account,
    pub customer: Option<Customer>,
    pub status: TransactionStatus,
    pub currency: Currency,
}

/// A transaction with its texts as sequences of characters.
pub struct TransactionView {
    pub reference: Seq<char>,
    pub transaction_type: TransactionType,
    pub amount: Amount,
    pub payment: PaymentView,
    pub billing: BillingView,
    pub merchant: MerchantView,
    pub account: AccountView,
    pub customer: Option<CustomerView>,
    pub status: TransactionStatus,
    pub currency: Currency,
}

impl View for Transaction {
    type V = TransactionView;

    open spec fn view(&self) -> TransactionView {
        TransactionView {
            reference: self.reference@,
            transaction_type: self.transaction_type,
            amount: self.amount,
            payment: self.payment@,
            billing: self.billing@,
            merchant: self.merchant@,
            account: self.account@,
            customer: customer_view(self.customer),
            status: self.status,
            currency: self.currency,
        }
    }
}

/// The name of a status in responses.
pub open spec fn status_name(status: TransactionStatus) -> Seq<char> {
    match status {
        TransactionStatus::Success => "SUCCESS"@,
        TransactionStatus::Failed(_) => "FAILED"@,
    }
}

/// The name of a transaction type in requests.
pub open spec fn transaction_type_name(t: TransactionType) -> Seq<char> {
    match t {
        TransactionType::Auth => "Auth"@,
        TransactionType::Refund => "Refund"@,
    }
}

/// The transaction type that a name stands for, if any.
pub open spec fn transaction_type_of(name: Seq<char>) -> Option<TransactionType> {
    if name == "Auth"@ {
        Some(TransactionType::Auth)
    } else if name == "Refund"@ {
        Some(TransactionType::Refund)
    } else {
        None
    }
}

/// The placeholders `$1,$2,` and so on up to `$count`, separated by commas.
pub open spec fn placeholders(count: nat) -> Seq<char>
    decreases count,
{
    if count == 0 {
        Seq::empty()
    } else if count == 1 {
        seq!['$'] + digits(1)
    } else {
        placeholders((count - 1) as nat) + seq![',', '$'] + digits(count)
    }
}

/// The number of columns that a payment instrument fills.
pub open spec fn payment_columns(p: PaymentView) -> nat {
    match p {
        PaymentView::Card { .. } => 4,
        PaymentView::Account { .. } => 2,
    }
}

/// The number of columns of a transaction's row: the reference, amount,
/// currency, type and result; the payment; seven for the billing address
/// and seven for the customer; and one for the account.
pub open spec fn insert_columns(t: TransactionView) -> nat {
    5 + payment_columns(t.payment) + 7 + 7 + 1
}

/// The number of columns that an update of a transaction's row sets: all
/// but the reference.
pub open spec fn update_columns(t: TransactionView) -> nat {
    4 + payment_columns(t.payment) + 7 + 7 + 1
}

/// The table that holds the transactions of an account's acquirer.
pub open spec fn transaction_table(a: AccountView) -> Seq<char> {
    match a {
        AccountView::BankOne { .. } => "transaction.bankone"@,
        AccountView::BankTwo { .. } => "transaction.banktwo"@,
    }
}

/// The placeholders `$1` to `$count` as text.
pub fn placeholder_list(count: u64) -> (r: String)
    ensures
        r@ == placeholders(count as nat),
{
    let mut r = String::new();
    let mut i: u64 = 0;
    proof {
        reveal_strlit("$");
        reveal_strlit(",$");
    }
    while i < count
        invariant
            i <= count,
            r@ == placeholders(i as nat),
            "$"@ == seq!['$'],
            ",$"@ == seq![',', '$'],
        decreases count - i,
    {
        i += 1;
        if i == 1 {
            r.append("$");
        } else {
            r.append(",$");
        }
        let number = render_number(i);
        r.append(number.as_str());
        assert(r@ =~= placeholders(i as nat));
    }
    r
}

impl TransactionStatus {
    /// The status as responses write it.
    pub fn to_string(&self) -> (name: String)
        ensures
            name@ == status_name(*self),
    {
        match self {
            TransactionStatus::Success => "SUCCESS".to_string(),
            TransactionStatus::Failed(_) => "FAILED".to_string(),
        }
    }
}

impl Default for TransactionStatus {
    fn default() -> (s: TransactionStatus)
        ensures
            s == TransactionStatus::Success,
    {
        TransactionStatus::Success
    }
}

impl TransactionType {
    /// The type as requests write it.
    pub fn to_string(&self) -> (name: String)
        ensures
            name@ == transaction_type_name(*self),
    {
        match self {
            TransactionType::Auth => "Auth".to_string(),
            TransactionType::Refund => "Refund".to_string(),
        }
    }

    /// Reads a transaction type's name.
    pub fn parse(name: &str) -> (t: Option<TransactionType>)
        ensures
            t == transaction_type_of(name@),
    {
        if crate::text::same(name, "Auth") {
            Some(TransactionType::Auth)
        } else if crate::text::same(name, "Refund") {
            Some(TransactionType::Refund)
        } else {
            None
        }
    }
}

impl Transaction {
    /// The placeholders of the statement that stores the transaction, one
    /// for each column of its row.
    pub fn values_str_for_insert(&self) -> (r: String)
        ensures
            r@ == placeholders(insert_columns(self@)),
    {
        let num_payment_args: u64 = match self.payment {
            Payment::Card { .. } => 4,
            Payment::Account { .. } => 2,
        };
        placeholder_list(5 + num_payment_args + 7 + 7 + 1)
    }

    /// The placeholders of the statement that updates the transaction, one
    /// for each column but the reference.
    pub fn values_str_for_update(&self) -> (r: String)
        ensures
            r@ == placeholders(update_columns(self@)),
    {
        let num_payment_args: u64 = match self.payment {
            Payment::Card { .. } => 4,
            Payment::Account { .. } => 2,
        };
        placeholder_list(4 + num_payment_args + 7 + 7 + 1)
    }

    /// The table that holds the transaction: that of its account's
    /// acquirer.
    pub fn table_name(&self) -> (name: &'static str)
        ensures
            name@ == transaction_table(self@.account),
    {
        match self.account {
            Account::BankOne(..) => "transaction.bankone",
            Account::BankTwo(..) => "transaction.banktwo",
        }
    }
}

} // verus!
