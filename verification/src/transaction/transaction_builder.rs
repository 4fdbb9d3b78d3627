//! Staged assembly of a transaction. The builder's type records which of
//! the required parts have been supplied, and `build` exists only on the
//! type that has them all.

use std::marker::PhantomData;
use vstd::prelude::*;
use vstd::std_specs::convert::IntoSpec;
use crate::account::{Account, AccountView};
use crate::amount::Amount;
use crate::billing::{Billing, BillingView};
use crate::currency::Currency;
use crate::customer::{customer_view, Customer, CustomerView};
use crate::merchant::{Merchant, MerchantView};
use crate::payment::{Payment, PaymentView};
use crate::transaction::{Transaction, TransactionStatus, TransactionType, TransactionView};

verus! {

/// A marker for one required part of a transaction: supplied or not.
pub trait Slot {
    /// Whether the marker stands for a part that has been supplied.
    spec fn filled() -> bool;
}

pub struct HasType;

pub struct NoType;

pub struct HasAmount;

pub struct NoAmount;

pub struct HasPayment;

pub struct NoPayment;

pub struct HasAccount;

pub struct NoAccount;

pub struct HasMerchant;

pub struct NoMerchant;

pub struct HasBilling;

pub struct NoBilling;

pub struct HasCurrency;

pub struct NoCurrency;

impl Slot for HasType {
    open spec fn filled() -> bool {
        true
    }
}

impl Slot for NoType {
    open spec fn filled() -> bool {
        false
    }
}

impl Slot for HasAmount {
    open spec fn filled() -> bool {
        true
    }
}

impl Slot for NoAmount {
    open spec fn filled() -> bool {
        false
    }
}

impl Slot for HasPayment {
    open spec fn filled() -> bool {
        true
    }
}

impl Slot for NoPayment {
    open spec fn filled() -> bool {
        false
    }
}

impl Slot for HasAccount {
    open spec fn filled() -> bool {
        true
    }
}

impl Slot for NoAccount {
    open spec fn filled() -> bool {
        false
    }
}

impl Slot for HasMerchant {
    open spec fn filled() -> bool {
        true
    }
}

impl Slot for NoMerchant {
    open spec fn filled() -> bool {
        false
    }
}

impl Slot for HasBilling {
    open spec fn filled() -> bool {
        true
    }
}

impl Slot for NoBilling {
    open spec fn filled() -> bool {
        false
    }
}

impl Slot for HasCurrency {
    open spec fn filled() -> bool {
        true
    }
}

impl Slot for NoCurrency {
    open spec fn filled() -> bool {
        false
    }
}

/// The parts of a transaction that have been supplied so far.
pub struct Staged {
    pub transaction_type: Option<TransactionType>,
    pub amount: Option<Amount>,
    pub payment: Option<PaymentView>,
    pub billing: Option<BillingView>,
    pub merchant: Option<MerchantView>,
    pub account: Option<AccountView>,
    pub customer: Option<CustomerView>,
    pub currency: Option<Currency>,
}

impl Staged {
    /// Nothing supplied.
    pub open spec fn empty() -> Staged {
        Staged {
            transaction_type: None,
            amount: None,
            payment: None,
            billing: None,
            merchant: None,
            account: None,
            customer: None,
            currency: None,
        }
    }

    /// The transaction that complete parts make under a reference: the
    /// parts as they were supplied, and the status `Success`.
    pub open spec fn assembled(self, reference: Seq<char>) -> TransactionView {
        TransactionView {
            reference,
            transaction_type: self.transaction_type->0,
            amount: self.amount->0,
            payment: self.payment->0,
            billing: self.billing->0,
            merchant: self.merchant->0,
            account: self.account->0,
            customer: self.customer,
            status: TransactionStatus::Success,
            currency: self.currency->0,
        }
    }

    /// Whether every required part has been supplied.
    pub open spec fn complete(self) -> bool {
        &&& self.transaction_type is Some
        &&& self.amount is Some
        &&& self.payment is Some
        &&& self.billing is Some
        &&& self.merchant is Some
        &&& self.account is Some
        &&& self.currency is Some
    }
}

/// The characters that a reference may hold besides the hyphens.
pub open spec fn is_lower_hex(c: char) -> bool {
    ('0' <= c && c <= '9') || ('a' <= c && c <= 'f')
}

/// Whether a character may stand at a place of a reference: a hyphen after
/// each group, a lower-case hexadecimal digit anywhere else.
pub open spec fn fits_reference(place: int, c: char) -> bool {
    if place == 8 || place == 13 || place == 18 || place == 23 {
        c == '-'
    } else {
        is_lower_hex(c)
    }
}

/// The shape of a transaction reference: a random identifier of 32
/// lower-case hexadecimal digits in groups of 8, 4, 4, 4 and 12, separated
/// by hyphens, whose third group starts with `4` and whose fourth group
/// starts with `8`, `9`, `a` or `b`.
pub open spec fn is_reference(s: Seq<char>) -> bool {
    &&& s.len() == 36
    &&& forall|i: int| 0 <= i < 36 ==> fits_reference(i, #[trigger] s[i])
    &&& s[14] == '4'
    &&& (s[19] == '8' || s[19] == '9' || s[19] == 'a' || s[19] == 'b')
}

/// Calls `uuid::Uuid::new_v4` and writes the identifier with its `Display`
/// form. Trusted: a version 4 identifier has the version digit `4` and one
/// of the variant digits `8` to `b`, and is written hyphenated in lower
/// case. Which identifier comes back is random and is not stated. The call
/// stops the program if the system has no random bytes to give.
#[verifier::external_body]
fn fresh_reference() -> (reference: String)
    ensures
        is_reference(reference@),
{
    uuid::Uuid::new_v4().to_string()
}

/// A transaction under assembly. Each type parameter is the marker of one
/// required part.
pub struct TransactionBuilder<T: Slot, A: Slot, P: Slot, Acc: Slot, M: Slot, B: Slot, C: Slot> {
    transaction_type: Option<TransactionType>,
    amount: Option<Amount>,
    payment: Option<Payment>,
    billing: Option<Billing>,
    merchant: Option<Merchant>,
    account: Option<Account>,
    customer: Option<Customer>,
    currency: Option<Currency>,
    _t: PhantomData<T>,
    _a: PhantomData<A>,
    _p: PhantomData<P>,
    _acc: PhantomData<Acc>,
    _m: PhantomData<M>,
    _b: PhantomData<B>,
    _c: PhantomData<C>,
}

impl<T: Slot, A: Slot, P: Slot, Acc: Slot, M: Slot, B: Slot, C: Slot> View for TransactionBuilder<
    T,
    A,
    P,
    Acc,
    M,
    B,
    C,
> {
    type V = Staged;

    closed spec fn view(&self) -> Staged {
        Staged {
            transaction_type: self.transaction_type,
            amount: self.amount,
            payment: match self.payment {
                Some(p) => Some(p@),
                None => None,
            },
            billing: match self.billing {
                Some(b) => Some(b@),
                None => None,
            },
            merchant: match self.merchant {
                Some(m) => Some(m@),
                None => None,
            },
            account: match self.account {
                Some(a) => Some(a@),
                None => None,
            },
            customer: customer_view(self.customer),
            currency: self.currency,
        }
    }
}

impl TransactionBuilder<NoType, NoAmount, NoPayment, NoAccount, NoMerchant, NoBilling, NoCurrency> {
    /// A builder with nothing supplied.
    pub fn new() -> (b: TransactionBuilder<
        NoType,
        NoAmount,
        NoPayment,
        NoAccount,
        NoMerchant,
        NoBilling,
        NoCurrency,
    >)
        ensures
            b@ == Staged::empty(),
    {
        TransactionBuilder {
            transaction_type: None,
            amount: None,
            payment: None,
            billing: None,
            merchant: None,
            account: None,
            customer: None,
            currency: None,
            _t: PhantomData,
            _a: PhantomData,
            _p: PhantomData,
            _acc: PhantomData,
            _m: PhantomData,
            _b: PhantomData,
            _c: PhantomData,
        }
    }
}

/// A builder for an authorisation: the type is supplied, nothing else.
pub fn new_auth() -> (b: TransactionBuilder<
    HasType,
    NoAmount,
    NoPayment,
    NoAccount,
    NoMerchant,
    NoBilling,
    NoCurrency,
>)
    ensures
        b@ == (Staged { transaction_type: Some(TransactionType::Auth), ..Staged::empty() }),
{
    TransactionBuilder::new().transaction_type(TransactionType::Auth)
}

impl TransactionBuilder<
    HasType,
    HasAmount,
    HasPayment,
    HasAccount,
    HasMerchant,
    HasBilling,
    HasCurrency,
> {
    /// The transaction made of the supplied parts, with a fresh reference
    /// and the status `Success`. Every required part is there: a builder
    /// of this type cannot lack one.
    pub fn build(self) -> (t: Transaction)
        ensures
            self@.complete(),
            is_reference(t@.reference),
            t@ == self@.assembled(t@.reference),
    {
        self.build_with_reference(fresh_reference())
    }

    /// The transaction made of the supplied parts, with the given
    /// reference and the status `Success`.
    pub fn build_with_reference(self, reference: String) -> (t: Transaction)
        ensures
            self@.complete(),
            t@ == self@.assembled(reference@),
    {
        proof {
            use_type_invariant(&self);
        }
        Transaction {
            transaction_type: self.transaction_type.unwrap(),
            amount: self.amount.unwrap(),
            payment: self.payment.unwrap(),
            billing: self.billing.unwrap(),
            merchant: self.merchant.unwrap(),
            account: self.account.unwrap(),
            customer: self.customer,
            status: TransactionStatus::Success,
            reference,
            currency: self.currency.unwrap(),
        }
    }
}

impl<T: Slot, A: Slot, P: Slot, Acc: Slot, M: Slot, B: Slot, C: Slot> TransactionBuilder<
    T,
    A,
    P,
    Acc,
    M,
    B,
    C,
> {
    /// Every part whose marker says it was supplied is there.
    #[verifier::type_invariant]
    spec fn markers_hold(&self) -> bool {
        &&& T::filled() ==> self.transaction_type is Some
        &&& A::filled() ==> self.amount is Some
        &&& P::filled() ==> self.payment is Some
        &&& Acc::filled() ==> self.account is Some
        &&& M::filled() ==> self.merchant is Some
        &&& B::filled() ==> self.billing is Some
        &&& C::filled() ==> self.currency is Some
    }

    /// Supplies the type of the transaction, in place of any earlier one.
    pub fn transaction_type(self, t_type: TransactionType) -> (b: TransactionBuilder<
        HasType,
        A,
        P,
        Acc,
        M,
        B,
        C,
    >)
        ensures
            b@ == (Staged { transaction_type: Some(t_type), ..self@ }),
    {
        proof {
            use_type_invariant(&self);
        }
        TransactionBuilder {
            transaction_type: Some(t_type),
            amount: self.amount,
            payment: self.payment,
            billing: self.billing,
            merchant: self.merchant,
            account: self.account,
            customer: self.customer,
            currency: self.currency,
            _t: PhantomData,
            _a: PhantomData,
            _p: PhantomData,
            _acc: PhantomData,
            _m: PhantomData,
            _b: PhantomData,
            _c: PhantomData,
        }
    }

    /// Supplies the amount, in place of any earlier one.
    pub fn amount<I: Into<Amount>>(self, amount: I) -> (b: TransactionBuilder<
        T,
        HasAmount,
        P,
        Acc,
        M,
        B,
        C,
    >)
        ensures
            b@.amount is Some,
            b@ == (Staged { amount: b@.amount, ..self@ }),
            I::obeys_into_spec() ==> b@.amount == Some(amount.into_spec()),
    {
        proof {
            use_type_invariant(&self);
        }
        TransactionBuilder {
            transaction_type: self.transaction_type,
            amount: Some(amount.into()),
            payment: self.payment,
            billing: self.billing,
            merchant: self.merchant,
            account: self.account,
            customer: self.customer,
            currency: self.currency,
            _t: PhantomData,
            _a: PhantomData,
            _p: PhantomData,
            _acc: PhantomData,
            _m: PhantomData,
            _b: PhantomData,
            _c: PhantomData,
        }
    }

    /// Supplies the payment instrument, in place of any earlier one.
    pub fn payment(self, payment: Payment) -> (b: TransactionBuilder<
        T,
        A,
        HasPayment,
        Acc,
        M,
        B,
        C,
    >)
        ensures
            b@ == (Staged { payment: Some(payment@), ..self@ }),
    {
        proof {
            use_type_invariant(&self);
        }
        TransactionBuilder {
            transaction_type: self.transaction_type,
            amount: self.amount,
            payment: Some(payment),
            billing: self.billing,
            merchant: self.merchant,
            account: self.account,
            customer: self.customer,
            currency: self.currency,
            _t: PhantomData,
            _a: PhantomData,
            _p: PhantomData,
            _acc: PhantomData,
            _m: PhantomData,
            _b: PhantomData,
            _c: PhantomData,
        }
    }

    /// Supplies the acquirer account, in place of any earlier one.
    pub fn account(self, account: Account) -> (b: TransactionBuilder<
        T,
        A,
        P,
        HasAccount,
        M,
        B,
        C,
    >)
        ensures
            b@ == (Staged { account: Some(account@), ..self@ }),
    {
        proof {
            use_type_invariant(&self);
        }
        TransactionBuilder {
            transaction_type: self.transaction_type,
            amount: self.amount,
            payment: self.payment,
            billing: self.billing,
            merchant: self.merchant,
            account: Some(account),
            customer: self.customer,
            currency: self.currency,
            _t: PhantomData,
            _a: PhantomData,
            _p: PhantomData,
            _acc: PhantomData,
            _m: PhantomData,
            _b: PhantomData,
            _c: PhantomData,
        }
    }

    /// Supplies the merchant, in place of any earlier one.
    pub fn merchant(self, merchant: Merchant) -> (b: TransactionBuilder<
        T,
        A,
        P,
        Acc,
        HasMerchant,
        B,
        C,
    >)
        ensures
            b@ == (Staged { merchant: Some(merchant@), ..self@ }),
    {
        proof {
            use_type_invariant(&self);
        }
        TransactionBuilder {
            transaction_type: self.transaction_type,
            amount: self.amount,
            payment: self.payment,
            billing: self.billing,
            merchant: Some(merchant),
            account: self.account,
            customer: self.customer,
            currency: self.currency,
            _t: PhantomData,
            _a: PhantomData,
            _p: PhantomData,
            _acc: PhantomData,
            _m: PhantomData,
            _b: PhantomData,
            _c: PhantomData,
        }
    }

    /// Supplies the billing address, in place of any earlier one.
    pub fn billing(self, billing: Billing) -> (b: TransactionBuilder<
        T,
        A,
        P,
        Acc,
        M,
        HasBilling,
        C,
    >)
        ensures
            b@ == (Staged { billing: Some(billing@), ..self@ }),
    {
        proof {
            use_type_invariant(&self);
        }
        TransactionBuilder {
            transaction_type: self.transaction_type,
            amount: self.amount,
            payment: self.payment,
            billing: Some(billing),
            merchant: self.merchant,
            account: self.account,
            customer: self.customer,
            currency: self.currency,
            _t: PhantomData,
            _a: PhantomData,
            _p: PhantomData,
            _acc: PhantomData,
            _m: PhantomData,
            _b: PhantomData,
            _c: PhantomData,
        }
    }

    /// Supplies the currency, in place of any earlier one.
    pub fn currency(self, currency: Currency) -> (b: TransactionBuilder<
        T,
        A,
        P,
        Acc,
        M,
        B,
        HasCurrency,
    >)
        ensures
            b@ == (Staged { currency: Some(currency), ..self@ }),
    {
        proof {
            use_type_invariant(&self);
        }
        TransactionBuilder {
            transaction_type: self.transaction_type,
            amount: self.amount,
            payment: self.payment,
            billing: self.billing,
            merchant: self.merchant,
            account: self.account,
            customer: self.customer,
            currency: Some(currency),
            _t: PhantomData,
            _a: PhantomData,
            _p: PhantomData,
            _acc: PhantomData,
            _m: PhantomData,
            _b: PhantomData,
            _c: PhantomData,
        }
    }

    /// Supplies the customer. A transaction can do without one.
    pub fn customer(self, customer: Customer) -> (b: TransactionBuilder<T, A, P, Acc, M, B, C>)
        ensures
            b@ == (Staged { customer: Some(customer@), ..self@ }),
    {
        proof {
            use_type_invariant(&self);
        }
        TransactionBuilder {
            transaction_type: self.transaction_type,
            amount: self.amount,
            payment: self.payment,
            billing: self.billing,
            merchant: self.merchant,
            account: self.account,
            customer: Some(customer),
            currency: self.currency,
            _t: PhantomData,
            _a: PhantomData,
            _p: PhantomData,
            _acc: PhantomData,
            _m: PhantomData,
            _b: PhantomData,
            _c: PhantomData,
        }
    }
}

} // verus!
