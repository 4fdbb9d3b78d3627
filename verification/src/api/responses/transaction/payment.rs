//! The payment part of a transaction response. It shows which instrument
//! paid without giving the instrument away.

use vstd::prelude::*;
use crate::card_scheme::CardScheme;
use crate::payment::{Payment, PaymentView};
use crate::utils::{lemma_masked_hides, mask_account_number, mask_pan, masked};

verus! {

/// The payment instrument of a transaction, as the response shows it: a
/// card by its scheme, expiry and masked number, an account by its masked
/// number. There is no place in it for a security code or a sort code.
#[derive(Debug, PartialEq, Eq)]
pub struct PaymentResponse {
    pub payment_type: &'static str,
    pub scheme: Option<CardScheme>,
    pub account_number: Option<String>,
    pub expiry_month: Option<u8>,
    pub expiry_year: Option<u32>,
    pub pan: Option<String>,
}

/// A payment response with its texts as sequences of characters.
pub struct PaymentResponseView {
    pub payment_type: Seq<char>,
    pub scheme: Option<CardScheme>,
    pub account_number: Option<Seq<char>>,
    pub expiry_month: Option<u8>,
    pub expiry_year: Option<u32>,
    pub pan: Option<Seq<char>>,
}

impl View for PaymentResponse {
    type V = PaymentResponseView;

    open spec fn view(&self) -> PaymentResponseView {
        PaymentResponseView {
            payment_type: self.payment_type@,
            scheme: self.scheme,
            account_number: crate::text::text_of(self.account_number),
            expiry_month: self.expiry_month,
            expiry_year: self.expiry_year,
            pan: crate::text::text_of(self.pan),
        }
    }
}

/// What a response shows of a payment instrument. Of a card: the scheme,
/// the expiry date, and the number with all but its first six and last
/// four characters masked. Of an account: the number with all but its last
/// four characters masked.
pub open spec fn payment_response_of(p: PaymentView) -> PaymentResponseView {
    match p {
        PaymentView::Card { scheme, expiry_date, pan, .. } => PaymentResponseView {
            payment_type: "CARD"@,
            scheme: Some(scheme),
            account_number: None,
            expiry_month: Some(expiry_date.1),
            expiry_year: Some(expiry_date.0),
            pan: Some(masked(pan, '#', 6, 4)),
        },
        PaymentView::Account { account_number, .. } => PaymentResponseView {
            payment_type: "ACCOUNT"@,
            scheme: None,
            account_number: Some(masked(account_number, '#', 0, 4)),
            expiry_month: None,
            expiry_year: None,
            pan: None,
        },
    }
}

/// A response never shows the middle of a card number, nor more than the
/// last four characters of an account number: every other character is
/// `#`.
pub proof fn lemma_response_hides_numbers(p: PaymentView)
    ensures
        p matches PaymentView::Card { pan, .. } ==> {
            let shown = payment_response_of(p).pan->0;
            &&& shown.len() == pan.len()
            &&& forall|i: int| 6 <= i < pan.len() - 4 ==> #[trigger] shown[i] == '#'
        },
        p matches PaymentView::Account { account_number, .. } ==> {
            let shown = payment_response_of(p).account_number->0;
            &&& shown.len() == account_number.len()
            &&& forall|i: int| 0 <= i < account_number.len() - 4 ==> #[trigger] shown[i] == '#'
        },
{
    match p {
        PaymentView::Card { pan, .. } => {
            lemma_masked_hides(pan, '#', 6, 4);
        },
        PaymentView::Account { account_number, .. } => {
            lemma_masked_hides(account_number, '#', 0, 4);
        },
    }
}

impl PaymentResponse {
    /// What the response shows of a payment instrument.
    pub fn from(value: &Payment) -> (r: PaymentResponse)
        ensures
            r@ == payment_response_of(value@),
    {
        match value {
            Payment::Card { scheme, expiry_date, pan, .. } => PaymentResponse {
                payment_type: "CARD",
                scheme: Some(*scheme),
                account_number: None,
                expiry_month: Some(expiry_date.1),
                expiry_year: Some(expiry_date.0),
                pan: Some(mask_pan(pan.as_str())),
            },
            Payment::Account { account_number, .. } => PaymentResponse {
                payment_type: "ACCOUNT",
                scheme: None,
                account_number: Some(mask_account_number(account_number.as_str())),
                expiry_month: None,
                expiry_year: None,
                pan: None,
            },
        }
    }
}

} // verus!
