//! The message format of a bank.

use vstd::prelude::*;
use crate::shared::gw_error::GwError;
use crate::shared::transaction::{Transaction, TransactionView};
use crate::text::{render_padded, same, zero_padded};

verus! {

/// A message format: how a transaction is written for a bank, and how the
/// bank's answer is read into it.
pub trait Codec {
    fn encode(&self, transaction: &Transaction) -> Result<String, GwError>;

    fn decode(&self, transaction: &mut Transaction, received: &str) -> Result<(), GwError>;
}

/// The fixed-width format of the bank.
pub struct BankCodec {}

/// The width of the amount in a message.
pub const AMOUNT_WIDTH: usize = 12;

/// The width of the card number in a message.
pub const PAN_WIDTH: usize = 19;

/// `count` spaces.
pub open spec fn spaces(count: nat) -> Seq<char> {
    Seq::new(count, |i: int| ' ')
}

/// A text with spaces behind it up to `width` characters; a longer text
/// is left as it is.
pub open spec fn space_padded(text: Seq<char>, width: nat) -> Seq<char> {
    if text.len() >= width {
        text
    } else {
        text + spaces((width - text.len()) as nat)
    }
}

/// The numeric code of a currency that the bank takes, if it takes it.
pub open spec fn numeric_currency(code: Seq<char>) -> Option<Seq<char>> {
    if code == "GBP"@ {
        Some("826"@)
    } else {
        None
    }
}

/// The message for a transaction: a heading, the amount in twelve digits,
/// the numeric code of the currency and the card number in nineteen
/// characters. There is none for a currency that the bank does not take.
pub open spec fn message_of(t: TransactionView) -> Result<Seq<char>, GwError> {
    match numeric_currency(t.currency) {
        Some(code) => Ok(
            "AUTH MESSAGE:"@ + zero_padded(t.amount as nat, AMOUNT_WIDTH as nat) + code
                + space_padded(t.pan, PAN_WIDTH as nat),
        ),
        None => Err(GwError::EncodeError),
    }
}

impl BankCodec {
    /// The bank's format.
    pub fn init() -> BankCodec {
        BankCodec {  }
    }

    fn get_amount(&self, t: &Transaction) -> (r: String)
        ensures
            r@ == zero_padded(t.amount as nat, AMOUNT_WIDTH as nat),
    {
        render_padded(t.amount, AMOUNT_WIDTH)
    }

    fn get_currency(&self, t: &Transaction) -> (r: Result<String, GwError>)
        ensures
            match numeric_currency(t.currency@) {
                Some(code) => r is Ok && r->Ok_0@ == code,
                None => r == Err::<String, GwError>(GwError::EncodeError),
            },
    {
        if same(t.currency.as_str(), "GBP") {
            Ok("826".to_string())
        } else {
            Err(GwError::EncodeError)
        }
    }

    fn get_pan(&self, t: &Transaction) -> (r: String)
        ensures
            r@ == space_padded(t.pan@, PAN_WIDTH as nat),
    {
        let mut r = t.pan.clone();
        let len = t.pan.as_str().unicode_len();
        let mut i: usize = len;
        proof {
            reveal_strlit(" ");
        }
        while i < PAN_WIDTH
            invariant
                len == t.pan@.len(),
                len <= i,
                i <= PAN_WIDTH || i == len,
                r@ == t.pan@ + spaces((i - len) as nat),
                " "@ == seq![' '],
            decreases PAN_WIDTH - i,
        {
            r.append(" ");
            assert(r@ =~= t.pan@ + spaces((i + 1 - len) as nat));
            i += 1;
        }
        assert(r@ =~= space_padded(t.pan@, PAN_WIDTH as nat));
        r
    }
}

impl Codec for BankCodec {
    /// Writes the message for a transaction.
    fn encode(&self, transaction: &Transaction) -> (r: Result<String, GwError>)
        ensures
            match message_of(transaction@) {
                Ok(message) => r is Ok && r->Ok_0@ == message,
                Err(e) => r == Err::<String, GwError>(e),
            },
    {
        let mut enc = "AUTH MESSAGE:".to_string();
        let amount = self.get_amount(transaction);
        enc.append(amount.as_str());
        let currency = match self.get_currency(transaction) {
            Ok(code) => code,
            Err(e) => {
                return Err(e);
            },
        };
        enc.append(currency.as_str());
        let pan = self.get_pan(transaction);
        enc.append(pan.as_str());
        Ok(enc)
    }

    /// Reads the bank's answer. The answer carries nothing yet that a
    /// transaction keeps: the transaction stays as it is.
    fn decode(&self, transaction: &mut Transaction, received: &str) -> (r: Result<(), GwError>)
        ensures
            r is Ok,
            *final(transaction) == *old(transaction),
    {
        Ok(())
    }
}

} // verus!
