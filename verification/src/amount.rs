//! Money in minor units, and how it is written.

use vstd::prelude::*;
use vstd::std_specs::convert::FromSpecImpl;
use crate::currency::{decimal_places, Currency};
use crate::text::{
    digits, lemma_digits_len, lemma_zero_padded_len, render_number, render_padded, zero_padded,
};

verus! {

/// An amount of money in the minor units of a currency, together with the
/// way it is to be written: `Base` as the bare number of minor units,
/// `Decimal` with the currency's decimal point.
#[derive(Clone, Copy, Debug, PartialEq, Eq, Structural)]
pub enum Amount {
    Base { val: u64, cur: Currency },
    Decimal { val: u64, cur: Currency },
}

/// `value` minor units written with `places` digits after the decimal
/// point: the digits, with zeros in front up to `places + 1` digits, split
/// before the last `places`.
pub open spec fn decimal_text(value: nat, places: nat) -> Seq<char> {
    if places == 0 {
        digits(value)
    } else {
        let padded = zero_padded(value, places + 1);
        padded.subrange(0, padded.len() - places) + seq!['.'] + padded.subrange(
            padded.len() - places,
            padded.len() as int,
        )
    }
}

/// How an amount is written.
pub open spec fn amount_text(a: Amount) -> Seq<char> {
    match a {
        Amount::Base { val, .. } => digits(val as nat),
        Amount::Decimal { val, cur } => decimal_text(val as nat, decimal_places(cur)),
    }
}

impl Amount {
    /// The number of minor units.
    pub open spec fn minor_units(self) -> u64 {
        match self {
            Amount::Base { val, .. } => val,
            Amount::Decimal { val, .. } => val,
        }
    }

    /// The currency of the amount.
    pub open spec fn in_currency(self) -> Currency {
        match self {
            Amount::Base { cur, .. } => cur,
            Amount::Decimal { cur, .. } => cur,
        }
    }

    /// The same amount in decimal form.
    pub open spec fn as_dec(self) -> Amount {
        Amount::Decimal { val: self.minor_units(), cur: self.in_currency() }
    }

    /// The same amount in base form.
    pub open spec fn as_base(self) -> Amount {
        Amount::Base { val: self.minor_units(), cur: self.in_currency() }
    }

    /// An amount in base form in the default currency.
    pub fn in_default_currency(value: u64) -> (a: Amount)
        ensures
            a == (Amount::Base { val: value, cur: Currency::GBP }),
    {
        Amount::Base { val: value, cur: Currency::GBP }
    }

    /// The number of minor units.
    pub fn value(&self) -> (v: u64)
        ensures
            v == self.minor_units(),
    {
        match self {
            Amount::Base { val, .. } => *val,
            Amount::Decimal { val, .. } => *val,
        }
    }

    /// The currency of the amount.
    pub fn currency(&self) -> (c: Currency)
        ensures
            c == self.in_currency(),
    {
        match self {
            Amount::Base { cur, .. } => *cur,
            Amount::Decimal { cur, .. } => *cur,
        }
    }

    /// The same amount in decimal form.
    pub fn to_dec(self) -> (a: Amount)
        ensures
            a == self.as_dec(),
    {
        match self {
            Amount::Base { val, cur } => Amount::Decimal { val, cur },
            Amount::Decimal { .. } => self,
        }
    }

    /// The same amount in base form.
    pub fn to_base(self) -> (a: Amount)
        ensures
            a == self.as_base(),
    {
        match self {
            Amount::Base { .. } => self,
            Amount::Decimal { val, cur } => Amount::Base { val, cur },
        }
    }

    /// The amount as text: the bare number in base form, the number with
    /// the currency's decimal point in decimal form.
    pub fn to_string(&self) -> (text: String)
        ensures
            text@ == amount_text(*self),
    {
        match self {
            Amount::Base { val, .. } => render_number(*val),
            Amount::Decimal { val, cur } => {
                let places = cur.get_decimal_places();
                if places == 0 {
                    render_number(*val)
                } else {
                    let padded = render_padded(*val, places + 1);
                    proof {
                        lemma_zero_padded_len(*val as nat, (places + 1) as nat);
                        lemma_digits_len(*val as nat);
                    }
                    let len = padded.as_str().unicode_len();
                    let mut text = padded.as_str().substring_char(0, len - places).to_string();
                    proof {
                        reveal_strlit(".");
                    }
                    text.append(".");
                    text.append(padded.as_str().substring_char(len - places, len));
                    assert(text@ =~= decimal_text(*val as nat, places as nat));
                    text
                }
            },
        }
    }
}

impl From<(u64, Currency)> for Amount {
    fn from(value: (u64, Currency)) -> (a: Amount) {
        Amount::Base { val: value.0, cur: value.1 }
    }
}

impl FromSpecImpl<(u64, Currency)> for Amount {
    open spec fn obeys_from_spec() -> bool {
        true
    }

    open spec fn from_spec(value: (u64, Currency)) -> Amount {
        Amount::Base { val: value.0, cur: value.1 }
    }
}

impl From<u64> for Amount {
    fn from(value: u64) -> (a: Amount) {
        Amount::Base { val: value, cur: Currency::GBP }
    }
}

impl FromSpecImpl<u64> for Amount {
    open spec fn obeys_from_spec() -> bool {
        true
    }

    open spec fn from_spec(value: u64) -> Amount {
        Amount::Base { val: value, cur: Currency::GBP }
    }
}

/// The value of a decimal digit; zero for any other character.
pub open spec fn digit_value(c: char) -> nat {
    if c == '1' {
        1
    } else if c == '2' {
        2
    } else if c == '3' {
        3
    } else if c == '4' {
        4
    } else if c == '5' {
        5
    } else if c == '6' {
        6
    } else if c == '7' {
        7
    } else if c == '8' {
        8
    } else if c == '9' {
        9
    } else {
        0
    }
}

/// The number that a sequence of decimal digits writes.
pub open spec fn number_of(text: Seq<char>) -> nat
    decreases text.len(),
{
    if text.len() == 0 {
        0
    } else {
        number_of(text.drop_last()) * 10 + digit_value(text.last())
    }
}

/// The number of minor units that a decimal text with `places` digits
/// after the point writes: the number written by its digits, the point
/// left out.
pub open spec fn minor_units_of(text: Seq<char>, places: nat) -> nat {
    if places == 0 {
        number_of(text)
    } else {
        number_of(
            text.subrange(0, text.len() - places - 1) + text.subrange(
                text.len() - places,
                text.len() as int,
            ),
        )
    }
}

/// The digits of a number write that number.
pub proof fn lemma_number_of_digits(n: nat)
    ensures
        number_of(digits(n)) == n,
    decreases n,
{
    if n < 10 {
        assert(digits(n).drop_last() =~= Seq::<char>::empty());
        assert(number_of(Seq::<char>::empty()) == 0);
    } else {
        lemma_number_of_digits(n / 10);
        assert(digits(n).drop_last() =~= digits(n / 10));
        assert(digits(n).last() == crate::text::digit_char(n % 10));
    }
}

/// Zeros in front of digits do not change the number.
pub proof fn lemma_number_of_padded(count: nat, text: Seq<char>)
    ensures
        number_of(crate::text::zeros(count) + text) == number_of(text),
    decreases text.len(), count,
{
    let padded = crate::text::zeros(count) + text;
    if text.len() > 0 {
        lemma_number_of_padded(count, text.drop_last());
        assert(padded.drop_last() =~= crate::text::zeros(count) + text.drop_last());
        assert(padded.last() == text.last());
    } else if count > 0 {
        lemma_number_of_padded((count - 1) as nat, text);
        assert(padded.drop_last() =~= crate::text::zeros((count - 1) as nat) + text);
        assert(padded.last() == '0');
    } else {
        assert(padded =~= text);
    }
}

/// Writing an amount in decimal form loses nothing: the text writes the
/// same number of minor units again, in any currency's precision.
pub proof fn lemma_decimal_text_round_trip(value: nat, places: nat)
    ensures
        minor_units_of(decimal_text(value, places), places) == value,
{
    lemma_number_of_digits(value);
    if places > 0 {
        let padded = zero_padded(value, places + 1);
        lemma_zero_padded_len(value, places + 1);
        let text = decimal_text(value, places);
        let split = padded.len() - places;
        assert(text.len() == padded.len() + 1);
        assert(text.subrange(0, text.len() - places - 1) =~= padded.subrange(0, split));
        assert(text.subrange(text.len() - places, text.len() as int) =~= padded.subrange(
            split,
            padded.len() as int,
        ));
        assert(padded.subrange(0, split) + padded.subrange(split, padded.len() as int) =~= padded);
        if digits(value).len() < places + 1 {
            lemma_number_of_padded((places + 1 - digits(value).len()) as nat, digits(value));
        }
    }
}

/// The decimal form of an amount, as text, writes the amount's value
/// again, in every currency.
pub proof fn lemma_decimal_form_is_lossless(a: Amount)
    ensures
        minor_units_of(amount_text(a.as_dec()), decimal_places(a.in_currency()))
            == a.minor_units(),
{
    lemma_decimal_text_round_trip(a.minor_units() as nat, decimal_places(a.in_currency()));
}

/// Turning an amount into decimal form and back into base form changes
/// neither its value nor its currency.
pub proof fn lemma_decimal_and_back(value: u64, currency: Currency)
    ensures
        (Amount::Base { val: value, cur: currency }).as_dec().as_base() == (Amount::Base {
            val: value,
            cur: currency,
        }),
        (Amount::Base { val: value, cur: currency }).as_dec().minor_units() == value,
        (Amount::Base { val: value, cur: currency }).as_dec().in_currency() == currency,
{
}

/// Changing the form of an amount, in either direction and any number of
/// times, keeps its value and currency.
pub proof fn lemma_form_keeps_value(a: Amount)
    ensures
        a.as_dec().minor_units() == a.minor_units(),
        a.as_base().minor_units() == a.minor_units(),
        a.as_dec().in_currency() == a.in_currency(),
        a.as_base().in_currency() == a.in_currency(),
        a.as_dec().as_base() == a.as_base(),
        a.as_base().as_dec() == a.as_dec(),
{
}

} // verus!
