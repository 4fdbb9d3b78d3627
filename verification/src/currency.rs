//! Currencies and their minor-unit precision.

use vstd::prelude::*;
use crate::text::same;

verus! {

/// A settlement currency.
#[derive(Clone, Copy, Debug, PartialEq, Eq, Structural)]
pub enum Currency {
    GBP,
    EUR,
    USD,
    JPY,
}

/// The three-letter code of a currency.
pub open spec fn currency_code(c: Currency) -> Seq<char> {
    match c {
        Currency::GBP => "GBP"@,
        Currency::EUR => "EUR"@,
        Currency::USD => "USD"@,
        Currency::JPY => "JPY"@,
    }
}

/// The number of digits after the decimal point in amounts of a currency.
pub open spec fn decimal_places(c: Currency) -> nat {
    match c {
        Currency::GBP | Currency::EUR | Currency::USD => 2,
        Currency::JPY => 0,
    }
}

/// The currency that a code names, if any.
pub open spec fn currency_of(code: Seq<char>) -> Option<Currency> {
    if code == "GBP"@ {
        Some(Currency::GBP)
    } else if code == "EUR"@ {
        Some(Currency::EUR)
    } else if code == "USD"@ {
        Some(Currency::USD)
    } else if code == "JPY"@ {
        Some(Currency::JPY)
    } else {
        None
    }
}

/// Every currency is found again from its code.
pub proof fn lemma_currency_code_round_trip(c: Currency)
    ensures
        currency_of(currency_code(c)) == Some(c),
{
    reveal_strlit("GBP");
    reveal_strlit("EUR");
    reveal_strlit("USD");
    reveal_strlit("JPY");
    assert("EUR"@[0] != "GBP"@[0]);
    assert("USD"@[0] != "GBP"@[0] && "USD"@[0] != "EUR"@[0]);
    assert("JPY"@[0] != "GBP"@[0] && "JPY"@[0] != "EUR"@[0] && "JPY"@[0] != "USD"@[0]);
}

impl Currency {
    /// Reads a three-letter code.
    pub fn parse(code: &str) -> (c: Option<Currency>)
        ensures
            c == currency_of(code@),
    {
        if same(code, "GBP") {
            Some(Currency::GBP)
        } else if same(code, "EUR") {
            Some(Currency::EUR)
        } else if same(code, "USD") {
            Some(Currency::USD)
        } else if same(code, "JPY") {
            Some(Currency::JPY)
        } else {
            None
        }
    }

    /// The number of minor-unit digits, fixed per currency.
    pub fn get_decimal_places(&self) -> (places: usize)
        ensures
            places == decimal_places(*self),
    {
        match self {
            Currency::GBP | Currency::EUR | Currency::USD => 2,
            Currency::JPY => 0,
        }
    }

    /// The three-letter code, as it is written in requests and responses.
    pub fn to_string(&self) -> (code: String)
        ensures
            code@ == currency_code(*self),
    {
        match self {
            Currency::GBP => "GBP".to_string(),
            Currency::EUR => "EUR".to_string(),
            Currency::USD => "USD".to_string(),
            Currency::JPY => "JPY".to_string(),
        }
    }
}

impl Default for Currency {
    fn default() -> (c: Currency)
        ensures
            c == Currency::GBP,
    {
        Currency::GBP
    }
}

} // verus!
