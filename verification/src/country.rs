//! Countries, written as two-letter codes.

use vstd::prelude::*;
use crate::error::{Error, ErrorKind};
use crate::text::same;

verus! {

/// A country that the gateway knows.
#[derive(Clone, Copy, Debug, PartialEq, Eq, Structural)]
pub enum Country {
    GB,
    US,
}

/// The two-letter code of a country.
pub open spec fn country_code(c: Country) -> Seq<char> {
    match c {
        Country::GB => "GB"@,
        Country::US => "US"@,
    }
}

/// The country that a code names, if any.
pub open spec fn country_of(code: Seq<char>) -> Option<Country> {
    if code == "GB"@ {
        Some(Country::GB)
    } else if code == "US"@ {
        Some(Country::US)
    } else {
        None
    }
}

/// The message for a code that names no country.
pub open spec fn unknown_country_message(code: Seq<char>) -> Seq<char> {
    code + " is not a recognised country code"@
}

/// Every country is found again from its code.
pub proof fn lemma_country_code_round_trip(c: Country)
    ensures
        country_of(country_code(c)) == Some(c),
{
    reveal_strlit("GB");
    reveal_strlit("US");
    if c == Country::US {
        assert("US"@[0] != "GB"@[0]);
    }
}

/// A code that names a country is that country's code.
pub proof fn lemma_country_of_is_code(code: Seq<char>)
    ensures
        country_of(code) matches Some(c) ==> country_code(c) == code,
{
}

impl Country {
    /// The two-letter code.
    pub fn to_string(&self) -> (code: String)
        ensures
            code@ == country_code(*self),
    {
        match self {
            Country::GB => "GB".to_string(),
            Country::US => "US".to_string(),
        }
    }

    /// Reads a two-letter code. A code that names no country is a type
    /// error whose message quotes it.
    pub fn try_from(value: String) -> (r: Result<Country, Error>)
        ensures
            match country_of(value@) {
                Some(c) => r == Ok::<Country, Error>(c),
                None => r is Err && r->Err_0.says(
                    ErrorKind::Type,
                    unknown_country_message(value@),
                ),
            },
    {
        if same(value.as_str(), "GB") {
            Ok(Country::GB)
        } else if same(value.as_str(), "US") {
            Ok(Country::US)
        } else {
            let mut message = value;
            message.append(" is not a recognised country code");
            Err(Error { kind: ErrorKind::Type, message })
        }
    }
}

impl Default for Country {
    fn default() -> (c: Country)
        ensures
            c == Country::GB,
    {
        Country::GB
    }
}

} // verus!
