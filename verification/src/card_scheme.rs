//! Card networks.

use vstd::prelude::*;
use crate::text::same;

verus! {

/// The network of a card.
#[derive(Clone, Copy, Debug, PartialEq, Eq, Structural)]
pub enum CardScheme {
    Visa,
    Mastercard,
}

/// The name of a scheme as requests and responses write it.
pub open spec fn scheme_name(s: CardScheme) -> Seq<char> {
    match s {
        CardScheme::Visa => "VISA"@,
        CardScheme::Mastercard => "MASTERCARD"@,
    }
}

/// The scheme that a name stands for, if any.
pub open spec fn scheme_of(name: Seq<char>) -> Option<CardScheme> {
    if name == "VISA"@ {
        Some(CardScheme::Visa)
    } else if name == "MASTERCARD"@ {
        Some(CardScheme::Mastercard)
    } else {
        None
    }
}

/// Every scheme is found again from its name.
pub proof fn lemma_scheme_name_round_trip(s: CardScheme)
    ensures
        scheme_of(scheme_name(s)) == Some(s),
{
    reveal_strlit("VISA");
    reveal_strlit("MASTERCARD");
    if s == CardScheme::Mastercard {
        assert("MASTERCARD"@.len() != "VISA"@.len());
    }
}

impl CardScheme {
    /// The scheme's name.
    pub fn to_string(&self) -> (name: String)
        ensures
            name@ == scheme_name(*self),
    {
        match self {
            CardScheme::Visa => "VISA".to_string(),
            CardScheme::Mastercard => "MASTERCARD".to_string(),
        }
    }

    /// Reads a scheme's name.
    pub fn parse(name: &str) -> (s: Option<CardScheme>)
        ensures
            s == scheme_of(name@),
    {
        if same(name, "VISA") {
            Some(CardScheme::Visa)
        } else if same(name, "MASTERCARD") {
            Some(CardScheme::Mastercard)
        } else {
            None
        }
    }
}

} // verus!
