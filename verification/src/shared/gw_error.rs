//! The errors of the exchange with a bank.

use vstd::prelude::*;

verus! {

/// What can go wrong in the exchange with a bank.
#[derive(Clone, Copy, Debug, PartialEq, Eq, Structural)]
pub enum GwError {
    EncodeError,
    DecodeError,
    ConnectionError,
}

/// The text of an error.
pub open spec fn gw_error_text(e: GwError) -> Seq<char> {
    match e {
        GwError::EncodeError => "encoding error"@,
        GwError::DecodeError => "decoding error"@,
        GwError::ConnectionError => "connection error"@,
    }
}

impl GwError {
    /// The error as text.
    pub fn to_string(&self) -> (text: String)
        ensures
            text@ == gw_error_text(*self),
    {
        match self {
            GwError::EncodeError => "encoding error".to_string(),
            GwError::DecodeError => "decoding error".to_string(),
            GwError::ConnectionError => "connection error".to_string(),
        }
    }
}

} // verus!
