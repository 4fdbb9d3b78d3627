//! The customer part of a transaction request.

use vstd::prelude::*;

verus! {

/// The customer of a transaction request. Every field may be missing.
#[derive(Debug, PartialEq, Eq)]
pub struct CustomerRequest {
    pub first_name: Option<String>,
    pub last_name: Option<String>,
    pub premise: Option<String>,
    pub street: Option<String>,
    pub city: Option<String>,
    pub county: Option<String>,
    pub country: Option<String>,
}

impl Default for CustomerRequest {
    fn default() -> (r: CustomerRequest)
        ensures
            r.first_name is None,
            r.last_name is None,
            r.premise is None,
            r.street is None,
            r.city is None,
            r.county is None,
            r.country is None,
    {
        CustomerRequest {
            first_name: None,
            last_name: None,
            premise: None,
            street: None,
            city: None,
            county: None,
            country: None,
        }
    }
}

} // verus!
