//! The customer on whose behalf a payment is made, where the merchant
//! passes one on.

use vstd::prelude::*;
use crate::country::Country;

verus! {

/// A customer and their address.
#[derive(Debug, PartialEq, Eq)]
pub struct Customer {
    pub first_name: String,
    pub last_name: String,
    pub premise: String,
    pub street: String,
    pub city: String,
    pub county: String,
    pub country: Country,
}

/// A customer with its texts as sequences of characters.
pub struct CustomerView {
    pub first_name: Seq<char>,
    pub last_name: Seq<char>,
    pub premise: Seq<char>,
    pub street: Seq<char>,
    pub city: Seq<char>,
    pub county: Seq<char>,
    pub country: Country,
}

impl View for Customer {
    type V = CustomerView;

    open spec fn view(&self) -> CustomerView {
        CustomerView {
            first_name: self.first_name@,
            last_name: self.last_name@,
            premise: self.premise@,
            street: self.street@,
            city: self.city@,
            county: self.county@,
            country: self.country,
        }
    }
}

/// An optional customer as an optional view.
pub open spec fn customer_view(customer: Option<Customer>) -> Option<CustomerView> {
    match customer {
        Some(c) => Some(c@),
        None => None,
    }
}

} // verus!
