//! The billing address that comes with a transaction.

use vstd::prelude::*;
use crate::country::Country;
use crate::payment::FieldError;
use crate::text::{trim, trimmed};

verus! {

/// Who is billed, and where.
#[derive(Debug, PartialEq, Eq)]
pub struct Billing {
    pub first_name: String,
    pub last_name: String,
    pub premise: String,
    pub street: String,
    pub city: String,
    pub county: String,
    pub country: Country,
}

/// A billing address with its texts as sequences of characters.
pub struct BillingView {
    pub first_name: Seq<char>,
    pub last_name: Seq<char>,
    pub premise: Seq<char>,
    pub street: Seq<char>,
    pub city: Seq<char>,
    pub county: Seq<char>,
    pub country: Country,
}

impl View for Billing {
    type V = BillingView;

    open spec fn view(&self) -> BillingView {
        BillingView {
            first_name: self.first_name@,
            last_name: self.last_name@,
            premise: self.premise@,
            street: self.street@,
            city: self.city@,
            county: self.county@,
            country: self.country,
        }
    }
}

impl BillingView {
    /// The address with every text trimmed.
    pub open spec fn normalized(self) -> BillingView {
        BillingView {
            first_name: trimmed(self.first_name),
            last_name: trimmed(self.last_name),
            premise: trimmed(self.premise),
            street: trimmed(self.street),
            city: trimmed(self.city),
            county: trimmed(self.county),
            country: self.country,
        }
    }

    /// The address with no text and the default country.
    pub open spec fn empty() -> BillingView {
        BillingView {
            first_name: Seq::empty(),
            last_name: Seq::empty(),
            premise: Seq::empty(),
            street: Seq::empty(),
            city: Seq::empty(),
            county: Seq::empty(),
            country: Country::GB,
        }
    }
}

impl Clone for Billing {
    fn clone(&self) -> (b: Billing)
        ensures
            b@ == self@,
    {
        Billing {
            first_name: self.first_name.clone(),
            last_name: self.last_name.clone(),
            premise: self.premise.clone(),
            street: self.street.clone(),
            city: self.city.clone(),
            county: self.county.clone(),
            country: self.country,
        }
    }
}

impl Default for Billing {
    fn default() -> (b: Billing)
        ensures
            b@ == BillingView::empty(),
    {
        Billing {
            first_name: String::new(),
            last_name: String::new(),
            premise: String::new(),
            street: String::new(),
            city: String::new(),
            county: String::new(),
            country: Country::GB,
        }
    }
}

impl Billing {
    /// Trims every text of the address in place. There is no rule that an
    /// address can break, so this always succeeds.
    pub fn validify(&mut self) -> (r: Result<(), Vec<FieldError>>)
        ensures
            r is Ok,
            final(self)@ == old(self)@.normalized(),
    {
        self.first_name = trim(self.first_name.as_str());
        self.last_name = trim(self.last_name.as_str());
        self.premise = trim(self.premise.as_str());
        self.street = trim(self.street.as_str());
        self.city = trim(self.city.as_str());
        self.county = trim(self.county.as_str());
        Ok(())
    }
}

} // verus!
