//! The billing part of a transaction request.

use vstd::prelude::*;
use crate::api::error::{ErrorKind, GatewayError};
use crate::billing::{Billing, BillingView};
use crate::country::{country_of, unknown_country_message, Country};
use crate::error::{error_text, ErrorKind as CoreErrorKind};
use crate::text::{or_empty, text_of, unwrap_or_empty};

verus! {

/// The billing address of a transaction request. Every field may be
/// missing.
#[derive(Debug, PartialEq, Eq)]
pub struct BillingRequest {
    pub first_name: Option<String>,
    pub last_name: Option<String>,
    pub premise: Option<String>,
    pub street: Option<String>,
    pub city: Option<String>,
    pub county: Option<String>,
    pub country: Option<String>,
}

/// A billing request with its texts as sequences of characters.
pub struct BillingRequestView {
    pub first_name: Option<Seq<char>>,
    pub last_name: Option<Seq<char>>,
    pub premise: Option<Seq<char>>,
    pub street: Option<Seq<char>>,
    pub city: Option<Seq<char>>,
    pub county: Option<Seq<char>>,
    pub country: Option<Seq<char>>,
}

impl View for BillingRequest {
    type V = BillingRequestView;

    open spec fn view(&self) -> BillingRequestView {
        BillingRequestView {
            first_name: text_of(self.first_name),
            last_name: text_of(self.last_name),
            premise: text_of(self.premise),
            street: text_of(self.street),
            city: text_of(self.city),
            county: text_of(self.county),
            country: text_of(self.country),
        }
    }
}

/// The billing address that a request asks for, or the message that
/// refuses it. A missing text is empty; the country must be a known code,
/// and a missing one is not.
pub open spec fn billing_of(request: BillingRequestView) -> Result<BillingView, Seq<char>> {
    match country_of(or_empty(request.country)) {
        Some(country) => Ok(
            BillingView {
                first_name: or_empty(request.first_name),
                last_name: or_empty(request.last_name),
                premise: or_empty(request.premise),
                street: or_empty(request.street),
                city: or_empty(request.city),
                county: or_empty(request.county),
                country,
            },
        ),
        None => Err(
            error_text(CoreErrorKind::Type, unknown_country_message(or_empty(request.country))),
        ),
    }
}

impl Default for BillingRequest {
    fn default() -> (r: BillingRequest)
        ensures
            r@ == (BillingRequestView {
                first_name: None,
                last_name: None,
                premise: None,
                street: None,
                city: None,
                county: None,
                country: None,
            }),
    {
        BillingRequest {
            first_name: None,
            last_name: None,
            premise: None,
            street: None,
            city: None,
            county: None,
            country: None,
        }
    }
}

impl BillingRequest {
    /// The billing address that the request asks for. A country that is
    /// not a known code is a validation error.
    pub fn try_into(self) -> (r: Result<Billing, GatewayError>)
        ensures
            match billing_of(self@) {
                Ok(billing) => r is Ok && r->Ok_0@ == billing,
                Err(message) => r is Err && r->Err_0.says(ErrorKind::Validation, message),
            },
    {
        let BillingRequest { first_name, last_name, premise, street, city, county, country } = self;
        match Country::try_from(unwrap_or_empty(country)) {
            Ok(country) => Ok(
                Billing {
                    first_name: unwrap_or_empty(first_name),
                    last_name: unwrap_or_empty(last_name),
                    premise: unwrap_or_empty(premise),
                    street: unwrap_or_empty(street),
                    city: unwrap_or_empty(city),
                    county: unwrap_or_empty(county),
                    country,
                },
            ),
            Err(e) => Err(GatewayError { kind: ErrorKind::Validation, message: e.to_string() }),
        }
    }
}

} // verus!
