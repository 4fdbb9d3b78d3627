//! The billing part of a transaction response.

use vstd::prelude::*;
use crate::billing::{Billing, BillingView};
use crate::country::{country_code, Country};

verus! {

/// The billing address of a transaction, as the response shows it.
#[derive(Clone, Copy, Debug, PartialEq, Eq)]
pub struct BillingResponse<'a> {
    pub first_name: &'a str,
    pub last_name: &'a str,
    pub premise: &'a str,
    pub street: &'a str,
    pub city: &'a str,
    pub county: &'a str,
    pub country: Country,
}

impl<'a> View for BillingResponse<'a> {
    type V = BillingView;

    open spec fn view(&self) -> BillingView {
        BillingView {
            first_name: self.first_name@,
            last_name: self.last_name@,
            premise: self.premise@,
            street: self.street@,
            city: self.city@,
            county: self.county@,
            country: self.country,
        }
    }
}

/// A name and a text.
pub type Field = (Seq<char>, Seq<char>);

/// A text field of a response: left out when its text is empty.
pub open spec fn text_field(name: Seq<char>, text: Seq<char>) -> Seq<Field> {
    if text.len() == 0 {
        Seq::empty()
    } else {
        seq![(name, text)]
    }
}

/// The fields of a billing address that a response includes: each text
/// that is not empty, in the order of the address, and the country.
pub open spec fn billing_fields(b: BillingView) -> Seq<Field> {
    text_field("first_name"@, b.first_name) + text_field("last_name"@, b.last_name) + text_field(
        "premise"@,
        b.premise,
    ) + text_field("street"@, b.street) + text_field("city"@, b.city) + text_field(
        "county"@,
        b.county,
    ) + seq![("country"@, country_code(b.country))]
}

/// The names and texts of a list of fields.
pub open spec fn field_views(fields: Seq<(&'static str, String)>) -> Seq<Field> {
    fields.map_values(|f: (&'static str, String)| (f.0@, f.1@))
}

fn include_text(fields: &mut Vec<(&'static str, String)>, name: &'static str, text: &str)
    ensures
        field_views(final(fields)@) == field_views(old(fields)@) + text_field(name@, text@),
{
    if text.unicode_len() > 0 {
        fields.push((name, text.to_string()));
    }
    assert(field_views(fields@) =~= field_views(old(fields)@) + text_field(name@, text@));
}

impl<'a> BillingResponse<'a> {
    /// The response for a billing address: the address itself.
    pub fn from(value: &'a Billing) -> (r: BillingResponse<'a>)
        ensures
            r@ == value@,
    {
        BillingResponse {
            first_name: value.first_name.as_str(),
            last_name: value.last_name.as_str(),
            premise: value.premise.as_str(),
            street: value.street.as_str(),
            city: value.city.as_str(),
            county: value.county.as_str(),
            country: value.country,
        }
    }

    /// The fields that the response includes, with their names. A text
    /// that is empty is left out; the country is always there.
    pub fn fields(&self) -> (fields: Vec<(&'static str, String)>)
        ensures
            field_views(fields@) == billing_fields(self@),
    {
        let mut fields: Vec<(&'static str, String)> = Vec::new();
        assert(field_views(fields@) =~= Seq::empty());
        include_text(&mut fields, "first_name", self.first_name);
        include_text(&mut fields, "last_name", self.last_name);
        include_text(&mut fields, "premise", self.premise);
        include_text(&mut fields, "street", self.street);
        include_text(&mut fields, "city", self.city);
        include_text(&mut fields, "county", self.county);
        let before = Ghost(fields@);
        fields.push(("country", self.country.to_string()));
        assert(field_views(fields@) =~= field_views(before@) + seq![
            ("country"@, country_code(self.country)),
        ]);
        assert(field_views(fields@) =~= billing_fields(self@));
        fields
    }
}

impl<'a> Default for BillingResponse<'a> {
    fn default() -> (r: BillingResponse<'a>)
        ensures
            r@ == BillingView::empty(),
    {
        proof {
            reveal_strlit("");
        }
        let r = BillingResponse {
            first_name: "",
            last_name: "",
            premise: "",
            street: "",
            city: "",
            county: "",
            country: Country::GB,
        };
        assert(r.first_name@ =~= Seq::empty());
        r
    }
}

} // verus!
