//! Merchants, and how a stored merchant record becomes one.

use vstd::prelude::*;
use crate::country::{country_of, Country};
use crate::error::{
    failure_kind, failure_message, DbErrorKind, DbFailure, Error, ErrorKind,
};
use crate::payment::FieldError;
use crate::text::{trim, trimmed};

verus! {

/// A merchant on whose behalf transactions are taken.
#[derive(Debug, PartialEq, Eq)]
pub struct Merchant {
    pub merchant_id: String,
    pub name: String,
    pub premise: String,
    pub street: String,
    pub city: String,
    pub postcode: String,
    pub county: String,
    pub country: Country,
}

/// A merchant with its texts as sequences of characters.
pub struct MerchantView {
    pub merchant_id: Seq<char>,
    pub name: Seq<char>,
    pub premise: Seq<char>,
    pub street: Seq<char>,
    pub city: Seq<char>,
    pub postcode: Seq<char>,
    pub county: Seq<char>,
    pub country: Country,
}

impl View for Merchant {
    type V = MerchantView;

    open spec fn view(&self) -> MerchantView {
        MerchantView {
            merchant_id: self.merchant_id@,
            name: self.name@,
            premise: self.premise@,
            street: self.street@,
            city: self.city@,
            postcode: self.postcode@,
            county: self.county@,
            country: self.country,
        }
    }
}

/// A row of the merchant table, as it is stored.
#[derive(Debug, PartialEq, Eq)]
pub struct MerchantRecord {
    pub id: String,
    pub name: String,
    pub premise: String,
    pub street: String,
    pub city: String,
    pub postcode: String,
    pub county: String,
    pub country: String,
}

/// A merchant record with its texts as sequences of characters.
pub struct MerchantRecordView {
    pub id: Seq<char>,
    pub name: Seq<char>,
    pub premise: Seq<char>,
    pub street: Seq<char>,
    pub city: Seq<char>,
    pub postcode: Seq<char>,
    pub county: Seq<char>,
    pub country: Seq<char>,
}

impl View for MerchantRecord {
    type V = MerchantRecordView;

    open spec fn view(&self) -> MerchantRecordView {
        MerchantRecordView {
            id: self.id@,
            name: self.name@,
            premise: self.premise@,
            street: self.street@,
            city: self.city@,
            postcode: self.postcode@,
            county: self.county@,
            country: self.country@,
        }
    }
}

impl MerchantView {
    /// The merchant with every text but its id trimmed.
    pub open spec fn normalized(self) -> MerchantView {
        MerchantView {
            merchant_id: self.merchant_id,
            name: trimmed(self.name),
            premise: trimmed(self.premise),
            street: trimmed(self.street),
            city: trimmed(self.city),
            postcode: trimmed(self.postcode),
            county: trimmed(self.county),
            country: self.country,
        }
    }

    /// The merchant with no text and the default country.
    pub open spec fn empty() -> MerchantView {
        MerchantView {
            merchant_id: Seq::empty(),
            name: Seq::empty(),
            premise: Seq::empty(),
            street: Seq::empty(),
            city: Seq::empty(),
            postcode: Seq::empty(),
            county: Seq::empty(),
            country: Country::GB,
        }
    }
}

/// The merchant that a record holds, untrimmed, given its country.
pub open spec fn merchant_of(record: MerchantRecordView, country: Country) -> MerchantView {
    MerchantView {
        merchant_id: record.id,
        name: record.name,
        premise: record.premise,
        street: record.street,
        city: record.city,
        postcode: record.postcode,
        county: record.county,
        country,
    }
}

/// The message for a record whose country is not a known code.
pub open spec fn bad_country_message(code: Seq<char>) -> Seq<char> {
    "bad country: "@ + code
}

/// What loading a merchant gives for each outcome of the lookup: the
/// trimmed merchant for a row with a known country; an error of kind
/// `Other` for a row with an unknown one; for a failed lookup the error of
/// that failure, which for a missing row is a query error.
pub open spec fn load_outcome(lookup: Result<MerchantRecordView, DbFailure>) -> Result<
    MerchantView,
    (ErrorKind, Seq<char>),
> {
    match lookup {
        Ok(record) => match country_of(record.country) {
            Some(country) => Ok(merchant_of(record, country).normalized()),
            None => Err(
                (ErrorKind::Database(DbErrorKind::Other), bad_country_message(record.country)),
            ),
        },
        Err(failure) => Err((failure_kind(failure), failure_message(failure))),
    }
}

/// What a lookup of a merchant found, over views.
pub open spec fn lookup_view(lookup: Result<MerchantRecord, DbFailure>) -> Result<
    MerchantRecordView,
    DbFailure,
> {
    match lookup {
        Ok(record) => Ok(record@),
        Err(failure) => Err(failure),
    }
}

/// What loading a merchant gave, over views.
pub open spec fn loaded_view(loaded: Result<Merchant, Error>) -> Result<
    MerchantView,
    (ErrorKind, Seq<char>),
> {
    match loaded {
        Ok(merchant) => Ok(merchant@),
        Err(error) => Err((error.kind, error.message@)),
    }
}

impl Clone for Merchant {
    fn clone(&self) -> (m: Merchant)
        ensures
            m@ == self@,
    {
        Merchant {
            merchant_id: self.merchant_id.clone(),
            name: self.name.clone(),
            premise: self.premise.clone(),
            street: self.street.clone(),
            city: self.city.clone(),
            postcode: self.postcode.clone(),
            county: self.county.clone(),
            country: self.country,
        }
    }
}

impl Default for Merchant {
    fn default() -> (m: Merchant)
        ensures
            m@ == MerchantView::empty(),
    {
        Merchant {
            merchant_id: String::new(),
            name: String::new(),
            premise: String::new(),
            street: String::new(),
            city: String::new(),
            postcode: String::new(),
            county: String::new(),
            country: Country::GB,
        }
    }
}

impl Merchant {
    /// Trims every text of the merchant but its id, in place. There is no
    /// rule that a merchant can break, so this always succeeds.
    pub fn validify(&mut self) -> (r: Result<(), Vec<FieldError>>)
        ensures
            r is Ok,
            final(self)@ == old(self)@.normalized(),
    {
        self.name = trim(self.name.as_str());
        self.premise = trim(self.premise.as_str());
        self.street = trim(self.street.as_str());
        self.city = trim(self.city.as_str());
        self.postcode = trim(self.postcode.as_str());
        self.county = trim(self.county.as_str());
        Ok(())
    }

    /// Reads a stored record. The texts are taken as they are; a country
    /// that is not a known code is refused with an error of kind `Other`.
    pub fn try_from(record: MerchantRecord) -> (r: Result<Merchant, Error>)
        ensures
            match country_of(record@.country) {
                Some(country) => r is Ok && r->Ok_0@ == merchant_of(record@, country),
                None => r is Err && r->Err_0.says(
                    ErrorKind::Database(DbErrorKind::Other),
                    bad_country_message(record@.country),
                ),
            },
    {
        let MerchantRecord { id, name, premise, street, city, postcode, county, country } = record;
        let code = country.clone();
        match Country::try_from(country) {
            Ok(country) => Ok(
                Merchant { merchant_id: id, name, premise, street, city, postcode, county, country },
            ),
            Err(_) => {
                let mut message = "bad country: ".to_string();
                message.append(code.as_str());
                Err(Error { kind: ErrorKind::Database(DbErrorKind::Other), message })
            },
        }
    }

    /// Decides what loading a merchant gives, from the outcome of the
    /// lookup of its row.
    pub fn load(lookup: Result<MerchantRecord, DbFailure>) -> (r: Result<Merchant, Error>)
        ensures
            loaded_view(r) == load_outcome(lookup_view(lookup)),
    {
        match lookup {
            Ok(record) => match Merchant::try_from(record) {
                Ok(mut merchant) => {
                    let _ = merchant.validify();
                    Ok(merchant)
                },
                Err(error) => Err(error),
            },
            Err(failure) => Err(Error::from_failure(failure)),
        }
    }
}

} // verus!
