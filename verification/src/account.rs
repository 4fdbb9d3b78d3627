//! Acquirer accounts and the decisions that route a payment to one.

use vstd::prelude::*;
use vstd::std_specs::convert::FromSpecImpl;
use crate::card_scheme::scheme_name;
use crate::currency::{currency_code, Currency};
use crate::error::{
    failure_kind, failure_message, DbErrorKind, DbFailure, Error, ErrorKind,
};
use crate::payment::{Payment, PaymentView};
use crate::text::{same, text_of};

verus! {

/// The account of a merchant at the first acquirer.
#[derive(Debug, PartialEq, Eq)]
pub struct BankOneAccount {
    pub merchant_identification_value: String,
}

/// The account of a merchant at the second acquirer.
#[derive(Debug, PartialEq, Eq)]
pub struct BankTwoAccount {
    pub merchant_reference: String,
}

/// The account that a transaction settles through, in the shape of its
/// acquirer.
#[derive(Debug, PartialEq, Eq)]
pub enum Account {
    BankOne(BankOneAccount),
    BankTwo(BankTwoAccount),
}

/// An account with its texts as sequences of characters.
pub enum AccountView {
    BankOne { merchant_identification_value: Seq<char> },
    BankTwo { merchant_reference: Seq<char> },
}

impl View for Account {
    type V = AccountView;

    open spec fn view(&self) -> AccountView {
        match self {
            Account::BankOne(a) => AccountView::BankOne {
                merchant_identification_value: a.merchant_identification_value@,
            },
            Account::BankTwo(a) => AccountView::BankTwo { merchant_reference: a.merchant_reference@ },
        }
    }
}

/// The acquirers that the gateway can settle through.
#[derive(Clone, Copy, Debug, PartialEq, Eq, Structural)]
pub enum Acquirer {
    BankOne,
    BankTwo,
}

/// The name of an acquirer in the routing table. It is also the name of the
/// acquirer's account table.
pub open spec fn acquirer_name(a: Acquirer) -> Seq<char> {
    match a {
        Acquirer::BankOne => "bankone"@,
        Acquirer::BankTwo => "banktwo"@,
    }
}

/// The acquirer that a name of the routing table stands for, if any.
pub open spec fn acquirer_of(name: Seq<char>) -> Option<Acquirer> {
    if name == "bankone"@ {
        Some(Acquirer::BankOne)
    } else if name == "banktwo"@ {
        Some(Acquirer::BankTwo)
    } else {
        None
    }
}

/// The first lookup of routing: the row of the routing table for a scheme,
/// a currency and a merchant.
#[derive(Debug, PartialEq, Eq)]
pub struct RouteQuery {
    pub scheme: String,
    pub currency: String,
    pub merchant_id: String,
}

/// A row of the routing table: the acquirer and the account to settle
/// through.
#[derive(Debug, PartialEq, Eq)]
pub struct RouteRow {
    pub acquirer: String,
    pub account_id: i32,
}

/// The second lookup of routing: one account of one acquirer.
#[derive(Clone, Copy, Debug, PartialEq, Eq, Structural)]
pub struct AccountQuery {
    pub acquirer: Acquirer,
    pub account_id: i32,
}

/// A row of an acquirer's account table: for each column that some
/// acquirer has, its text if the row has that column.
#[derive(Debug, PartialEq, Eq)]
pub struct AccountRow {
    pub merchant_identification_value: Option<String>,
    pub merchant_reference: Option<String>,
}

/// The message of the error for a payment that no account can take.
pub open spec fn no_account_message() -> Seq<char> {
    "no account found"@
}

/// The message of the error for a route to an acquirer that the gateway
/// does not know.
pub open spec fn unknown_acquirer_message(name: Seq<char>) -> Seq<char> {
    name + " is not a recognised acquirer"@
}

/// The message of the error for an account row without the column of its
/// acquirer.
pub open spec fn missing_column_message() -> Seq<char> {
    "account record does not match its acquirer"@
}

/// What the first step of routing decides: a card is looked up by its
/// scheme's name, the currency's code and the merchant; an account payment
/// has no scheme and so no route.
pub open spec fn route_query_outcome(
    merchant_id: Seq<char>,
    payment: PaymentView,
    currency: Currency,
) -> Result<(Seq<char>, Seq<char>, Seq<char>), (ErrorKind, Seq<char>)> {
    match payment {
        PaymentView::Card { scheme, .. } => Ok(
            (scheme_name(scheme), currency_code(currency), merchant_id),
        ),
        PaymentView::Account { .. } => Err(
            (ErrorKind::Database(DbErrorKind::Query), no_account_message()),
        ),
    }
}

/// What the second step of routing decides from the outcome of the first
/// lookup: a row of a known acquirer leads to that acquirer's account; a
/// row of an unknown one is an error of kind `Other`; no row is a query
/// error that says so; any other failure is that failure's error.
pub open spec fn account_query_outcome(lookup: Result<(Seq<char>, i32), DbFailure>) -> Result<
    AccountQuery,
    (ErrorKind, Seq<char>),
> {
    match lookup {
        Ok((name, account_id)) => match acquirer_of(name) {
            Some(acquirer) => Ok(AccountQuery { acquirer, account_id }),
            None => Err((ErrorKind::Database(DbErrorKind::Other), unknown_acquirer_message(name))),
        },
        Err(DbFailure::RowNotFound) => Err(
            (ErrorKind::Database(DbErrorKind::Query), no_account_message()),
        ),
        Err(DbFailure::Other) => Err(
            (failure_kind(DbFailure::Other), failure_message(DbFailure::Other)),
        ),
    }
}

/// What the last step of routing decides from the outcome of the second
/// lookup: the account in the shape of its acquirer, read from that
/// acquirer's column; a row without that column is an error of kind
/// `Other`; a failed lookup is that failure's error.
pub open spec fn account_outcome(
    acquirer: Acquirer,
    lookup: Result<(Option<Seq<char>>, Option<Seq<char>>), DbFailure>,
) -> Result<AccountView, (ErrorKind, Seq<char>)> {
    match lookup {
        Ok((merchant_identification_value, merchant_reference)) => match acquirer {
            Acquirer::BankOne => match merchant_identification_value {
                Some(value) => Ok(AccountView::BankOne { merchant_identification_value: value }),
                None => Err((ErrorKind::Database(DbErrorKind::Other), missing_column_message())),
            },
            Acquirer::BankTwo => match merchant_reference {
                Some(value) => Ok(AccountView::BankTwo { merchant_reference: value }),
                None => Err((ErrorKind::Database(DbErrorKind::Other), missing_column_message())),
            },
        },
        Err(failure) => Err((failure_kind(failure), failure_message(failure))),
    }
}

/// Routing with no matching route is a query error that says that no
/// account was found; a route to an unknown acquirer is an error of kind
/// `Other`, whatever its name and account.
pub proof fn lemma_route_failures(name: Seq<char>, account_id: i32)
    ensures
        account_query_outcome(Err(DbFailure::RowNotFound)) == Err::<
            AccountQuery,
            (ErrorKind, Seq<char>),
        >((ErrorKind::Database(DbErrorKind::Query), no_account_message())),
        acquirer_of(name) is None ==> account_query_outcome(Ok((name, account_id))) == Err::<
            AccountQuery,
            (ErrorKind, Seq<char>),
        >((ErrorKind::Database(DbErrorKind::Other), unknown_acquirer_message(name))),
        acquirer_of(name) matches Some(acquirer) ==> account_query_outcome(Ok((name, account_id)))
            == Ok::<AccountQuery, (ErrorKind, Seq<char>)>(AccountQuery { acquirer, account_id }),
{
}

/// An error as its kind and the characters of its message.
pub open spec fn error_view(e: Error) -> (ErrorKind, Seq<char>) {
    (e.kind, e.message@)
}

/// A result with an `Error` as a result over views.
pub open spec fn outcome_view<T: View>(r: Result<T, Error>) -> Result<T::V, (ErrorKind, Seq<char>)> {
    match r {
        Ok(value) => Ok(value@),
        Err(e) => Err(error_view(e)),
    }
}

impl Clone for Account {
    fn clone(&self) -> (a: Account)
        ensures
            a@ == self@,
    {
        match self {
            Account::BankOne(a) => Account::BankOne(
                BankOneAccount {
                    merchant_identification_value: a.merchant_identification_value.clone(),
                },
            ),
            Account::BankTwo(a) => Account::BankTwo(
                BankTwoAccount { merchant_reference: a.merchant_reference.clone() },
            ),
        }
    }
}

impl From<BankOneAccount> for Account {
    fn from(value: BankOneAccount) -> (a: Account) {
        Account::BankOne(value)
    }
}

impl FromSpecImpl<BankOneAccount> for Account {
    open spec fn obeys_from_spec() -> bool {
        true
    }

    open spec fn from_spec(value: BankOneAccount) -> Account {
        Account::BankOne(value)
    }
}

impl From<BankTwoAccount> for Account {
    fn from(value: BankTwoAccount) -> (a: Account) {
        Account::BankTwo(value)
    }
}

impl FromSpecImpl<BankTwoAccount> for Account {
    open spec fn obeys_from_spec() -> bool {
        true
    }

    open spec fn from_spec(value: BankTwoAccount) -> Account {
        Account::BankTwo(value)
    }
}

impl Acquirer {
    /// The acquirer's name in the routing table.
    pub fn to_string(&self) -> (name: String)
        ensures
            name@ == acquirer_name(*self),
    {
        match self {
            Acquirer::BankOne => "bankone".to_string(),
            Acquirer::BankTwo => "banktwo".to_string(),
        }
    }

    /// Reads an acquirer's name. Only the names of known acquirers are
    /// accepted.
    pub fn parse(name: &str) -> (a: Option<Acquirer>)
        ensures
            a == acquirer_of(name@),
    {
        if same(name, "bankone") {
            Some(Acquirer::BankOne)
        } else if same(name, "banktwo") {
            Some(Acquirer::BankTwo)
        } else {
            None
        }
    }
}

/// First step of routing: what to look up in the routing table for a
/// payment of a merchant in a currency.
pub fn select_for(merchant_id: &str, payment_data: &Payment, currency: Currency) -> (r: Result<
    RouteQuery,
    Error,
>)
    ensures
        match route_query_outcome(merchant_id@, payment_data@, currency) {
            Ok((scheme, code, merchant)) => r is Ok && r->Ok_0.scheme@ == scheme
                && r->Ok_0.currency@ == code && r->Ok_0.merchant_id@ == merchant,
            Err(e) => r is Err && error_view(r->Err_0) == e,
        },
{
    match payment_data {
        Payment::Card { scheme, .. } => Ok(
            RouteQuery {
                scheme: scheme.to_string(),
                currency: currency.to_string(),
                merchant_id: merchant_id.to_string(),
            },
        ),
        Payment::Account { .. } => Err(
            Error {
                kind: ErrorKind::Database(DbErrorKind::Query),
                message: "no account found".to_string(),
            },
        ),
    }
}

/// Second step of routing: from the outcome of the routing-table lookup,
/// which account of which acquirer to load.
pub fn route(lookup: Result<RouteRow, DbFailure>) -> (r: Result<AccountQuery, Error>)
    ensures
        match account_query_outcome(
            match lookup {
                Ok(row) => Ok((row.acquirer@, row.account_id)),
                Err(failure) => Err(failure),
            },
        ) {
            Ok(query) => r == Ok::<AccountQuery, Error>(query),
            Err(e) => r is Err && error_view(r->Err_0) == e,
        },
{
    match lookup {
        Ok(row) => match Acquirer::parse(row.acquirer.as_str()) {
            Some(acquirer) => Ok(AccountQuery { acquirer, account_id: row.account_id }),
            None => {
                let mut message = row.acquirer;
                message.append(" is not a recognised acquirer");
                Err(Error { kind: ErrorKind::Database(DbErrorKind::Other), message })
            },
        },
        Err(DbFailure::RowNotFound) => Err(
            Error {
                kind: ErrorKind::Database(DbErrorKind::Query),
                message: "no account found".to_string(),
            },
        ),
        Err(DbFailure::Other) => Err(Error::from_failure(DbFailure::Other)),
    }
}

/// Last step of routing: from the outcome of the account lookup, the
/// account in the shape of its acquirer.
pub fn load(acquirer: Acquirer, lookup: Result<AccountRow, DbFailure>) -> (r: Result<
    Account,
    Error,
>)
    ensures
        outcome_view(r) == account_outcome(
            acquirer,
            match lookup {
                Ok(row) => Ok(
                    (
                        text_of(row.merchant_identification_value),
                        text_of(row.merchant_reference),
                    ),
                ),
                Err(failure) => Err(failure),
            },
        ),
{
    match lookup {
        Ok(row) => {
            let AccountRow { merchant_identification_value, merchant_reference } = row;
            match acquirer {
                Acquirer::BankOne => match merchant_identification_value {
                    Some(value) => Ok(
                        Account::BankOne(BankOneAccount { merchant_identification_value: value }),
                    ),
                    None => Err(
                        Error {
                            kind: ErrorKind::Database(DbErrorKind::Other),
                            message: "account record does not match its acquirer".to_string(),
                        },
                    ),
                },
                Acquirer::BankTwo => match merchant_reference {
                    Some(value) => Ok(Account::BankTwo(BankTwoAccount { merchant_reference: value })),
                    None => Err(
                        Error {
                            kind: ErrorKind::Database(DbErrorKind::Other),
                            message: "account record does not match its acquirer".to_string(),
                        },
                    ),
                },
            }
        },
        Err(failure) => Err(Error::from_failure(failure)),
    }
}

} // verus!
