//! The statements that the gateway sends to its database. Running them is
//! somebody else's work; what they say is decided here.

use vstd::prelude::*;
use crate::account::{acquirer_name, Account, AccountQuery, AccountView, Acquirer};
use crate::merchant::Merchant;
use crate::transaction::{placeholder_list, placeholders};

verus! {

/// The statement that finds the route of a payment: the acquirer and the
/// account for a scheme, a currency and a merchant, bound in that order.
/// Of several routes the first by acquirer and account is taken.
pub const ROUTE_STATEMENT: &'static str =
    "SELECT DISTINCT acquirer, account_id FROM account.paymentroute WHERE scheme = $1 and currency = $2 and merchant_id = $3 ORDER BY acquirer, account_id LIMIT 1;";

/// The table of merchants.
pub const MERCHANT_TABLE: &'static str = "account.merchant";

/// The statement that selects the row with a given id from a table,
/// together with the name of the table that the row came from.
pub open spec fn select_statement(table: Seq<char>) -> Seq<char> {
    "SELECT *, tableoid::regclass::text as table_name FROM "@ + table + " WHERE id = $1"@
}

/// The statement that inserts a row of values into a table and returns
/// the id of the row.
pub open spec fn insert_statement(table: Seq<char>, values: Seq<char>) -> Seq<char> {
    "INSERT INTO "@ + table + " VALUES ("@ + values + ") RETURNING id"@
}

/// The statement that sets the values of the row with a given id.
pub open spec fn update_statement(table: Seq<char>, values: Seq<char>) -> Seq<char> {
    "UPDATE "@ + table + " SET "@ + values + " WHERE id = $1"@
}

/// The table that holds the accounts of an acquirer.
pub open spec fn account_table(acquirer: Acquirer) -> Seq<char> {
    "account."@ + acquirer_name(acquirer)
}

/// The acquirer of an account.
pub open spec fn acquirer_of_account(account: AccountView) -> Acquirer {
    match account {
        AccountView::BankOne { .. } => Acquirer::BankOne,
        AccountView::BankTwo { .. } => Acquirer::BankTwo,
    }
}

/// The statement that selects one row of a table by its id.
pub fn select_one(table: &str) -> (statement: String)
    ensures
        statement@ == select_statement(table@),
{
    let mut statement = "SELECT *, tableoid::regclass::text as table_name FROM ".to_string();
    statement.append(table);
    statement.append(" WHERE id = $1");
    statement
}

/// The statement that inserts a row of values into a table.
pub fn insert_one(table_name: &str, values: &str) -> (statement: String)
    ensures
        statement@ == insert_statement(table_name@, values@),
{
    let mut statement = "INSERT INTO ".to_string();
    statement.append(table_name);
    statement.append(" VALUES (");
    statement.append(values);
    statement.append(") RETURNING id");
    statement
}

/// The statement that sets the values of one row of a table.
pub fn update_one(table_name: &str, values: &str) -> (statement: String)
    ensures
        statement@ == update_statement(table_name@, values@),
{
    let mut statement = "UPDATE ".to_string();
    statement.append(table_name);
    statement.append(" SET ");
    statement.append(values);
    statement.append(" WHERE id = $1");
    statement
}

impl AccountQuery {
    /// The table to look the account up in: that of its acquirer.
    pub fn table(&self) -> (table: String)
        ensures
            table@ == account_table(self.acquirer),
    {
        let mut table = "account.".to_string();
        let name = self.acquirer.to_string();
        table.append(name.as_str());
        table
    }

    /// The statement that looks the account up.
    pub fn statement(&self) -> (statement: String)
        ensures
            statement@ == select_statement(account_table(self.acquirer)),
    {
        let table = self.table();
        select_one(table.as_str())
    }
}

impl Account {
    /// The table that holds the account: that of its acquirer.
    pub fn table_name(&self) -> (table: String)
        ensures
            table@ == account_table(acquirer_of_account(self@)),
    {
        let query = match self {
            Account::BankOne(..) => AccountQuery { acquirer: Acquirer::BankOne, account_id: 0 },
            Account::BankTwo(..) => AccountQuery { acquirer: Acquirer::BankTwo, account_id: 0 },
        };
        query.table()
    }
}

impl Merchant {
    /// The table that holds the merchant.
    pub fn table_name(&self) -> (table: &'static str)
        ensures
            table@ == MERCHANT_TABLE@,
    {
        MERCHANT_TABLE
    }

    /// The placeholders of the statement that stores the merchant: one for
    /// each of its eight columns.
    pub fn values_str_for_insert(&self) -> (values: String)
        ensures
            values@ == placeholders(8),
    {
        placeholder_list(8)
    }

    /// The statement that looks a merchant up by its id.
    pub fn find_statement() -> (statement: String)
        ensures
            statement@ == select_statement(MERCHANT_TABLE@),
    {
        select_one(MERCHANT_TABLE)
    }
}

} // verus!
