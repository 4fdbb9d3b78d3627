//! The store of transactions by acquirer.

use vstd::prelude::*;

verus! {

/// What can go wrong with the store.
#[derive(Debug, PartialEq, Eq)]
pub enum Error {
    ConnectionError,
    QueryError(String),
}

/// Picks the transactions that a read, a delete or an update is about.
#[derive(Clone, Copy, Debug, PartialEq, Eq, Structural)]
pub struct TransactionFilter;

/// Says what an update changes.
#[derive(Clone, Copy, Debug, PartialEq, Eq, Structural)]
pub struct TransactionUpdater;

/// The statement that stores a transaction of an acquirer: its id and its
/// amount, bound in that order, go into the acquirer's table.
pub open spec fn create_statement(acquirer: Seq<char>) -> Seq<char> {
    "INSERT INTO "@ + acquirer + "_transaction (id, baseamount) VALUES (?,?);"@
}

/// The statement that stores a transaction of an acquirer.
pub fn create(acquirer: &str) -> (statement: String)
    ensures
        statement@ == create_statement(acquirer@),
{
    let mut statement = "INSERT INTO ".to_string();
    statement.append(acquirer);
    statement.append("_transaction (id, baseamount) VALUES (?,?);");
    statement
}

} // verus!
