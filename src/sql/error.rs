//! Errors raised while formatting or running a query.

use rusqlite::Error as SqliteError;
use sql_insight::error::Error as FormatError;
use vstd::prelude::*;

verus! {

/// The error of sql-insight's formatter.
#[verifier::external_type_specification]
#[verifier::external_body]
pub struct ExFormatError(FormatError);

/// The error of the SQLite driver.
#[verifier::external_type_specification]
#[verifier::external_body]
pub struct ExSqliteError(SqliteError);

/// What can go wrong while formatting or running a query.
#[derive(Debug)]
pub enum Error {
    /// The statement could not be parsed.
    Format(FormatError),
    /// The database could not be opened or configured.
    Sqlite(SqliteError),
    /// The migration failed.
    ExecuteInitialSql(SqliteError),
    /// The statement failed to prepare.
    ExecuteQuery(SqliteError),
    /// The deadline elapsed before the work finished.
    QueryTimedOut,
    /// The worker running the query failed.
    RetrieveResult,
    /// The worker running the query gave no answer.
    RetrieveQueryFromCpuThread,
    /// A row could not be read.
    TransformQueryResult(SqliteError),
}

/// Whether the error is the client's doing (bad SQL or a runaway query)
/// rather than a failure of this service.
pub open spec fn is_client(e: Error) -> bool {
    e is Format || e is ExecuteInitialSql || e is ExecuteQuery || e is QueryTimedOut
        || e is TransformQueryResult
}

impl Error {
    /// Whether the error is the client's doing (bad SQL or a runaway query)
    /// rather than a failure of this service.
    pub fn is_client_error(&self) -> (r: bool)
        ensures
            r == is_client(*self),
    {
        match self {
            Error::Format(_) | Error::ExecuteInitialSql(_) | Error::ExecuteQuery(_)
            | Error::QueryTimedOut | Error::TransformQueryResult(_) => true,
            _ => false,
        }
    }
}

} // verus!
