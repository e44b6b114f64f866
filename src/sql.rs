//! Queries, their results, and everything needed to run and fingerprint them.

pub mod error;
pub mod executor;
pub mod fmt;
pub mod uid;

pub use error::Error;
pub use uid::{Uid, UidGetter};

use vstd::prelude::*;

verus! {

/// A SQL query: a migration script and the statement to run after it.
#[derive(Clone, Debug, Hash, PartialEq, Eq)]
pub struct Query {
    /// The initial SQL (migration), run as an opaque batch.
    pub initial_sql: String,
    /// The SQL query to run.
    pub query: String,
}

impl Query {
    /// Format the SQL query; the migration is kept as it is.
    pub fn format(self) -> (r: Result<Query, Error>)
        ensures
            match r {
                Ok(q) => fmt::canonical_of(self.query@) == Some(q.query@)
                    && q.initial_sql@ == self.initial_sql@,
                Err(e) => fmt::canonical_of(self.query@) is None && e is Format,
            },
    {
        let formatted_query = fmt::format_sql(self.query.as_str())?;
        Ok(Query { initial_sql: self.initial_sql, query: formatted_query })
    }
}

/// A standard SQL query response: column names and rows of optional text cells.
#[derive(Clone, Debug, Hash, PartialEq, Eq)]
pub struct QueryResponse {
    pub header: Vec<String>,
    pub rows: Vec<Vec<Option<String>>>,
}

} // verus!
