//! Runs a query in a private, single-use in-memory database.

use super::{Error, Query, QueryResponse};
use rusqlite::types::Value;
use rusqlite::Connection;
use rusqlite::Error as SqliteError;
use rusqlite::Statement;
use vstd::prelude::*;
use vstd::utf8::{decode_utf8, valid_utf8};

verus! {

#[verifier::external_type_specification]
#[verifier::external_body]
pub struct ExConnection(Connection);

#[verifier::external_type_specification]
#[verifier::external_body]
pub struct ExStatement<'conn>(Statement<'conn>);

/// Seconds that the database waits on its own locks before giving up.
pub const BUSY_TIMEOUT_SECONDS: u64 = 3;

/// A cell as the driver hands it over, with a real number already in the
/// driver's decimal text.
#[derive(Clone, Debug, PartialEq)]
pub enum SqlValue {
    Null,
    Integer(i64),
    Real(String),
    Text(String),
    Blob(Vec<u8>),
}

/// The decimal digit `d < 10`.
pub open spec fn decimal_digit(d: nat) -> char {
    (('0' as u8) + (d as u8)) as char
}

/// The decimal digits of `n`, without leading zeros.
pub open spec fn digits_of(n: nat) -> Seq<char>
    decreases n,
{
    if n < 10 {
        seq![decimal_digit(n)]
    } else {
        digits_of(n / 10) + seq![decimal_digit(n % 10)]
    }
}

/// The decimal text of `i`, with a leading `-` when negative.
pub open spec fn decimal_of(i: int) -> Seq<char> {
    if i < 0 {
        seq!['-'] + digits_of((-i) as nat)
    } else {
        digits_of(i as nat)
    }
}

/// The text that lossy UTF-8 decoding gives for `b`.
pub uninterp spec fn utf8_lossy_of(b: Seq<u8>) -> Seq<char>;

/// The text form of a cell: `None` for NULL, otherwise its text.
pub open spec fn cell_text(v: SqlValue) -> Option<Seq<char>> {
    match v {
        SqlValue::Null => None,
        SqlValue::Integer(i) => Some(decimal_of(i as int)),
        SqlValue::Real(s) => Some(s@),
        SqlValue::Text(s) => Some(s@),
        SqlValue::Blob(b) => Some(utf8_lossy_of(b@)),
    }
}

/// The text form of each row.
pub open spec fn rows_text(rows: Seq<Vec<SqlValue>>) -> Seq<Seq<Option<Seq<char>>>> {
    Seq::new(rows.len(), |i: int| Seq::new(rows[i]@.len(), |j: int| cell_text(rows[i]@[j])))
}

/// Relies on the standard `Display` of `i64`: decimal digits, with `-` in
/// front of a negative number.
#[verifier::external_body]
fn integer_text(i: i64) -> (r: String)
    ensures
        r@ == decimal_of(i as int),
{
    i.to_string()
}

/// Relies on String::from_utf8_lossy: the bytes decoded as UTF-8, each
/// invalid sequence replaced by U+FFFD; valid UTF-8 is decoded unchanged.
#[verifier::external_body]
fn lossy_text(b: &Vec<u8>) -> (r: String)
    ensures
        r@ == utf8_lossy_of(b@),
        valid_utf8(b@) ==> r@ == decode_utf8(b@),
{
    String::from_utf8_lossy(b).into_owned()
}

/// Convert one cell to its text form.
pub fn cell_to_text(v: &SqlValue) -> (r: Option<String>)
    ensures
        r.deep_view() == cell_text(*v),
{
    match v {
        SqlValue::Null => None,
        SqlValue::Integer(i) => Some(integer_text(*i)),
        SqlValue::Real(s) => Some(s.clone()),
        SqlValue::Text(s) => Some(s.clone()),
        SqlValue::Blob(b) => Some(lossy_text(b)),
    }
}

/// Convert every cell of every row to its text form, keeping the order of
/// rows and of cells.
pub fn rows_to_text(rows: &Vec<Vec<SqlValue>>) -> (r: Vec<Vec<Option<String>>>)
    ensures
        r.deep_view() == rows_text(rows@),
{
    let mut out: Vec<Vec<Option<String>>> = Vec::new();
    let mut i: usize = 0;
    while i < rows.len()
        invariant
            i <= rows.len(),
            out.deep_view() =~= rows_text(rows@).subrange(0, i as int),
        decreases rows.len() - i,
    {
        let row = &rows[i];
        let mut cells: Vec<Option<String>> = Vec::new();
        let mut j: usize = 0;
        while j < row.len()
            invariant
                j <= row.len(),
                row == rows@[i as int],
                cells.deep_view() =~= Seq::new(j as nat, |k: int| cell_text(row@[k])),
            decreases row.len() - j,
        {
            let c = cell_to_text(&row[j]);
            let ghost before = cells.deep_view();
            cells.push(c);
            assert(cells.deep_view() =~= before.push(cell_text(row@[j as int])));
            j = j + 1;
        }
        assert(cells.deep_view() =~= rows_text(rows@)[i as int]);
        let ghost before = out.deep_view();
        let ghost pushed = cells.deep_view();
        out.push(cells);
        assert(out.deep_view() =~= before.push(pushed));
        i = i + 1;
    }
    out
}


/// Relies on rusqlite's Connection::open_in_memory: opens a new, private,
/// empty in-memory database.
#[verifier::external_body]
fn open_private_database() -> (r: Result<Connection, SqliteError>) {
    Connection::open_in_memory()
}

/// Relies on rusqlite's Connection::busy_timeout: sets how long the database
/// waits on a lock. The driver panics when the wait in milliseconds does not
/// fit in an `i32`, hence the bound.
#[verifier::external_body]
fn set_busy_timeout(conn: &Connection, seconds: u64) -> (r: Result<(), SqliteError>)
    requires
        seconds <= 2147483,
{
    conn.busy_timeout(std::time::Duration::from_secs(seconds))
}

/// Relies on rusqlite's Connection::execute_batch: runs the statements of
/// `sql` one after the other.
#[verifier::external_body]
fn run_batch(conn: &Connection, sql: &str) -> (r: Result<(), SqliteError>) {
    conn.execute_batch(sql)
}

/// Relies on rusqlite's Connection::prepare: compiles `sql` into a statement.
#[verifier::external_body]
fn prepare_statement<'conn>(conn: &'conn Connection, sql: &str) -> (r: Result<
    Statement<'conn>,
    SqliteError,
>) {
    conn.prepare(sql)
}

/// Relies on rusqlite's Statement::column_names: the result columns' names
/// in declaration order.
#[verifier::external_body]
fn column_names_of(stmt: &Statement) -> (r: Vec<String>) {
    stmt.column_names().into_iter().map(String::from).collect()
}

/// Relies on rusqlite's Statement::query_map: binds no parameters and steps
/// the statement, reading the first `n` cells of each row in column order,
/// each real number as its `Display` text. The outer error is a failure to
/// start the statement, the inner one a failure while reading rows.
#[verifier::external_body]
fn fetch_rows(stmt: &mut Statement, n: usize) -> (r: Result<
    Result<Vec<Vec<SqlValue>>, SqliteError>,
    SqliteError,
>)
    ensures
        r matches Ok(Ok(rows)) ==> rows_fit(rows@, n as nat),
{
    let rows = stmt.query_map((), |row| {
        (0..n).map(|i| row.get::<_, Value>(i).map(|v| match v {
            Value::Null => SqlValue::Null,
            Value::Integer(x) => SqlValue::Integer(x),
            Value::Real(f) => SqlValue::Real(f.to_string()),
            Value::Text(t) => SqlValue::Text(t),
            Value::Blob(b) => SqlValue::Blob(b),
        })).collect()
    })?;
    Ok(rows.collect())
}

/// Relies on rusqlite's Error::SqliteFailure: tells whether the driver failed
/// with the message "not an error", which is how SQLite reports stepping a
/// statement that has no active result.
#[verifier::external_body]
fn is_no_result_signal(e: &SqliteError) -> (r: bool) {
    matches!(e, SqliteError::SqliteFailure(_, Some(m)) if m == "not an error")
}

/// Every row has `n` cells.
pub open spec fn rows_fit(rows: Seq<Vec<SqlValue>>, n: nat) -> bool {
    forall|i: int| 0 <= i < rows.len() ==> #[trigger] rows[i]@.len() == n
}

/// A response is a table: every row has one cell per column.
pub open spec fn is_table(resp: QueryResponse) -> bool {
    forall|i: int|
        0 <= i < resp.rows@.len() ==> #[trigger] resp.rows@[i]@.len() == resp.header@.len()
}

/// What stepping a statement gave.
pub enum Fetched {
    /// The rows, in order.
    Rows(Vec<Vec<SqlValue>>),
    /// There was no result set to read.
    NoResultSet,
    /// Reading a row failed.
    Failed(SqliteError),
    /// The statement could not be started.
    NotStarted(SqliteError),
}

/// Classify what stepping a statement gave. `no_result` says whether a
/// failure while reading rows is the driver's "no active result" signal,
/// which means an empty result rather than an error.
pub fn fetched_from(
    res: Result<Result<Vec<Vec<SqlValue>>, SqliteError>, SqliteError>,
    no_result: bool,
) -> (f: Fetched)
    ensures
        match res {
            Ok(Ok(rows)) => f == Fetched::Rows(rows),
            Ok(Err(e)) => if no_result {
                f is NoResultSet
            } else {
                f == Fetched::Failed(e)
            },
            Err(e) => f == Fetched::NotStarted(e),
        },
{
    match res {
        Ok(Ok(rows)) => Fetched::Rows(rows),
        Ok(Err(e)) => if no_result {
            Fetched::NoResultSet
        } else {
            Fetched::Failed(e)
        },
        Err(e) => Fetched::NotStarted(e),
    }
}

/// The response for a statement with the column names `header`, from what
/// stepping it gave.
pub fn response_from(header: Vec<String>, fetched: Fetched) -> (r: Result<QueryResponse, Error>)
    ensures
        match fetched {
            Fetched::Rows(rows) => r matches Ok(resp) && resp.header@ == header@
                && resp.rows.deep_view() == rows_text(rows@),
            Fetched::NoResultSet => r matches Ok(resp) && resp.header@ == header@
                && resp.rows@.len() == 0,
            Fetched::Failed(e) => r matches Err(Error::TransformQueryResult(x)) && x == e,
            Fetched::NotStarted(e) => r matches Err(Error::Sqlite(x)) && x == e,
        },
{
    match fetched {
        Fetched::Rows(rows) => Ok(QueryResponse { header, rows: rows_to_text(&rows) }),
        Fetched::NoResultSet => Ok(QueryResponse { header, rows: Vec::new() }),
        Fetched::Failed(e) => Err(Error::TransformQueryResult(e)),
        Fetched::NotStarted(e) => Err(Error::Sqlite(e)),
    }
}

/// Read the result of a statement from what preparing `statement` gave. A
/// statement that failed to prepare is the client's `ExecuteQuery` error, one
/// that could not be started a `Sqlite` error; a statement text with no SQL
/// in it has no result set to read.
pub fn read_prepared<'conn>(prepared: Result<Statement<'conn>, SqliteError>, statement: &str) -> (r:
    Result<QueryResponse, Error>)
    ensures
        match prepared {
            Err(e) => r matches Err(Error::ExecuteQuery(x)) && x == e,
            Ok(_) => match r {
                Ok(resp) => is_table(resp),
                Err(e) => e is Sqlite || e is TransformQueryResult,
            },
        },
        prepared is Ok && statement@.len() == 0 ==> (r matches Ok(resp) && resp.rows@.len() == 0),
{
    let mut stmt = match prepared {
        Ok(s) => s,
        Err(e) => return Err(Error::ExecuteQuery(e)),
    };
    let header = column_names_of(&stmt);
    let n = header.len();
    let fetched = if statement.is_empty() {
        Fetched::NoResultSet
    } else {
        let res = fetch_rows(&mut stmt, n);
        let no_result = match &res {
            Ok(Err(e)) => is_no_result_signal(e),
            _ => false,
        };
        fetched_from(res, no_result)
    };
    let ghost g = fetched;
    let r = response_from(header, fetched);
    proof {
        match g {
            Fetched::Rows(rows) => {
                let resp = r->Ok_0;
                assert forall|i: int| 0 <= i < resp.rows@.len() implies #[trigger] resp.rows@[i]@.len()
                    == resp.header@.len() by {
                    assert(resp.rows.deep_view().len() == resp.rows@.len());
                    assert(rows_text(rows@).len() == rows@.len());
                    assert(resp.rows.deep_view()[i] == resp.rows@[i].deep_view());
                    assert(resp.rows@[i].deep_view().len() == resp.rows@[i]@.len());
                    assert(rows_text(rows@)[i].len() == rows@[i]@.len());
                    assert(rows@[i]@.len() == n);
                }
            },
            _ => {},
        }
    }
    r
}

/// Run `statement` after the migration, from what running the migration
/// gave. A failing migration is the client's `ExecuteInitialSql` error, and
/// the statement is then not run.
pub fn run_after_migration(conn: &Connection, migrated: Result<(), SqliteError>, statement: &str) -> (r:
    Result<QueryResponse, Error>)
    ensures
        match migrated {
            Err(e) => r matches Err(Error::ExecuteInitialSql(x)) && x == e,
            Ok(_) => match r {
                Ok(resp) => is_table(resp),
                Err(e) => e is ExecuteQuery || e is Sqlite || e is TransformQueryResult,
            },
        },
        statement@.len() == 0 && r is Ok ==> r->Ok_0.rows@.len() == 0,
{
    if let Err(e) = migrated {
        return Err(Error::ExecuteInitialSql(e));
    }
    read_prepared(prepare_statement(conn, statement), statement)
}

/// Run an already formatted query in a fresh private database: apply the
/// migration, then run the statement and read its result.
pub fn run_in_sandbox(query: &Query) -> (r: Result<QueryResponse, Error>)
    ensures
        match r {
            Ok(resp) => is_table(resp),
            Err(e) => e is Sqlite || e is ExecuteInitialSql || e is ExecuteQuery
                || e is TransformQueryResult,
        },
        query.query@.len() == 0 && r is Ok ==> r->Ok_0.rows@.len() == 0,
{
    let conn = match open_private_database() {
        Ok(c) => c,
        Err(e) => return Err(Error::Sqlite(e)),
    };
    if let Err(e) = set_busy_timeout(&conn, BUSY_TIMEOUT_SECONDS) {
        return Err(Error::Sqlite(e));
    }
    let migrated = run_batch(&conn, query.initial_sql.as_str());
    run_after_migration(&conn, migrated, query.query.as_str())
}

/// Format the statement, then run the query in a fresh private database.
/// Formatting failures come before anything runs.
pub fn run_query(query: Query) -> (r: Result<QueryResponse, Error>)
    ensures
        (r matches Err(e) && e is Format) <==> super::fmt::canonical_of(query.query@) is None,
        r is Ok ==> super::fmt::canonical_of(query.query@) is Some,
        r matches Ok(resp) ==> is_table(resp),
        r matches Err(e) ==> (e is Format || e is Sqlite || e is ExecuteInitialSql
            || e is ExecuteQuery || e is TransformQueryResult),
        r is Ok && super::fmt::canonical_of(query.query@) == Some(Seq::<char>::empty())
            ==> r->Ok_0.rows@.len() == 0,
{
    let formatted = query.format()?;
    run_in_sandbox(&formatted)
}

} // verus!
