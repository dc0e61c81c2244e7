use vstd::prelude::*;
use crate::query::{list_params, list_sql, listing_holds, texts, AssetFilters, ListQuery};
use crate::record::Asset;

verus! {

// What SQLite returns depends on what the database file holds, so the
// functions below promise nothing of their results: the verified callers
// state what holds whatever came back.

#[verifier::external_type_specification]
#[verifier::external_body]
pub struct ExConnection(rusqlite::Connection);

#[verifier::external_type_specification]
#[verifier::external_body]
pub struct ExSqlError(rusqlite::Error);

/// Relies on rusqlite::Connection::open: opens or creates the database file.
#[verifier::external_body]
pub(crate) fn open_file(path: &str) -> (r: Result<rusqlite::Connection, rusqlite::Error>) {
    rusqlite::Connection::open(path)
}

/// Relies on rusqlite::Connection::open_in_memory: a fresh, empty database.
#[verifier::external_body]
pub(crate) fn open_memory() -> (r: Result<rusqlite::Connection, rusqlite::Error>) {
    rusqlite::Connection::open_in_memory()
}

/// Relies on the Display impl of rusqlite::Error, for the message text.
#[verifier::external_body]
pub(crate) fn error_text(e: &rusqlite::Error) -> (r: String) {
    e.to_string()
}

/// Relies on rusqlite::Connection::execute: runs one statement with its text
/// parameters bound in order, and returns the number of rows changed.
#[verifier::external_body]
pub(crate) fn execute_texts(conn: &rusqlite::Connection, sql: &str, params: &Vec<String>) -> (r:
    Result<usize, rusqlite::Error>) {
    conn.execute(sql, rusqlite::params_from_iter(params.iter()))
}

/// Relies on rusqlite::Connection::execute: runs one statement with the
/// row's ten columns bound to `?1` .. `?10` in table order.
#[verifier::external_body]
pub(crate) fn execute_row(conn: &rusqlite::Connection, sql: &str, a: &Asset) -> (r: Result<
    usize,
    rusqlite::Error,
>) {
    conn.execute(sql, (
        &a.id, &a.asset_type, &a.name, &a.config, &a.metadata,
        &a.file_path, &a.file_size, &a.quality_score, &a.created_at, &a.updated_at,
    ))
}

/// Which step of a query failed, with the error it gave.
pub enum StepError {
    /// The statement could not be prepared.
    Prepare(rusqlite::Error),
    /// The statement could not be run.
    Execute(rusqlite::Error),
    /// A returned row could not be read.
    Row(rusqlite::Error),
}

/// Relies on rusqlite::Connection::prepare and Statement::query_map, and on
/// SQLite's semantics of the listing statement: an `=` on a TEXT column under
/// the BINARY collation keeps equal texts only, `ORDER BY ... DESC` returns
/// rows by non-increasing value (BINARY compares UTF-8 bytes, which orders
/// texts as their code points do), and `LIMIT n` returns at most n rows. The
/// ten result columns are read as an asset row, in table order.
#[verifier::external_body]
#[allow(unused_variables)]
pub(crate) fn query_listing(conn: &rusqlite::Connection, filters: &AssetFilters, q: &ListQuery) -> (r:
    Result<Vec<Asset>, StepError>)
    requires
        q.sql@ == list_sql(*filters),
        texts(q.params@) == list_params(*filters),
    ensures
        r is Ok ==> listing_holds(*filters, r->Ok_0@),
{
    let mut stmt = conn.prepare(&q.sql).map_err(StepError::Prepare)?;
    let rows = stmt.query_map(rusqlite::params_from_iter(q.params.iter()), |r| Ok(Asset {
        id: r.get(0)?, asset_type: r.get(1)?, name: r.get(2)?, config: r.get(3)?,
        metadata: r.get(4)?, file_path: r.get(5)?, file_size: r.get(6)?,
        quality_score: r.get(7)?, created_at: r.get(8)?, updated_at: r.get(9)?,
    })).map_err(StepError::Execute)?;
    rows.collect::<Result<Vec<Asset>, rusqlite::Error>>().map_err(StepError::Row)
}

/// Relies on rusqlite::Connection::prepare, Statement::query_row and
/// OptionalExtension::optional: the first column of the first row, with no
/// row as `None`.
#[verifier::external_body]
pub(crate) fn query_text(conn: &rusqlite::Connection, sql: &str, param: &str) -> (r: Result<
    Option<String>,
    StepError,
>) {
    let mut stmt = conn.prepare(sql).map_err(StepError::Prepare)?;
    rusqlite::OptionalExtension::optional(stmt.query_row((param,), |row| row.get(0)))
        .map_err(StepError::Execute)
}

} // verus!
