use vstd::prelude::*;
use crate::ambient::{fresh_id, is_json, json_text_valid, now_rfc3339};
use crate::error::{with_context, StoreError};
use crate::query::{build_list_query, listing_holds, texts, AssetFilters};
use crate::record::{decode_asset, is_complete, listed, missing_text, prepare_asset_row, Asset, AssetInput};
use crate::sql::{error_text, execute_row, execute_texts, open_file, open_memory, query_listing, query_text, StepError};

verus! {

/// Creates the assets table when it does not exist yet.
pub const CREATE_ASSETS: &'static str = "CREATE TABLE IF NOT EXISTS assets (id TEXT PRIMARY KEY, asset_type TEXT NOT NULL, name TEXT NOT NULL, config TEXT, metadata TEXT, file_path TEXT, file_size INTEGER, quality_score INTEGER, created_at TEXT NOT NULL, updated_at TEXT NOT NULL)";

/// Creates the settings table when it does not exist yet.
pub const CREATE_SETTINGS: &'static str = "CREATE TABLE IF NOT EXISTS settings (key TEXT PRIMARY KEY, value TEXT NOT NULL, updated_at TEXT NOT NULL)";

/// Writes a whole asset row, replacing any row with the same id.
pub const UPSERT_ASSET: &'static str = "INSERT OR REPLACE INTO assets (id, asset_type, name, config, metadata, file_path, file_size, quality_score, created_at, updated_at) VALUES (?1, ?2, ?3, ?4, ?5, ?6, ?7, ?8, ?9, ?10)";

/// Removes the asset row with the given id.
pub const DELETE_ASSET: &'static str = "DELETE FROM assets WHERE id = ?1";

/// Reads the value stored under a key.
pub const SELECT_SETTING: &'static str = "SELECT value FROM settings WHERE key = ?1";

/// Writes a setting, replacing any earlier value under its key.
pub const UPSERT_SETTING: &'static str = "INSERT OR REPLACE INTO settings (key, value, updated_at) VALUES (?1, ?2, ?3)";

/// The single connection to the asset database. Callers that share it across
/// tasks hold it behind one lock and run each operation under that lock.
pub struct Database {
    conn: rusqlite::Connection,
}

/// Whether a JSON column is absent or holds text that parses.
pub open spec fn json_ok(o: Option<String>) -> bool {
    match o {
        Some(t) => json_text_valid(t@),
        None => true,
    }
}

/// What the listing of stored row `raw` is.
pub open spec fn listed_row(raw: Asset) -> Asset {
    listed(raw, json_ok(raw.config), json_ok(raw.metadata))
}

fn json_column_ok(o: &Option<String>) -> (r: bool)
    ensures
        r == json_ok(*o),
{
    match o {
        Some(t) => is_json(t.as_str()),
        None => true,
    }
}

/// Applies the row codec to every stored row, keeping their order.
pub fn decode_rows(raw: &Vec<Asset>) -> (r: Vec<Asset>)
    ensures
        r@ == raw@.map_values(|a: Asset| listed_row(a)),
{
    let mut out: Vec<Asset> = Vec::new();
    for i in 0..raw.len()
        invariant
            out@.len() == i,
            forall|k: int| 0 <= k < i ==> out@[k] == listed_row(#[trigger] raw@[k]),
    {
        let a = &raw[i];
        let c = json_column_ok(&a.config);
        let m = json_column_ok(&a.metadata);
        out.push(decode_asset(a, c, m));
    }
    assert(out@ =~= raw@.map_values(|a: Asset| listed_row(a)));
    out
}

/// The message of a failed statement as text.
fn text_err<T>(o: Result<T, rusqlite::Error>) -> (r: Result<T, String>)
    ensures
        o is Ok ==> r == Ok::<T, String>(o->Ok_0),
        o is Err ==> r is Err,
{
    match o {
        Ok(v) => Ok(v),
        Err(e) => Err(error_text(&e)),
    }
}

/// Which step of a query failed, with the message of its error.
#[derive(Debug, Clone, PartialEq, Eq)]
pub enum StatementFailure {
    Prepare(String),
    Execute(String),
    Row(String),
}

fn step_failure(e: StepError) -> (r: StatementFailure)
    ensures
        e is Prepare ==> r is Prepare,
        e is Execute ==> r is Execute,
        e is Row ==> r is Row,
{
    match e {
        StepError::Prepare(x) => StatementFailure::Prepare(error_text(&x)),
        StepError::Execute(x) => StatementFailure::Execute(error_text(&x)),
        StepError::Row(x) => StatementFailure::Row(error_text(&x)),
    }
}

fn step_err<T>(o: Result<T, StepError>) -> (r: Result<T, StatementFailure>)
    ensures
        o is Ok ==> r == Ok::<T, StatementFailure>(o->Ok_0),
        o is Err ==> r is Err,
{
    match o {
        Ok(v) => Ok(v),
        Err(e) => Err(step_failure(e)),
    }
}

/// `e` is a query error whose message is `prefix` followed by `m`.
pub open spec fn query_error(e: StoreError, prefix: Seq<char>, m: String) -> bool {
    e matches StoreError::Query(q) && q@ == prefix + m@
}

/// How a listing reports the rows that the statement returned.
pub open spec fn listing_reports(o: Result<Vec<Asset>, StatementFailure>, r: Result<Vec<Asset>, StoreError>) -> bool {
    match o {
        Ok(rows) => r matches Ok(v) && v@ == rows@.map_values(|a: Asset| listed_row(a)),
        Err(StatementFailure::Prepare(m)) => r matches Err(e) && query_error(e, "Failed to prepare statement: "@, m),
        Err(StatementFailure::Execute(m)) => r matches Err(e) && query_error(e, "Query execution error: "@, m),
        Err(StatementFailure::Row(m)) => r matches Err(e) && query_error(e, "Row parsing error: "@, m),
    }
}

/// How a save reports what the upsert statement returned, for the row's id.
pub open spec fn save_reports(id: String, o: Result<usize, String>, r: Result<String, StoreError>) -> bool {
    match o {
        Ok(_) => r == Ok::<String, StoreError>(id),
        Err(m) => r matches Err(e) && query_error(e, "Failed to save asset: "@, m),
    }
}

/// How a delete reports what the statement returned: zero rows changed means
/// that no asset had the id.
pub open spec fn delete_reports(o: Result<usize, String>, r: Result<String, StoreError>) -> bool {
    match o {
        Ok(n) => if n == 0 {
            r matches Err(StoreError::NotFound)
        } else {
            r matches Ok(t) && t@ == "Asset deleted successfully"@
        },
        Err(m) => r matches Err(e) && query_error(e, "Failed to delete asset: "@, m),
    }
}

/// How a settings read reports the lookup: a key never set is `None`.
pub open spec fn setting_reports(o: Result<Option<String>, StatementFailure>, r: Result<Option<String>, StoreError>) -> bool {
    match o {
        Ok(v) => r == Ok::<Option<String>, StoreError>(v),
        Err(StatementFailure::Prepare(m)) => r matches Err(e) && query_error(e, "Failed to prepare statement: "@, m),
        Err(StatementFailure::Execute(m)) => r matches Err(e) && query_error(e, "Database error: "@, m),
        Err(StatementFailure::Row(m)) => r matches Err(e) && query_error(e, "Database error: "@, m),
    }
}

/// How a settings write reports what the upsert statement returned.
pub open spec fn setting_saved_reports(o: Result<usize, String>, r: Result<String, StoreError>) -> bool {
    match o {
        Ok(_) => r matches Ok(t) && t@ == "Setting saved successfully"@,
        Err(m) => r matches Err(e) && query_error(e, "Failed to save setting: "@, m),
    }
}

/// The listing that the rows returned by the statement give.
pub fn listing_result(o: Result<Vec<Asset>, StatementFailure>) -> (r: Result<Vec<Asset>, StoreError>)
    ensures
        listing_reports(o, r),
{
    match o {
        Ok(rows) => Ok(decode_rows(&rows)),
        Err(StatementFailure::Prepare(m)) => Err(StoreError::Query(with_context("Failed to prepare statement: ", m))),
        Err(StatementFailure::Execute(m)) => Err(StoreError::Query(with_context("Query execution error: ", m))),
        Err(StatementFailure::Row(m)) => Err(StoreError::Query(with_context("Row parsing error: ", m))),
    }
}

/// The result of saving the row with id `id`, given what the upsert returned.
pub fn save_result(id: String, o: Result<usize, String>) -> (r: Result<String, StoreError>)
    ensures
        save_reports(id, o, r),
{
    match o {
        Ok(_) => Ok(id),
        Err(m) => Err(StoreError::Query(with_context("Failed to save asset: ", m))),
    }
}

/// The result of a delete, given the number of rows the statement removed.
pub fn delete_result(o: Result<usize, String>) -> (r: Result<String, StoreError>)
    ensures
        delete_reports(o, r),
{
    match o {
        Ok(n) => if n == 0 {
            Err(StoreError::NotFound)
        } else {
            Ok(String::from_str("Asset deleted successfully"))
        },
        Err(m) => Err(StoreError::Query(with_context("Failed to delete asset: ", m))),
    }
}

/// The result of a settings read, given what the lookup returned.
pub fn setting_result(o: Result<Option<String>, StatementFailure>) -> (r: Result<Option<String>, StoreError>)
    ensures
        setting_reports(o, r),
{
    match o {
        Ok(v) => Ok(v),
        Err(StatementFailure::Prepare(m)) => Err(StoreError::Query(with_context("Failed to prepare statement: ", m))),
        Err(StatementFailure::Execute(m)) => Err(StoreError::Query(with_context("Database error: ", m))),
        Err(StatementFailure::Row(m)) => Err(StoreError::Query(with_context("Database error: ", m))),
    }
}

/// The values bound to the delete statement: the id alone.
pub fn delete_params(asset_id: &str) -> (r: Vec<String>)
    ensures
        texts(r@) == seq![asset_id@],
{
    let r = vec![String::from_str(asset_id)];
    assert(texts(r@) =~= seq![asset_id@]);
    r
}

/// The values bound to the settings upsert: key, value and time stamp.
pub fn setting_params(key: &str, value: &str, now: String) -> (r: Vec<String>)
    ensures
        texts(r@) == seq![key@, value@, now@],
{
    let r = vec![String::from_str(key), String::from_str(value), now];
    assert(texts(r@) =~= seq![key@, value@, now@]);
    r
}

/// The result of a settings write, given what the upsert returned.
pub fn setting_saved_result(o: Result<usize, String>) -> (r: Result<String, StoreError>)
    ensures
        setting_saved_reports(o, r),
{
    match o {
        Ok(_) => Ok(String::from_str("Setting saved successfully")),
        Err(m) => Err(StoreError::Query(with_context("Failed to save setting: ", m))),
    }
}

/// `r` is a storage-initialisation error whose message starts with `prefix`.
pub open spec fn init_error(r: Result<Database, StoreError>, prefix: Seq<char>) -> bool {
    r matches Err(StoreError::StorageInit(m)) && m@.len() >= prefix.len() && m@.subrange(
        0,
        prefix.len() as int,
    ) == prefix
}

fn init_failure(prefix: &str, e: rusqlite::Error) -> (r: Result<Database, StoreError>)
    ensures
        init_error(r, prefix@),
{
    let m = with_context(prefix, error_text(&e));
    assert(m@.subrange(0, prefix@.len() as int) =~= prefix@);
    Err(StoreError::StorageInit(m))
}

/// Creates both tables where they do not exist yet.
fn with_schema(conn: rusqlite::Connection) -> (r: Result<Database, StoreError>)
    ensures
        r is Err ==> init_error(r, "Failed to create assets table: "@) || init_error(
            r,
            "Failed to create settings table: "@,
        ),
{
    let none: Vec<String> = Vec::new();
    match execute_texts(&conn, CREATE_ASSETS, &none) {
        Ok(_) => {},
        Err(e) => {
            return init_failure("Failed to create assets table: ", e);
        },
    }
    match execute_texts(&conn, CREATE_SETTINGS, &none) {
        Ok(_) => {},
        Err(e) => {
            return init_failure("Failed to create settings table: ", e);
        },
    }
    Ok(Database { conn })
}

/// Opens, or creates, the database file at `path` and ensures both tables
/// exist. The directory that holds it must already exist.
pub fn init_database(path: &str) -> (r: Result<Database, StoreError>)
    ensures
        r is Err ==> init_error(r, "Failed to open database: "@) || init_error(
            r,
            "Failed to create assets table: "@,
        ) || init_error(r, "Failed to create settings table: "@),
{
    match open_file(path) {
        Ok(conn) => with_schema(conn),
        Err(e) => init_failure("Failed to open database: ", e),
    }
}

impl Database {
    /// A database held in memory only, with both tables created.
    pub fn open_in_memory() -> (r: Result<Database, StoreError>)
        ensures
            r is Err ==> init_error(r, "Failed to open database: "@) || init_error(
                r,
                "Failed to create assets table: "@,
            ) || init_error(r, "Failed to create settings table: "@),
    {
        match open_memory() {
            Ok(conn) => with_schema(conn),
            Err(e) => init_failure("Failed to open database: ", e),
        }
    }
}

/// Lists the assets that match every filter present, most recently updated
/// first, at most `limit` of them; JSON columns that do not parse come back
/// absent.
pub fn db_get_assets(db: &Database, filters: &AssetFilters) -> (r: Result<Vec<Asset>, StoreError>)
    ensures
        exists|o: Result<Vec<Asset>, StatementFailure>| #[trigger] listing_reports(o, r),
        r is Ok ==> listing_holds(*filters, r->Ok_0@),
{
    let q = build_list_query(filters);
    let o = step_err(query_listing(&db.conn, filters, &q));
    let r = listing_result(o);
    assert(listing_reports(o, r));
    proof {
        if r is Ok {
            let rows = o->Ok_0@;
            let v = r->Ok_0@;
            assert(forall|i: int| 0 <= i < v.len() ==> #[trigger] v[i] == listed_row(rows[i]));
        }
    }
    r
}

/// Saves an asset by id, replacing every field of an existing row with that
/// id. A missing id is replaced by a fresh random one, a missing `created_at`
/// by the current time; `updated_at` is always the current time. Returns the
/// id that was written.
pub fn db_save_asset(db: &Database, input: &AssetInput) -> (r: Result<String, StoreError>)
    ensures
        !is_complete(*input) ==> (r matches Err(StoreError::Validation(m)) && m@ == missing_text(
            *input,
        )),
        is_complete(*input) ==> exists|fresh: String, now: String, o: Result<usize, String>|
            #[trigger] save_reports(crate::record::row_from(*input, fresh, now).id, o, r),
        is_complete(*input) && input.id is Some ==> (r is Ok ==> r == Ok::<String, StoreError>(
            input.id.unwrap(),
        )),
        is_complete(*input) && input.id is None ==> (r is Ok ==> r->Ok_0@.len() == 36),
{
    let fresh = fresh_id();
    let now = now_rfc3339();
    let row = match prepare_asset_row(input, fresh, now) {
        Ok(row) => row,
        Err(e) => {
            return Err(e);
        },
    };
    let o = text_err(execute_row(&db.conn, UPSERT_ASSET, &row));
    let r = save_result(row.id.clone(), o);
    assert(save_reports(crate::record::row_from(*input, fresh, now).id, o, r));
    r
}

/// Deletes the asset with id `asset_id`; reports `NotFound` when there is none.
pub fn db_delete_asset(db: &Database, asset_id: &str) -> (r: Result<String, StoreError>)
    ensures
        exists|o: Result<usize, String>| #[trigger] delete_reports(o, r),
{
    let params = delete_params(asset_id);
    let o = text_err(execute_texts(&db.conn, DELETE_ASSET, &params));
    let r = delete_result(o);
    assert(delete_reports(o, r));
    r
}

/// The value stored under `key`, or `None` for a key never set.
pub fn db_get_setting(db: &Database, key: &str) -> (r: Result<Option<String>, StoreError>)
    ensures
        exists|o: Result<Option<String>, StatementFailure>| #[trigger] setting_reports(o, r),
{
    let o = step_err(query_text(&db.conn, SELECT_SETTING, key));
    let r = setting_result(o);
    assert(setting_reports(o, r));
    r
}

/// Stores `value` under `key`, replacing any earlier value, stamped with the
/// current time.
pub fn db_save_setting(db: &Database, key: &str, value: &str) -> (r: Result<String, StoreError>)
    ensures
        exists|o: Result<usize, String>| #[trigger] setting_saved_reports(o, r),
{
    let params = setting_params(key, value, now_rfc3339());
    let o = text_err(execute_texts(&db.conn, UPSERT_SETTING, &params));
    let r = setting_saved_result(o);
    assert(setting_saved_reports(o, r));
    r
}

} // verus!
