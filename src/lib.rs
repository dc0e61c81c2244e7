//! Persistence core of a desktop asset generator: an embedded SQLite store of
//! generated assets and settings, with a parameterised filter-query builder,
//! upsert-by-id saves and a lossy row codec for JSON-valued columns.

pub mod error;
pub mod query;
pub mod record;
pub mod sql;
pub mod ambient;
pub mod store;
pub mod laws;
