use vstd::prelude::*;

verus! {

/// The failures that the store reports to its callers.
#[derive(Debug, Clone, PartialEq, Eq)]
pub enum StoreError {
    /// The data directory or the database file could not be set up.
    StorageInit(String),
    /// The shared connection's lock could not be taken.
    Lock(String),
    /// A statement could not be prepared or executed.
    Query(String),
    /// A required asset field is missing; nothing was written.
    Validation(String),
    /// A delete matched no row.
    NotFound,
}

/// The text that callers at the command boundary receive for `e`.
pub open spec fn error_text(e: StoreError) -> Seq<char> {
    match e {
        StoreError::StorageInit(m) => m@,
        StoreError::Lock(m) => m@,
        StoreError::Query(m) => m@,
        StoreError::Validation(m) => m@,
        StoreError::NotFound => "Asset not found"@,
    }
}

impl StoreError {
    /// The descriptive message handed across the command boundary.
    pub fn message(&self) -> (r: String)
        ensures
            r@ == error_text(*self),
    {
        match self {
            StoreError::StorageInit(m) => m.clone(),
            StoreError::Lock(m) => m.clone(),
            StoreError::Query(m) => m.clone(),
            StoreError::Validation(m) => m.clone(),
            StoreError::NotFound => String::from_str("Asset not found"),
        }
    }
}

/// `prefix` followed by `detail`.
pub fn with_context(prefix: &str, detail: String) -> (r: String)
    ensures
        r@ == prefix@ + detail@,
{
    String::from_str(prefix).concat(detail.as_str())
}

} // verus!
