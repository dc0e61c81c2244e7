//! Properties of the store's own logic, proved over the contracts of the
//! functions they relate. What a listing returns (type, order, limit) is
//! stated in the contract of `db_get_assets`.
use vstd::prelude::*;
use crate::error::StoreError;
use crate::query::{decimal, like_pattern, limit_text, list_params, where_text, AssetFilters};
use crate::record::{is_complete, row_from, AssetInput};
use crate::store::{delete_reports, json_ok, listed_row};

verus! {

/// A save that supplies no `created_at` stamps the row's creation and update
/// times with the same instant, and a save that supplies no id writes the
/// fresh one.
pub proof fn lemma_fresh_save_stamps(input: AssetInput, fresh: String, now: String)
    requires
        is_complete(input),
        input.created_at is None,
    ensures
        row_from(input, fresh, now).created_at == row_from(input, fresh, now).updated_at,
        input.id is None ==> row_from(input, fresh, now).id == fresh,
{
}

/// The row that a save writes is made of the new input alone: each optional
/// field is the input's, and absent exactly where the input's is absent, so
/// nothing is carried over from a row with the same id.
pub proof fn lemma_save_replaces_whole_row(input: AssetInput, fresh: String, now: String)
    requires
        is_complete(input),
    ensures
        row_from(input, fresh, now).config == input.config,
        row_from(input, fresh, now).metadata == input.metadata,
        row_from(input, fresh, now).file_path == input.file_path,
        row_from(input, fresh, now).file_size == input.file_size,
        row_from(input, fresh, now).quality_score is None <==> input.quality_score is None,
        input.created_at is Some ==> row_from(input, fresh, now).created_at
            == input.created_at.unwrap(),
{
}

/// A delete whose statement removed no row reports `NotFound`; one that
/// removed a row succeeds.
pub proof fn lemma_delete_reports_missing(n: usize, r: Result<String, StoreError>)
    requires
        delete_reports(Ok::<usize, String>(n), r),
    ensures
        n == 0 <==> r matches Err(StoreError::NotFound),
        n > 0 <==> r is Ok,
{
}

/// A type filter alone binds the type, as is, to a single equality predicate.
pub proof fn lemma_type_filter_query(f: AssetFilters)
    requires
        f.asset_type is Some,
        f.search is None,
    ensures
        where_text(f) == " WHERE asset_type = ?"@,
        list_params(f) == seq![f.asset_type.unwrap()@],
{
    assert(list_params(f) =~= seq![f.asset_type.unwrap()@]);
}

/// A search alone binds `%search%` to a single `LIKE` predicate on the name.
pub proof fn lemma_search_filter_query(f: AssetFilters)
    requires
        f.asset_type is None,
        f.search is Some,
    ensures
        where_text(f) == " WHERE name LIKE ?"@,
        list_params(f) == seq!["%"@ + f.search.unwrap()@ + "%"@],
{
    assert(list_params(f) =~= seq![like_pattern(f.search.unwrap()@)]);
}

/// Both filters compose with AND, type first, each bound to its own placeholder.
pub proof fn lemma_filters_compose(f: AssetFilters)
    requires
        f.asset_type is Some,
        f.search is Some,
    ensures
        where_text(f) == " WHERE asset_type = ? AND name LIKE ?"@,
        list_params(f) == seq![f.asset_type.unwrap()@, like_pattern(f.search.unwrap()@)],
{
    assert(list_params(f) =~= seq![f.asset_type.unwrap()@, like_pattern(f.search.unwrap()@)]);
}

/// A limit is written as its decimal digits in a trailing `LIMIT` clause, and
/// no clause is written without one.
pub proof fn lemma_limit_clause(f: AssetFilters)
    ensures
        f.limit is Some ==> limit_text(f) == " LIMIT "@ + decimal(f.limit.unwrap() as nat),
        f.limit is None ==> limit_text(f).len() == 0,
{
}

/// Round trip through the row codec: the config and metadata that a save
/// writes come back unchanged from a listing whenever they are valid JSON.
pub proof fn lemma_json_round_trip(input: AssetInput, fresh: String, now: String)
    requires
        is_complete(input),
        json_ok(input.config),
        json_ok(input.metadata),
    ensures
        listed_row(row_from(input, fresh, now)) == row_from(input, fresh, now),
        listed_row(row_from(input, fresh, now)).config == input.config,
        listed_row(row_from(input, fresh, now)).metadata == input.metadata,
{
}

} // verus!
