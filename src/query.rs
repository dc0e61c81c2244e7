use vstd::prelude::*;

verus! {

/// The options of an asset listing; each is optional and they combine with AND.
#[derive(Debug, Clone, PartialEq, Eq)]
pub struct AssetFilters {
    /// Exact match on `asset_type`.
    pub asset_type: Option<String>,
    /// Substring match on `name`, through SQL `LIKE '%search%'`.
    pub search: Option<String>,
    /// Hard cap on the number of rows returned.
    pub limit: Option<u32>,
}

/// A listing statement and the values bound to its `?` placeholders, in order.
#[derive(Debug, Clone, PartialEq, Eq)]
pub struct ListQuery {
    pub sql: String,
    pub params: Vec<String>,
}

/// The statement head that selects every column of an asset row.
pub open spec fn select_text() -> Seq<char> {
    "SELECT id, asset_type, name, config, metadata, file_path, file_size, quality_score, created_at, updated_at FROM assets"@
}

pub open spec fn digit_char(d: nat) -> char {
    if d == 0 { '0' }
    else if d == 1 { '1' }
    else if d == 2 { '2' }
    else if d == 3 { '3' }
    else if d == 4 { '4' }
    else if d == 5 { '5' }
    else if d == 6 { '6' }
    else if d == 7 { '7' }
    else if d == 8 { '8' }
    else { '9' }
}

/// The decimal notation of `n`, without sign or leading zeros.
pub open spec fn decimal(n: nat) -> Seq<char>
    decreases n,
{
    if n < 10 {
        seq![digit_char(n)]
    } else {
        decimal(n / 10) + seq![digit_char(n % 10)]
    }
}

/// The `LIKE` pattern that matches names containing `s`.
pub open spec fn like_pattern(s: Seq<char>) -> Seq<char> {
    "%"@ + s + "%"@
}

/// The WHERE clause for the filters present, one placeholder per predicate.
pub open spec fn where_text(f: AssetFilters) -> Seq<char> {
    match (f.asset_type, f.search) {
        (Some(_), Some(_)) => " WHERE asset_type = ? AND name LIKE ?"@,
        (Some(_), None) => " WHERE asset_type = ?"@,
        (None, Some(_)) => " WHERE name LIKE ?"@,
        (None, None) => Seq::empty(),
    }
}

pub open spec fn limit_text(f: AssetFilters) -> Seq<char> {
    match f.limit {
        Some(n) => " LIMIT "@ + decimal(n as nat),
        None => Seq::empty(),
    }
}

/// The full listing statement: filtered, newest update first, optionally capped.
pub open spec fn list_sql(f: AssetFilters) -> Seq<char> {
    select_text() + where_text(f) + " ORDER BY updated_at DESC"@ + limit_text(f)
}

/// The values bound to the statement's placeholders, in placeholder order.
pub open spec fn list_params(f: AssetFilters) -> Seq<Seq<char>> {
    let t: Seq<Seq<char>> = match f.asset_type {
        Some(t) => seq![t@],
        None => Seq::empty(),
    };
    let s: Seq<Seq<char>> = match f.search {
        Some(s) => seq![like_pattern(s@)],
        None => Seq::empty(),
    };
    t + s
}

pub open spec fn texts(v: Seq<String>) -> Seq<Seq<char>> {
    v.map_values(|p: String| p@)
}

/// Code-point order on texts: `a` sorts before `b` or equals it.
pub open spec fn text_le(a: Seq<char>, b: Seq<char>) -> bool
    decreases a.len(),
{
    if a.len() == 0 {
        true
    } else if b.len() == 0 {
        false
    } else if a[0] != b[0] {
        (a[0] as u32) < (b[0] as u32)
    } else {
        text_le(a.drop_first(), b.drop_first())
    }
}

/// What every result of the listing statement for `f` satisfies: each row has
/// the requested type, rows come newest update first, and there are no more
/// of them than the limit.
pub open spec fn listing_holds(f: AssetFilters, rows: Seq<crate::record::Asset>) -> bool {
    &&& (f.asset_type is Some ==> forall|i: int|
        0 <= i < rows.len() ==> (#[trigger] rows[i]).asset_type@ == f.asset_type.unwrap()@)
    &&& forall|i: int|
        0 < i < rows.len() ==> text_le((#[trigger] rows[i]).updated_at@, rows[i - 1].updated_at@)
    &&& (f.limit is Some ==> rows.len() <= f.limit.unwrap())
}

fn digit_str(d: u32) -> (r: &'static str)
    requires
        d < 10,
    ensures
        r@ == seq![digit_char(d as nat)],
{
    proof {
        reveal_strlit("0");
        reveal_strlit("1");
        reveal_strlit("2");
        reveal_strlit("3");
        reveal_strlit("4");
        reveal_strlit("5");
        reveal_strlit("6");
        reveal_strlit("7");
        reveal_strlit("8");
        reveal_strlit("9");
    }
    if d == 0 { "0" }
    else if d == 1 { "1" }
    else if d == 2 { "2" }
    else if d == 3 { "3" }
    else if d == 4 { "4" }
    else if d == 5 { "5" }
    else if d == 6 { "6" }
    else if d == 7 { "7" }
    else if d == 8 { "8" }
    else { "9" }
}

/// The decimal text of `n`.
pub fn decimal_text(n: u32) -> (r: String)
    ensures
        r@ == decimal(n as nat),
    decreases n,
{
    if n < 10 {
        String::from_str(digit_str(n))
    } else {
        let mut s = decimal_text(n / 10);
        s.append(digit_str(n % 10));
        s
    }
}

/// The `LIKE` pattern for a name search.
pub fn search_pattern(s: &str) -> (r: String)
    ensures
        r@ == like_pattern(s@),
{
    String::from_str("%").concat(s).concat("%")
}

/// Composes the listing statement from the filters present. Filter values are
/// only ever bound as parameters; the limit, a `u32`, is the one value written
/// into the text.
pub fn build_list_query(filters: &AssetFilters) -> (q: ListQuery)
    ensures
        q.sql@ == list_sql(*filters),
        texts(q.params@) == list_params(*filters),
{
    let mut sql = String::from_str(
        "SELECT id, asset_type, name, config, metadata, file_path, file_size, quality_score, created_at, updated_at FROM assets",
    );
    let mut params: Vec<String> = Vec::new();
    match (&filters.asset_type, &filters.search) {
        (Some(t), Some(s)) => {
            sql.append(" WHERE asset_type = ? AND name LIKE ?");
            params.push(t.clone());
            params.push(search_pattern(s.as_str()));
        },
        (Some(t), None) => {
            sql.append(" WHERE asset_type = ?");
            params.push(t.clone());
        },
        (None, Some(s)) => {
            sql.append(" WHERE name LIKE ?");
            params.push(search_pattern(s.as_str()));
        },
        (None, None) => {},
    }
    sql.append(" ORDER BY updated_at DESC");
    match filters.limit {
        Some(n) => {
            sql.append(" LIMIT ");
            let digits = decimal_text(n);
            sql.append(digits.as_str());
        },
        None => {},
    }
    assert(texts(params@) =~= list_params(*filters));
    assert(sql@ =~= list_sql(*filters));
    ListQuery { sql, params }
}

} // verus!
