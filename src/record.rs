use vstd::prelude::*;
use crate::error::StoreError;

verus! {

/// One row of the `assets` table. `config` and `metadata` hold JSON text.
#[derive(Debug, Clone, PartialEq, Eq)]
pub struct Asset {
    pub id: String,
    pub asset_type: String,
    pub name: String,
    pub config: Option<String>,
    pub metadata: Option<String>,
    pub file_path: Option<String>,
    pub file_size: Option<u64>,
    pub quality_score: Option<u32>,
    pub created_at: String,
    pub updated_at: String,
}

/// What a caller submits to be saved. `config` and `metadata` are JSON text;
/// every field may be absent, though a save needs `asset_type` and `name`.
#[derive(Debug, Clone, PartialEq, Eq)]
pub struct AssetInput {
    pub id: Option<String>,
    pub asset_type: Option<String>,
    pub name: Option<String>,
    pub config: Option<String>,
    pub metadata: Option<String>,
    pub file_path: Option<String>,
    pub file_size: Option<u64>,
    pub quality_score: Option<u64>,
    pub created_at: Option<String>,
}

pub open spec fn or_else(o: Option<String>, d: String) -> String {
    match o {
        Some(v) => v,
        None => d,
    }
}

pub open spec fn low_u32(o: Option<u64>) -> Option<u32> {
    match o {
        Some(v) => Some(v as u32),
        None => None,
    }
}

/// The row that a valid input becomes: the id and `created_at` fall back to
/// the fresh id and to `now`, `updated_at` is `now`, and every other field is
/// exactly the input's, absent where the input's is absent; the quality
/// score keeps its low 32 bits.
pub open spec fn row_from(input: AssetInput, fresh_id: String, now: String) -> Asset {
    Asset {
        id: or_else(input.id, fresh_id),
        asset_type: input.asset_type.unwrap(),
        name: input.name.unwrap(),
        config: input.config,
        metadata: input.metadata,
        file_path: input.file_path,
        file_size: input.file_size,
        quality_score: low_u32(input.quality_score),
        created_at: or_else(input.created_at, now),
        updated_at: now,
    }
}

/// An input that a save accepts.
pub open spec fn is_complete(input: AssetInput) -> bool {
    input.asset_type is Some && input.name is Some
}

/// The validation message for an input that is not complete.
pub open spec fn missing_text(input: AssetInput) -> Seq<char> {
    if input.asset_type is None {
        "Missing asset_type"@
    } else {
        "Missing name"@
    }
}

fn clone_opt(o: &Option<String>) -> (r: Option<String>)
    ensures
        r == *o,
{
    match o {
        Some(s) => Some(s.clone()),
        None => None,
    }
}

/// Builds the full row that a save writes, replacing every field of any row
/// with the same id; fails, before any write, when a required field is absent.
pub fn prepare_asset_row(input: &AssetInput, fresh_id: String, now: String) -> (r: Result<
    Asset,
    StoreError,
>)
    ensures
        is_complete(*input) ==> r == Ok::<Asset, StoreError>(row_from(*input, fresh_id, now)),
        !is_complete(*input) ==> (r matches Err(StoreError::Validation(m)) && m@ == missing_text(
            *input,
        )),
{
    let asset_type = match &input.asset_type {
        Some(t) => t.clone(),
        None => {
            return Err(StoreError::Validation(String::from_str("Missing asset_type")));
        },
    };
    let name = match &input.name {
        Some(n) => n.clone(),
        None => {
            return Err(StoreError::Validation(String::from_str("Missing name")));
        },
    };
    let id = match &input.id {
        Some(i) => i.clone(),
        None => fresh_id,
    };
    let quality_score = match input.quality_score {
        Some(v) => Some(v as u32),
        None => None,
    };
    let created_at = match &input.created_at {
        Some(c) => c.clone(),
        None => now.clone(),
    };
    Ok(
        Asset {
            id,
            asset_type,
            name,
            config: clone_opt(&input.config),
            metadata: clone_opt(&input.metadata),
            file_path: clone_opt(&input.file_path),
            file_size: input.file_size,
            quality_score,
            created_at,
            updated_at: now,
        },
    )
}

/// A JSON column as listed: kept when its text is valid JSON, else absent.
pub open spec fn decoded(text: Option<String>, valid: bool) -> Option<String> {
    if valid { text } else { None }
}

/// A stored row as listed, given whether its config and metadata texts parse.
pub open spec fn listed(raw: Asset, config_ok: bool, metadata_ok: bool) -> Asset {
    Asset {
        config: decoded(raw.config, config_ok),
        metadata: decoded(raw.metadata, metadata_ok),
        ..raw
    }
}

/// The row codec's decoding step: a JSON column whose text did not parse is
/// listed as absent; every other field passes through unchanged.
pub fn decode_asset(raw: &Asset, config_ok: bool, metadata_ok: bool) -> (r: Asset)
    ensures
        r == listed(*raw, config_ok, metadata_ok),
{
    Asset {
        id: raw.id.clone(),
        asset_type: raw.asset_type.clone(),
        name: raw.name.clone(),
        config: if config_ok { clone_opt(&raw.config) } else { None },
        metadata: if metadata_ok { clone_opt(&raw.metadata) } else { None },
        file_path: clone_opt(&raw.file_path),
        file_size: raw.file_size,
        quality_score: raw.quality_score,
        created_at: raw.created_at.clone(),
        updated_at: raw.updated_at.clone(),
    }
}

} // verus!
