use asset_store::error::StoreError;
use asset_store::query::AssetFilters;
use asset_store::record::{Asset, AssetInput};
use asset_store::store::{
    db_delete_asset, db_get_assets, db_get_setting, db_save_asset, db_save_setting, Database,
};
use std::sync::Mutex;

fn open() -> Database {
    Database::open_in_memory().expect("in-memory database")
}

fn input(id: Option<&str>, asset_type: &str, name: &str) -> AssetInput {
    AssetInput {
        id: id.map(|s| s.to_string()),
        asset_type: Some(asset_type.to_string()),
        name: Some(name.to_string()),
        config: None,
        metadata: None,
        file_path: None,
        file_size: None,
        quality_score: None,
        created_at: None,
    }
}

fn no_filters() -> AssetFilters {
    AssetFilters { asset_type: None, search: None, limit: None }
}

fn list(db: &Database, f: AssetFilters) -> Vec<Asset> {
    db_get_assets(db, &f).expect("listing")
}

fn names(v: &[Asset]) -> Vec<String> {
    v.iter().map(|a| a.name.clone()).collect()
}

#[test]
fn fresh_save_is_listed_once() {
    let db = open();
    let id = db_save_asset(&db, &input(None, "terrain", "Hills")).unwrap();
    assert_eq!(id.len(), 36);
    let all = list(&db, no_filters());
    assert_eq!(all.iter().filter(|a| a.id == id).count(), 1);
    let a = all.iter().find(|a| a.id == id).unwrap();
    assert_eq!(a.asset_type, "terrain");
    assert!(a.created_at <= a.updated_at);
    assert_eq!(a.created_at, a.updated_at);
}

#[test]
fn fresh_ids_differ() {
    let db = open();
    let a = db_save_asset(&db, &input(None, "t", "A")).unwrap();
    let b = db_save_asset(&db, &input(None, "t", "B")).unwrap();
    assert_ne!(a, b);
    assert_eq!(list(&db, no_filters()).len(), 2);
}

#[test]
fn upsert_replaces_every_field() {
    let db = open();
    let mut first = input(Some("a1"), "sprite", "Old");
    first.config = Some("{\"x\":1}".to_string());
    first.metadata = Some("{\"v\":\"1\"}".to_string());
    first.file_path = Some("/tmp/a.png".to_string());
    first.file_size = Some(10);
    first.quality_score = Some(7);
    assert_eq!(db_save_asset(&db, &first).unwrap(), "a1");
    let second = input(Some("a1"), "sound", "New");
    assert_eq!(db_save_asset(&db, &second).unwrap(), "a1");
    let all = list(&db, no_filters());
    assert_eq!(all.len(), 1);
    let a = &all[0];
    assert_eq!(a.asset_type, "sound");
    assert_eq!(a.name, "New");
    assert_eq!(a.config, None);
    assert_eq!(a.metadata, None);
    assert_eq!(a.file_path, None);
    assert_eq!(a.file_size, None);
    assert_eq!(a.quality_score, None);
}

#[test]
fn explicit_created_at_is_kept() {
    let db = open();
    let mut i = input(Some("imp"), "t", "Imported");
    i.created_at = Some("2020-01-01T00:00:00+00:00".to_string());
    db_save_asset(&db, &i).unwrap();
    let a = list(&db, no_filters()).remove(0);
    assert_eq!(a.created_at, "2020-01-01T00:00:00+00:00");
    assert_ne!(a.updated_at, a.created_at);
}

#[test]
fn delete_missing_is_not_found() {
    let db = open();
    assert_eq!(db_delete_asset(&db, "nope"), Err(StoreError::NotFound));
    assert_eq!(StoreError::NotFound.message(), "Asset not found");
}

#[test]
fn delete_existing_removes_it() {
    let db = open();
    db_save_asset(&db, &input(Some("d1"), "t", "Gone")).unwrap();
    db_save_asset(&db, &input(Some("d2"), "t", "Kept")).unwrap();
    assert_eq!(db_delete_asset(&db, "d1").unwrap(), "Asset deleted successfully");
    assert_eq!(names(&list(&db, no_filters())), vec!["Kept".to_string()]);
    assert_eq!(db_delete_asset(&db, "d1"), Err(StoreError::NotFound));
}

#[test]
fn missing_required_fields_are_rejected() {
    let db = open();
    let mut no_type = input(None, "t", "N");
    no_type.asset_type = None;
    assert_eq!(
        db_save_asset(&db, &no_type),
        Err(StoreError::Validation("Missing asset_type".to_string()))
    );
    let mut no_name = input(None, "t", "N");
    no_name.name = None;
    assert_eq!(
        db_save_asset(&db, &no_name),
        Err(StoreError::Validation("Missing name".to_string()))
    );
    assert!(list(&db, no_filters()).is_empty());
}

#[test]
fn type_filter_keeps_type_newest_first() {
    let db = open();
    db_save_asset(&db, &input(Some("1"), "T", "first")).unwrap();
    db_save_asset(&db, &input(Some("2"), "U", "other")).unwrap();
    db_save_asset(&db, &input(Some("3"), "T", "second")).unwrap();
    db_save_asset(&db, &input(Some("4"), "T", "third")).unwrap();
    let f = AssetFilters { asset_type: Some("T".to_string()), search: None, limit: None };
    let got = list(&db, f);
    assert!(got.iter().all(|a| a.asset_type == "T"));
    assert_eq!(names(&got), vec!["third", "second", "first"]);
    assert!(got.windows(2).all(|w| w[0].updated_at >= w[1].updated_at));
}

#[test]
fn search_matches_name_substring() {
    let db = open();
    db_save_asset(&db, &input(Some("1"), "t", "Firefly")).unwrap();
    db_save_asset(&db, &input(Some("2"), "t", "campfire")).unwrap();
    db_save_asset(&db, &input(Some("3"), "t", "Water")).unwrap();
    let f = AssetFilters { asset_type: None, search: Some("fire".to_string()), limit: None };
    let mut got = names(&list(&db, f));
    got.sort();
    assert_eq!(got, vec!["Firefly", "campfire"]);
}

#[test]
fn filters_compose_with_and() {
    let db = open();
    db_save_asset(&db, &input(Some("1"), "A", "fire one")).unwrap();
    db_save_asset(&db, &input(Some("2"), "B", "fire two")).unwrap();
    db_save_asset(&db, &input(Some("3"), "A", "ice")).unwrap();
    let f = AssetFilters {
        asset_type: Some("A".to_string()),
        search: Some("fire".to_string()),
        limit: None,
    };
    assert_eq!(names(&list(&db, f)), vec!["fire one"]);
}

#[test]
fn limit_keeps_most_recent() {
    let db = open();
    for (i, n) in ["a", "b", "c", "d", "e"].iter().enumerate() {
        db_save_asset(&db, &input(Some(&i.to_string()), "t", n)).unwrap();
    }
    let f = AssetFilters { asset_type: None, search: None, limit: Some(2) };
    assert_eq!(names(&list(&db, f)), vec!["e", "d"]);
    let zero = AssetFilters { asset_type: None, search: None, limit: Some(0) };
    assert!(list(&db, zero).is_empty());
}

#[test]
fn empty_store_lists_nothing() {
    let db = open();
    assert!(list(&db, no_filters()).is_empty());
}

#[test]
fn settings_get_and_set() {
    let db = open();
    assert_eq!(db_get_setting(&db, "missing-key"), Ok(None));
    assert_eq!(db_save_setting(&db, "k", "v").unwrap(), "Setting saved successfully");
    assert_eq!(db_get_setting(&db, "k"), Ok(Some("v".to_string())));
    db_save_setting(&db, "k", "w").unwrap();
    assert_eq!(db_get_setting(&db, "k"), Ok(Some("w".to_string())));
}

#[test]
fn config_round_trip() {
    let db = open();
    let mut i = input(Some("cfg"), "terrain", "Desert");
    i.config = Some("{\"seed\": 42, \"biome\": \"desert\"}".to_string());
    db_save_asset(&db, &i).unwrap();
    let a = list(&db, no_filters()).remove(0);
    let back: serde_json::Value = serde_json::from_str(a.config.as_deref().unwrap()).unwrap();
    let expected: serde_json::Value =
        serde_json::from_str("{\"biome\": \"desert\", \"seed\": 42}").unwrap();
    assert_eq!(back, expected);
}

#[test]
fn unreadable_json_is_listed_absent() {
    let db = open();
    let mut i = input(Some("bad"), "t", "Broken");
    i.config = Some("{not json".to_string());
    i.metadata = Some(String::new());
    i.file_size = Some(2048);
    i.quality_score = Some(5_000_000_000);
    db_save_asset(&db, &i).unwrap();
    let a = list(&db, no_filters()).remove(0);
    assert_eq!(a.config, None);
    assert_eq!(a.metadata, None);
    assert_eq!(a.file_size, Some(2048));
    assert_eq!(a.quality_score, Some(705_032_704));
}

#[test]
fn saves_from_two_callers_both_land() {
    let shared = Mutex::new(open());
    let first = {
        let db = shared.lock().unwrap();
        db_save_asset(&db, &input(Some("x"), "t", "X")).unwrap()
    };
    let second = {
        let db = shared.lock().unwrap();
        db_save_asset(&db, &input(Some("y"), "t", "Y")).unwrap()
    };
    let db = shared.lock().unwrap();
    let mut ids: Vec<String> = list(&db, no_filters()).into_iter().map(|a| a.id).collect();
    ids.sort();
    assert_eq!(ids, vec![first, second]);
}

#[test]
fn init_creates_file_and_schema() {
    let path = "/tmp/asset_store_init_test.db";
    let db = asset_store::store::init_database(path).expect("database file");
    db_save_setting(&db, "theme", "dark").unwrap();
    drop(db);
    let again = asset_store::store::init_database(path).expect("reopened");
    assert_eq!(db_get_setting(&again, "theme"), Ok(Some("dark".to_string())));
}

#[test]
fn init_in_missing_directory_fails() {
    let r = asset_store::store::init_database("/nonexistent_dir_for_store/sub/x.db");
    match r {
        Err(StoreError::StorageInit(m)) => assert!(m.starts_with("Failed to open database: ")),
        _ => panic!("expected a storage initialisation error"),
    }
}
