use mcl_rs::assets::{empty_hash, get_asset_url, AssetIndex, AssetMetadata};

fn meta(hash: &str, size: u64) -> AssetMetadata {
    AssetMetadata { hash: hash.to_string(), size }
}

#[test]
fn hashed_id_is_sharded() {
    assert_eq!(meta("abc123def", 1).hashed_id(), "ab/abc123def");
}

#[test]
fn asset_url_uses_the_registry() {
    assert_eq!(
        get_asset_url(&meta("bdf48ef6b5d0d23bbb02e17d04865216179f510a", 3)),
        "http://resources.download.minecraft.net/bd/bdf48ef6b5d0d23bbb02e17d04865216179f510a"
    );
}

#[test]
fn empty_hash_placeholder() {
    assert_eq!(empty_hash(), "00null");
}

#[test]
fn asset_paths_modern_and_legacy() {
    let objects = vec![
        ("sound/x.ogg".to_string(), meta("abc123", 10)),
        ("lang/en.json".to_string(), meta("ff0011", 20)),
    ];
    let modern = AssetIndex { map_to_resources: None, objects };
    assert!(!modern.is_legacy());
    assert_eq!(modern.iter_paths(), vec!["ab/abc123".to_string(), "ff/ff0011".to_string()]);

    let legacy = AssetIndex {
        map_to_resources: Some(true),
        objects: vec![("sound/x.ogg".to_string(), meta("abc123", 10))],
    };
    assert!(legacy.is_legacy());
    assert_eq!(legacy.iter_paths(), vec!["sound/x.ogg".to_string()]);
    assert_eq!(
        AssetIndex::relative_path(&"sound/x.ogg".to_string(), &meta("abc123", 10), true),
        "virtual/legacy/sound/x.ogg"
    );
    assert_eq!(
        AssetIndex::relative_path(&"sound/x.ogg".to_string(), &meta("abc123", 10), false),
        "objects/ab/abc123"
    );
    let short_legacy = AssetIndex {
        map_to_resources: Some(true),
        objects: vec![("icons/a.png".to_string(), meta("", 1))],
    };
    assert_eq!(short_legacy.iter_paths(), vec!["icons/a.png".to_string()]);
}

#[test]
fn short_hashes_are_detected() {
    let ok = AssetIndex { map_to_resources: Some(false), objects: vec![("a".to_string(), meta("ab", 1))] };
    assert!(ok.has_valid_hashes());
    let bad = AssetIndex { map_to_resources: None, objects: vec![("a".to_string(), meta("a", 1))] };
    assert!(!bad.has_valid_hashes());
}

#[test]
fn duplicate_names_are_detected() {
    let dup = AssetIndex {
        map_to_resources: None,
        objects: vec![("a".to_string(), meta("ab", 1)), ("b".to_string(), meta("cd", 1)), ("a".to_string(), meta("ef", 1))],
    };
    assert!(!dup.has_unique_names());
    assert!(dup.has_valid_hashes());
    assert!(!dup.is_well_formed());
    let fine = AssetIndex { map_to_resources: None, objects: vec![("a".to_string(), meta("ab", 1)), ("b".to_string(), meta("cd", 1))] };
    assert!(fine.has_unique_names());
    assert!(fine.is_well_formed());
}
